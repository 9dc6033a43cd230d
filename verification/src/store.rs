//! The state of the point of sale.
use vstd::prelude::*;
use crate::cart::{cart_ok, product_ok};
use crate::money::amount_ok;
use crate::table::{Table, keys_unique};
use crate::text::lit;
use crate::types::{
    BuyerIdentity, BuyerIdentityView, Cart, CartView, FiscalConfig, FiscalConfigView, FiscalReceipt,
    FiscalReceiptView, LoyaltyAccount, LoyaltyAccountView, Payment, PaymentView, Product, ProductView, RoleLimit,
    RoleLimitView, Shift, ShiftView, SuspendedCart, SuspendedCartView, TaxRegime,
};

verus! {

/// Everything the point of sale keeps.
pub struct Store {
    pub products: Table<Product>,
    pub carts: Table<Cart>,
    pub payments: Vec<Payment>,
    pub shifts: Table<Shift>,
    pub loyalty: Table<LoyaltyAccount>,
    pub suspended: Table<SuspendedCart>,
    /// The buyer each cart is identified to, by cart id.
    pub buyers: Table<BuyerIdentity>,
    pub fiscal: FiscalConfig,
    pub fiscal_receipts: Vec<FiscalReceipt>,
    pub roles: Vec<RoleLimit>,
}

pub struct StoreView {
    pub products: Seq<(Seq<char>, ProductView)>,
    pub carts: Seq<(Seq<char>, CartView)>,
    pub payments: Seq<PaymentView>,
    pub shifts: Seq<(Seq<char>, ShiftView)>,
    pub loyalty: Seq<(Seq<char>, LoyaltyAccountView)>,
    pub suspended: Seq<(Seq<char>, SuspendedCartView)>,
    pub buyers: Seq<(Seq<char>, BuyerIdentityView)>,
    pub fiscal: FiscalConfigView,
    pub fiscal_receipts: Seq<FiscalReceiptView>,
    pub roles: Seq<RoleLimitView>,
}

impl View for Store {
    type V = StoreView;

    open spec fn view(&self) -> StoreView {
        StoreView {
            products: self.products.entries(),
            carts: self.carts.entries(),
            payments: self.payments@.map_values(|p: Payment| p@),
            shifts: self.shifts.entries(),
            loyalty: self.loyalty.entries(),
            suspended: self.suspended.entries(),
            buyers: self.buyers.entries(),
            fiscal: self.fiscal@,
            fiscal_receipts: self.fiscal_receipts@.map_values(|r: FiscalReceipt| r@),
            roles: self.roles@.map_values(|r: RoleLimit| r@),
        }
    }
}

pub open spec fn shift_ok(s: ShiftView) -> bool {
    &&& amount_ok(s.opening_float as int)
    &&& amount_ok(s.cash_sales as int)
    &&& amount_ok(s.card_sales as int)
    &&& amount_ok(s.mobile_sales as int)
    &&& amount_ok(s.refunds as int)
}

/// The signed receipts form a hash chain: each names the hash of the one
/// before it (the first names "GENESIS"), their numbers run on by one, and
/// the next number to give is one past the last.
pub open spec fn chain_ok(rs: Seq<FiscalReceiptView>, next: u64) -> bool {
    &&& forall|i: int| 0 < i < rs.len() ==> #[trigger] rs[i].previous_hash == rs[i - 1].hash
    &&& forall|i: int| 0 < i < rs.len() ==> #[trigger] rs[i].receipt_number == rs[i - 1].receipt_number + 1
    &&& rs.len() > 0 ==> rs[0].previous_hash == "GENESIS"@
    &&& rs.len() > 0 ==> next == rs.last().receipt_number + 1
}

/// The invariant of the state.
pub open spec fn store_ok(s: StoreView) -> bool {
    &&& keys_unique(s.products)
    &&& keys_unique(s.carts)
    &&& keys_unique(s.shifts)
    &&& keys_unique(s.loyalty)
    &&& keys_unique(s.suspended)
    &&& keys_unique(s.buyers)
    &&& forall|i: int| 0 <= i < s.products.len() ==> #[trigger] product_ok(s.products[i].1)
    &&& forall|i: int| 0 <= i < s.carts.len() ==> #[trigger] cart_ok(s.carts[i].1)
    &&& forall|i: int| 0 <= i < s.suspended.len() ==> #[trigger] cart_ok(s.suspended[i].1.cart)
    &&& forall|i: int| 0 <= i < s.shifts.len() ==> #[trigger] shift_ok(s.shifts[i].1)
    &&& forall|i: int| 0 <= i < s.payments.len() ==> #[trigger] amount_ok(s.payments[i].amount as int)
    &&& chain_ok(s.fiscal_receipts, s.fiscal.next_receipt_number)
}

impl Store {
    pub open spec fn wf(&self) -> bool {
        store_ok(self@)
    }

    /// The state of a new store.
    pub open spec fn new_view() -> StoreView {
        StoreView {
            products: seq![],
            carts: seq![],
            payments: seq![],
            shifts: seq![],
            loyalty: seq![],
            suspended: seq![],
            buyers: seq![],
            fiscal: FiscalConfigView {
                country: "KE"@,
                tax_regime: TaxRegime::Vat,
                device_id: None,
                business_name: "My Store"@,
                business_pin: None,
                currency: "KES"@,
                smallest_denomination: 100,
                receipt_prefix: "RCP"@,
                next_receipt_number: 1,
            },
            fiscal_receipts: seq![],
            roles: seq![
                RoleLimitView { role: "cashier"@, max_discount_pct: 5000, can_void: false, can_refund: false, can_price_override: false, max_refund_amount: None },
                RoleLimitView { role: "supervisor"@, max_discount_pct: 20000, can_void: true, can_refund: true, can_price_override: true, max_refund_amount: Some(5_000_000i64) },
                RoleLimitView { role: "manager"@, max_discount_pct: 100000, can_void: true, can_refund: true, can_price_override: true, max_refund_amount: None },
            ],
        }
    }

    /// An empty store with the default fiscal settings (Kenya, VAT,
    /// "My Store", KES, receipts "RCP" from 1) and three roles: cashier
    /// (5% discount, nothing else), supervisor (20%, may void, refund and
    /// override prices, refunds up to 50000) and manager (100%, all).
    pub fn new() -> (s: Store)
        ensures
            s.wf(),
            s@ == Store::new_view(),
            s@.products.len() == 0,
            s@.carts.len() == 0,
            s@.payments.len() == 0,
            s@.shifts.len() == 0,
            s@.loyalty.len() == 0,
            s@.suspended.len() == 0,
            s@.fiscal_receipts.len() == 0,
            s@.fiscal == (FiscalConfigView {
                country: "KE"@,
                tax_regime: TaxRegime::Vat,
                device_id: None,
                business_name: "My Store"@,
                business_pin: None,
                currency: "KES"@,
                smallest_denomination: 100,
                receipt_prefix: "RCP"@,
                next_receipt_number: 1,
            }),
            s@.roles == seq![
                RoleLimitView { role: "cashier"@, max_discount_pct: 5000, can_void: false, can_refund: false, can_price_override: false, max_refund_amount: None },
                RoleLimitView { role: "supervisor"@, max_discount_pct: 20000, can_void: true, can_refund: true, can_price_override: true, max_refund_amount: Some(5_000_000i64) },
                RoleLimitView { role: "manager"@, max_discount_pct: 100000, can_void: true, can_refund: true, can_price_override: true, max_refund_amount: None },
            ],
    {
        let mut roles: Vec<RoleLimit> = Vec::new();
        roles.push(RoleLimit { role: lit("cashier"), max_discount_pct: 5000, can_void: false, can_refund: false, can_price_override: false, max_refund_amount: None });
        roles.push(RoleLimit { role: lit("supervisor"), max_discount_pct: 20000, can_void: true, can_refund: true, can_price_override: true, max_refund_amount: Some(5_000_000) });
        roles.push(RoleLimit { role: lit("manager"), max_discount_pct: 100000, can_void: true, can_refund: true, can_price_override: true, max_refund_amount: None });
        let s = Store {
            products: Table::new(),
            carts: Table::new(),
            payments: Vec::new(),
            shifts: Table::new(),
            loyalty: Table::new(),
            suspended: Table::new(),
            buyers: Table::new(),
            fiscal: FiscalConfig {
                country: lit("KE"),
                tax_regime: TaxRegime::Vat,
                device_id: None,
                business_name: lit("My Store"),
                business_pin: None,
                currency: lit("KES"),
                smallest_denomination: 100,
                receipt_prefix: lit("RCP"),
                next_receipt_number: 1,
            },
            fiscal_receipts: Vec::new(),
            roles,
        };
        assert(s@.payments =~= Seq::<PaymentView>::empty());
        assert(s@.products =~= Seq::<(Seq<char>, ProductView)>::empty());
        assert(s@.fiscal_receipts =~= Seq::<FiscalReceiptView>::empty());
        assert(s@.roles =~= seq![
                RoleLimitView { role: "cashier"@, max_discount_pct: 5000, can_void: false, can_refund: false, can_price_override: false, max_refund_amount: None },
                RoleLimitView { role: "supervisor"@, max_discount_pct: 20000, can_void: true, can_refund: true, can_price_override: true, max_refund_amount: Some(5_000_000i64) },
                RoleLimitView { role: "manager"@, max_discount_pct: 100000, can_void: true, can_refund: true, can_price_override: true, max_refund_amount: None },
            ]);
        s
    }
}

/// Position of the first product whose barcode or SKU reads `code`, or -1.
pub open spec fn first_code(ps: Seq<(Seq<char>, ProductView)>, code: Seq<char>) -> int {
    if exists|i: int| 0 <= i < ps.len() && #[trigger] code_matches(ps[i].1, code) {
        choose|i: int|
            0 <= i < ps.len() && #[trigger] code_matches(ps[i].1, code) && forall|j: int|
                0 <= j < i ==> !#[trigger] code_matches(ps[j].1, code)
    } else {
        -1
    }
}

pub open spec fn code_matches(p: ProductView, code: Seq<char>) -> bool {
    p.barcode == code || p.sku == code
}

impl Store {
    /// The position of the first product in the catalog whose barcode or
    /// SKU reads `code`.
    pub fn find_code(&self, code: &String) -> (r: Option<usize>)
        ensures
            r matches Some(i) ==> i as int == first_code(self@.products, code@) && i < self@.products.len(),
            r is None ==> first_code(self@.products, code@) == -1,
    {
        let ghost ps = self@.products;
        let n = self.products.len();
        for i in 0..n
            invariant
                n == ps.len(),
                ps == self@.products,
                forall|j: int| 0 <= j < i ==> !#[trigger] code_matches(ps[j].1, code@),
        {
            let p = self.products.value_at(i);
            if p.barcode == *code || p.sku == *code {
                proof {
                    assert(code_matches(ps[i as int].1, code@));
                    let c = first_code(ps, code@);
                    assert(0 <= c < ps.len() && code_matches(ps[c].1, code@));
                    if c < i {
                        assert(!code_matches(ps[c].1, code@));
                    } else if c > i {
                        assert(!code_matches(ps[i as int].1, code@));
                    }
                }
                return Some(i);
            }
        }
        proof {
            if exists|i: int| 0 <= i < ps.len() && #[trigger] code_matches(ps[i].1, code@) {
                let i = choose|i: int| 0 <= i < ps.len() && #[trigger] code_matches(ps[i].1, code@);
                assert(!code_matches(ps[i].1, code@));
            }
        }
        None
    }

    /// The first product whose barcode or SKU reads `barcode`.
    pub fn lookup_barcode(&self, barcode: &String) -> (r: Option<Product>)
        ensures
            match r {
                Some(p) => first_code(self@.products, barcode@) >= 0 && p@ == self@.products[first_code(
                    self@.products,
                    barcode@,
                )].1,
                None => first_code(self@.products, barcode@) == -1,
            },
    {
        match self.find_code(barcode) {
            Some(i) => Some(self.products.value_at(i).duplicate()),
            None => None,
        }
    }
}

} // verus!
