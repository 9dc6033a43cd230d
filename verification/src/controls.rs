//! Role-gated controls, parked carts, roles and fiscal settings.
use vstd::prelude::*;
use crate::cart::{cart_ok, find_sku, first_sku, override_price, override_spec};
use crate::clock::now;
use crate::server::{PosError, PosServer, with_cart};
use crate::store::StoreView;
use crate::table::{drop_key, lemma_drop, lemma_lookup, lemma_put, lookup, put};
use crate::text::eq_lit;
use crate::types::{
    CartStatus, CartView, FiscalConfig, FiscalConfigView, RoleLimit, RoleLimitView, SuspendedCart,
    SuspendedCartView, TaxRegime, copy_opt, opt_view,
};

verus! {

/// Position of the first role named `name`, or -1.
pub open spec fn first_role(roles: Seq<RoleLimitView>, name: Seq<char>) -> int {
    if exists|i: int| 0 <= i < roles.len() && #[trigger] roles[i].role == name {
        choose|i: int|
            0 <= i < roles.len() && #[trigger] roles[i].role == name && forall|j: int|
                0 <= j < i ==> #[trigger] roles[j].role != name
    } else {
        -1
    }
}

impl PosServer {
    /// The position of the first role named `name`.
    pub fn find_role(&self, name: &String) -> (r: Option<usize>)
        ensures
            r matches Some(k) ==> k as int == first_role(self@.roles, name@) && k < self@.roles.len(),
            r is None ==> first_role(self@.roles, name@) == -1,
    {
        let ghost rs = self@.roles;
        let n = self.store.roles.len();
        for i in 0..n
            invariant
                n == rs.len(),
                rs == self@.roles,
                forall|j: int| 0 <= j < i ==> #[trigger] rs[j].role != name@,
        {
            if self.store.roles[i].role == *name {
                proof {
                    assert(rs[i as int].role == name@);
                    let c = first_role(rs, name@);
                    assert(0 <= c < rs.len() && rs[c].role == name@);
                    if c < i {
                        assert(rs[c].role != name@);
                    } else if c > i {
                        assert(rs[i as int].role != name@);
                    }
                }
                return Some(i);
            }
        }
        proof {
            if exists|i: int| 0 <= i < rs.len() && #[trigger] rs[i].role == name@ {
                let i = choose|i: int| 0 <= i < rs.len() && #[trigger] rs[i].role == name@;
                assert(rs[i].role != name@);
            }
        }
        None
    }
}

pub struct VoidInput {
    pub cart_id: String,
    pub actor: String,
    pub role: String,
    pub reason: String,
}

/// Whether the first role named `name` may void.
pub open spec fn may_void(s: StoreView, name: Seq<char>) -> bool {
    first_role(s.roles, name) >= 0 && s.roles[first_role(s.roles, name)].can_void
}

/// Whether the first role named `name` may override prices.
pub open spec fn may_override(s: StoreView, name: Seq<char>) -> bool {
    first_role(s.roles, name) >= 0 && s.roles[first_role(s.roles, name)].can_price_override
}

impl PosServer {
    /// Voids a cart, where the role may.
    pub fn cart_void(&mut self, input: VoidInput) -> (r: Result<(), PosError>)
        requires
            old(self).wf(),
        ensures
            final(self).wf(),
            !may_void(old(self)@, input.role@) ==> r == Err::<(), PosError>(PosError::Unauthorized)
                && final(self)@ == old(self)@,
            may_void(old(self)@, input.role@) ==> match lookup(old(self)@.carts, input.cart_id@) {
                None => r == Err::<(), PosError>(PosError::CartNotFound) && final(self)@ == old(self)@,
                Some(c) => r == Ok::<(), PosError>(()) && final(self)@ == with_cart(
                    old(self)@,
                    input.cart_id@,
                    CartView { status: CartStatus::Voided, ..c },
                ),
            },
    {
        match self.find_role(&input.role) {
            Some(k) => {
                if !self.store.roles[k].can_void {
                    return Err(PosError::Unauthorized);
                }
            },
            None => {
                return Err(PosError::Unauthorized);
            },
        }
        let (ci, mut cart) = match self.take_cart(&input.cart_id) {
            Some(x) => x,
            None => {
                return Err(PosError::CartNotFound);
            },
        };
        cart.status = CartStatus::Voided;
        self.put_cart(ci, Ghost(input.cart_id@), cart);
        Ok(())
    }
}

pub struct PriceOverrideInput {
    pub cart_id: String,
    pub sku: String,
    /// Minor units.
    pub new_price: i64,
    pub actor: String,
    pub role: String,
    pub reason: String,
}

pub struct Overridden {
    pub old_price: i64,
    pub new_price: i64,
}

impl PosServer {
    /// Changes the unit price of the first line for a SKU, where the role
    /// may; see `override_spec`.
    pub fn price_override(&mut self, input: PriceOverrideInput) -> (r: Result<Overridden, PosError>)
        requires
            old(self).wf(),
        ensures
            final(self).wf(),
            !may_override(old(self)@, input.role@) ==> r == Err::<Overridden, PosError>(PosError::Unauthorized)
                && final(self)@ == old(self)@,
            may_override(old(self)@, input.role@) ==> match lookup(old(self)@.carts, input.cart_id@) {
                None => r == Err::<Overridden, PosError>(PosError::CartNotFound) && final(self)@ == old(self)@,
                Some(c) => {
                    let k = first_sku(c.items, input.sku@);
                    if k < 0 {
                        r == Err::<Overridden, PosError>(PosError::ItemNotInCart) && final(self)@ == old(self)@
                    } else {
                        match override_spec(c, k, input.new_price as int) {
                            None => r == Err::<Overridden, PosError>(PosError::OutOfRange) && final(self)@ == old(self)@,
                            Some(n) => r matches Ok(o) && o.old_price == c.items[k].unit_price
                                && o.new_price == input.new_price && final(self)@ == with_cart(
                                old(self)@,
                                input.cart_id@,
                                n,
                            ),
                        }
                    }
                },
            },
    {
        match self.find_role(&input.role) {
            Some(k) => {
                if !self.store.roles[k].can_price_override {
                    return Err(PosError::Unauthorized);
                }
            },
            None => {
                return Err(PosError::Unauthorized);
            },
        }
        let (ci, cart) = match self.take_cart(&input.cart_id) {
            Some(x) => x,
            None => {
                return Err(PosError::CartNotFound);
            },
        };
        let k = match find_sku(&cart.items, &input.sku) {
            Some(k) => k,
            None => {
                return Err(PosError::ItemNotInCart);
            },
        };
        let old_price = cart.items[k].unit_price;
        match override_price(cart, k, input.new_price) {
            Some(n) => {
                self.put_cart(ci, Ghost(input.cart_id@), n);
                Ok(Overridden { old_price, new_price: input.new_price })
            },
            None => Err(PosError::OutOfRange),
        }
    }
}

pub struct SuspendInput {
    pub cart_id: String,
    pub reason: Option<String>,
}

pub struct RecallInput {
    pub cart_id: String,
}

/// What parking a cart does: it leaves the active carts for the parked
/// ones, with the time and reason.
pub open spec fn suspend_spec(s: StoreView, i: SuspendInput, ts: Seq<char>) -> (StoreView, Result<(), PosError>) {
    match lookup(s.carts, i.cart_id@) {
        None => (s, Err(PosError::CartNotFound)),
        Some(c) => (
            StoreView {
                carts: drop_key(s.carts, i.cart_id@),
                suspended: put(s.suspended, i.cart_id@, SuspendedCartView { cart: c, suspended_at: ts, reason: opt_view(i.reason) }),
                ..s
            },
            Ok(()),
        ),
    }
}

/// What recalling a parked cart does: it leaves the parked carts for the
/// active ones.
pub open spec fn recall_spec(s: StoreView, id: Seq<char>) -> (StoreView, Result<(), PosError>) {
    match lookup(s.suspended, id) {
        None => (s, Err(PosError::SuspendedCartNotFound)),
        Some(sc) => (
            StoreView { suspended: drop_key(s.suspended, id), carts: put(s.carts, id, sc.cart), ..s },
            Ok(()),
        ),
    }
}

/// A parked cart, as listed.
pub struct SuspendedSummary {
    pub cart_id: String,
    pub cashier: String,
    pub total: i64,
    pub items: usize,
    pub suspended_at: String,
    pub reason: Option<String>,
}

impl PosServer {
    /// Parks a cart at time `ts`; see `suspend_spec`.
    pub fn cart_suspend_with(&mut self, input: SuspendInput, ts: String) -> (r: Result<(), PosError>)
        requires
            old(self).wf(),
        ensures
            final(self).wf(),
            (final(self)@, r) == suspend_spec(old(self)@, input, ts@),
    {
        let ghost s0 = self@;
        let cart = match self.store.carts.remove(&input.cart_id) {
            Some(c) => c,
            None => {
                return Err(PosError::CartNotFound);
            },
        };
        proof {
            lemma_lookup(s0.carts, input.cart_id@);
            assert(cart_ok(s0.carts[crate::table::key_index(s0.carts, input.cart_id@)].1));
        }
        let ghost cv = cart@;
        let sc = SuspendedCart { cart, suspended_at: ts, reason: input.reason };
        let ghost scv = sc@;
        self.store.suspended.insert(input.cart_id.clone(), sc);
        proof {
            lemma_drop(s0.carts, input.cart_id@);
            lemma_put(s0.suspended, input.cart_id@, scv);
            let t = self@;
            assert(t =~= StoreView {
                carts: drop_key(s0.carts, input.cart_id@),
                suspended: put(s0.suspended, input.cart_id@, scv),
                ..s0
            });
            assert forall|i: int| 0 <= i < t.carts.len() implies #[trigger] cart_ok(t.carts[i].1) by {
                if t.carts[i] != s0.carts[i] {
                    assert(t.carts[i] == s0.carts[i + 1]);
                }
            }
            assert forall|i: int| 0 <= i < t.suspended.len() implies #[trigger] cart_ok(t.suspended[i].1.cart) by {
                if t.suspended[i] != (input.cart_id@, scv) {
                    assert(t.suspended[i] == s0.suspended[i]);
                }
            }
        }
        Ok(())
    }

    /// Parks a cart, stamped with the current time.
    pub fn cart_suspend(&mut self, input: SuspendInput) -> (r: Result<(), PosError>)
        requires
            old(self).wf(),
        ensures
            final(self).wf(),
            exists|t: Seq<char>| (final(self)@, r) == #[trigger] suspend_spec(old(self)@, input, t),
    {
        let t = now();
        self.cart_suspend_with(input, t)
    }

    /// Brings a parked cart back; see `recall_spec`.
    pub fn cart_recall(&mut self, input: RecallInput) -> (r: Result<(), PosError>)
        requires
            old(self).wf(),
        ensures
            final(self).wf(),
            (final(self)@, r) == recall_spec(old(self)@, input.cart_id@),
    {
        let ghost s0 = self@;
        let sc = match self.store.suspended.remove(&input.cart_id) {
            Some(c) => c,
            None => {
                return Err(PosError::SuspendedCartNotFound);
            },
        };
        proof {
            lemma_lookup(s0.suspended, input.cart_id@);
            assert(cart_ok(s0.suspended[crate::table::key_index(s0.suspended, input.cart_id@)].1.cart));
        }
        let ghost cv = sc.cart@;
        self.store.carts.insert(input.cart_id.clone(), sc.cart);
        proof {
            lemma_drop(s0.suspended, input.cart_id@);
            lemma_put(s0.carts, input.cart_id@, cv);
            let t = self@;
            assert(t =~= StoreView {
                suspended: drop_key(s0.suspended, input.cart_id@),
                carts: put(s0.carts, input.cart_id@, cv),
                ..s0
            });
            assert forall|i: int| 0 <= i < t.suspended.len() implies #[trigger] cart_ok(t.suspended[i].1.cart) by {
                if t.suspended[i] != s0.suspended[i] {
                    assert(t.suspended[i] == s0.suspended[i + 1]);
                }
            }
            assert forall|i: int| 0 <= i < t.carts.len() implies #[trigger] cart_ok(t.carts[i].1) by {
                if t.carts[i] != (input.cart_id@, cv) {
                    assert(t.carts[i] == s0.carts[i]);
                }
            }
        }
        Ok(())
    }

    /// The parked carts, in the order they were parked.
    pub fn suspended_list(&self) -> (r: Vec<SuspendedSummary>)
        ensures
            r@.len() == self@.suspended.len(),
            forall|i: int|
                0 <= i < r@.len() ==> {
                    let sc = #[trigger] self@.suspended[i].1;
                    &&& r@[i].cart_id@ == sc.cart.id
                    &&& r@[i].cashier@ == sc.cart.cashier
                    &&& r@[i].total == sc.cart.total
                    &&& r@[i].items == sc.cart.items.len()
                    &&& r@[i].suspended_at@ == sc.suspended_at
                    &&& opt_view(r@[i].reason) == sc.reason
                },
    {
        let n = self.store.suspended.len();
        let mut out: Vec<SuspendedSummary> = Vec::new();
        for i in 0..n
            invariant
                n == self@.suspended.len(),
                out@.len() == i,
                forall|j: int|
                    0 <= j < i ==> {
                        let sc = #[trigger] self@.suspended[j].1;
                        &&& out@[j].cart_id@ == sc.cart.id
                        &&& out@[j].cashier@ == sc.cart.cashier
                        &&& out@[j].total == sc.cart.total
                        &&& out@[j].items == sc.cart.items.len()
                        &&& out@[j].suspended_at@ == sc.suspended_at
                        &&& opt_view(out@[j].reason) == sc.reason
                    },
        {
            let sc = self.store.suspended.value_at(i);
            out.push(SuspendedSummary {
                cart_id: sc.cart.id.clone(),
                cashier: sc.cart.cashier.clone(),
                total: sc.cart.total,
                items: sc.cart.items.len(),
                suspended_at: sc.suspended_at.clone(),
                reason: copy_opt(&sc.reason),
            });
        }
        out
    }
}

pub struct RoleLimitInput {
    pub role: String,
    /// Thousandths of a percent.
    pub max_discount_pct: i64,
    pub can_void: bool,
    pub can_refund: bool,
    pub can_price_override: bool,
    /// Minor units, where limited.
    pub max_refund_amount: Option<i64>,
}

pub open spec fn limits_of(i: RoleLimitInput) -> RoleLimitView {
    RoleLimitView {
        role: i.role@,
        max_discount_pct: i.max_discount_pct,
        can_void: i.can_void,
        can_refund: i.can_refund,
        can_price_override: i.can_price_override,
        max_refund_amount: i.max_refund_amount,
    }
}

pub struct AuthorizeInput {
    /// void, refund, price_override or discount.
    pub action: String,
    pub actor: String,
    pub role: String,
}

/// Whether a role's limits allow an action: voids, refunds and price
/// overrides as set, discounts always, anything else never.
pub open spec fn allows(r: RoleLimitView, action: Seq<char>) -> bool {
    if action == "void"@ {
        r.can_void
    } else if action == "refund"@ {
        r.can_refund
    } else if action == "price_override"@ {
        r.can_price_override
    } else {
        action == "discount"@
    }
}

pub struct Authorization {
    pub authorized: bool,
    pub max_discount_pct: i64,
}

impl PosServer {
    /// Sets the limits of the first role of that name, or adds the role.
    pub fn role_set_limits(&mut self, input: RoleLimitInput)
        requires
            old(self).wf(),
        ensures
            final(self).wf(),
            ({
                let k = first_role(old(self)@.roles, input.role@);
                final(self)@ == (StoreView {
                    roles: if k >= 0 {
                        old(self)@.roles.update(k, limits_of(input))
                    } else {
                        old(self)@.roles.push(limits_of(input))
                    },
                    ..old(self)@
                })
            }),
    {
        let ghost s0 = self@;
        let lim = RoleLimit {
            role: input.role.clone(),
            max_discount_pct: input.max_discount_pct,
            can_void: input.can_void,
            can_refund: input.can_refund,
            can_price_override: input.can_price_override,
            max_refund_amount: input.max_refund_amount,
        };
        match self.find_role(&input.role) {
            Some(k) => {
                self.store.roles.set(k, lim);
            },
            None => {
                self.store.roles.push(lim);
            },
        }
        proof {
            let k = first_role(s0.roles, input.role@);
            let rs = if k >= 0 { s0.roles.update(k, limits_of(input)) } else { s0.roles.push(limits_of(input)) };
            assert(self@.roles =~= rs);
            assert(self@ =~= StoreView { roles: rs, ..s0 });
        }
    }

    /// Whether a role may take an action, and its discount limit; none
    /// where no role has the name.
    pub fn authorize_check(&self, input: AuthorizeInput) -> (r: Option<Authorization>)
        ensures
            ({
                let k = first_role(self@.roles, input.role@);
                if k < 0 {
                    r is None
                } else {
                    r matches Some(a) && a.authorized == allows(self@.roles[k], input.action@)
                        && a.max_discount_pct == self@.roles[k].max_discount_pct
                }
            }),
    {
        match self.find_role(&input.role) {
            None => None,
            Some(k) => {
                let rl = &self.store.roles[k];
                let allowed = if eq_lit(&input.action, "void") {
                    rl.can_void
                } else if eq_lit(&input.action, "refund") {
                    rl.can_refund
                } else if eq_lit(&input.action, "price_override") {
                    rl.can_price_override
                } else {
                    eq_lit(&input.action, "discount")
                };
                Some(Authorization { authorized: allowed, max_discount_pct: rl.max_discount_pct })
            },
        }
    }
}

pub struct FiscalConfigInput {
    pub country: String,
    pub business_name: String,
    pub business_pin: Option<String>,
    pub device_id: Option<String>,
    pub currency: Option<String>,
    /// Minor units.
    pub smallest_denomination: Option<i64>,
    pub receipt_prefix: Option<String>,
}

/// The tax regime of a country: sales tax in the US, GST in Australia,
/// India, Singapore and New Zealand, VAT elsewhere.
pub open spec fn regime_of(country: Seq<char>) -> TaxRegime {
    if country == "US"@ {
        TaxRegime::SalesTax
    } else if country == "AU"@ || country == "IN"@ || country == "SG"@ || country == "NZ"@ {
        TaxRegime::Gst
    } else {
        TaxRegime::Vat
    }
}

pub fn regime_for(country: &String) -> (r: TaxRegime)
    ensures
        r == regime_of(country@),
{
    if eq_lit(country, "US") {
        TaxRegime::SalesTax
    } else if eq_lit(country, "AU") || eq_lit(country, "IN") || eq_lit(country, "SG") || eq_lit(country, "NZ") {
        TaxRegime::Gst
    } else {
        TaxRegime::Vat
    }
}

/// The settings a configuration makes: country, name, PIN and device as
/// given, currency, smallest coin and receipt prefix where given, the tax
/// regime of the country, and the receipt counter kept.
pub open spec fn configured(f: FiscalConfigView, i: FiscalConfigInput) -> FiscalConfigView {
    FiscalConfigView {
        country: i.country@,
        tax_regime: regime_of(i.country@),
        device_id: opt_view(i.device_id),
        business_name: i.business_name@,
        business_pin: opt_view(i.business_pin),
        currency: match opt_view(i.currency) {
            Some(c) => c,
            None => f.currency,
        },
        smallest_denomination: match i.smallest_denomination {
            Some(d) => d,
            None => f.smallest_denomination,
        },
        receipt_prefix: match opt_view(i.receipt_prefix) {
            Some(p) => p,
            None => f.receipt_prefix,
        },
        next_receipt_number: f.next_receipt_number,
    }
}

impl PosServer {
    /// Sets the fiscal settings; answers the new settings.
    pub fn fiscal_config(&mut self, input: FiscalConfigInput) -> (r: FiscalConfig)
        requires
            old(self).wf(),
        ensures
            final(self).wf(),
            final(self)@ == (StoreView { fiscal: configured(old(self)@.fiscal, input), ..old(self)@ }),
            r@ == configured(old(self)@.fiscal, input),
    {
        let ghost s0 = self@;
        let regime = regime_for(&input.country);
        self.store.fiscal.country = input.country;
        self.store.fiscal.business_name = input.business_name;
        self.store.fiscal.business_pin = input.business_pin;
        self.store.fiscal.device_id = input.device_id;
        match input.currency {
            Some(c) => {
                self.store.fiscal.currency = c;
            },
            None => {},
        }
        match input.smallest_denomination {
            Some(d) => {
                self.store.fiscal.smallest_denomination = d;
            },
            None => {},
        }
        match input.receipt_prefix {
            Some(p) => {
                self.store.fiscal.receipt_prefix = p;
            },
            None => {},
        }
        self.store.fiscal.tax_regime = regime;
        assert(self@ =~= StoreView { fiscal: configured(s0.fiscal, input), ..s0 });
        self.store.fiscal.duplicate()
    }
}

} // verus!
