//! The records a point of sale keeps: products, carts, payments, shifts,
//! loyalty accounts, fiscal settings and signed receipts.
//!
//! Amounts are in minor units (cents), quantities in thousandths of a unit
//! and rates in thousandths of a percent (see `money`).
use vstd::prelude::*;

verus! {

pub open spec fn opt_view(o: Option<String>) -> Option<Seq<char>> {
    match o {
        Some(s) => Some(s@),
        None => None,
    }
}

pub fn copy_opt(o: &Option<String>) -> (r: Option<String>)
    ensures
        opt_view(r) == opt_view(*o),
{
    match o {
        Some(s) => Some(s.clone()),
        None => None,
    }
}

/// A catalog entry.
pub struct Product {
    pub sku: String,
    pub barcode: String,
    pub name: String,
    /// Unit price in minor units.
    pub price: i64,
    /// Tax rate in thousandths of a percent.
    pub tax_rate: i64,
    pub category: String,
    pub currency: String,
}

pub struct ProductView {
    pub sku: Seq<char>,
    pub barcode: Seq<char>,
    pub name: Seq<char>,
    pub price: i64,
    pub tax_rate: i64,
    pub category: Seq<char>,
    pub currency: Seq<char>,
}

impl View for Product {
    type V = ProductView;

    open spec fn view(&self) -> ProductView {
        ProductView {
            sku: self.sku@,
            barcode: self.barcode@,
            name: self.name@,
            price: self.price,
            tax_rate: self.tax_rate,
            category: self.category@,
            currency: self.currency@,
        }
    }
}

impl Product {
    pub fn duplicate(&self) -> (r: Product)
        ensures
            r@ == self@,
    {
        Product {
            sku: self.sku.clone(),
            barcode: self.barcode.clone(),
            name: self.name.clone(),
            price: self.price,
            tax_rate: self.tax_rate,
            category: self.category.clone(),
            currency: self.currency.clone(),
        }
    }
}

#[derive(Clone, Copy, Debug, PartialEq, Eq, Structural)]
pub enum CartStatus {
    Open,
    CheckedOut,
    Voided,
}

#[derive(Clone, Copy, Debug, PartialEq, Eq, Structural)]
pub enum PaymentStatus {
    Completed,
    Failed,
    Refunded,
}

#[derive(Clone, Copy, Debug, PartialEq, Eq, Structural)]
pub enum ShiftStatus {
    Open,
    Closed,
}

#[derive(Clone, Copy, Debug, PartialEq, Eq, Structural)]
pub enum TaxRegime {
    Vat,
    SalesTax,
    Gst,
}

/// A line of a cart.
pub struct CartItem {
    pub sku: String,
    pub name: String,
    /// Quantity in thousandths of a unit.
    pub quantity: i64,
    /// Unit price in minor units.
    pub unit_price: i64,
    /// Discount on the line, in thousandths of a minor unit.
    pub discount: i64,
    /// Tax on the line, in minor units.
    pub tax: i64,
    /// Line total in minor units.
    pub line_total: i64,
}

pub struct CartItemView {
    pub sku: Seq<char>,
    pub name: Seq<char>,
    pub quantity: i64,
    pub unit_price: i64,
    pub discount: i64,
    pub tax: i64,
    pub line_total: i64,
}

impl View for CartItem {
    type V = CartItemView;

    open spec fn view(&self) -> CartItemView {
        CartItemView {
            sku: self.sku@,
            name: self.name@,
            quantity: self.quantity,
            unit_price: self.unit_price,
            discount: self.discount,
            tax: self.tax,
            line_total: self.line_total,
        }
    }
}

impl CartItem {
    pub fn duplicate(&self) -> (r: CartItem)
        ensures
            r@ == self@,
    {
        CartItem {
            sku: self.sku.clone(),
            name: self.name.clone(),
            quantity: self.quantity,
            unit_price: self.unit_price,
            discount: self.discount,
            tax: self.tax,
            line_total: self.line_total,
        }
    }
}

/// A sale in progress or completed.
pub struct Cart {
    pub id: String,
    pub status: CartStatus,
    pub items: Vec<CartItem>,
    /// Unit prices times quantities, unrounded: thousandths of a minor unit.
    pub subtotal: i64,
    /// Thousandths of a minor unit.
    pub total_discount: i64,
    /// Minor units.
    pub total_tax: i64,
    /// Minor units.
    pub total: i64,
    pub currency: String,
    pub customer_id: Option<String>,
    pub cashier: String,
    pub created_at: String,
}

pub struct CartView {
    pub id: Seq<char>,
    pub status: CartStatus,
    pub items: Seq<CartItemView>,
    pub subtotal: i64,
    pub total_discount: i64,
    pub total_tax: i64,
    pub total: i64,
    pub currency: Seq<char>,
    pub customer_id: Option<Seq<char>>,
    pub cashier: Seq<char>,
    pub created_at: Seq<char>,
}

impl View for Cart {
    type V = CartView;

    open spec fn view(&self) -> CartView {
        CartView {
            id: self.id@,
            status: self.status,
            items: self.items@.map_values(|i: CartItem| i@),
            subtotal: self.subtotal,
            total_discount: self.total_discount,
            total_tax: self.total_tax,
            total: self.total,
            currency: self.currency@,
            customer_id: opt_view(self.customer_id),
            cashier: self.cashier@,
            created_at: self.created_at@,
        }
    }
}

/// A recorded payment or refund.
pub struct Payment {
    pub id: String,
    pub cart_id: String,
    pub method: String,
    pub amount: i64,
    pub tendered: i64,
    pub change: i64,
    pub reference: Option<String>,
    pub status: PaymentStatus,
    pub timestamp: String,
}

pub struct PaymentView {
    pub id: Seq<char>,
    pub cart_id: Seq<char>,
    pub method: Seq<char>,
    pub amount: i64,
    pub tendered: i64,
    pub change: i64,
    pub reference: Option<Seq<char>>,
    pub status: PaymentStatus,
    pub timestamp: Seq<char>,
}

impl View for Payment {
    type V = PaymentView;

    open spec fn view(&self) -> PaymentView {
        PaymentView {
            id: self.id@,
            cart_id: self.cart_id@,
            method: self.method@,
            amount: self.amount,
            tendered: self.tendered,
            change: self.change,
            reference: opt_view(self.reference),
            status: self.status,
            timestamp: self.timestamp@,
        }
    }
}

impl Payment {
    pub fn duplicate(&self) -> (r: Payment)
        ensures
            r@ == self@,
    {
        Payment {
            id: self.id.clone(),
            cart_id: self.cart_id.clone(),
            method: self.method.clone(),
            amount: self.amount,
            tendered: self.tendered,
            change: self.change,
            reference: copy_opt(&self.reference),
            status: self.status,
            timestamp: self.timestamp.clone(),
        }
    }
}

/// A cashier's register session.
pub struct Shift {
    pub id: String,
    pub cashier: String,
    pub register_id: String,
    pub status: ShiftStatus,
    pub opening_float: i64,
    pub cash_sales: i64,
    pub card_sales: i64,
    pub mobile_sales: i64,
    pub refunds: i64,
    pub transactions: u32,
    pub opened_at: String,
    pub closed_at: Option<String>,
}

pub struct ShiftView {
    pub id: Seq<char>,
    pub cashier: Seq<char>,
    pub register_id: Seq<char>,
    pub status: ShiftStatus,
    pub opening_float: i64,
    pub cash_sales: i64,
    pub card_sales: i64,
    pub mobile_sales: i64,
    pub refunds: i64,
    pub transactions: u32,
    pub opened_at: Seq<char>,
    pub closed_at: Option<Seq<char>>,
}

impl View for Shift {
    type V = ShiftView;

    open spec fn view(&self) -> ShiftView {
        ShiftView {
            id: self.id@,
            cashier: self.cashier@,
            register_id: self.register_id@,
            status: self.status,
            opening_float: self.opening_float,
            cash_sales: self.cash_sales,
            card_sales: self.card_sales,
            mobile_sales: self.mobile_sales,
            refunds: self.refunds,
            transactions: self.transactions,
            opened_at: self.opened_at@,
            closed_at: opt_view(self.closed_at),
        }
    }
}

impl Shift {
    pub fn duplicate(&self) -> (r: Shift)
        ensures
            r@ == self@,
    {
        Shift {
            id: self.id.clone(),
            cashier: self.cashier.clone(),
            register_id: self.register_id.clone(),
            status: self.status,
            opening_float: self.opening_float,
            cash_sales: self.cash_sales,
            card_sales: self.card_sales,
            mobile_sales: self.mobile_sales,
            refunds: self.refunds,
            transactions: self.transactions,
            opened_at: self.opened_at.clone(),
            closed_at: copy_opt(&self.closed_at),
        }
    }
}

/// A customer's loyalty balance.
pub struct LoyaltyAccount {
    pub customer_id: String,
    pub name: String,
    pub points: u64,
    pub tier: String,
    pub total_spend: i64,
}

pub struct LoyaltyAccountView {
    pub customer_id: Seq<char>,
    pub name: Seq<char>,
    pub points: u64,
    pub tier: Seq<char>,
    pub total_spend: i64,
}

impl View for LoyaltyAccount {
    type V = LoyaltyAccountView;

    open spec fn view(&self) -> LoyaltyAccountView {
        LoyaltyAccountView {
            customer_id: self.customer_id@,
            name: self.name@,
            points: self.points,
            tier: self.tier@,
            total_spend: self.total_spend,
        }
    }
}

impl LoyaltyAccount {
    pub fn duplicate(&self) -> (r: LoyaltyAccount)
        ensures
            r@ == self@,
    {
        LoyaltyAccount {
            customer_id: self.customer_id.clone(),
            name: self.name.clone(),
            points: self.points,
            tier: self.tier.clone(),
            total_spend: self.total_spend,
        }
    }
}

/// A parked cart.
pub struct SuspendedCart {
    pub cart: Cart,
    pub suspended_at: String,
    pub reason: Option<String>,
}

pub struct SuspendedCartView {
    pub cart: CartView,
    pub suspended_at: Seq<char>,
    pub reason: Option<Seq<char>>,
}

impl View for SuspendedCart {
    type V = SuspendedCartView;

    open spec fn view(&self) -> SuspendedCartView {
        SuspendedCartView {
            cart: self.cart@,
            suspended_at: self.suspended_at@,
            reason: opt_view(self.reason),
        }
    }
}

impl SuspendedCart {
    pub fn duplicate(&self) -> (r: SuspendedCart)
        ensures
            r@ == self@,
    {
        SuspendedCart {
            cart: self.cart.duplicate(),
            suspended_at: self.suspended_at.clone(),
            reason: copy_opt(&self.reason),
        }
    }
}

/// The buyer a cart is identified to, for business invoices.
pub struct BuyerIdentity {
    pub tax_id: String,
    pub name: String,
    /// gstin, trn, kra_pin, national_id or passport.
    pub id_type: String,
}

pub struct BuyerIdentityView {
    pub tax_id: Seq<char>,
    pub name: Seq<char>,
    pub id_type: Seq<char>,
}

impl View for BuyerIdentity {
    type V = BuyerIdentityView;

    open spec fn view(&self) -> BuyerIdentityView {
        BuyerIdentityView { tax_id: self.tax_id@, name: self.name@, id_type: self.id_type@ }
    }
}

impl BuyerIdentity {
    pub fn duplicate(&self) -> (r: BuyerIdentity)
        ensures
            r@ == self@,
    {
        BuyerIdentity { tax_id: self.tax_id.clone(), name: self.name.clone(), id_type: self.id_type.clone() }
    }
}

/// Fiscal settings of the business.
pub struct FiscalConfig {
    pub country: String,
    pub tax_regime: TaxRegime,
    pub device_id: Option<String>,
    pub business_name: String,
    pub business_pin: Option<String>,
    pub currency: String,
    /// Smallest coin in minor units.
    pub smallest_denomination: i64,
    pub receipt_prefix: String,
    pub next_receipt_number: u64,
}

pub struct FiscalConfigView {
    pub country: Seq<char>,
    pub tax_regime: TaxRegime,
    pub device_id: Option<Seq<char>>,
    pub business_name: Seq<char>,
    pub business_pin: Option<Seq<char>>,
    pub currency: Seq<char>,
    pub smallest_denomination: i64,
    pub receipt_prefix: Seq<char>,
    pub next_receipt_number: u64,
}

impl View for FiscalConfig {
    type V = FiscalConfigView;

    open spec fn view(&self) -> FiscalConfigView {
        FiscalConfigView {
            country: self.country@,
            tax_regime: self.tax_regime,
            device_id: opt_view(self.device_id),
            business_name: self.business_name@,
            business_pin: opt_view(self.business_pin),
            currency: self.currency@,
            smallest_denomination: self.smallest_denomination,
            receipt_prefix: self.receipt_prefix@,
            next_receipt_number: self.next_receipt_number,
        }
    }
}

impl FiscalConfig {
    pub fn duplicate(&self) -> (r: FiscalConfig)
        ensures
            r@ == self@,
    {
        FiscalConfig {
            country: self.country.clone(),
            tax_regime: self.tax_regime,
            device_id: copy_opt(&self.device_id),
            business_name: self.business_name.clone(),
            business_pin: copy_opt(&self.business_pin),
            currency: self.currency.clone(),
            smallest_denomination: self.smallest_denomination,
            receipt_prefix: self.receipt_prefix.clone(),
            next_receipt_number: self.next_receipt_number,
        }
    }
}

/// A receipt signed into the hash chain.
pub struct FiscalReceipt {
    pub receipt_number: u64,
    pub cart_id: String,
    pub hash: String,
    pub previous_hash: String,
    pub timestamp: String,
    pub device_id: Option<String>,
    pub is_copy: bool,
}

pub struct FiscalReceiptView {
    pub receipt_number: u64,
    pub cart_id: Seq<char>,
    pub hash: Seq<char>,
    pub previous_hash: Seq<char>,
    pub timestamp: Seq<char>,
    pub device_id: Option<Seq<char>>,
    pub is_copy: bool,
}

impl View for FiscalReceipt {
    type V = FiscalReceiptView;

    open spec fn view(&self) -> FiscalReceiptView {
        FiscalReceiptView {
            receipt_number: self.receipt_number,
            cart_id: self.cart_id@,
            hash: self.hash@,
            previous_hash: self.previous_hash@,
            timestamp: self.timestamp@,
            device_id: opt_view(self.device_id),
            is_copy: self.is_copy,
        }
    }
}

impl FiscalReceipt {
    pub fn duplicate(&self) -> (r: FiscalReceipt)
        ensures
            r@ == self@,
    {
        FiscalReceipt {
            receipt_number: self.receipt_number,
            cart_id: self.cart_id.clone(),
            hash: self.hash.clone(),
            previous_hash: self.previous_hash.clone(),
            timestamp: self.timestamp.clone(),
            device_id: copy_opt(&self.device_id),
            is_copy: self.is_copy,
        }
    }
}

/// What a role may do.
pub struct RoleLimit {
    pub role: String,
    /// Largest discount the role may give, thousandths of a percent.
    pub max_discount_pct: i64,
    pub can_void: bool,
    pub can_refund: bool,
    pub can_price_override: bool,
    /// Largest refund in minor units, if limited.
    pub max_refund_amount: Option<i64>,
}

pub struct RoleLimitView {
    pub role: Seq<char>,
    pub max_discount_pct: i64,
    pub can_void: bool,
    pub can_refund: bool,
    pub can_price_override: bool,
    pub max_refund_amount: Option<i64>,
}

impl View for RoleLimit {
    type V = RoleLimitView;

    open spec fn view(&self) -> RoleLimitView {
        RoleLimitView {
            role: self.role@,
            max_discount_pct: self.max_discount_pct,
            can_void: self.can_void,
            can_refund: self.can_refund,
            can_price_override: self.can_price_override,
            max_refund_amount: self.max_refund_amount,
        }
    }
}

impl RoleLimit {
    pub fn duplicate(&self) -> (r: RoleLimit)
        ensures
            r@ == self@,
    {
        RoleLimit {
            role: self.role.clone(),
            max_discount_pct: self.max_discount_pct,
            can_void: self.can_void,
            can_refund: self.can_refund,
            can_price_override: self.can_price_override,
            max_refund_amount: self.max_refund_amount,
        }
    }
}

impl Cart {
    pub fn duplicate(&self) -> (r: Cart)
        ensures
            r@ == self@,
    {
        let mut items: Vec<CartItem> = Vec::new();
        let n = self.items.len();
        for i in 0..n
            invariant
                n == self.items@.len(),
                items@.len() == i,
                forall|j: int| 0 <= j < i ==> #[trigger] items@[j]@ == self.items@[j]@,
        {
            items.push(self.items[i].duplicate());
        }
        assert(items@.map_values(|i: CartItem| i@) =~= self.items@.map_values(|i: CartItem| i@));
        Cart {
            id: self.id.clone(),
            status: self.status,
            items,
            subtotal: self.subtotal,
            total_discount: self.total_discount,
            total_tax: self.total_tax,
            total: self.total,
            currency: self.currency.clone(),
            customer_id: copy_opt(&self.customer_id),
            cashier: self.cashier.clone(),
            created_at: self.created_at.clone(),
        }
    }
}

/// A rendered receipt.
pub struct Receipt {
    pub cart_id: String,
    pub lines: Vec<String>,
    pub generated_at: String,
}

} // verus!
