//! The point-of-sale service: its requests, answers and errors.
//!
//! Every request of the service is a method of `PosServer`.  Amounts are in
//! minor units (cents), quantities in thousandths of a unit, rates and
//! percentages in thousandths of a percent.
use vstd::prelude::*;
use crate::cart::cart_ok;
use crate::store::{Store, StoreView, store_ok};
use crate::table::{key_index, lemma_lookup, lemma_put, lookup, put};
use crate::types::Cart;
use crate::types::{CartStatus, CartView};

verus! {

/// Why a request was refused.
#[derive(Clone, Copy, Debug, PartialEq, Eq, Structural)]
pub enum PosError {
    /// No product has the barcode or SKU given.
    ProductNotFound,
    /// No cart has the id given.
    CartNotFound,
    /// The cart is checked out or voided.
    CartNotOpen(CartStatus),
    /// The role may not do this.
    Unauthorized,
    /// The account holds fewer points than asked for.
    InsufficientPoints { available: u64, requested: u64 },
    /// The tenders add up to less than the cart's total.
    InsufficientPayment { total: i64, paid: i128 },
    /// No shift has the id given.
    ShiftNotFound,
    /// No parked cart has the id given.
    SuspendedCartNotFound,
    /// The cart has no line for the SKU given.
    ItemNotInCart,
    /// A figure would leave the range of amounts the library holds.
    OutOfRange,
}

/// The point-of-sale service.
pub struct PosServer {
    pub store: Store,
}

impl View for PosServer {
    type V = StoreView;

    open spec fn view(&self) -> StoreView {
        self.store@
    }
}

impl PosServer {
    pub open spec fn wf(&self) -> bool {
        store_ok(self@)
    }

    /// A service over an empty store with the default settings.
    pub fn new() -> (s: PosServer)
        ensures
            s.wf(),
            s@ == Store::new_view(),
    {
        PosServer { store: Store::new() }
    }
}

/// `s` with cart `k` set to `c`.
pub open spec fn with_cart(s: StoreView, k: Seq<char>, c: CartView) -> StoreView {
    StoreView { carts: put(s.carts, k, c), ..s }
}

pub proof fn lemma_with_cart(s: StoreView, k: Seq<char>, c: CartView)
    requires
        store_ok(s),
        cart_ok(c),
    ensures
        store_ok(with_cart(s, k, c)),
{
    lemma_put(s.carts, k, c);
    let p = put(s.carts, k, c);
    assert forall|i: int| 0 <= i < p.len() implies #[trigger] cart_ok(p[i].1) by {
        if p[i] != (k, c) {
            assert(p[i] == s.carts[i]);
        }
    }
}

/// A product to add to the catalog.
pub struct ProductInput {
    pub sku: String,
    pub barcode: String,
    pub name: String,
    /// Unit price in minor units.
    pub price: i64,
    /// Tax rate in thousandths of a percent; 16% where absent.
    pub tax_rate: Option<i64>,
    pub category: Option<String>,
    pub currency: Option<String>,
}

pub struct CartCreateInput {
    pub cashier: String,
    pub customer_id: Option<String>,
    pub currency: Option<String>,
}

pub struct CartAddInput {
    pub cart_id: String,
    pub barcode: String,
    /// Thousandths of a unit; one unit where absent.
    pub quantity: Option<i64>,
}

pub struct CartRemoveInput {
    pub cart_id: String,
    pub sku: String,
}

pub struct CartDiscountInput {
    pub cart_id: String,
    /// "percentage", or anything else for a fixed amount.
    pub discount_type: String,
    /// Thousandths of the percentage, or of the currency unit.
    pub value: i64,
    pub sku: Option<String>,
}

pub struct CartIdInput {
    pub cart_id: String,
}

/// The answer to adding an item.
pub struct ItemAdded {
    pub sku: String,
    pub name: String,
    /// Thousandths of a unit.
    pub qty: i64,
    pub cart_total: i64,
}

impl PosServer {
    /// A copy of cart `id` and its position.
    pub fn take_cart(&self, id: &String) -> (r: Option<(usize, Cart)>)
        requires
            self.wf(),
        ensures
            match lookup(self@.carts, id@) {
                None => r is None,
                Some(c) => r matches Some((i, cc)) && cc@ == c && i as int == key_index(self@.carts, id@)
                    && cart_ok(c) && i < self@.carts.len(),
            },
    {
        proof {
            lemma_lookup(self@.carts, id@);
        }
        match self.store.carts.find(id) {
            Some(i) => {
                let c = self.store.carts.value_at(i).duplicate();
                assert(cart_ok(self@.carts[i as int].1));
                Some((i, c))
            },
            None => None,
        }
    }

    /// Puts cart `c` back at position `i`, the position of key `k`.
    pub fn put_cart(&mut self, i: usize, Ghost(k): Ghost<Seq<char>>, c: Cart)
        requires
            old(self).wf(),
            cart_ok(c@),
            i < old(self)@.carts.len(),
            i as int == key_index(old(self)@.carts, k),
            old(self)@.carts[i as int].0 == k,
        ensures
            final(self).wf(),
            final(self)@ == with_cart(old(self)@, k, c@),
    {
        let ghost before = self@;
        proof {
            assert(crate::table::has_key(before.carts, k));
        }
        self.store.carts.set_value(i, c);
        proof {
            lemma_with_cart(before, k, c@);
            assert(self@.carts =~= put(before.carts, k, c@));
            assert(self@ =~= with_cart(before, k, c@));
        }
    }
}

} // verus!
