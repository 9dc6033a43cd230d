//! Catalog and cart requests.
use vstd::prelude::*;
use crate::cart::{
    find_sku, first_sku,
    add_item, add_spec, discount_all, discount_all_spec, discount_line, discount_line_spec,
    product_ok, remove_sku, remove_spec,
};
use crate::clock::{now, uid, uid_text};
use crate::server::{
    CartAddInput, CartCreateInput, CartDiscountInput, CartIdInput, CartRemoveInput, ItemAdded,
    PosError, PosServer, ProductInput, lemma_with_cart, with_cart,
};
use crate::store::{StoreView, first_code};
use crate::table::{lemma_put, lookup, put};
use crate::text::{eq_lit, lit};
use crate::types::{Cart, CartStatus, CartView, Product, ProductView, opt_view};

verus! {

pub open spec fn str_or(o: Option<Seq<char>>, d: Seq<char>) -> Seq<char> {
    match o {
        Some(s) => s,
        None => d,
    }
}

pub open spec fn i64_or(o: Option<i64>, d: i64) -> i64 {
    match o {
        Some(x) => x,
        None => d,
    }
}

pub fn copy_or(o: &Option<String>, d: &str) -> (r: String)
    ensures
        r@ == str_or(opt_view(*o), d@),
{
    match o {
        Some(s) => s.clone(),
        None => lit(d),
    }
}

/// The catalog entry a registration makes: 16% tax, no category and KES
/// where these are not given.
pub open spec fn registered(i: ProductInput) -> ProductView {
    ProductView {
        sku: i.sku@,
        barcode: i.barcode@,
        name: i.name@,
        price: i.price,
        tax_rate: i64_or(i.tax_rate, 16000),
        category: str_or(opt_view(i.category), ""@),
        currency: str_or(opt_view(i.currency), "KES"@),
    }
}

/// The cart a creation makes.
pub open spec fn new_cart(i: CartCreateInput, suffix: Seq<char>, created_at: Seq<char>) -> CartView {
    CartView {
        id: "cart_"@ + suffix,
        status: CartStatus::Open,
        items: seq![],
        subtotal: 0,
        total_discount: 0,
        total_tax: 0,
        total: 0,
        currency: str_or(opt_view(i.currency), "KES"@),
        customer_id: opt_view(i.customer_id),
        cashier: i.cashier@,
        created_at,
    }
}

pub open spec fn is_percentage(t: Seq<char>) -> bool {
    t == "percentage"@
}

impl PosServer {
    /// Adds a product to the catalog, or replaces the one with its SKU.
    pub fn product_register(&mut self, input: ProductInput) -> (r: Result<String, PosError>)
        requires
            old(self).wf(),
        ensures
            final(self).wf(),
            product_ok(registered(input)) ==> (r matches Ok(sku) && sku@ == input.sku@
                && final(self)@ == (StoreView {
                products: put(old(self)@.products, input.sku@, registered(input)),
                ..old(self)@
            })),
            !product_ok(registered(input)) ==> r == Err::<String, PosError>(PosError::OutOfRange)
                && final(self)@ == old(self)@,
    {
        let rate = match input.tax_rate {
            Some(t) => t,
            None => 16000,
        };
        if !crate::cart::rate_in_range(rate) || crate::cart::to_amount(input.price as i128).is_none() {
            return Err(PosError::OutOfRange);
        }
        let p = Product {
            sku: input.sku.clone(),
            barcode: input.barcode,
            name: input.name,
            price: input.price,
            tax_rate: rate,
            category: copy_or(&input.category, ""),
            currency: copy_or(&input.currency, "KES"),
        };
        let ghost before = self@;
        let key = input.sku.clone();
        self.store.products.insert(key, p);
        proof {
            lemma_put(before.products, input.sku@, registered(input));
            let ps = put(before.products, input.sku@, registered(input));
            assert forall|i: int| 0 <= i < ps.len() implies #[trigger] product_ok(ps[i].1) by {
                if ps[i] != (input.sku@, registered(input)) {
                    assert(ps[i] == before.products[i]);
                }
            }
            assert(self@ =~= StoreView { products: ps, ..before });
        }
        Ok(input.sku)
    }

    /// Starts a sale with cart id "cart_" followed by `suffix`, made at
    /// `created_at`.
    pub fn cart_create_with(&mut self, input: CartCreateInput, suffix: String, created_at: String) -> (r: String)
        requires
            old(self).wf(),
        ensures
            final(self).wf(),
            r@ == "cart_"@ + suffix@,
            final(self)@ == with_cart(old(self)@, r@, new_cart(input, suffix@, created_at@)),
    {
        let mut id = lit("cart_");
        id.append(suffix.as_str());
        let cart = Cart {
            id: id.clone(),
            status: CartStatus::Open,
            items: Vec::new(),
            subtotal: 0,
            total_discount: 0,
            total_tax: 0,
            total: 0,
            currency: copy_or(&input.currency, "KES"),
            customer_id: input.customer_id,
            cashier: input.cashier,
            created_at,
        };
        let ghost before = self@;
        let ghost cv = cart@;
        assert(cv.items =~= Seq::<crate::types::CartItemView>::empty());
        assert(cv =~= new_cart(input, suffix@, created_at@));
        self.store.carts.insert(id.clone(), cart);
        proof {
            lemma_with_cart(before, id@, cv);
            assert(self@ =~= with_cart(before, id@, cv));
        }
        id
    }

    /// Starts a sale under a fresh cart id, stamped with the current time.
    pub fn cart_create(&mut self, input: CartCreateInput) -> (r: String)
        requires
            old(self).wf(),
        ensures
            final(self).wf(),
            exists|x: u128, t: Seq<char>|
                r@ == "cart_"@ + uid_text(x) && final(self)@ == with_cart(
                    old(self)@,
                    r@,
                    new_cart(input, uid_text(x), t),
                ),
    {
        let suffix = uid();
        let t = now();
        self.cart_create_with(input, suffix, t)
    }

    /// Adds an item, found by barcode or SKU, to a cart; see `add_spec`.
    pub fn cart_add_item(&mut self, input: CartAddInput) -> (r: Result<ItemAdded, PosError>)
        requires
            old(self).wf(),
        ensures
            final(self).wf(),
            first_code(old(self)@.products, input.barcode@) == -1 ==> r == Err::<ItemAdded, PosError>(
                PosError::ProductNotFound,
            ) && final(self)@ == old(self)@,
            first_code(old(self)@.products, input.barcode@) >= 0 ==> {
                let p = old(self)@.products[first_code(old(self)@.products, input.barcode@)].1;
                let q = i64_or(input.quantity, 1000);
                match lookup(old(self)@.carts, input.cart_id@) {
                    None => r == Err::<ItemAdded, PosError>(PosError::CartNotFound) && final(self)@ == old(self)@,
                    Some(c) => match add_spec(c, p, q as int) {
                        None => r == Err::<ItemAdded, PosError>(PosError::OutOfRange) && final(self)@ == old(self)@,
                        Some(n) => r matches Ok(a) && a.sku@ == p.sku && a.name@ == p.name && a.qty == q
                            && a.cart_total == n.total && final(self)@ == with_cart(old(self)@, input.cart_id@, n),
                    },
                }
            },
    {
        let pi = match self.store.find_code(&input.barcode) {
            Some(i) => i,
            None => {
                return Err(PosError::ProductNotFound);
            },
        };
        let qty = match input.quantity {
            Some(q) => q,
            None => 1000,
        };
        let (ci, cart) = match self.take_cart(&input.cart_id) {
            Some(x) => x,
            None => {
                return Err(PosError::CartNotFound);
            },
        };
        let product = self.store.products.value_at(pi).duplicate();
        assert(product_ok(self@.products[pi as int].1));
        let ghost k = input.cart_id@;
        match add_item(cart, &product, qty) {
            Some(n) => {
                let total = n.total;
                self.put_cart(ci, Ghost(k), n);
                Ok(ItemAdded { sku: product.sku, name: product.name, qty, cart_total: total })
            },
            None => Err(PosError::OutOfRange),
        }
    }

    /// Removes every line for a SKU from a cart; see `remove_spec`.  A SKU
    /// with no line in the cart is refused.
    pub fn cart_remove_item(&mut self, input: CartRemoveInput) -> (r: Result<i64, PosError>)
        requires
            old(self).wf(),
        ensures
            final(self).wf(),
            match lookup(old(self)@.carts, input.cart_id@) {
                None => r == Err::<i64, PosError>(PosError::CartNotFound) && final(self)@ == old(self)@,
                Some(c) => if first_sku(c.items, input.sku@) == -1 {
                    r == Err::<i64, PosError>(PosError::ItemNotInCart) && final(self)@ == old(self)@
                } else {
                    match remove_spec(c, input.sku@) {
                    None => r == Err::<i64, PosError>(PosError::OutOfRange) && final(self)@ == old(self)@,
                    Some(n) => r == Ok::<i64, PosError>(n.total) && final(self)@ == with_cart(
                        old(self)@,
                        input.cart_id@,
                        n,
                    ),
                    }
                },
            },
    {
        let (ci, cart) = match self.take_cart(&input.cart_id) {
            Some(x) => x,
            None => {
                return Err(PosError::CartNotFound);
            },
        };
        if find_sku(&cart.items, &input.sku).is_none() {
            return Err(PosError::ItemNotInCart);
        }
        match remove_sku(cart, &input.sku) {
            Some(n) => {
                let total = n.total;
                self.put_cart(ci, Ghost(input.cart_id@), n);
                Ok(total)
            },
            None => Err(PosError::OutOfRange),
        }
    }

    /// Applies a discount to one line (where a SKU is given) or spreads it
    /// over the whole cart; see `discount_line_spec` and `discount_all_spec`.
    pub fn cart_apply_discount(&mut self, input: CartDiscountInput) -> (r: Result<i64, PosError>)
        requires
            old(self).wf(),
        ensures
            final(self).wf(),
            match lookup(old(self)@.carts, input.cart_id@) {
                None => r == Err::<i64, PosError>(PosError::CartNotFound) && final(self)@ == old(self)@,
                Some(c) => {
                    let pct = is_percentage(input.discount_type@);
                    let res = match input.sku {
                        Some(sku) => discount_line_spec(c, sku@, pct, input.value as int),
                        None => discount_all_spec(c, pct, input.value as int),
                    };
                    match res {
                        None => r == Err::<i64, PosError>(PosError::OutOfRange) && final(self)@ == old(self)@,
                        Some(n) => r == Ok::<i64, PosError>(n.total) && final(self)@ == with_cart(
                            old(self)@,
                            input.cart_id@,
                            n,
                        ),
                    }
                },
            },
    {
        let (ci, cart) = match self.take_cart(&input.cart_id) {
            Some(x) => x,
            None => {
                return Err(PosError::CartNotFound);
            },
        };
        let pct = eq_lit(&input.discount_type, "percentage");
        let res = match &input.sku {
            Some(sku) => discount_line(cart, sku, pct, input.value),
            None => discount_all(cart, pct, input.value),
        };
        match res {
            Some(n) => {
                let total = n.total;
                self.put_cart(ci, Ghost(input.cart_id@), n);
                Ok(total)
            },
            None => Err(PosError::OutOfRange),
        }
    }

    /// A copy of a cart.
    pub fn cart_get(&self, input: CartIdInput) -> (r: Result<Cart, PosError>)
        requires
            self.wf(),
        ensures
            match lookup(self@.carts, input.cart_id@) {
                None => r == Err::<Cart, PosError>(PosError::CartNotFound),
                Some(c) => r matches Ok(cc) && cc@ == c,
            },
    {
        match self.take_cart(&input.cart_id) {
            Some((_, c)) => Ok(c),
            None => Err(PosError::CartNotFound),
        }
    }
}

pub struct BarcodeInput {
    pub barcode: String,
}

impl PosServer {
    /// The first product of the catalog whose barcode or SKU reads the code
    /// given.
    pub fn barcode_lookup(&self, input: BarcodeInput) -> (r: Result<Product, PosError>)
        ensures
            if first_code(self@.products, input.barcode@) == -1 {
                r == Err::<Product, PosError>(PosError::ProductNotFound)
            } else {
                r matches Ok(p) && p@ == self@.products[first_code(self@.products, input.barcode@)].1
            },
    {
        match self.store.lookup_barcode(&input.barcode) {
            Some(p) => Ok(p),
            None => Err(PosError::ProductNotFound),
        }
    }
}

} // verus!
