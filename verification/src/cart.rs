//! Cart arithmetic: line values, tax, discounts and totals.
use vstd::prelude::*;
use crate::money::{
    AMOUNT_LIMIT, MILLI_LIMIT, QUANTITY_LIMIT, RATE_LIMIT, amount_ok, milli_ok, quantity_ok, rate_ok, div_round,
    round_div,
};
use crate::types::{Cart, CartItem, CartItemView, CartView, ProductView};

verus! {

/// Value of `quantity` (thousandths) at `unit_price`, in minor units.
pub open spec fn gross(unit_price: int, quantity: int) -> int {
    div_round(unit_price * quantity, 1000)
}

/// Tax at `rate` (thousandths of a percent) on `quantity` at `unit_price`.
pub open spec fn tax_on(unit_price: int, quantity: int, rate: int) -> int {
    div_round(unit_price * quantity * rate, 100_000_000)
}

/// Line total: value plus tax less discount (thousandths of a minor
/// unit), rounded to minor units.
pub open spec fn line_value(unit_price: int, quantity: int, tax: int, discount: int) -> int {
    div_round(unit_price * quantity + 1000 * tax - discount, 1000)
}

/// A line whose figures the library can compute with exactly.
pub open spec fn item_ok(i: CartItemView) -> bool {
    &&& quantity_ok(i.quantity as int)
    &&& amount_ok(i.unit_price as int)
    &&& milli_ok(i.discount as int)
    &&& amount_ok(i.tax as int)
    &&& amount_ok(i.line_total as int)
    &&& milli_ok(i.unit_price * i.quantity)
}

pub open spec fn items_ok(items: Seq<CartItemView>) -> bool {
    forall|j: int| 0 <= j < items.len() ==> #[trigger] item_ok(items[j])
}

pub open spec fn cart_ok(c: CartView) -> bool {
    &&& items_ok(c.items)
    &&& milli_ok(c.subtotal as int)
    &&& milli_ok(c.total_discount as int)
    &&& amount_ok(c.total_tax as int)
    &&& amount_ok(c.total as int)
}

/// Sum of the lines' unit prices times quantities, unrounded (thousandths
/// of a minor unit).
pub open spec fn sum_gross(items: Seq<CartItemView>) -> int
    decreases items.len(),
{
    if items.len() == 0 {
        0
    } else {
        sum_gross(items.drop_last()) + items.last().unit_price * items.last().quantity
    }
}

pub open spec fn sum_discount(items: Seq<CartItemView>) -> int
    decreases items.len(),
{
    if items.len() == 0 {
        0
    } else {
        sum_discount(items.drop_last()) + items.last().discount
    }
}

pub open spec fn sum_tax(items: Seq<CartItemView>) -> int
    decreases items.len(),
{
    if items.len() == 0 {
        0
    } else {
        sum_tax(items.drop_last()) + items.last().tax
    }
}

/// The total of a cart whose unrounded subtotal is `s` and discount `d`
/// (thousandths of a minor unit) and whose tax is `t` (minor units):
/// subtotal less discount plus tax, rounded to minor units.
pub open spec fn total_of(s: int, d: int, t: int) -> int {
    div_round(s - d + 1000 * t, 1000)
}

/// Whether the totals of `c`'s lines are figures the library holds.
pub open spec fn totals_ok(c: CartView) -> bool {
    let s = sum_gross(c.items);
    let d = sum_discount(c.items);
    let t = sum_tax(c.items);
    milli_ok(s) && milli_ok(d) && amount_ok(t) && amount_ok(total_of(s, d, t))
}

/// `c` with its totals computed from its lines: the unrounded sums of
/// value and discount, the sum of tax, and the total rounded once.
pub open spec fn recalc_spec(c: CartView) -> CartView {
    let s = sum_gross(c.items);
    let d = sum_discount(c.items);
    let t = sum_tax(c.items);
    CartView {
        subtotal: s as i64,
        total_discount: d as i64,
        total_tax: t as i64,
        total: total_of(s, d, t) as i64,
        ..c
    }
}

pub fn to_amount(x: i128) -> (r: Option<i64>)
    ensures
        r is Some <==> amount_ok(x as int),
        r matches Some(v) ==> v as int == x as int,
{
    if -(AMOUNT_LIMIT as i128) <= x && x <= AMOUNT_LIMIT as i128 {
        Some(x as i64)
    } else {
        None
    }
}

pub fn to_milli(x: i128) -> (r: Option<i64>)
    ensures
        r is Some <==> milli_ok(x as int),
        r matches Some(v) ==> v as int == x as int,
{
    if -(MILLI_LIMIT as i128) <= x && x <= MILLI_LIMIT as i128 {
        Some(x as i64)
    } else {
        None
    }
}

pub proof fn lemma_mul_bound(a: int, b: int, x: int, y: int)
    requires
        -x <= a <= x,
        -y <= b <= y,
    ensures
        -(x * y) <= a * b <= x * y,
{
    assert(-(x * y) <= a * b <= x * y) by (nonlinear_arith)
        requires
            -x <= a <= x,
            -y <= b <= y;
}

pub fn gross_exec(unit_price: i64, quantity: i64) -> (r: i128)
    requires
        amount_ok(unit_price as int),
        -2 * QUANTITY_LIMIT <= quantity <= 2 * QUANTITY_LIMIT,
    ensures
        r == gross(unit_price as int, quantity as int),
{
    proof {
        lemma_mul_bound(unit_price as int, quantity as int, AMOUNT_LIMIT as int, 2 * QUANTITY_LIMIT);
    }
    let p: i128 = unit_price as i128 * quantity as i128;
    round_div(p, 1000)
}

pub fn tax_exec(unit_price: i64, quantity: i64, rate: i64) -> (r: i128)
    requires
        amount_ok(unit_price as int),
        -2 * QUANTITY_LIMIT <= quantity <= 2 * QUANTITY_LIMIT,
        rate_ok(rate as int),
    ensures
        r == tax_on(unit_price as int, quantity as int, rate as int),
{
    proof {
        lemma_mul_bound(unit_price as int, quantity as int, AMOUNT_LIMIT as int, 2 * QUANTITY_LIMIT);
    }
    let p: i128 = unit_price as i128 * quantity as i128;
    proof {
        lemma_mul_bound(p as int, rate as int, AMOUNT_LIMIT * 2 * QUANTITY_LIMIT, RATE_LIMIT as int);
    }
    let pr: i128 = p * rate as i128;
    round_div(pr, 100_000_000)
}

pub fn line_value_exec(unit_price: i64, quantity: i64, tax: i128, discount: i128) -> (r: i128)
    requires
        amount_ok(unit_price as int),
        -2 * QUANTITY_LIMIT <= quantity <= 2 * QUANTITY_LIMIT,
        amount_ok(tax as int),
        -2 * MILLI_LIMIT <= discount <= 2 * MILLI_LIMIT,
    ensures
        r == line_value(unit_price as int, quantity as int, tax as int, discount as int),
{
    proof {
        lemma_mul_bound(unit_price as int, quantity as int, AMOUNT_LIMIT as int, 2 * QUANTITY_LIMIT);
    }
    let p: i128 = unit_price as i128 * quantity as i128;
    round_div(p + 1000 * tax - discount, 1000)
}

proof fn lemma_take_last(items: Seq<CartItemView>, i: int)
    requires
        0 <= i < items.len(),
    ensures
        items.take(i + 1).drop_last() == items.take(i),
        items.take(i + 1).last() == items[i],
{
    assert(items.take(i + 1).drop_last() =~= items.take(i));
}

/// The three sums of a cart's lines.
pub fn line_sums(items: &Vec<CartItem>) -> (r: (i128, i128, i128))
    requires
        items_ok(items@.map_values(|i: CartItem| i@)),
    ensures
        r.0 == sum_gross(items@.map_values(|i: CartItem| i@)),
        r.1 == sum_discount(items@.map_values(|i: CartItem| i@)),
        r.2 == sum_tax(items@.map_values(|i: CartItem| i@)),
        -(items@.len() as int) * MILLI_LIMIT <= r.0 <= (items@.len() as int) * MILLI_LIMIT,
        -(items@.len() as int) * MILLI_LIMIT <= r.1 <= (items@.len() as int) * MILLI_LIMIT,
        -(items@.len() as int) * AMOUNT_LIMIT <= r.2 <= (items@.len() as int) * AMOUNT_LIMIT,
{
    let ghost v = items@.map_values(|i: CartItem| i@);
    let n = items.len();
    let mut s: i128 = 0;
    let mut d: i128 = 0;
    let mut t: i128 = 0;
    assert(v.take(0) =~= Seq::<CartItemView>::empty());
    for i in 0..n
        invariant
            n == items@.len(),
            v == items@.map_values(|i: CartItem| i@),
            items_ok(v),
            s == sum_gross(v.take(i as int)),
            d == sum_discount(v.take(i as int)),
            t == sum_tax(v.take(i as int)),
            -(i as int) * MILLI_LIMIT <= s <= (i as int) * MILLI_LIMIT,
            -(i as int) * MILLI_LIMIT <= d <= (i as int) * MILLI_LIMIT,
            -(i as int) * AMOUNT_LIMIT <= t <= (i as int) * AMOUNT_LIMIT,
    {
        proof {
            lemma_take_last(v, i as int);
            assert(item_ok(v[i as int]));
        }
        let it = &items[i];
        let g: i128 = it.unit_price as i128 * it.quantity as i128;
        s = s + g;
        d = d + it.discount as i128;
        t = t + it.tax as i128;
    }
    assert(v.take(n as int) =~= v);
    (s, d, t)
}

/// Recomputes the totals of `cart` from its lines.  Where a total would
/// leave the amounts the library holds, `cart` is left as it was.
pub fn recalc_cart(cart: &mut Cart) -> (ok: bool)
    requires
        items_ok(old(cart)@.items),
    ensures
        ok == totals_ok(old(cart)@),
        ok ==> final(cart)@ == recalc_spec(old(cart)@),
        !ok ==> final(cart)@ == old(cart)@,
{
    let n = cart.items.len();
    let (s, d, t) = line_sums(&cart.items);
    assert(n as int * MILLI_LIMIT <= 0x1_0000_0000_0000_0000 * MILLI_LIMIT);
    let (s1, d1) = match (to_milli(s), to_milli(d)) {
        (Some(a), Some(b)) => (a, b),
        _ => {
            return false;
        },
    };
    let t1 = match to_amount(t) {
        Some(x) => x,
        None => {
            return false;
        },
    };
    let tot = round_div(s1 as i128 - d1 as i128 + 1000 * t1 as i128, 1000);
    match to_amount(tot) {
        Some(tot64) => {
            cart.subtotal = s1;
            cart.total_discount = d1;
            cart.total_tax = t1;
            cart.total = tot64;
            true
        },
        None => false,
    }
}

/// Position of the first line for `sku`, or -1.
pub open spec fn first_sku(items: Seq<CartItemView>, sku: Seq<char>) -> int {
    if exists|i: int| 0 <= i < items.len() && #[trigger] items[i].sku == sku {
        choose|i: int|
            0 <= i < items.len() && #[trigger] items[i].sku == sku && forall|j: int|
                0 <= j < i ==> #[trigger] items[j].sku != sku
    } else {
        -1
    }
}

/// The first line for `sku`, if any.
pub fn find_sku(items: &Vec<CartItem>, sku: &String) -> (r: Option<usize>)
    ensures
        r matches Some(k) ==> k as int == first_sku(items@.map_values(|i: CartItem| i@), sku@) && k
            < items@.len(),
        r is None ==> first_sku(items@.map_values(|i: CartItem| i@), sku@) == -1,
{
    let ghost v = items@.map_values(|i: CartItem| i@);
    let n = items.len();
    for k in 0..n
        invariant
            n == items@.len(),
            v == items@.map_values(|i: CartItem| i@),
            forall|j: int| 0 <= j < k ==> #[trigger] v[j].sku != sku@,
    {
        if items[k].sku == *sku {
            proof {
                assert(v[k as int].sku == sku@);
                let c = first_sku(v, sku@);
                assert(0 <= c < v.len() && v[c].sku == sku@ && forall|j: int| 0 <= j < c ==> #[trigger] v[j].sku != sku@);
                if c < k {
                    assert(v[c].sku != sku@);
                } else if c > k {
                    assert(v[k as int].sku != sku@);
                }
            }
            return Some(k);
        }
    }
    proof {
        if exists|i: int| 0 <= i < v.len() && #[trigger] v[i].sku == sku@ {
            let i = choose|i: int| 0 <= i < v.len() && #[trigger] v[i].sku == sku@;
            assert(v[i].sku != sku@);
        }
    }
    None
}

/// `c` with its totals recomputed, where they are amounts the library holds.
pub open spec fn settle(c: CartView) -> Option<CartView> {
    if totals_ok(c) {
        Some(recalc_spec(c))
    } else {
        None
    }
}

pub open spec fn line_fits(unit_price: int, quantity: int, discount: int, tax: int, total: int) -> bool {
    &&& quantity_ok(quantity)
    &&& amount_ok(unit_price)
    &&& milli_ok(discount)
    &&& amount_ok(tax)
    &&& amount_ok(total)
    &&& milli_ok(unit_price * quantity)
}

/// What adding `qty` of product `p` makes of cart `c`: the quantity of the
/// first line for the product grows and its tax is recomputed at the
/// product's rate, or a new line is added.  None where a figure would leave
/// the amounts the library holds.
pub open spec fn add_spec(c: CartView, p: ProductView, qty: int) -> Option<CartView> {
    let k = first_sku(c.items, p.sku);
    if !quantity_ok(qty) {
        None
    } else if k >= 0 {
        let e = c.items[k];
        let q = e.quantity + qty;
        let tax = tax_on(e.unit_price as int, q, p.tax_rate as int);
        let lt = line_value(e.unit_price as int, q, tax, e.discount as int);
        if line_fits(e.unit_price as int, q, e.discount as int, tax, lt) {
            settle(
                CartView {
                    items: c.items.update(
                        k,
                        CartItemView { quantity: q as i64, tax: tax as i64, line_total: lt as i64, ..e },
                    ),
                    ..c
                },
            )
        } else {
            None
        }
    } else {
        let tax = tax_on(p.price as int, qty, p.tax_rate as int);
        let lt = line_value(p.price as int, qty, tax, 0);
        if line_fits(p.price as int, qty, 0, tax, lt) {
            settle(
                CartView {
                    items: c.items.push(
                        CartItemView {
                            sku: p.sku,
                            name: p.name,
                            quantity: qty as i64,
                            unit_price: p.price,
                            discount: 0,
                            tax: tax as i64,
                            line_total: lt as i64,
                        },
                    ),
                    ..c
                },
            )
        } else {
            None
        }
    }
}

pub open spec fn product_ok(p: ProductView) -> bool {
    amount_ok(p.price as int) && rate_ok(p.tax_rate as int)
}

pub open spec fn placed(c: CartView, at: Option<usize>, line: CartItemView) -> CartView {
    match at {
        Some(k) => CartView { items: c.items.update(k as int, line), ..c },
        None => CartView { items: c.items.push(line), ..c },
    }
}

/// Puts `line` at position `at`, or after the last line, and settles.
pub fn place_line(mut c: Cart, at: Option<usize>, line: CartItem) -> (r: Option<Cart>)
    requires
        cart_ok(c@),
        item_ok(line@),
        at matches Some(k) ==> k < c.items@.len(),
    ensures
        match r {
            Some(n) => settle(placed(c@, at, line@)) == Some(n@) && cart_ok(n@),
            None => settle(placed(c@, at, line@)) is None,
        },
{
    let ghost lv = line@;
    let ghost before = c@;
    match at {
        Some(k) => {
            c.items.set(k, line);
        },
        None => {
            c.items.push(line);
        },
    }
    assert(c@.items =~= placed(before, at, lv).items);
    assert(c@ =~= placed(before, at, lv));
    assert(items_ok(c@.items));
    if recalc_cart(&mut c) {
        Some(c)
    } else {
        None
    }
}

/// A line of the given figures, where they are amounts the library holds.
pub fn make_line(
    sku: String,
    name: String,
    quantity: i64,
    unit_price: i64,
    discount: i64,
    tax: i128,
    total: i128,
) -> (r: Option<CartItem>)
    requires
        quantity_ok(quantity as int),
        amount_ok(unit_price as int),
        milli_ok(discount as int),
    ensures
        r is Some <==> line_fits(unit_price as int, quantity as int, discount as int, tax as int, total as int),
        r matches Some(l) ==> l@ == (CartItemView {
            sku: sku@,
            name: name@,
            quantity,
            unit_price,
            discount,
            tax: tax as i64,
            line_total: total as i64,
        }) && item_ok(l@),
{
    proof {
        lemma_mul_bound(unit_price as int, quantity as int, AMOUNT_LIMIT as int, QUANTITY_LIMIT as int);
    }
    let g: i128 = unit_price as i128 * quantity as i128;
    match (to_amount(tax), to_amount(total), to_milli(g)) {
        (Some(t), Some(lt), Some(_)) => Some(CartItem {
            sku,
            name,
            quantity,
            unit_price,
            discount,
            tax: t,
            line_total: lt,
        }),
        _ => None,
    }
}

pub fn quantity_in_range(q: i64) -> (b: bool)
    ensures
        b == quantity_ok(q as int),
{
    -QUANTITY_LIMIT <= q && q <= QUANTITY_LIMIT
}

/// Adds `qty` (thousandths) of product `p` to `c`; see `add_spec`.
pub fn add_item(c: Cart, p: &crate::types::Product, qty: i64) -> (r: Option<Cart>)
    requires
        cart_ok(c@),
        product_ok(p@),
    ensures
        match r {
            Some(n) => add_spec(c@, p@, qty as int) == Some(n@) && cart_ok(n@),
            None => add_spec(c@, p@, qty as int) is None,
        },
{
    if !quantity_in_range(qty) {
        return None;
    }
    match find_sku(&c.items, &p.sku) {
        Some(k) => {
            let ghost v = c@.items;
            assert(item_ok(v[k as int]));
            let e = &c.items[k];
            let q = e.quantity + qty;
            if !quantity_in_range(q) {
                return None;
            }
            let tax = tax_exec(e.unit_price, q, p.tax_rate);
            if to_amount(tax).is_none() {
                return None;
            }
            let lt = line_value_exec(e.unit_price, q, tax, e.discount as i128);
            let line = make_line(e.sku.clone(), e.name.clone(), q, e.unit_price, e.discount, tax, lt);
            match line {
                Some(l) => {
                    assert(l@ == CartItemView { quantity: q as i64, tax: tax as i64, line_total: lt as i64, ..v[k as int] });
                    place_line(c, Some(k), l)
                },
                None => None,
            }
        },
        None => {
            let tax = tax_exec(p.price, qty, p.tax_rate);
            if to_amount(tax).is_none() {
                return None;
            }
            let lt = line_value_exec(p.price, qty, tax, 0);
            let line = make_line(p.sku.clone(), p.name.clone(), qty, p.price, 0, tax, lt);
            match line {
                Some(l) => place_line(c, None, l),
                None => None,
            }
        },
    }
}

/// The lines of `items` for other products than `sku`, in order.
pub open spec fn without_sku(items: Seq<CartItemView>, sku: Seq<char>) -> Seq<CartItemView>
    decreases items.len(),
{
    if items.len() == 0 {
        items
    } else {
        let rest = without_sku(items.drop_last(), sku);
        if items.last().sku == sku {
            rest
        } else {
            rest.push(items.last())
        }
    }
}

pub proof fn lemma_without_sku_ok(items: Seq<CartItemView>, sku: Seq<char>)
    requires
        items_ok(items),
    ensures
        items_ok(without_sku(items, sku)),
        forall|j: int| 0 <= j < without_sku(items, sku).len() ==> #[trigger] without_sku(items, sku)[j].sku != sku,
    decreases items.len(),
{
    if items.len() > 0 {
        assert(items_ok(items.drop_last()));
        lemma_without_sku_ok(items.drop_last(), sku);
    }
}

/// Cart `c` without its lines for `sku`, settled.
pub open spec fn remove_spec(c: CartView, sku: Seq<char>) -> Option<CartView> {
    settle(CartView { items: without_sku(c.items, sku), ..c })
}

/// Drops every line for `sku` and recomputes the totals.
pub fn remove_sku(mut c: Cart, sku: &String) -> (r: Option<Cart>)
    requires
        cart_ok(c@),
    ensures
        match r {
            Some(n) => remove_spec(c@, sku@) == Some(n@) && cart_ok(n@),
            None => remove_spec(c@, sku@) is None,
        },
{
    let ghost v = c@.items;
    let ghost before = c@;
    let mut kept: Vec<CartItem> = Vec::new();
    let mut old_items: Vec<CartItem> = Vec::new();
    std::mem::swap(&mut old_items, &mut c.items);
    let n = old_items.len();
    assert(v.take(0) =~= Seq::<CartItemView>::empty());
    for i in 0..n
        invariant
            n == old_items@.len(),
            v == old_items@.map_values(|i: CartItem| i@),
            kept@.map_values(|i: CartItem| i@) == without_sku(v.take(i as int), sku@),
    {
        proof {
            lemma_take_last(v, i as int);
        }
        let it = &old_items[i];
        if it.sku != *sku {
            let ghost kv = kept@.map_values(|i: CartItem| i@);
            kept.push(it.duplicate());
            assert(kept@.map_values(|i: CartItem| i@) =~= kv.push(v[i as int]));
        }
    }
    assert(v.take(n as int) =~= v);
    c.items = kept;
    proof {
        lemma_without_sku_ok(v, sku@);
        assert(c@ =~= CartView { items: without_sku(v, sku@), ..before });
    }
    if recalc_cart(&mut c) {
        Some(c)
    } else {
        None
    }
}

/// The share of discount `d` that each of `n` lines takes: an equal part,
/// rounded to thousandths of a minor unit.
pub open spec fn share(d: int, n: int) -> int {
    div_round(d, n)
}

/// Each line with its share of `d` added to its discount.
pub open spec fn spread_items(items: Seq<CartItemView>, d: int) -> Seq<CartItemView> {
    Seq::new(
        items.len(),
        |j: int|
            {
                let it = items[j];
                let nd = it.discount + share(d, items.len() as int);
                CartItemView {
                    discount: nd as i64,
                    line_total: line_value(it.unit_price as int, it.quantity as int, it.tax as int, nd) as i64,
                    ..it
                }
            },
    )
}

pub open spec fn spread_fits(items: Seq<CartItemView>, d: int) -> bool {
    forall|j: int| 0 <= j < items.len() ==> #[trigger] spread_fits_at(items, d, j)
}

/// A discount of `d` (thousandths of a minor unit) spread over all lines
/// of `c`, each line taking an equal share.
pub open spec fn spread_spec(c: CartView, d: int) -> Option<CartView> {
    if !milli_ok(d) || !spread_fits(c.items, d) {
        None
    } else {
        settle(CartView { items: spread_items(c.items, d), ..c })
    }
}

fn share_exec(d: i64, n: usize) -> (r: i64)
    requires
        milli_ok(d as int),
        n > 0,
    ensures
        r == share(d as int, n as int),
        -MILLI_LIMIT <= r <= MILLI_LIMIT,
{
    let m: u128 = if d >= 0 { d as u128 } else { (-(d as i128)) as u128 };
    let nn: u128 = n as u128;
    let q: u128 = (2 * m + nn) / (2 * nn);
    assert(q <= m) by (nonlinear_arith)
        requires
            q == (2 * m + nn) / (2 * nn),
            nn >= 1;
    if d >= 0 {
        q as i64
    } else {
        -(q as i64)
    }
}

/// Adds discount `d` to `c`, shared over its lines; see `spread_spec`.
pub fn spread_discount(mut c: Cart, d: i64) -> (r: Option<Cart>)
    requires
        cart_ok(c@),
    ensures
        match r {
            Some(n) => spread_spec(c@, d as int) == Some(n@) && cart_ok(n@),
            None => spread_spec(c@, d as int) is None,
        },
{
    if to_milli(d as i128).is_none() {
        return None;
    }
    let ghost v = c@.items;
    let ghost before = c@;
    let n = c.items.len();
    let mut new_items: Vec<CartItem> = Vec::new();
    for j in 0..n
        invariant
            n == c.items@.len(),
            v == c@.items,
            c@ == before,
            items_ok(v),
            milli_ok(d as int),
            new_items@.len() == j,
            forall|i: int| 0 <= i < j ==> #[trigger] new_items@[i]@ == spread_items(v, d as int)[i] && item_ok(new_items@[i]@),
            forall|i: int| 0 <= i < j ==> spread_fits_at(v, d as int, i),
    {
        assert(item_ok(v[j as int]));
        let it = &c.items[j];
        let sh = share_exec(d, n);
        let nd = it.discount as i128 + sh as i128;
        let nd64 = match to_milli(nd) {
            Some(x) => x,
            None => {
                proof {
                    assert(!spread_fits_at(v, d as int, j as int));
                }
                return None;
            },
        };
        let lt = line_value_exec(it.unit_price, it.quantity, it.tax as i128, nd);
        match to_amount(lt) {
            Some(lt64) => {
                new_items.push(CartItem {
                    sku: it.sku.clone(),
                    name: it.name.clone(),
                    quantity: it.quantity,
                    unit_price: it.unit_price,
                    discount: nd64,
                    tax: it.tax,
                    line_total: lt64,
                });
            },
            None => {
                proof {
                    assert(!spread_fits_at(v, d as int, j as int));
                }
                return None;
            },
        }
    }
    proof {
        assert(spread_fits(v, d as int)) by {
            assert forall|j: int| 0 <= j < v.len() implies spread_fits_at(v, d as int, j) by {}
        }
    }
    c.items = new_items;
    assert(c@.items =~= spread_items(v, d as int));
    assert(c@ =~= CartView { items: spread_items(v, d as int), ..before });
    if recalc_cart(&mut c) {
        Some(c)
    } else {
        None
    }
}

pub open spec fn spread_fits_at(items: Seq<CartItemView>, d: int, j: int) -> bool {
    let it = items[j];
    let nd = it.discount + share(d, items.len() as int);
    milli_ok(nd) && amount_ok(line_value(it.unit_price as int, it.quantity as int, it.tax as int, nd))
}

/// The discount a line gets, in thousandths of a minor unit: a percentage
/// (thousandths of a percent) of its value, rounded to minor units, or a
/// fixed amount given in thousandths of a currency unit.
pub open spec fn line_discount(it: CartItemView, percentage: bool, value: int) -> int {
    if percentage {
        1000 * tax_on(it.unit_price as int, it.quantity as int, value)
    } else {
        value * 100
    }
}

/// What a discount on the first line for `sku` makes of `c`: the line's
/// discount is replaced.  Where no line has `sku`, `c` is only settled.
pub open spec fn discount_line_spec(c: CartView, sku: Seq<char>, percentage: bool, value: int) -> Option<CartView> {
    let k = first_sku(c.items, sku);
    if k < 0 {
        settle(c)
    } else if percentage && !rate_ok(value) {
        None
    } else {
        let it = c.items[k];
        let nd = line_discount(it, percentage, value);
        let lt = line_value(it.unit_price as int, it.quantity as int, it.tax as int, nd);
        if milli_ok(nd) && amount_ok(lt) {
            settle(CartView { items: c.items.update(k, CartItemView { discount: nd as i64, line_total: lt as i64, ..it }), ..c })
        } else {
            None
        }
    }
}

pub fn rate_in_range(r: i64) -> (b: bool)
    ensures
        b == rate_ok(r as int),
{
    -RATE_LIMIT <= r && r <= RATE_LIMIT
}

/// Sets the discount of the first line for `sku`; see `discount_line_spec`.
pub fn discount_line(mut c: Cart, sku: &String, percentage: bool, value: i64) -> (r: Option<Cart>)
    requires
        cart_ok(c@),
    ensures
        match r {
            Some(n) => discount_line_spec(c@, sku@, percentage, value as int) == Some(n@) && cart_ok(n@),
            None => discount_line_spec(c@, sku@, percentage, value as int) is None,
        },
{
    match find_sku(&c.items, sku) {
        None => {
            if recalc_cart(&mut c) {
                Some(c)
            } else {
                None
            }
        },
        Some(k) => {
            if percentage && !rate_in_range(value) {
                return None;
            }
            let ghost v = c@.items;
            assert(item_ok(v[k as int]));
            let it = &c.items[k];
            let nd: i128 = if percentage {
                let t = tax_exec(it.unit_price, it.quantity, value);
                match to_amount(t) {
                    Some(t64) => 1000 * t64 as i128,
                    None => {
                        return None;
                    },
                }
            } else {
                value as i128 * 100
            };
            let nd64 = match to_milli(nd) {
                Some(x) => x,
                None => {
                    return None;
                },
            };
            let lt = line_value_exec(it.unit_price, it.quantity, it.tax as i128, nd);
            let line = make_line(it.sku.clone(), it.name.clone(), it.quantity, it.unit_price, nd64, it.tax as i128, lt);
            match line {
                Some(l) => {
                    assert(l@ == CartItemView { discount: nd as i64, line_total: lt as i64, ..v[k as int] });
                    place_line(c, Some(k), l)
                },
                None => None,
            }
        },
    }
}

/// The discount a whole-cart request amounts to, in thousandths of a minor
/// unit: a percentage of the cart's subtotal, rounded to minor units, or a
/// fixed amount given in thousandths of a currency unit.
pub open spec fn whole_discount(c: CartView, percentage: bool, value: int) -> int {
    if percentage {
        1000 * div_round(c.subtotal * value, 100_000_000)
    } else {
        value * 100
    }
}

pub open spec fn discount_all_spec(c: CartView, percentage: bool, value: int) -> Option<CartView> {
    if percentage && !rate_ok(value) {
        None
    } else {
        spread_spec(c, whole_discount(c, percentage, value))
    }
}

/// Spreads a whole-cart discount over the lines; see `discount_all_spec`.
pub fn discount_all(c: Cart, percentage: bool, value: i64) -> (r: Option<Cart>)
    requires
        cart_ok(c@),
    ensures
        match r {
            Some(n) => discount_all_spec(c@, percentage, value as int) == Some(n@) && cart_ok(n@),
            None => discount_all_spec(c@, percentage, value as int) is None,
        },
{
    if percentage && !rate_in_range(value) {
        return None;
    }
    let d: i128 = if percentage {
        proof {
            lemma_mul_bound(c.subtotal as int, value as int, MILLI_LIMIT as int, RATE_LIMIT as int);
        }
        let cents = round_div(c.subtotal as i128 * value as i128, 100_000_000);
        match to_amount(cents) {
            Some(x) => 1000 * x as i128,
            None => {
                return None;
            },
        }
    } else {
        value as i128 * 100
    };
    match to_milli(d) {
        Some(d64) => spread_discount(c, d64),
        None => None,
    }
}

/// What a new unit price for line `k` makes of `c`: the line total is
/// recomputed from the new price with the line's tax and discount kept.
pub open spec fn override_spec(c: CartView, k: int, price: int) -> Option<CartView> {
    let it = c.items[k];
    let lt = line_value(price, it.quantity as int, it.tax as int, it.discount as int);
    if line_fits(price, it.quantity as int, it.discount as int, it.tax as int, lt) {
        settle(CartView { items: c.items.update(k, CartItemView { unit_price: price as i64, line_total: lt as i64, ..it }), ..c })
    } else {
        None
    }
}

/// Sets the unit price of line `k`; see `override_spec`.
pub fn override_price(c: Cart, k: usize, price: i64) -> (r: Option<Cart>)
    requires
        cart_ok(c@),
        k < c@.items.len(),
    ensures
        match r {
            Some(n) => override_spec(c@, k as int, price as int) == Some(n@) && cart_ok(n@),
            None => override_spec(c@, k as int, price as int) is None,
        },
{
    if to_amount(price as i128).is_none() {
        return None;
    }
    let ghost v = c@.items;
    assert(item_ok(v[k as int]));
    let it = &c.items[k];
    let lt = line_value_exec(price, it.quantity, it.tax as i128, it.discount as i128);
    let line = make_line(it.sku.clone(), it.name.clone(), it.quantity, price, it.discount, it.tax as i128, lt);
    match line {
        Some(l) => {
            assert(l@ == CartItemView { unit_price: price, line_total: lt as i64, ..v[k as int] });
            place_line(c, Some(k), l)
        },
        None => None,
    }
}

} // verus!
