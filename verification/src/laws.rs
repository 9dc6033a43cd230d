//! Properties of the service that span several requests or hold of every
//! input.
use vstd::prelude::*;
use crate::accounts::{LoyaltyRedeemInput, new_account, redeem_spec, summary_spec};
use crate::cart::{
    add_spec, discount_all_spec, total_of, remove_spec, settle, share, spread_fits, spread_fits_at, spread_items,
    spread_spec, sum_discount, sum_gross, sum_tax, whole_discount, without_sku,
};
use crate::controls::{
    RoleLimitInput, SuspendInput, VoidInput, allows, first_role, limits_of, may_override, may_void,
    recall_spec, suspend_spec,
};
use crate::documents::{
    EInvoiceView, InvoiceBodyView, einvoice_spec, invoice_number, qr_payload,
};
use crate::fiscal::{ReceiptSignInput, sign_spec};
use crate::money::div_round;
use crate::payments::{
    PaymentInput, RefundInput, account_of, accrued, earned_points, first_open_shift, open_for, pay_spec,
    refund_spec,
};
use crate::receipts::{dashes, in_cents, item_lines, qty_text, reprint_lines, rule, sales_receipt};
use crate::server::{PosError, with_cart};
use crate::store::{StoreView, store_ok};
use crate::table::{lemma_drop, lemma_lookup, lemma_put, lookup};
use crate::tenders::{EbtSnapInput, SplitTenderInput, ebt_spec, snap_eligible, split_spec};
use crate::text::{cents_text, pad_right, prefix, rounded_text, signed_decimal};
use crate::types::{
    CartItemView, CartStatus, CartView, FiscalConfigView, LoyaltyAccountView, PaymentStatus, PaymentView, ProductView,
    RoleLimitView, ShiftView,
};

verus! {

/// Parking a cart and recalling it gives back the same active and parked
/// carts, each id with the same cart, and leaves the rest of the state as
/// it was; this holds where no cart of that id was parked already.
pub proof fn law_suspend_then_recall(s: StoreView, i: SuspendInput, ts: Seq<char>)
    requires
        store_ok(s),
        lookup(s.carts, i.cart_id@) is Some,
        lookup(s.suspended, i.cart_id@) is None,
    ensures
        suspend_spec(s, i, ts).1 is Ok,
        recall_spec(suspend_spec(s, i, ts).0, i.cart_id@).1 is Ok,
        ({
            let t = recall_spec(suspend_spec(s, i, ts).0, i.cart_id@).0;
            &&& forall|k: Seq<char>| #[trigger] lookup(t.carts, k) == lookup(s.carts, k)
            &&& forall|k: Seq<char>| #[trigger] lookup(t.suspended, k) == lookup(s.suspended, k)
            &&& t == StoreView { carts: t.carts, suspended: t.suspended, ..s }
        }),
{
    let id = i.cart_id@;
    let c = lookup(s.carts, id).unwrap();
    let u = suspend_spec(s, i, ts).0;
    lemma_drop(s.carts, id);
    let sc = crate::types::SuspendedCartView { cart: c, suspended_at: ts, reason: crate::types::opt_view(i.reason) };
    lemma_put(s.suspended, id, sc);
    assert(lookup(u.suspended, id) == Some(sc));
    let t = recall_spec(u, id).0;
    lemma_drop(u.suspended, id);
    lemma_put(u.carts, id, c);
    assert forall|k: Seq<char>| #[trigger] lookup(t.carts, k) == lookup(s.carts, k) by {
        if k != id {
            assert(lookup(t.carts, k) == lookup(u.carts, k));
        }
    }
    assert forall|k: Seq<char>| #[trigger] lookup(t.suspended, k) == lookup(s.suspended, k) by {
        if k != id {
            assert(lookup(t.suspended, k) == lookup(u.suspended, k));
        }
    }
}

/// A role may void a cart exactly where `authorize_check` allows it the
/// action "void", and may override a price exactly where it allows it
/// "price_override".
pub proof fn law_gates_match_authorization(s: StoreView, role: Seq<char>)
    ensures
        may_void(s, role) <==> first_role(s.roles, role) >= 0 && allows(s.roles[first_role(s.roles, role)], "void"@),
        may_override(s, role) <==> first_role(s.roles, role) >= 0 && allows(
            s.roles[first_role(s.roles, role)],
            "price_override"@,
        ),
{
    reveal_strlit("void");
    reveal_strlit("refund");
    reveal_strlit("price_override");
    assert("price_override"@.len() != "void"@.len());
    assert("price_override"@.len() != "refund"@.len());
}

/// Of two receipts signed one after the other, the second names the hash
/// of the first and has the next number.
pub proof fn law_signatures_chain(s: StoreView, a: ReceiptSignInput, ta: Seq<char>, b: ReceiptSignInput, tb: Seq<char>)
    requires
        store_ok(s),
    ensures
        ({
            let (s1, r1) = sign_spec(s, a, ta);
            let (s2, r2) = sign_spec(s1, b, tb);
            r1 is Ok && r2 is Ok ==> {
                &&& r2->Ok_0.previous_hash == r1->Ok_0.hash
                &&& r2->Ok_0.receipt_number == r1->Ok_0.receipt_number + 1
            }
        }),
{
}

/// Every reprint is marked as a copy at its head and at its foot.
pub proof fn law_reprint_is_copy(c: CartView, business: Seq<char>)
    ensures
        reprint_lines(c, business)[1] == "     *** COPY / DUPLICATE ***   "@,
        reprint_lines(c, business).last() == "       *** COPY ***            "@,
{
}

proof fn lemma_spread_prefix(items: Seq<CartItemView>, d: int, k: nat)
    requires
        items.len() > 0,
        spread_fits(items, d),
        k <= items.len(),
    ensures
        sum_discount(spread_items(items, d).take(k as int)) == sum_discount(items.take(k as int)) + k * share(
            d,
            items.len() as int,
        ),
    decreases k,
{
    let sp = spread_items(items, d);
    if k == 0 {
        assert(sp.take(0) =~= Seq::<CartItemView>::empty());
        assert(items.take(0) =~= Seq::<CartItemView>::empty());
    } else {
        lemma_spread_prefix(items, d, (k - 1) as nat);
        assert(sp.take(k as int).drop_last() =~= sp.take(k - 1));
        assert(items.take(k as int).drop_last() =~= items.take(k - 1));
        assert(spread_fits_at(items, d, k - 1));
        let q = share(d, items.len() as int);
        assert((k - 1) * q + q == k * q) by (nonlinear_arith);
    }
}

/// `n` equal shares of `d`, each rounded, add up to within `n` of `d`.
proof fn lemma_shares_near(d: int, n: int)
    requires
        n > 0,
    ensures
        d - n <= n * share(d, n) <= d + n,
{
    if d >= 0 {
        let q = (2 * d + n) / (2 * n);
        assert(d - n <= n * q <= d + n) by (nonlinear_arith)
            requires
                n > 0,
                d >= 0,
                q == (2 * d + n) / (2 * n),
        ;
    } else {
        let q = (2 * (-d) + n) / (2 * n);
        assert(-d - n <= n * q <= -d + n) by (nonlinear_arith)
            requires
                n > 0,
                -d >= 0,
                q == (2 * (-d) + n) / (2 * n),
        ;
        assert(n * (-q) == -(n * q)) by (nonlinear_arith);
    }
}

/// A discount of `d` spread over a cart's lines gives every line the same
/// share, `d` divided by the number of lines and rounded to thousandths of
/// a minor unit, and raises the sum of the line discounts by that many
/// shares, which comes within one thousandth of a minor unit a line of `d`.
pub proof fn law_spread_is_even(c: CartView, d: int)
    requires
        c.items.len() > 0,
        spread_spec(c, d) is Some,
    ensures
        ({
            let n = c.items.len() as int;
            let r = spread_spec(c, d).unwrap();
            &&& r.items.len() == n
            &&& forall|j: int| 0 <= j < n ==> #[trigger] r.items[j].discount == c.items[j].discount + share(d, n)
            &&& r.total_discount == sum_discount(c.items) + n * share(d, n)
            &&& d - n <= n * share(d, n) <= d + n
        }),
{
    let n = c.items.len();
    let sp = spread_items(c.items, d);
    lemma_spread_prefix(c.items, d, n);
    lemma_shares_near(d, n as int);
    assert(sp.take(n as int) =~= sp);
    assert(c.items.take(n as int) =~= c.items);
    assert forall|j: int| 0 <= j < n implies #[trigger] sp[j].discount == c.items[j].discount + share(d, n as int) by {
        assert(spread_fits_at(c.items, d, j));
    }
}

/// A whole-cart discount gives every line the same share of the discount
/// worked out for the cart.
pub proof fn law_whole_discount_is_even(c: CartView, percentage: bool, value: int)
    requires
        c.items.len() > 0,
        discount_all_spec(c, percentage, value) is Some,
    ensures
        discount_all_spec(c, percentage, value).unwrap().total_discount == sum_discount(c.items)
            + c.items.len() * share(whole_discount(c, percentage, value), c.items.len() as int),
{
    law_spread_is_even(c, whole_discount(c, percentage, value));
}

/// The cash a shift should hold at its close: the opening float plus cash
/// sales less refunds.
pub open spec fn expected_cash(sh: ShiftView) -> int {
    sh.opening_float + sh.cash_sales - sh.refunds
}

proof fn lemma_first_open(shifts: Seq<(Seq<char>, ShiftView)>, cashier: Seq<char>, i: int)
    requires
        0 <= i < shifts.len(),
        open_for(shifts[i].1, cashier),
    ensures
        0 <= first_open_shift(shifts, cashier) < shifts.len(),
    decreases i,
{
    if exists|j: int| 0 <= j < i && #[trigger] open_for(shifts[j].1, cashier) {
        let j = choose|j: int| 0 <= j < i && #[trigger] open_for(shifts[j].1, cashier);
        lemma_first_open(shifts, cashier, j);
    } else {
        assert(forall|j: int| 0 <= j < i ==> !#[trigger] open_for(shifts[j].1, cashier));
    }
}

/// A shift position that is not -1 lies within the shifts.
proof fn lemma_open_shift_in_range(shifts: Seq<(Seq<char>, ShiftView)>, cashier: Seq<char>)
    requires
        first_open_shift(shifts, cashier) >= 0,
    ensures
        first_open_shift(shifts, cashier) < shifts.len(),
{
    if exists|i: int| 0 <= i < shifts.len() && #[trigger] open_for(shifts[i].1, cashier) {
        let i = choose|i: int| 0 <= i < shifts.len() && #[trigger] open_for(shifts[i].1, cashier);
        lemma_first_open(shifts, cashier, i);
    }
}

/// A cash payment taken while the cart's cashier has a shift open raises
/// the cash that shift is expected to hold at its close by the amount
/// paid; any other payment leaves it as it was.
pub proof fn law_payment_moves_expected_cash(s: StoreView, i: PaymentInput, sfx: Seq<char>, ts: Seq<char>)
    requires
        store_ok(s),
        pay_spec(s, i, sfx, ts).1 is Ok,
        first_open_shift(s.shifts, lookup(s.carts, i.cart_id@).unwrap().cashier) >= 0,
    ensures
        ({
            let k = first_open_shift(s.shifts, lookup(s.carts, i.cart_id@).unwrap().cashier);
            let (t, r) = pay_spec(s, i, sfx, ts);
            &&& t.shifts.len() == s.shifts.len()
            &&& t.shifts[k].0 == s.shifts[k].0
            &&& i.method@ == "cash"@ ==> expected_cash(t.shifts[k].1) == expected_cash(s.shifts[k].1) + r->Ok_0.1
            &&& i.method@ != "cash"@ ==> expected_cash(t.shifts[k].1) == expected_cash(s.shifts[k].1)
        }),
{
    lemma_open_shift_in_range(s.shifts, lookup(s.carts, i.cart_id@).unwrap().cashier);
}

/// A refund for a cart whose cashier has a shift open lowers the cash that
/// shift is expected to hold at its close by the amount refunded.
pub proof fn law_refund_moves_expected_cash(s: StoreView, i: RefundInput, sfx: Seq<char>, ts: Seq<char>)
    requires
        store_ok(s),
        refund_spec(s, i, sfx, ts).1 is Ok,
        first_open_shift(s.shifts, lookup(s.carts, i.cart_id@).unwrap().cashier) >= 0,
    ensures
        ({
            let k = first_open_shift(s.shifts, lookup(s.carts, i.cart_id@).unwrap().cashier);
            let (t, r) = refund_spec(s, i, sfx, ts);
            &&& t.shifts.len() == s.shifts.len()
            &&& t.shifts[k].0 == s.shifts[k].0
            &&& expected_cash(t.shifts[k].1) == expected_cash(s.shifts[k].1) - r->Ok_0.1
        }),
{
    lemma_open_shift_in_range(s.shifts, lookup(s.carts, i.cart_id@).unwrap().cashier);
}

/// A cart whose totals were worked out from its lines has as subtotal the
/// unrounded sum of its prices times quantities, as discount and tax the
/// sums of its lines', and as total subtotal less discount plus tax rounded
/// once; working them out again changes nothing.
pub proof fn law_settle_is_stable(c: CartView)
    requires
        settle(c) is Some,
    ensures
        ({
            let n = settle(c).unwrap();
            &&& n.total == total_of(n.subtotal as int, n.total_discount as int, n.total_tax as int)
            &&& n.subtotal == sum_gross(n.items)
            &&& n.total_discount == sum_discount(n.items)
            &&& n.total_tax == sum_tax(n.items)
            &&& settle(n) == Some(n)
        }),
{
}

proof fn lemma_without_absent(items: Seq<CartItemView>, sku: Seq<char>)
    requires
        forall|i: int| 0 <= i < items.len() ==> #[trigger] items[i].sku != sku,
    ensures
        without_sku(items, sku) == items,
    decreases items.len(),
{
    if items.len() > 0 {
        let rest = items.drop_last();
        assert forall|i: int| 0 <= i < rest.len() implies #[trigger] rest[i].sku != sku by {
            assert(rest[i] == items[i]);
        }
        lemma_without_absent(rest, sku);
        assert(items.last().sku != sku);
        assert(rest.push(items.last()) =~= items);
    }
}

/// Removing a product that was just added to a cart with no line for it
/// gives back the cart with its totals worked out from its lines.
pub proof fn law_remove_undoes_add(c: CartView, p: ProductView, qty: int)
    requires
        forall|i: int| 0 <= i < c.items.len() ==> #[trigger] c.items[i].sku != p.sku,
        add_spec(c, p, qty) is Some,
    ensures
        remove_spec(add_spec(c, p, qty).unwrap(), p.sku) == settle(c),
{
    let n = add_spec(c, p, qty).unwrap();
    let line = n.items.last();
    assert(n.items =~= c.items.push(line));
    lemma_without_absent(c.items, p.sku);
    assert(without_sku(n.items, p.sku) =~= c.items) by {
        assert(n.items.drop_last() =~= c.items);
    }
    assert(CartView { items: without_sku(n.items, p.sku), ..n }.items == c.items);
}


/// A voided cart cannot be paid: a payment after a void is refused as the
/// cart is not open, and so is a split tender.
pub proof fn law_voided_cart_is_not_paid(
    s: StoreView,
    v: VoidInput,
    i: PaymentInput,
    sfx: Seq<char>,
    ts: Seq<char>,
    sp: SplitTenderInput,
    sfxs: Seq<Seq<char>>,
)
    requires
        store_ok(s),
        may_void(s, v.role@),
        lookup(s.carts, v.cart_id@) is Some,
        i.cart_id@ == v.cart_id@,
        sp.cart_id@ == v.cart_id@,
    ensures
        ({
            let c = lookup(s.carts, v.cart_id@).unwrap();
            let t = with_cart(s, v.cart_id@, CartView { status: CartStatus::Voided, ..c });
            &&& pay_spec(t, i, sfx, ts) == (t, Err::<(Seq<char>, i64, i64, i64), PosError>(PosError::CartNotOpen(CartStatus::Voided)))
            &&& split_spec(t, sp, sfxs, ts).1 == Err::<(i64, Seq<(Seq<char>, i64, i64)>), PosError>(PosError::CartNotOpen(CartStatus::Voided))
        }),
{
    let c = lookup(s.carts, v.cart_id@).unwrap();
    lemma_put(s.carts, v.cart_id@, CartView { status: CartStatus::Voided, ..c });
}

/// A cart that has been paid cannot be paid again: the second payment is
/// refused as the cart is checked out, and nothing changes.
pub proof fn law_paid_cart_is_not_paid_again(
    s: StoreView,
    a: PaymentInput,
    sa: Seq<char>,
    ta: Seq<char>,
    b: PaymentInput,
    sb: Seq<char>,
    tb: Seq<char>,
)
    requires
        store_ok(s),
        pay_spec(s, a, sa, ta).1 is Ok,
        b.cart_id@ == a.cart_id@,
    ensures
        ({
            let t = pay_spec(s, a, sa, ta).0;
            pay_spec(t, b, sb, tb) == (t, Err::<(Seq<char>, i64, i64, i64), PosError>(PosError::CartNotOpen(CartStatus::CheckedOut)))
        }),
{
    let c = lookup(s.carts, a.cart_id@).unwrap();
    lemma_put(s.carts, a.cart_id@, CartView { status: CartStatus::CheckedOut, ..c });
}

/// Redeeming loyalty points takes exactly those points from the account
/// and spreads their value, one currency unit a point, over the cart's
/// lines in equal shares; where the account holds too few, nothing but
/// the account's opening changes.
pub proof fn law_redeem_takes_points(s: StoreView, i: LoyaltyRedeemInput)
    requires
        store_ok(s),
    ensures
        ({
            let (t, r) = redeem_spec(s, i);
            let before = match lookup(s.loyalty, i.customer_id@) {
                Some(a) => a.points,
                None => 0u64,
            };
            &&& before < i.points ==> r == Err::<(u64, i64, i64), PosError>(
                PosError::InsufficientPoints { available: before, requested: i.points },
            ) && t.carts == s.carts
            &&& r is Ok ==> {
                &&& lookup(t.loyalty, i.customer_id@).unwrap().points == before - i.points
                &&& lookup(s.carts, i.cart_id@) is Some
                &&& lookup(s.carts, i.cart_id@).unwrap().items.len() > 0 ==> sum_discount(
                    lookup(t.carts, i.cart_id@).unwrap().items,
                ) == sum_discount(lookup(s.carts, i.cart_id@).unwrap().items) + lookup(s.carts, i.cart_id@).unwrap().items.len()
                    * share(100_000 * i.points, lookup(s.carts, i.cart_id@).unwrap().items.len() as int)
            }
        }),
{
    let acct = match lookup(s.loyalty, i.customer_id@) {
        Some(a) => a,
        None => new_account(i.customer_id@),
    };
    lemma_put(s.loyalty, i.customer_id@, LoyaltyAccountView { points: (acct.points - i.points) as u64, ..acct });
    let (t, r) = redeem_spec(s, i);
    if r is Ok {
        let c = lookup(s.carts, i.cart_id@).unwrap();
        let n = spread_spec(c, i.points * 100_000).unwrap();
        lemma_put(s.carts, i.cart_id@, n);
        if c.items.len() > 0 {
            law_spread_is_even(c, i.points * 100_000);
        }
    }
}


proof fn lemma_first_role(roles: Seq<RoleLimitView>, name: Seq<char>, i: int)
    requires
        0 <= i < roles.len(),
        roles[i].role == name,
    ensures
        0 <= first_role(roles, name) <= i,
        roles[first_role(roles, name)].role == name,
    decreases i,
{
    if exists|j: int| 0 <= j < i && #[trigger] roles[j].role == name {
        let j = choose|j: int| 0 <= j < i && #[trigger] roles[j].role == name;
        lemma_first_role(roles, name, j);
    } else {
        assert(forall|j: int| 0 <= j < i ==> #[trigger] roles[j].role != name);
    }
}

/// After a role's limits are set, `authorize_check` answers by the new
/// limits for every action, and the role's void and price-override gates
/// follow them.
pub proof fn law_set_limits_then_authorize(s: StoreView, i: RoleLimitInput, action: Seq<char>)
    ensures
        ({
            let k = first_role(s.roles, i.role@);
            let t = StoreView {
                roles: if k >= 0 { s.roles.update(k, limits_of(i)) } else { s.roles.push(limits_of(i)) },
                ..s
            };
            let j = first_role(t.roles, i.role@);
            &&& j >= 0
            &&& t.roles[j] == limits_of(i)
            &&& allows(t.roles[j], action) == allows(limits_of(i), action)
            &&& may_void(t, i.role@) == i.can_void
            &&& may_override(t, i.role@) == i.can_price_override
        }),
{
    let k = first_role(s.roles, i.role@);
    let rs = if k >= 0 { s.roles.update(k, limits_of(i)) } else { s.roles.push(limits_of(i)) };
    if k >= 0 {
        if exists|w: int| 0 <= w < s.roles.len() && #[trigger] s.roles[w].role == i.role@ {
            let w = choose|w: int| 0 <= w < s.roles.len() && #[trigger] s.roles[w].role == i.role@;
            lemma_first_role(s.roles, i.role@, w);
        }
        assert(0 <= k < s.roles.len());
        lemma_first_role(rs, i.role@, k);
        let j = first_role(rs, i.role@);
        if j < k {
            assert(rs[j] == s.roles[j]);
            assert(first_role(s.roles, i.role@) <= j) by {
                lemma_first_role(s.roles, i.role@, j);
            }
        }
    } else {
        let n = s.roles.len() as int;
        assert(rs[n].role == i.role@);
        lemma_first_role(rs, i.role@, n);
        let j = first_role(rs, i.role@);
        if j < n {
            assert(rs[j] == s.roles[j]);
            lemma_first_role(s.roles, i.role@, j);
        }
    }
}


/// A sale paid for a cart with a customer adds the points it earns to
/// that customer's account, opening one where there was none, and its
/// amount to what the customer has spent.
pub proof fn law_sale_earns_points(s: StoreView, i: PaymentInput, sfx: Seq<char>, ts: Seq<char>, cid: Seq<char>)
    requires
        store_ok(s),
        pay_spec(s, i, sfx, ts).1 is Ok,
        lookup(s.carts, i.cart_id@).unwrap().customer_id == Some(cid),
    ensures
        ({
            let (t, r) = pay_spec(s, i, sfx, ts);
            let amount = r->Ok_0.1 as int;
            &&& lookup(t.loyalty, cid) == Some(accrued(account_of(s, cid), amount))
            &&& lookup(t.loyalty, cid).unwrap().points == account_of(s, cid).points + earned_points(amount)
        }),
{
    let amount = pay_spec(s, i, sfx, ts).1->Ok_0.1 as int;
    lemma_put(s.loyalty, cid, accrued(account_of(s, cid), amount));
}


/// An e-invoice with its issue date and time left blank.
pub open spec fn without_time(e: EInvoiceView) -> EInvoiceView {
    EInvoiceView {
        body: match e.body {
            Some(b) => Some(InvoiceBodyView { issue_date: seq![], issued_at: seq![], ..b }),
            None => None,
        },
        ..e
    }
}

/// The standards whose codes are drawn from the clock or from fresh ids.
pub open spec fn stamped_standard(s: Seq<char>) -> bool {
    s == "zatca"@ || s == "tra_efd"@ || s == "tse_de"@ || s == "nf525_fr"@ || s == "rt_it"@
        || s == "ticketbai_es"@
}

/// Generating an e-invoice takes no receipt number (it only reads the
/// store): two e-invoices of one cart carry the same number, the receipt
/// prefix, a dash and the next receipt number in at least six digits.
/// Apart from the issue date and time they are the same, whenever and with
/// whatever fresh ids they are made, in every standard whose codes are not
/// drawn from the clock or from fresh ids; made at the same time with the
/// same ids they are the same in every standard.
pub proof fn law_einvoice_repeatable(
    standard: Seq<char>,
    tax_id: Option<Seq<char>>,
    name: Option<Seq<char>>,
    f: FiscalConfigView,
    c: CartView,
    t1: Seq<char>,
    a1: Seq<char>,
    b1: Seq<char>,
    t2: Seq<char>,
    a2: Seq<char>,
    b2: Seq<char>,
)
    ensures
        ({
            let e1 = einvoice_spec(standard, tax_id, name, f, c, t1, a1, b1);
            let e2 = einvoice_spec(standard, tax_id, name, f, c, t2, a2, b2);
            &&& e1.invoice_number == invoice_number(f)
            &&& e2.invoice_number == e1.invoice_number
            &&& !stamped_standard(standard) ==> without_time(e1) == without_time(e2)
            &&& (t1 == t2 && a1 == a2 && b1 == b2) ==> e1 == e2
        }),
{
}


/// A payment taken while the cart's cashier has a shift open is counted in
/// that shift: one more transaction, and the amount paid added to its cash
/// sales for "cash", to its card sales for "card", and to its mobile sales
/// for any other method, the other two left as they were.  So the shift's
/// sales all told, which its close reports, grow by the amount paid, and
/// its float and refunds stay as they were.
pub proof fn law_sale_counted_in_shift(s: StoreView, i: PaymentInput, sfx: Seq<char>, ts: Seq<char>)
    requires
        store_ok(s),
        pay_spec(s, i, sfx, ts).1 is Ok,
        first_open_shift(s.shifts, lookup(s.carts, i.cart_id@).unwrap().cashier) >= 0,
    ensures
        ({
            let k = first_open_shift(s.shifts, lookup(s.carts, i.cart_id@).unwrap().cashier);
            let (t, r) = pay_spec(s, i, sfx, ts);
            let a = r->Ok_0.1 as int;
            let m = i.method@;
            let before = s.shifts[k].1;
            let after = t.shifts[k].1;
            &&& t.shifts.len() == s.shifts.len()
            &&& t.shifts[k].0 == s.shifts[k].0
            &&& after.transactions == before.transactions + 1
            &&& after.cash_sales == before.cash_sales + (if m == "cash"@ { a } else { 0 })
            &&& after.card_sales == before.card_sales + (if m == "card"@ { a } else { 0 })
            &&& after.mobile_sales == before.mobile_sales + (if m != "cash"@ && m != "card"@ { a } else { 0 })
            &&& after.cash_sales + after.card_sales + after.mobile_sales == before.cash_sales + before.card_sales
                + before.mobile_sales + a
            &&& after.opening_float == before.opening_float
            &&& after.refunds == before.refunds
            &&& after.cashier == before.cashier
            &&& after.status == before.status
        }),
{
    reveal_strlit("cash");
    reveal_strlit("card");
    assert("cash"@[3] != "card"@[3]);
    lemma_open_shift_in_range(s.shifts, lookup(s.carts, i.cart_id@).unwrap().cashier);
}

/// Taking payment for an open cart records one payment for it, by the
/// method asked, of the amount asked or else the cart's total, tendered as
/// given or else the amount, with the change, tendered less amount, for
/// cash and none for other methods; and it checks the cart out.
pub proof fn law_payment_recorded(s: StoreView, i: PaymentInput, sfx: Seq<char>, ts: Seq<char>)
    requires
        store_ok(s),
        pay_spec(s, i, sfx, ts).1 is Ok,
    ensures
        ({
            let c = lookup(s.carts, i.cart_id@).unwrap();
            let (t, r) = pay_spec(s, i, sfx, ts);
            let (id, amount, tendered, change) = r->Ok_0;
            let p = t.payments.last();
            &&& c.status == CartStatus::Open
            &&& amount == (match i.amount {
                Some(a) => a,
                None => c.total,
            })
            &&& tendered == (match i.tendered {
                Some(x) => x,
                None => amount,
            })
            &&& change == (if i.method@ == "cash"@ { tendered - amount } else { 0 })
            &&& t.payments == s.payments.push(p)
            &&& p.id == id && p.cart_id == i.cart_id@ && p.method == i.method@
            &&& p.amount == amount && p.tendered == tendered && p.change == change
            &&& p.status == PaymentStatus::Completed
            &&& lookup(t.carts, i.cart_id@) == Some(CartView { status: CartStatus::CheckedOut, ..c })
        }),
{
    let c = lookup(s.carts, i.cart_id@).unwrap();
    let t = pay_spec(s, i, sfx, ts).0;
    lemma_put(s.carts, i.cart_id@, CartView { status: CartStatus::CheckedOut, ..c });
    assert(t.payments.drop_last() =~= s.payments);
}

/// The total SNAP may pay for adds up a cart's lines one by one: it is
/// nothing for no lines, and a further line adds its total where it bears
/// no tax and nothing where it does.  So it is additive over joined lists
/// of lines.
pub proof fn law_snap_eligible_adds(items: Seq<CartItemView>, more: Seq<CartItemView>, l: CartItemView)
    ensures
        snap_eligible(Seq::<CartItemView>::empty()) == 0,
        snap_eligible(items.push(l)) == snap_eligible(items) + (if l.tax == 0 { l.line_total as int } else { 0 }),
        snap_eligible(items + more) == snap_eligible(items) + snap_eligible(more),
    decreases more.len(),
{
    assert(items.push(l).drop_last() =~= items);
    if more.len() == 0 {
        assert(items + more =~= items);
    } else {
        law_snap_eligible_adds(items, more.drop_last(), l);
        assert((items + more).drop_last() =~= items + more.drop_last());
        assert((items + more).last() == more.last());
    }
}

/// An EBT/SNAP payment reports as eligible the total of the cart's lines
/// that bear no tax, applies that total or the amount asked if less, and
/// leaves the rest of the cart's total to pay; the cart is checked out
/// where nothing remains, and left as it was otherwise.
pub proof fn law_ebt_pays_untaxed_lines(s: StoreView, i: EbtSnapInput, sfx: Seq<char>, ts: Seq<char>)
    requires
        store_ok(s),
        ebt_spec(s, i, sfx, ts).1 is Ok,
    ensures
        ({
            let c = lookup(s.carts, i.cart_id@).unwrap();
            let (t, r) = ebt_spec(s, i, sfx, ts);
            let (eligible, applied, remaining) = r->Ok_0;
            let asked: int = match i.amount {
                Some(a) => a as int,
                None => eligible as int,
            };
            &&& eligible == snap_eligible(c.items)
            &&& applied == (if asked < eligible { asked } else { eligible as int })
            &&& remaining == c.total - applied
            &&& t.payments == s.payments.push(t.payments.last())
            &&& t.payments.last().amount == applied
            &&& t.payments.last().method == "ebt_snap"@
            &&& remaining <= 0 ==> lookup(t.carts, i.cart_id@) == Some(CartView { status: CartStatus::CheckedOut, ..c })
            &&& remaining > 0 ==> t.carts == s.carts
        }),
{
    let c = lookup(s.carts, i.cart_id@).unwrap();
    let (t, r) = ebt_spec(s, i, sfx, ts);
    lemma_lookup(s.carts, i.cart_id@);
    assert(t.payments.drop_last() =~= s.payments);
    if r->Ok_0.2 <= 0 {
        lemma_put(s.carts, i.cart_id@, CartView { status: CartStatus::CheckedOut, ..c });
        assert(lookup(t.carts, i.cart_id@) == Some(CartView { status: CartStatus::CheckedOut, ..c }));
    }
}

/// The daily summary adds up the day's payments one by one.  With no
/// payments every figure is nought.  A payment recorded on the day counts
/// as a sale where its amount is positive, and adds its amount to the cash
/// sales where it is a cash payment of a positive amount, to the card
/// sales where its method is "card", and to the mobile sales where its
/// method is "mobile_money"; a negative one adds its magnitude to the
/// refunds.  A payment of another day changes nothing.  The net is the
/// three kinds of sales less the refunds, and the average sale the three
/// kinds of sales over the number of sales, rounded to a minor unit.
pub proof fn law_summary_adds_payments(ps: Seq<PaymentView>, p: PaymentView, date: Seq<char>)
    ensures
        summary_spec(Seq::<PaymentView>::empty(), date) == (date, 0int, 0int, 0int, 0int, 0int, 0int, 0int),
        ({
            let a = summary_spec(ps, date);
            let b = summary_spec(ps.push(p), date);
            let today = prefix(p.timestamp, 10) == date;
            let x = p.amount as int;
            &&& b.0 == date
            &&& b.1 == a.1 + (if today && x > 0 { 1int } else { 0 })
            &&& b.2 == a.2 + (if today && p.method == "cash"@ && x > 0 { x } else { 0 })
            &&& b.3 == a.3 + (if today && p.method == "card"@ { x } else { 0 })
            &&& b.4 == a.4 + (if today && p.method == "mobile_money"@ { x } else { 0 })
            &&& b.5 == a.5 + (if today && x < 0 { -x } else { 0 })
            &&& b.6 == b.2 + b.3 + b.4 - b.5
            &&& b.7 == (if b.1 > 0 { div_round(b.2 + b.3 + b.4, b.1) } else { 0 })
        }),
{
    assert(ps.push(p).drop_last() =~= ps);
}

proof fn lemma_item_line_at(items: Seq<CartItemView>, cur: Seq<char>, j: int)
    requires
        0 <= j < items.len(),
    ensures
        item_lines(items, cur)[2 * j] == pad_right(items[j].name, 20) + " x"@ + qty_text(items[j].quantity),
        item_lines(items, cur)[2 * j + 1] == "  "@ + cur + seq![' '] + cents_text(items[j].line_total as int),
    decreases items.len(),
{
    lemma_item_lines_len(items.drop_last(), cur);
    if j < items.len() - 1 {
        lemma_item_line_at(items.drop_last(), cur, j);
    }
}

proof fn lemma_item_lines_len(items: Seq<CartItemView>, cur: Seq<char>)
    ensures
        item_lines(items, cur).len() == 2 * items.len(),
    decreases items.len(),
{
    if items.len() > 0 {
        lemma_item_lines_len(items.drop_last(), cur);
    }
}

/// On a sales receipt, the header's six lines are followed by two lines
/// per item, in order: its name padded to 20 and its quantity, then its
/// total after the currency.  A rule and the subtotal in minor units come
/// next.  A cart with a
/// discount then shows the line "Discount:   -", its currency, a space and
/// the discount in minor units with two decimals; a cart without one goes
/// straight on.  The tax and the total come next, each after its label,
/// the currency and a space.
pub proof fn law_receipt_shows_discount(c: CartView, ps: Seq<PaymentView>, id: Seq<char>)
    ensures
        ({
            let r = sales_receipt(c, ps, id);
            let n = 6 + 2 * c.items.len() as int;
            let cur = c.currency;
            let at = if c.total_discount > 0 { n + 3 } else { n + 2 };
            &&& forall|j: int| 0 <= j < c.items.len() ==> #[trigger] r[6 + 2 * j] == pad_right(c.items[j].name, 20)
                + " x"@ + qty_text(c.items[j].quantity) && r[7 + 2 * j] == "  "@ + cur + seq![' '] + cents_text(
                c.items[j].line_total as int,
            )
            &&& r[n] == "--------------------------------"@
            &&& r[n + 1] == "Subtotal:    "@ + cur + seq![' '] + cents_text(in_cents(c.subtotal) as int)
            &&& c.total_discount > 0 ==> r[n + 2] == "Discount:   -"@ + cur + seq![' '] + cents_text(
                in_cents(c.total_discount) as int,
            )
            &&& r[at] == "Tax:         "@ + cur + seq![' '] + cents_text(c.total_tax as int)
            &&& r[at + 1] == "TOTAL:       "@ + cur + seq![' '] + cents_text(c.total as int)
        }),
{
    let r = sales_receipt(c, ps, id);
    let cur = c.currency;
    let il = item_lines(c.items, cur);
    let head = seq![rule(), "         SALES RECEIPT          "@, rule(), "Date: "@ + prefix(c.created_at, 10), "Cashier: "@ + c.cashier, dashes()];
    lemma_item_lines_len(c.items, cur);
    assert(head.len() == 6);
    assert(r.subrange(6, 6 + il.len() as int) =~= il) by {
        assert forall|k: int| 0 <= k < il.len() implies r[6 + k] == il[k] by {}
    }
    assert forall|j: int| 0 <= j < c.items.len() implies #[trigger] r[6 + 2 * j] == pad_right(c.items[j].name, 20)
        + " x"@ + qty_text(c.items[j].quantity) && r[7 + 2 * j] == "  "@ + cur + seq![' '] + cents_text(
        c.items[j].line_total as int,
    ) by {
        lemma_item_line_at(c.items, cur, j);
        assert(r.subrange(6, 6 + il.len() as int)[2 * j] == il[2 * j]);
        assert(r.subrange(6, 6 + il.len() as int)[2 * j + 1] == il[2 * j + 1]);
    }
}

/// Cart `c` with its total replaced by `x`.
pub open spec fn with_total(c: CartView, x: i64) -> CartView {
    CartView { total: x, ..c }
}

/// How a payment QR code of type `t` writes an amount of `x` minor units:
/// in minor units for wechat, in whole dong (halves to even) for vnpay and
/// momo_vn, and in currency units with two decimals for every other type.
pub open spec fn written_total(t: Seq<char>, x: int) -> Seq<char> {
    if t == "wechat"@ {
        signed_decimal(x)
    } else if t == "vnpay"@ || t == "momo_vn"@ {
        rounded_text(x, 100)
    } else {
        cents_text(x)
    }
}

/// Whether every QR payload of type `t` for cart `c`, whatever the cart's
/// total, reads `pre`, then the total as type `t` writes it, then `post`.
pub open spec fn total_framed(
    t: Seq<char>,
    m: Seq<char>,
    business: Seq<char>,
    c: CartView,
    ts: Seq<char>,
    pre: Seq<char>,
    post: Seq<char>,
) -> bool {
    forall|x: i64| #[trigger] qr_payload(t, m, business, with_total(c, x), ts) == pre + written_total(t, x as int) + post
}

/// The QR types written in minor or whole units differ from every type
/// tested before them.
proof fn lemma_qr_types_differ(t: Seq<char>)
    ensures
        t == "wechat"@ ==> t != "upi"@,
        t == "vnpay"@ || t == "momo_vn"@ ==> {
            &&& t != "upi"@ && t != "wechat"@ && t != "alipay"@ && t != "mpesa"@ && t != "mtn_momo"@
            &&& t != "airtel_money"@ && t != "telebirr"@ && t != "tigo_pesa"@ && t != "snapscan"@
            &&& t != "opay"@ && t != "palmpay"@ && t != "fawry"@ && t != "paynow_sg"@ && t != "duitnow_my"@
            &&& t != "promptpay_th"@ && t != "qris_id"@ && t != "gcash_ph"@ && t != "maya_ph"@
        },
        t == "momo_vn"@ ==> t != "vnpay"@,
{
    reveal_strlit("upi");
    reveal_strlit("wechat");
    reveal_strlit("alipay");
    reveal_strlit("mpesa");
    reveal_strlit("mtn_momo");
    reveal_strlit("airtel_money");
    reveal_strlit("telebirr");
    reveal_strlit("tigo_pesa");
    reveal_strlit("snapscan");
    reveal_strlit("opay");
    reveal_strlit("palmpay");
    reveal_strlit("fawry");
    reveal_strlit("paynow_sg");
    reveal_strlit("duitnow_my");
    reveal_strlit("promptpay_th");
    reveal_strlit("qris_id");
    reveal_strlit("gcash_ph");
    reveal_strlit("maya_ph");
    reveal_strlit("vnpay");
    reveal_strlit("momo_vn");
    if t == "wechat"@ {
        assert(t.len() == 6);
        assert("upi"@.len() == 3);
    }
    if t == "vnpay"@ {
        assert(t[0] == 'v');
        assert("mpesa"@[0] == 'm');
        assert("fawry"@[0] == 'f');
    }
    if t == "momo_vn"@ {
        assert(t[0] == 'm' && t[1] == 'o');
        assert("palmpay"@[0] == 'p');
        assert("qris_id"@[0] == 'q');
        assert("maya_ph"@[1] == 'a');
    }
}

/// The text around the amount in a payload of type `t`.
spec fn amount_frame(t: Seq<char>, m: Seq<char>, business: Seq<char>, c: CartView, ts: Seq<char>) -> (Seq<char>, Seq<char>) {
    if t == "upi"@ {
        ("upi://pay?pa="@ + m + "&pn="@ + business + "&am="@, "&cu=INR&tn=POS-"@ + c.id)
    } else if t == "wechat"@ {
        ("wxp://f2f/"@ + m + "/pay?total_fee="@, "&body=POS-"@ + c.id)
    } else if t == "alipay"@ {
        ("https://qr.alipay.com/"@ + m + "?amount="@, "&memo=POS-"@ + c.id)
    } else if t == "mpesa"@ {
        ("MPESA:BUY_GOODS:"@ + m + ":"@ + c.id + ":"@, seq![])
    } else if t == "mtn_momo"@ {
        ("MOMO:PAY:"@ + m + ":"@ + c.id + ":"@, ":"@ + c.currency)
    } else if t == "airtel_money"@ {
        ("AIRTEL:PAY:"@ + m + ":"@ + c.id + ":"@, ":"@ + c.currency)
    } else if t == "telebirr"@ {
        ("TELEBIRR:PAY:"@ + m + ":"@ + c.id + ":"@, ":ETB"@)
    } else if t == "tigo_pesa"@ {
        ("TIGO:PAY:"@ + m + ":"@ + c.id + ":"@, ":TZS"@)
    } else if t == "snapscan"@ {
        ("SNAPSCAN:"@ + m + ":"@ + c.id + ":"@, ":ZAR"@)
    } else if t == "opay"@ {
        ("OPAY:PAY:"@ + m + ":"@ + c.id + ":"@, ":NGN"@)
    } else if t == "palmpay"@ {
        ("PALMPAY:"@ + m + ":"@ + c.id + ":"@, ":NGN"@)
    } else if t == "fawry"@ {
        ("FAWRY:PAY:"@ + m + ":"@ + c.id + ":"@, ":EGP"@)
    } else if t == "paynow_sg"@ {
        ("https://sgqr.com/paynow?UEN="@ + m + "&AMT="@, "&REF="@ + c.id)
    } else if t == "duitnow_my"@ {
        ("DUITNOW:"@ + m + ":"@ + c.id + ":"@, ":MYR"@)
    } else if t == "promptpay_th"@ {
        ("https://promptpay.io/"@ + m + "?amount="@, seq![])
    } else if t == "qris_id"@ {
        ("QRIS:"@ + m + ":"@ + c.id + ":"@, ":IDR"@)
    } else if t == "gcash_ph"@ {
        ("GCASH:PAY:"@ + m + ":"@ + c.id + ":"@, ":PHP"@)
    } else if t == "maya_ph"@ {
        ("MAYA:PAY:"@ + m + ":"@ + c.id + ":"@, ":PHP"@)
    } else if t == "vnpay"@ {
        ("VNPAY:"@ + m + ":"@ + c.id + ":"@, ":VND"@)
    } else if t == "momo_vn"@ {
        ("MOMO:PAY:"@ + m + ":"@ + c.id + ":"@, ":VND"@)
    } else if t == "zatca"@ {
        ("ZATCA:1="@ + business + "&2="@ + m + "&3="@ + ts + "&4="@, "&5="@ + cents_text(c.total_tax as int))
    } else {
        ("PAY:"@ + t + ":"@ + c.id + ":"@, seq![])
    }
}

/// Every payment QR payload gives the cart's total as its type writes
/// amounts (see `written_total`): whatever the total, the payload is the
/// same text before and after it.  So every type but wechat, vnpay and
/// momo_vn shows the total in currency units with two decimals.
pub proof fn law_qr_total_written_as_type_asks(t: Seq<char>, m: Seq<char>, business: Seq<char>, c: CartView, ts: Seq<char>)
    ensures
        exists|pre: Seq<char>, post: Seq<char>| #[trigger] total_framed(t, m, business, c, ts, pre, post),
        forall|x: int| t != "wechat"@ && t != "vnpay"@ && t != "momo_vn"@ ==> #[trigger] written_total(t, x) == cents_text(x),
{
    lemma_qr_types_differ(t);
    let (pre, post) = amount_frame(t, m, business, c, ts);
    assert forall|x: i64| #[trigger] qr_payload(t, m, business, with_total(c, x), ts) == pre + written_total(
        t,
        x as int,
    ) + post by {
        assert(qr_payload(t, m, business, with_total(c, x), ts) =~= pre + written_total(t, x as int) + post);
    }
    assert(total_framed(t, m, business, c, ts, pre, post));
}

} // verus!
