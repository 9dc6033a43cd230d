//! Split tenders, foreign currency, vouchers, food stamps, tips, loyalty
//! and the daily summary.
use vstd::prelude::*;
use crate::cart::to_amount;
use crate::clock::{now, uid, uid_text};
use crate::money::{amount_ok, div_round, round_div};
use crate::payments::{account_of, accrual_fits, accrued, change_due, sum_given};
use crate::sales::{i64_or, str_or};
use crate::server::{PosError, PosServer, with_cart};
use crate::store::{StoreView, store_ok};
use crate::table::{lookup, put};
use crate::text::{eq_lit, lit, micro_text, push_micro};
use crate::types::{CartStatus, CartView, Payment, PaymentStatus, PaymentView, opt_view};

verus! {

/// One tender of a split payment.
pub struct SplitPayment {
    /// "cash" where absent.
    pub method: Option<String>,
    /// Minor units; 0 where absent.
    pub amount: Option<i64>,
    /// Minor units; the amount where absent.
    pub tendered: Option<i64>,
    pub reference: Option<String>,
}

pub struct SplitTenderInput {
    pub cart_id: String,
    pub payments: Vec<SplitPayment>,
}

pub open spec fn tender_method(p: SplitPayment) -> Seq<char> {
    str_or(opt_view(p.method), "cash"@)
}

pub open spec fn tender_amount(p: SplitPayment) -> i64 {
    i64_or(p.amount, 0)
}

pub open spec fn tender_tendered(p: SplitPayment) -> i64 {
    i64_or(p.tendered, tender_amount(p))
}

pub open spec fn tender_change(p: SplitPayment) -> int {
    change_due(tender_method(p), tender_amount(p) as int, tender_tendered(p) as int)
}

pub open spec fn tender_ok(p: SplitPayment) -> bool {
    amount_ok(tender_amount(p) as int) && amount_ok(tender_tendered(p) as int) && amount_ok(tender_change(p))
}

pub open spec fn tenders_ok(ps: Seq<SplitPayment>) -> bool {
    forall|j: int| 0 <= j < ps.len() ==> #[trigger] tender_ok(ps[j])
}

/// The total the tenders give.
pub open spec fn tenders_paid(ps: Seq<SplitPayment>) -> int {
    sum_given(ps.map_values(|p: SplitPayment| p.amount))
}

/// The payments a split tender records, in the order given.
pub open spec fn tender_payments(ps: Seq<SplitPayment>, cart_id: Seq<char>, sfxs: Seq<Seq<char>>, ts: Seq<char>) -> Seq<PaymentView> {
    Seq::new(
        ps.len(),
        |j: int|
            PaymentView {
                id: "pay_"@ + sfxs[j],
                cart_id,
                method: tender_method(ps[j]),
                amount: tender_amount(ps[j]),
                tendered: tender_tendered(ps[j]),
                change: tender_change(ps[j]) as i64,
                reference: opt_view(ps[j].reference),
                status: PaymentStatus::Completed,
                timestamp: ts,
            },
    )
}

/// What a split tender does: where the tenders cover the cart's total, the
/// cart is checked out and each tender recorded as a payment (no shift
/// counts them), and the cart's customer, if any, earns loyalty points on
/// its total.  The answer gives the total and each tender's method,
/// amount and change.
pub open spec fn split_spec(s: StoreView, i: SplitTenderInput, sfxs: Seq<Seq<char>>, ts: Seq<char>) -> (StoreView, Result<(i64, Seq<(Seq<char>, i64, i64)>), PosError>) {
    let ps = i.payments@;
    match lookup(s.carts, i.cart_id@) {
        None => (s, Err(PosError::CartNotFound)),
        Some(c) => if c.status != CartStatus::Open {
            (s, Err(PosError::CartNotOpen(c.status)))
        } else if !tenders_ok(ps) {
            (s, Err(PosError::OutOfRange))
        } else if tenders_paid(ps) < c.total {
            (s, Err(PosError::InsufficientPayment { total: c.total, paid: tenders_paid(ps) as i128 }))
        } else if (c.customer_id matches Some(cid) && !accrual_fits(account_of(s, cid), c.total as int)) {
            (s, Err(PosError::OutOfRange))
        } else {
            let s1 = with_cart(s, i.cart_id@, CartView { status: CartStatus::CheckedOut, ..c });
            let s2 = StoreView { payments: s.payments + tender_payments(ps, i.cart_id@, sfxs, ts), ..s1 };
            (
                match c.customer_id {
                    Some(cid) => StoreView {
                        loyalty: put(s.loyalty, cid, accrued(account_of(s, cid), c.total as int)),
                        ..s2
                    },
                    None => s2,
                },
                Ok((c.total, Seq::new(ps.len(), |j: int| (tender_method(ps[j]), tender_amount(ps[j]), tender_change(ps[j]) as i64)))),
            )
        },
    }
}

pub struct TenderDone {
    pub method: String,
    pub amount: i64,
    pub change: i64,
}

pub struct SplitDone {
    pub total: i64,
    pub payments: Vec<TenderDone>,
}

pub open spec fn split_view(r: Result<SplitDone, PosError>) -> Result<(i64, Seq<(Seq<char>, i64, i64)>), PosError> {
    match r {
        Ok(d) => Ok((d.total, d.payments@.map_values(|t: TenderDone| (t.method@, t.amount, t.change)))),
        Err(e) => Err(e),
    }
}

pub open spec fn uid_texts(xs: Seq<u128>) -> Seq<Seq<char>> {
    xs.map_values(|x: u128| uid_text(x))
}

pub open spec fn strings_view(v: Seq<String>) -> Seq<Seq<char>> {
    v.map_values(|s: String| s@)
}

fn copy_str_opt(o: &Option<String>, d: &str) -> (r: String)
    ensures
        r@ == str_or(opt_view(*o), d@),
{
    match o {
        Some(s) => s.clone(),
        None => lit(d),
    }
}

impl PosServer {
    /// Pays a cart with several tenders, payment ids "pay_" followed by
    /// `sfxs`; see `split_spec`.
    pub fn split_tender_with(&mut self, input: SplitTenderInput, sfxs: Vec<String>, ts: String) -> (r: Result<SplitDone, PosError>)
        requires
            old(self).wf(),
            sfxs@.len() == input.payments@.len(),
        ensures
            final(self).wf(),
            (final(self)@, split_view(r)) == split_spec(old(self)@, input, strings_view(sfxs@), ts@),
    {
        let ghost s0 = self@;
        let ghost ps = input.payments@;
        let (ci, mut cart) = match self.take_cart(&input.cart_id) {
            Some(x) => x,
            None => {
                return Err(PosError::CartNotFound);
            },
        };
        if cart.status != CartStatus::Open {
            return Err(PosError::CartNotOpen(cart.status));
        }
        proof {
            reveal_strlit("cash");
        }
        let n = input.payments.len();
        let mut payments: Vec<Payment> = Vec::new();
        let mut done: Vec<TenderDone> = Vec::new();
        let mut paid: i128 = 0;
        let ghost amounts = ps.map_values(|p: SplitPayment| p.amount);
        assert(amounts.take(0) =~= Seq::<Option<i64>>::empty());
        for j in 0..n
            invariant
                n == ps.len(),
                ps == input.payments@,
                self@ == s0,
                old(self)@ == s0,
                store_ok(s0),
                lookup(s0.carts, input.cart_id@) == Some(cart@),
                cart@.status == CartStatus::Open,
                amounts == ps.map_values(|p: SplitPayment| p.amount),
                sfxs@.len() == n,
                payments@.len() == j,
                done@.len() == j,
                paid == sum_given(amounts.take(j as int)),
                -(j as int) * crate::money::AMOUNT_LIMIT <= paid <= (j as int) * crate::money::AMOUNT_LIMIT,
                forall|k: int| 0 <= k < j ==> #[trigger] tender_ok(ps[k]),
                forall|k: int| 0 <= k < j ==> #[trigger] payments@[k]@ == tender_payments(ps, input.cart_id@, strings_view(sfxs@), ts@)[k],
                forall|k: int| 0 <= k < j ==> #[trigger] done@[k].method@ == tender_method(ps[k]) && done@[k].amount == tender_amount(ps[k]) && done@[k].change == tender_change(ps[k]),
                forall|k: int| 0 <= k < j ==> amount_ok(#[trigger] payments@[k]@.amount as int),
        {
            let t = &input.payments[j];
            let method = copy_str_opt(&t.method, "cash");
            let amount: i64 = match t.amount {
                Some(a) => a,
                None => 0,
            };
            let tendered: i64 = match t.tendered {
                Some(x) => x,
                None => amount,
            };
            if to_amount(amount as i128).is_none() || to_amount(tendered as i128).is_none() {
                assert(!tender_ok(ps[j as int]));
                return Err(PosError::OutOfRange);
            }
            let change: i64 = if eq_lit(&method, "cash") {
                match to_amount(tendered as i128 - amount as i128) {
                    Some(c) => c,
                    None => {
                        assert(!tender_ok(ps[j as int]));
                        return Err(PosError::OutOfRange);
                    },
                }
            } else {
                0
            };
            assert(tender_ok(ps[j as int]));
            let mut id = lit("pay_");
            id.append(sfxs[j].as_str());
            payments.push(Payment {
                id,
                cart_id: input.cart_id.clone(),
                method: method.clone(),
                amount,
                tendered,
                change,
                reference: crate::types::copy_opt(&t.reference),
                status: PaymentStatus::Completed,
                timestamp: ts.clone(),
            });
            done.push(TenderDone { method, amount, change });
            assert(amounts.take(j + 1).drop_last() =~= amounts.take(j as int));
            paid = paid + amount as i128;
        }
        assert(amounts.take(n as int) =~= amounts);
        assert(tenders_ok(ps));
        if paid < cart.total as i128 {
            return Err(PosError::InsufficientPayment { total: cart.total, paid });
        }
        let accrual: Option<(String, crate::types::LoyaltyAccount)> = match &cart.customer_id {
            Some(cid) => match self.accrual_for(cid, cart.total) {
                Some(a) => Some((cid.clone(), a)),
                None => {
                    return Err(PosError::OutOfRange);
                },
            },
            None => None,
        };
        cart.status = CartStatus::CheckedOut;
        let total = cart.total;
        self.put_cart(ci, Ghost(input.cart_id@), cart);
        let ghost s1 = self@;
        let ghost before_pays = self.store.payments@;
        let mut k: usize = 0;
        while k < n
            invariant
                k <= n,
                n == payments@.len(),
                n == ps.len(),
                store_ok(self@),
                self@ == (StoreView { payments: s1.payments + tender_payments(ps, input.cart_id@, strings_view(sfxs@), ts@).take(k as int), ..s1 }),
                forall|q: int| 0 <= q < n ==> #[trigger] payments@[q]@ == tender_payments(ps, input.cart_id@, strings_view(sfxs@), ts@)[q],
                forall|q: int| 0 <= q < n ==> amount_ok(#[trigger] payments@[q]@.amount as int),
            decreases n - k,
        {
            let ghost tp = tender_payments(ps, input.cart_id@, strings_view(sfxs@), ts@);
            let p = payments[k].duplicate();
            assert(p@ == payments@[k as int]@);
            assert(amount_ok(payments@[k as int]@.amount as int));
            self.push_payment(p);
            assert(tp.take(k + 1) =~= tp.take(k as int).push(tp[k as int]));
            assert(s1.payments + tp.take(k + 1) =~= (s1.payments + tp.take(k as int)).push(tp[k as int]));
            k = k + 1;
        }
        proof {
            let tp = tender_payments(ps, input.cart_id@, strings_view(sfxs@), ts@);
            assert(tp.take(n as int) =~= tp);
            assert(done@.map_values(|t: TenderDone| (t.method@, t.amount, t.change)) =~= Seq::new(ps.len(), |j: int| (tender_method(ps[j]), tender_amount(ps[j]), tender_change(ps[j]) as i64)));
        }
        match accrual {
            Some((cid, a)) => {
                self.put_account(&cid, a);
            },
            None => {},
        }
        Ok(SplitDone { total, payments: done })
    }
}

impl PosServer {
    /// Pays a cart with several tenders under fresh payment ids, stamped
    /// with the current time; see `split_spec`.
    pub fn split_tender(&mut self, input: SplitTenderInput) -> (r: Result<SplitDone, PosError>)
        requires
            old(self).wf(),
        ensures
            final(self).wf(),
            exists|xs: Seq<u128>, t: Seq<char>|
                xs.len() == input.payments@.len() && (final(self)@, split_view(r)) == #[trigger] split_spec(
                    old(self)@,
                    input,
                    uid_texts(xs),
                    t,
                ),
    {
        let n = input.payments.len();
        let mut sfxs: Vec<String> = Vec::new();
        let ghost mut xs: Seq<u128> = seq![];
        for j in 0..n
            invariant
                sfxs@.len() == j,
                xs.len() == j,
                strings_view(sfxs@) == uid_texts(xs),
        {
            let id = uid();
            let ghost x = choose|x: u128| id@ == uid_text(x);
            let ghost old_sfxs = sfxs@;
            let ghost old_xs = xs;
            proof {
                assert(id@ == uid_text(x));
                xs = xs.push(x);
            }
            sfxs.push(id);
            assert(sfxs@ == old_sfxs.push(id));
            assert forall|q: int| 0 <= q < j + 1 implies #[trigger] strings_view(sfxs@)[q] == uid_texts(xs)[q] by {
                if q < j {
                    assert(strings_view(sfxs@)[q] == strings_view(old_sfxs)[q]);
                    assert(uid_texts(xs)[q] == uid_texts(old_xs)[q]);
                }
            }
            assert(strings_view(sfxs@) =~= uid_texts(xs));
        }
        let t = now();
        self.split_tender_with(input, sfxs, t)
    }
}

pub struct MultiCurrencyInput {
    pub cart_id: String,
    /// ISO 4217 code of the currency paid in.
    pub payment_currency: String,
    /// Local minor units per foreign minor unit, in millionths
    /// (local units per foreign unit, times a million).
    pub exchange_rate: i64,
    /// Amount tendered in foreign minor units.
    pub tendered_foreign: i64,
}

/// The figures of a foreign-currency checkout.
pub struct FxFigures {
    pub local_amount: i64,
    pub foreign_equivalent: i64,
    pub change_foreign: i64,
    pub change_local: i64,
    pub tendered_local: i64,
}

pub open spec fn fx_foreign_equivalent(local: int, rate: int) -> int {
    div_round(local * 1_000_000, rate)
}

pub open spec fn fx_local(foreign: int, rate: int) -> int {
    div_round(foreign * rate, 1_000_000)
}

/// The figures, where the rate is positive and all are amounts the library
/// holds.
pub open spec fn fx_spec(local: int, rate: int, tendered_foreign: int) -> Option<(int, int, int, int)> {
    if rate <= 0 || !amount_ok(rate) || !amount_ok(tendered_foreign) {
        None
    } else {
        let fe = fx_foreign_equivalent(local, rate);
        let cf = tendered_foreign - fe;
        let cl = fx_local(cf, rate);
        let tl = fx_local(tendered_foreign, rate);
        if amount_ok(fe) && amount_ok(cf) && amount_ok(cl) && amount_ok(tl) {
            Some((fe, cf, cl, tl))
        } else {
            None
        }
    }
}

/// What a foreign-currency checkout does: the cart is checked out (whatever
/// its status) and a payment of its total recorded under "foreign_" and
/// the currency, with the tender converted at the rate and the change
/// given back in local money.
pub open spec fn fx_checkout_spec(s: StoreView, i: MultiCurrencyInput, sfx: Seq<char>, ts: Seq<char>) -> (StoreView, Result<(i64, i64, i64, i64, i64), PosError>) {
    match lookup(s.carts, i.cart_id@) {
        None => (s, Err(PosError::CartNotFound)),
        Some(c) => match fx_spec(c.total as int, i.exchange_rate as int, i.tendered_foreign as int) {
            None => (s, Err(PosError::OutOfRange)),
            Some((fe, cf, cl, tl)) => {
                let p = PaymentView {
                    id: "pay_"@ + sfx,
                    cart_id: i.cart_id@,
                    method: "foreign_"@ + i.payment_currency@,
                    amount: c.total,
                    tendered: tl as i64,
                    change: cl as i64,
                    reference: Some("FX:"@ + i.payment_currency@ + "@"@ + micro_text(i.exchange_rate as nat)),
                    status: PaymentStatus::Completed,
                    timestamp: ts,
                };
                let s1 = with_cart(s, i.cart_id@, CartView { status: CartStatus::CheckedOut, ..c });
                (StoreView { payments: s.payments.push(p), ..s1 }, Ok((c.total, fe as i64, cf as i64, cl as i64, tl as i64)))
            },
        },
    }
}

pub open spec fn fx_view(r: Result<FxFigures, PosError>) -> Result<(i64, i64, i64, i64, i64), PosError> {
    match r {
        Ok(f) => Ok((f.local_amount, f.foreign_equivalent, f.change_foreign, f.change_local, f.tendered_local)),
        Err(e) => Err(e),
    }
}

pub fn fx_exec(local: i64, rate: i64, tendered_foreign: i64) -> (r: Option<(i64, i64, i64, i64)>)
    requires
        amount_ok(local as int),
    ensures
        match fx_spec(local as int, rate as int, tendered_foreign as int) {
            None => r is None,
            Some((fe, cf, cl, tl)) => r == Some((fe as i64, cf as i64, cl as i64, tl as i64)),
        },
{
    if rate <= 0 || to_amount(rate as i128).is_none() || to_amount(tendered_foreign as i128).is_none() {
        return None;
    }
    proof {
        crate::cart::lemma_mul_bound(local as int, 1_000_000, crate::money::AMOUNT_LIMIT as int, 1_000_000);
    }
    let fe = round_div(local as i128 * 1_000_000, rate as i128);
    let fe64 = match to_amount(fe) {
        Some(x) => x,
        None => {
            return None;
        },
    };
    let cf64 = match to_amount(tendered_foreign as i128 - fe as i128) {
        Some(x) => x,
        None => {
            return None;
        },
    };
    proof {
        crate::cart::lemma_mul_bound(cf64 as int, rate as int, crate::money::AMOUNT_LIMIT as int, crate::money::AMOUNT_LIMIT as int);
        crate::cart::lemma_mul_bound(tendered_foreign as int, rate as int, crate::money::AMOUNT_LIMIT as int, crate::money::AMOUNT_LIMIT as int);
    }
    let cl = round_div(cf64 as i128 * rate as i128, 1_000_000);
    let tl = round_div(tendered_foreign as i128 * rate as i128, 1_000_000);
    match (to_amount(cl), to_amount(tl)) {
        (Some(a), Some(b)) => Some((fe64, cf64, a, b)),
        _ => None,
    }
}

impl PosServer {
    /// Checks a cart out against a foreign-currency tender; see
    /// `fx_checkout_spec`.
    pub fn multi_currency_checkout_with(&mut self, input: MultiCurrencyInput, sfx: String, ts: String) -> (r: Result<FxFigures, PosError>)
        requires
            old(self).wf(),
        ensures
            final(self).wf(),
            (final(self)@, fx_view(r)) == fx_checkout_spec(old(self)@, input, sfx@, ts@),
    {
        let (ci, mut cart) = match self.take_cart(&input.cart_id) {
            Some(x) => x,
            None => {
                return Err(PosError::CartNotFound);
            },
        };
        let (fe, cf, cl, tl) = match fx_exec(cart.total, input.exchange_rate, input.tendered_foreign) {
            Some(x) => x,
            None => {
                return Err(PosError::OutOfRange);
            },
        };
        let local = cart.total;
        cart.status = CartStatus::CheckedOut;
        self.put_cart(ci, Ghost(input.cart_id@), cart);
        let mut id = lit("pay_");
        id.append(sfx.as_str());
        let mut method = lit("foreign_");
        method.append(input.payment_currency.as_str());
        let mut reference = lit("FX:");
        reference.append(input.payment_currency.as_str());
        reference.append("@");
        push_micro(&mut reference, input.exchange_rate as u64);
        self.push_payment(Payment {
            id,
            cart_id: input.cart_id,
            method,
            amount: local,
            tendered: tl,
            change: cl,
            reference: Some(reference),
            status: PaymentStatus::Completed,
            timestamp: ts,
        });
        Ok(FxFigures { local_amount: local, foreign_equivalent: fe, change_foreign: cf, change_local: cl, tendered_local: tl })
    }

    /// Checks a cart out against a foreign-currency tender under a fresh
    /// payment id, stamped with the current time.
    pub fn multi_currency_checkout(&mut self, input: MultiCurrencyInput) -> (r: Result<FxFigures, PosError>)
        requires
            old(self).wf(),
        ensures
            final(self).wf(),
            exists|x: u128, t: Seq<char>| (final(self)@, fx_view(r)) == #[trigger] fx_checkout_spec(old(self)@, input, uid_text(x), t),
    {
        let sfx = uid();
        let t = now();
        self.multi_currency_checkout_with(input, sfx, t)
    }
}

pub struct MealVoucherInput {
    pub cart_id: String,
    /// ticket_restaurant, sodexo, edenred, cheque_dejeuner...
    pub voucher_type: String,
    /// Minor units the voucher covers.
    pub amount: i64,
    pub reference: Option<String>,
}

pub open spec fn min_i(a: int, b: int) -> int {
    if a <= b {
        a
    } else {
        b
    }
}

/// What a meal voucher does: it pays as much of the cart's total as it
/// covers, recorded under "voucher_" and its type, and checks the cart out
/// where nothing remains to pay.  The cart's total is kept.  The answer
/// gives the amount applied and what remains.
pub open spec fn voucher_spec(s: StoreView, i: MealVoucherInput, sfx: Seq<char>, ts: Seq<char>) -> (StoreView, Result<(i64, i64, i64), PosError>) {
    match lookup(s.carts, i.cart_id@) {
        None => (s, Err(PosError::CartNotFound)),
        Some(c) => if !amount_ok(i.amount as int) {
            (s, Err(PosError::OutOfRange))
        } else {
            let applied = min_i(c.total as int, i.amount as int);
            let remaining = c.total - applied;
            let p = PaymentView {
                id: "pay_"@ + sfx,
                cart_id: i.cart_id@,
                method: "voucher_"@ + i.voucher_type@,
                amount: applied as i64,
                tendered: i.amount,
                change: 0,
                reference: opt_view(i.reference),
                status: PaymentStatus::Completed,
                timestamp: ts,
            };
            let s1 = if remaining <= 0 {
                with_cart(s, i.cart_id@, CartView { status: CartStatus::CheckedOut, ..c })
            } else {
                s
            };
            (StoreView { payments: s.payments.push(p), ..s1 }, Ok((applied as i64, remaining as i64, c.total)))
        },
    }
}

/// Amounts applied by a voucher or food-stamp payment.
pub struct Applied {
    pub applied: i64,
    pub remaining: i64,
    pub cart_total: i64,
}

pub open spec fn applied_view(r: Result<Applied, PosError>) -> Result<(i64, i64, i64), PosError> {
    match r {
        Ok(a) => Ok((a.applied, a.remaining, a.cart_total)),
        Err(e) => Err(e),
    }
}

impl PosServer {
    /// Takes a meal voucher; see `voucher_spec`.
    pub fn meal_voucher_with(&mut self, input: MealVoucherInput, sfx: String, ts: String) -> (r: Result<Applied, PosError>)
        requires
            old(self).wf(),
        ensures
            final(self).wf(),
            (final(self)@, applied_view(r)) == voucher_spec(old(self)@, input, sfx@, ts@),
    {
        let (ci, mut cart) = match self.take_cart(&input.cart_id) {
            Some(x) => x,
            None => {
                return Err(PosError::CartNotFound);
            },
        };
        if to_amount(input.amount as i128).is_none() {
            return Err(PosError::OutOfRange);
        }
        let total = cart.total;
        let applied = if total <= input.amount { total } else { input.amount };
        let remaining = total - applied;
        if remaining <= 0 {
            cart.status = CartStatus::CheckedOut;
            self.put_cart(ci, Ghost(input.cart_id@), cart);
        }
        let mut id = lit("pay_");
        id.append(sfx.as_str());
        let mut method = lit("voucher_");
        method.append(input.voucher_type.as_str());
        self.push_payment(Payment {
            id,
            cart_id: input.cart_id,
            method,
            amount: applied,
            tendered: input.amount,
            change: 0,
            reference: input.reference,
            status: PaymentStatus::Completed,
            timestamp: ts,
        });
        Ok(Applied { applied, remaining, cart_total: total })
    }

    /// Takes a meal voucher under a fresh payment id, stamped with the
    /// current time.
    pub fn meal_voucher(&mut self, input: MealVoucherInput) -> (r: Result<Applied, PosError>)
        requires
            old(self).wf(),
        ensures
            final(self).wf(),
            exists|x: u128, t: Seq<char>| (final(self)@, applied_view(r)) == #[trigger] voucher_spec(old(self)@, input, uid_text(x), t),
    {
        let sfx = uid();
        let t = now();
        self.meal_voucher_with(input, sfx, t)
    }
}

pub struct EbtSnapInput {
    pub cart_id: String,
    /// Last four digits of the EBT card.
    pub card_last4: String,
    /// Minor units to pay; the eligible total where absent.
    pub amount: Option<i64>,
}

/// The total of the lines that bear no tax, which SNAP may pay for.
pub open spec fn snap_eligible(items: Seq<crate::types::CartItemView>) -> int
    decreases items.len(),
{
    if items.len() == 0 {
        0
    } else {
        snap_eligible(items.drop_last()) + if items.last().tax == 0 {
            items.last().line_total as int
        } else {
            0int
        }
    }
}

/// What an EBT/SNAP payment does: it pays the eligible total (or the amount
/// asked, if less), recorded under "ebt_snap" with reference "EBT-****"
/// and the card's last digits, and checks the cart out where nothing
/// remains to pay.  The answer gives the eligible total, the amount
/// applied and what remains.
pub open spec fn ebt_spec(s: StoreView, i: EbtSnapInput, sfx: Seq<char>, ts: Seq<char>) -> (StoreView, Result<(i64, i64, i64), PosError>) {
    match lookup(s.carts, i.cart_id@) {
        None => (s, Err(PosError::CartNotFound)),
        Some(c) => {
            let eligible = snap_eligible(c.items);
            let asked: int = match i.amount {
                Some(a) => a as int,
                None => eligible,
            };
            let snap = min_i(asked, eligible);
            let remaining = c.total - snap;
            if !(amount_ok(eligible) && amount_ok(snap) && amount_ok(remaining)) {
                (s, Err(PosError::OutOfRange))
            } else {
                let p = PaymentView {
                    id: "pay_"@ + sfx,
                    cart_id: i.cart_id@,
                    method: "ebt_snap"@,
                    amount: snap as i64,
                    tendered: snap as i64,
                    change: 0,
                    reference: Some("EBT-****"@ + i.card_last4@),
                    status: PaymentStatus::Completed,
                    timestamp: ts,
                };
                let s1 = if remaining <= 0 {
                    with_cart(s, i.cart_id@, CartView { status: CartStatus::CheckedOut, ..c })
                } else {
                    s
                };
                (StoreView { payments: s.payments.push(p), ..s1 }, Ok((eligible as i64, snap as i64, remaining as i64)))
            }
        },
    }
}

/// The figures of an EBT/SNAP payment.
pub struct EbtApplied {
    pub snap_eligible_total: i64,
    pub snap_applied: i64,
    pub remaining: i64,
}

pub open spec fn ebt_view(r: Result<EbtApplied, PosError>) -> Result<(i64, i64, i64), PosError> {
    match r {
        Ok(a) => Ok((a.snap_eligible_total, a.snap_applied, a.remaining)),
        Err(e) => Err(e),
    }
}

fn snap_eligible_exec(items: &Vec<crate::types::CartItem>) -> (r: i128)
    requires
        crate::cart::items_ok(items@.map_values(|i: crate::types::CartItem| i@)),
    ensures
        r == snap_eligible(items@.map_values(|i: crate::types::CartItem| i@)),
{
    let ghost v = items@.map_values(|i: crate::types::CartItem| i@);
    let n = items.len();
    let mut acc: i128 = 0;
    assert(v.take(0) =~= Seq::<crate::types::CartItemView>::empty());
    for j in 0..n
        invariant
            n == items@.len(),
            v == items@.map_values(|i: crate::types::CartItem| i@),
            crate::cart::items_ok(v),
            acc == snap_eligible(v.take(j as int)),
            -(j as int) * crate::money::AMOUNT_LIMIT <= acc <= (j as int) * crate::money::AMOUNT_LIMIT,
    {
        assert(v.take(j + 1).drop_last() =~= v.take(j as int));
        assert(crate::cart::item_ok(v[j as int]));
        if items[j].tax == 0 {
            acc = acc + items[j].line_total as i128;
        }
    }
    assert(v.take(n as int) =~= v);
    acc
}

impl PosServer {
    /// Takes an EBT/SNAP payment; see `ebt_spec`.
    pub fn ebt_snap_pay_with(&mut self, input: EbtSnapInput, sfx: String, ts: String) -> (r: Result<EbtApplied, PosError>)
        requires
            old(self).wf(),
        ensures
            final(self).wf(),
            (final(self)@, ebt_view(r)) == ebt_spec(old(self)@, input, sfx@, ts@),
    {
        let (ci, mut cart) = match self.take_cart(&input.cart_id) {
            Some(x) => x,
            None => {
                return Err(PosError::CartNotFound);
            },
        };
        let eligible = snap_eligible_exec(&cart.items);
        let asked: i128 = match input.amount {
            Some(a) => a as i128,
            None => eligible,
        };
        let snap = if asked <= eligible { asked } else { eligible };
        let (e64, s64, r64) = match (to_amount(eligible), to_amount(snap)) {
            (Some(e), Some(sn)) => match to_amount(cart.total as i128 - sn as i128) {
                Some(rm) => (e, sn, rm),
                None => {
                    return Err(PosError::OutOfRange);
                },
            },
            _ => {
                return Err(PosError::OutOfRange);
            },
        };
        if r64 <= 0 {
            cart.status = CartStatus::CheckedOut;
            self.put_cart(ci, Ghost(input.cart_id@), cart);
        }
        let mut id = lit("pay_");
        id.append(sfx.as_str());
        let mut reference = lit("EBT-****");
        reference.append(input.card_last4.as_str());
        self.push_payment(Payment {
            id,
            cart_id: input.cart_id,
            method: lit("ebt_snap"),
            amount: s64,
            tendered: s64,
            change: 0,
            reference: Some(reference),
            status: PaymentStatus::Completed,
            timestamp: ts,
        });
        Ok(EbtApplied { snap_eligible_total: e64, snap_applied: s64, remaining: r64 })
    }

    /// Takes an EBT/SNAP payment under a fresh payment id, stamped with the
    /// current time.
    pub fn ebt_snap_pay(&mut self, input: EbtSnapInput) -> (r: Result<EbtApplied, PosError>)
        requires
            old(self).wf(),
        ensures
            final(self).wf(),
            exists|x: u128, t: Seq<char>| (final(self)@, ebt_view(r)) == #[trigger] ebt_spec(old(self)@, input, uid_text(x), t),
    {
        let sfx = uid();
        let t = now();
        self.ebt_snap_pay_with(input, sfx, t)
    }
}

} // verus!
