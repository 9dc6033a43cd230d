//! Payments, refunds and shifts.
use vstd::prelude::*;
use crate::accounts::new_account;
use crate::cart::to_amount;
use crate::clock::{now, uid, uid_text};
use crate::money::amount_ok;
use crate::sales::i64_or;
use crate::server::{PosError, PosServer, with_cart};
use crate::store::{StoreView, shift_ok, store_ok};
use crate::table::{lemma_lookup, lemma_put, lookup, put};
use crate::text::{eq_lit, lit};
use crate::types::{
    CartStatus, CartView, LoyaltyAccount, LoyaltyAccountView, Payment, PaymentStatus, PaymentView, Shift,
    ShiftStatus, ShiftView, opt_view,
};

verus! {

/// Position of the first open shift of `cashier`, or -1.
pub open spec fn first_open_shift(shifts: Seq<(Seq<char>, ShiftView)>, cashier: Seq<char>) -> int {
    if exists|i: int| 0 <= i < shifts.len() && #[trigger] open_for(shifts[i].1, cashier) {
        choose|i: int|
            0 <= i < shifts.len() && #[trigger] open_for(shifts[i].1, cashier) && forall|j: int|
                0 <= j < i ==> !#[trigger] open_for(shifts[j].1, cashier)
    } else {
        -1
    }
}

pub open spec fn open_for(s: ShiftView, cashier: Seq<char>) -> bool {
    s.cashier == cashier && s.status == ShiftStatus::Open
}

/// `s` with the shift at position `k` replaced by `sh`.
pub open spec fn with_shift_at(s: StoreView, k: int, sh: ShiftView) -> StoreView {
    StoreView { shifts: s.shifts.update(k, (s.shifts[k].0, sh)), ..s }
}

/// A shift after a sale of `amount` by `method`: one more transaction, and
/// the amount counted as cash, card, or else mobile sales.
pub open spec fn shift_after_sale(s: ShiftView, method: Seq<char>, amount: int) -> ShiftView {
    ShiftView {
        transactions: (s.transactions + 1) as u32,
        cash_sales: if method == "cash"@ { (s.cash_sales + amount) as i64 } else { s.cash_sales },
        card_sales: if method == "card"@ { (s.card_sales + amount) as i64 } else { s.card_sales },
        mobile_sales: if method != "cash"@ && method != "card"@ {
            (s.mobile_sales + amount) as i64
        } else {
            s.mobile_sales
        },
        ..s
    }
}

pub open spec fn sale_fits(s: ShiftView, method: Seq<char>, amount: int) -> bool {
    &&& s.transactions < u32::MAX
    &&& method == "cash"@ ==> amount_ok(s.cash_sales + amount)
    &&& method == "card"@ ==> amount_ok(s.card_sales + amount)
    &&& method != "cash"@ && method != "card"@ ==> amount_ok(s.mobile_sales + amount)
}

/// The answer to a payment.
pub struct PaymentDone {
    pub payment_id: String,
    pub method: String,
    pub amount: i64,
    pub tendered: i64,
    pub change: i64,
}

pub struct PaymentInput {
    pub cart_id: String,
    /// "cash", "card", or another method counted as mobile money.
    pub method: String,
    /// Minor units; the cart's total where absent.
    pub amount: Option<i64>,
    /// Minor units; the amount where absent.
    pub tendered: Option<i64>,
    pub reference: Option<String>,
}

/// The change due on a payment: tendered less amount for cash, else none.
pub open spec fn change_due(method: Seq<char>, amount: int, tendered: int) -> int {
    if method == "cash"@ {
        tendered - amount
    } else {
        0
    }
}

/// A customer's loyalty account in `s`, or a new one.
pub open spec fn account_of(s: StoreView, cid: Seq<char>) -> LoyaltyAccountView {
    match lookup(s.loyalty, cid) {
        Some(a) => a,
        None => new_account(cid),
    }
}

/// The loyalty points a sale of `amount` minor units earns: one for each
/// full 100 currency units.
pub open spec fn earned_points(amount: int) -> int {
    if amount > 0 {
        amount / 10_000
    } else {
        0
    }
}

/// An account after a sale of `amount`: the points earned added, and the
/// amount to the total spent.
pub open spec fn accrued(a: LoyaltyAccountView, amount: int) -> LoyaltyAccountView {
    LoyaltyAccountView {
        points: (a.points + earned_points(amount)) as u64,
        total_spend: (if amount > 0 { a.total_spend + amount } else { a.total_spend as int }) as i64,
        ..a
    }
}

pub open spec fn accrual_fits(a: LoyaltyAccountView, amount: int) -> bool {
    &&& a.points + earned_points(amount) <= u64::MAX
    &&& amount > 0 ==> amount_ok(a.total_spend + amount)
}

/// What a payment request does to state `s`, with payment id suffix
/// `sfx` and time `ts`: the cart is checked out, the payment recorded, and
/// the first open shift of the cart's cashier, if any, counts the sale;
/// the cart's customer, if any, earns loyalty points for it.  The answer
/// gives the payment id, amount, tendered and change.
pub open spec fn pay_spec(s: StoreView, i: PaymentInput, sfx: Seq<char>, ts: Seq<char>) -> (StoreView, Result<(Seq<char>, i64, i64, i64), PosError>) {
    match lookup(s.carts, i.cart_id@) {
        None => (s, Err(PosError::CartNotFound)),
        Some(c) => if c.status != CartStatus::Open {
            (s, Err(PosError::CartNotOpen(c.status)))
        } else {
            let amount = i64_or(i.amount, c.total);
            let tendered = i64_or(i.tendered, amount);
            let change = change_due(i.method@, amount as int, tendered as int);
            let k = first_open_shift(s.shifts, c.cashier);
            if !(amount_ok(amount as int) && amount_ok(tendered as int) && amount_ok(change) && (k >= 0
                ==> sale_fits(s.shifts[k].1, i.method@, amount as int)) && (c.customer_id matches Some(cid)
                ==> accrual_fits(account_of(s, cid), amount as int))) {
                (s, Err(PosError::OutOfRange))
            } else {
                let id = "pay_"@ + sfx;
                let p = PaymentView {
                    id,
                    cart_id: i.cart_id@,
                    method: i.method@,
                    amount,
                    tendered,
                    change: change as i64,
                    reference: opt_view(i.reference),
                    status: PaymentStatus::Completed,
                    timestamp: ts,
                };
                let s1 = with_cart(s, i.cart_id@, CartView { status: CartStatus::CheckedOut, ..c });
                let s2 = StoreView { payments: s.payments.push(p), ..s1 };
                let s3 = if k >= 0 {
                    with_shift_at(s2, k, shift_after_sale(s.shifts[k].1, i.method@, amount as int))
                } else {
                    s2
                };
                let s4 = match c.customer_id {
                    Some(cid) => StoreView {
                        loyalty: put(s.loyalty, cid, accrued(account_of(s, cid), amount as int)),
                        ..s3
                    },
                    None => s3,
                };
                (s4, Ok((id, amount, tendered, change as i64)))
            }
        },
    }
}

pub open spec fn done_view(r: Result<PaymentDone, PosError>) -> Result<(Seq<char>, i64, i64, i64), PosError> {
    match r {
        Ok(d) => Ok((d.payment_id@, d.amount, d.tendered, d.change)),
        Err(e) => Err(e),
    }
}

pub proof fn lemma_shift_at(s: StoreView, k: int, sh: ShiftView)
    requires
        store_ok(s),
        0 <= k < s.shifts.len(),
        shift_ok(sh),
    ensures
        store_ok(with_shift_at(s, k, sh)),
{
    let t = with_shift_at(s, k, sh);
    assert forall|i: int, j: int| 0 <= i < t.shifts.len() && 0 <= j < t.shifts.len() && i != j
        implies #[trigger] t.shifts[i].0 != #[trigger] t.shifts[j].0 by {
        assert(t.shifts[i].0 == s.shifts[i].0);
        assert(t.shifts[j].0 == s.shifts[j].0);
    }
    assert forall|i: int| 0 <= i < t.shifts.len() implies #[trigger] shift_ok(t.shifts[i].1) by {
        if i != k {
            assert(t.shifts[i] == s.shifts[i]);
        }
    }
}

pub proof fn lemma_push_payment(s: StoreView, p: PaymentView)
    requires
        store_ok(s),
        amount_ok(p.amount as int),
    ensures
        store_ok(StoreView { payments: s.payments.push(p), ..s }),
{
    let t = StoreView { payments: s.payments.push(p), ..s };
    assert forall|i: int| 0 <= i < t.payments.len() implies #[trigger] amount_ok(t.payments[i].amount as int) by {
        if i < s.payments.len() {
            assert(t.payments[i] == s.payments[i]);
        }
    }
}

impl PosServer {
    /// The position of the first open shift of `cashier`.
    pub fn find_open_shift(&self, cashier: &String) -> (r: Option<usize>)
        ensures
            r matches Some(k) ==> k as int == first_open_shift(self@.shifts, cashier@) && k < self@.shifts.len(),
            r is None ==> first_open_shift(self@.shifts, cashier@) == -1,
    {
        let ghost ss = self@.shifts;
        let n = self.store.shifts.len();
        for i in 0..n
            invariant
                n == ss.len(),
                ss == self@.shifts,
                forall|j: int| 0 <= j < i ==> !#[trigger] open_for(ss[j].1, cashier@),
        {
            let sh = self.store.shifts.value_at(i);
            if sh.cashier == *cashier && sh.status == ShiftStatus::Open {
                proof {
                    assert(open_for(ss[i as int].1, cashier@));
                    let c = first_open_shift(ss, cashier@);
                    assert(0 <= c < ss.len() && open_for(ss[c].1, cashier@));
                    if c < i {
                        assert(!open_for(ss[c].1, cashier@));
                    } else if c > i {
                        assert(!open_for(ss[i as int].1, cashier@));
                    }
                }
                return Some(i);
            }
        }
        proof {
            if exists|i: int| 0 <= i < ss.len() && #[trigger] open_for(ss[i].1, cashier@) {
                let i = choose|i: int| 0 <= i < ss.len() && #[trigger] open_for(ss[i].1, cashier@);
                assert(!open_for(ss[i].1, cashier@));
            }
        }
        None
    }

    /// Replaces the shift at position `k`.
    pub fn put_shift(&mut self, k: usize, sh: Shift)
        requires
            old(self).wf(),
            k < old(self)@.shifts.len(),
            shift_ok(sh@),
        ensures
            final(self).wf(),
            final(self)@ == with_shift_at(old(self)@, k as int, sh@),
    {
        let ghost before = self@;
        self.store.shifts.set_value(k, sh);
        proof {
            lemma_shift_at(before, k as int, sh@);
            assert(self@ =~= with_shift_at(before, k as int, sh@));
        }
    }

    /// Records a payment.
    pub fn push_payment(&mut self, p: Payment)
        requires
            old(self).wf(),
            amount_ok(p.amount as int),
        ensures
            final(self).wf(),
            final(self)@ == (StoreView { payments: old(self)@.payments.push(p@), ..old(self)@ }),
    {
        let ghost before = self@;
        self.store.payments.push(p);
        proof {
            lemma_push_payment(before, p@);
            assert(self@.payments =~= before.payments.push(p@));
            assert(self@ =~= StoreView { payments: before.payments.push(p@), ..before });
        }
    }

    /// Takes payment for an open cart; see `pay_spec`.
    /// A customer's account after a sale of `amount`, where its figures
    /// stay in range.
    pub(crate) fn accrual_for(&self, cid: &String, amount: i64) -> (r: Option<LoyaltyAccount>)
        ensures
            r is Some <==> accrual_fits(account_of(self@, cid@), amount as int),
            r matches Some(a) ==> a@ == accrued(account_of(self@, cid@), amount as int),
    {
        proof {
            lemma_lookup(self@.loyalty, cid@);
        }
        let acct = match self.store.loyalty.find(cid) {
            Some(i) => self.store.loyalty.value_at(i).duplicate(),
            None => LoyaltyAccount {
                customer_id: cid.clone(),
                name: String::new(),
                points: 0,
                tier: lit("bronze"),
                total_spend: 0,
            },
        };
        assert(acct@ =~= account_of(self@, cid@));
        let earned: u64 = if amount > 0 { (amount / 10_000) as u64 } else { 0 };
        if acct.points > u64::MAX - earned {
            return None;
        }
        let spend: i64 = if amount > 0 {
            match to_amount(acct.total_spend as i128 + amount as i128) {
                Some(v) => v,
                None => {
                    return None;
                },
            }
        } else {
            acct.total_spend
        };
        Some(LoyaltyAccount { points: acct.points + earned, total_spend: spend, ..acct })
    }

    pub fn payment_process_with(&mut self, input: PaymentInput, sfx: String, ts: String) -> (r: Result<PaymentDone, PosError>)
        requires
            old(self).wf(),
        ensures
            final(self).wf(),
            (final(self)@, done_view(r)) == pay_spec(old(self)@, input, sfx@, ts@),
    {
        let ghost s0 = self@;
        let (ci, mut cart) = match self.take_cart(&input.cart_id) {
            Some(x) => x,
            None => {
                return Err(PosError::CartNotFound);
            },
        };
        if cart.status != CartStatus::Open {
            return Err(PosError::CartNotOpen(cart.status));
        }
        let amount = match input.amount {
            Some(a) => a,
            None => cart.total,
        };
        let tendered = match input.tendered {
            Some(t) => t,
            None => amount,
        };
        proof {
            reveal_strlit("cash");
            reveal_strlit("card");
            assert("cash"@[3] != "card"@[3]);
        }
        let is_cash = eq_lit(&input.method, "cash");
        let is_card = eq_lit(&input.method, "card");
        if to_amount(amount as i128).is_none() || to_amount(tendered as i128).is_none() {
            return Err(PosError::OutOfRange);
        }
        let change: i64 = if is_cash {
            match to_amount(tendered as i128 - amount as i128) {
                Some(c) => c,
                None => {
                    return Err(PosError::OutOfRange);
                },
            }
        } else {
            0
        };
        let shift = self.find_open_shift(&cart.cashier);
        let mut new_shift: Option<(usize, Shift)> = None;
        match shift {
            Some(k) => {
                let mut sh = self.store.shifts.value_at(k).duplicate();
                let ghost sh0 = sh@;
                assert(sh0 == s0.shifts[k as int].1);
                assert(shift_ok(s0.shifts[k as int].1));
                if sh.transactions == u32::MAX {
                    return Err(PosError::OutOfRange);
                }
                sh.transactions = sh.transactions + 1;
                if is_cash {
                    match to_amount(sh.cash_sales as i128 + amount as i128) {
                        Some(v) => sh.cash_sales = v,
                        None => {
                            return Err(PosError::OutOfRange);
                        },
                    }
                } else if is_card {
                    match to_amount(sh.card_sales as i128 + amount as i128) {
                        Some(v) => sh.card_sales = v,
                        None => {
                            return Err(PosError::OutOfRange);
                        },
                    }
                } else {
                    match to_amount(sh.mobile_sales as i128 + amount as i128) {
                        Some(v) => sh.mobile_sales = v,
                        None => {
                            return Err(PosError::OutOfRange);
                        },
                    }
                }
                assert(sh@.transactions == sh0.transactions + 1);
                assert(sh@.cash_sales == shift_after_sale(sh0, input.method@, amount as int).cash_sales);
                assert(sh@.card_sales == shift_after_sale(sh0, input.method@, amount as int).card_sales);
                assert(sh@.mobile_sales == shift_after_sale(sh0, input.method@, amount as int).mobile_sales);
                assert(sh@.transactions == shift_after_sale(sh0, input.method@, amount as int).transactions);
                assert(sh@ =~= shift_after_sale(sh0, input.method@, amount as int));
                new_shift = Some((k, sh));
            },
            None => {},
        }
        let accrual: Option<(String, LoyaltyAccount)> = match &cart.customer_id {
            Some(cid) => match self.accrual_for(cid, amount) {
                Some(a) => Some((cid.clone(), a)),
                None => {
                    return Err(PosError::OutOfRange);
                },
            },
            None => None,
        };
        cart.status = CartStatus::CheckedOut;
        let ghost cv = cart@;
        proof {
            lemma_lookup(s0.carts, input.cart_id@);
        }
        self.put_cart(ci, Ghost(input.cart_id@), cart);
        let mut id = lit("pay_");
        id.append(sfx.as_str());
        let p = Payment {
            id: id.clone(),
            cart_id: input.cart_id,
            method: input.method.clone(),
            amount,
            tendered,
            change,
            reference: input.reference,
            status: PaymentStatus::Completed,
            timestamp: ts,
        };
        self.push_payment(p);
        match new_shift {
            Some((k, sh)) => {
                self.put_shift(k, sh);
            },
            None => {},
        }
        match accrual {
            Some((cid, a)) => {
                self.put_account(&cid, a);
            },
            None => {},
        }
        Ok(PaymentDone { payment_id: id, method: input.method, amount, tendered, change })
    }
}

impl PosServer {
    /// Takes payment for an open cart under a fresh payment id, stamped
    /// with the current time; see `pay_spec`.
    pub fn payment_process(&mut self, input: PaymentInput) -> (r: Result<PaymentDone, PosError>)
        requires
            old(self).wf(),
        ensures
            final(self).wf(),
            exists|x: u128, t: Seq<char>| (final(self)@, done_view(r)) == pay_spec(old(self)@, input, uid_text(x), t),
    {
        let sfx = uid();
        let t = now();
        self.payment_process_with(input, sfx, t)
    }
}

pub struct RefundInput {
    pub cart_id: String,
    pub reason: String,
    /// The amounts (minor units) of the items returned, where they give one;
    /// the whole cart's total is refunded where absent.
    pub items: Option<Vec<Option<i64>>>,
}

/// The sum of the amounts given.
pub open spec fn sum_given(v: Seq<Option<i64>>) -> int
    decreases v.len(),
{
    if v.len() == 0 {
        0
    } else {
        sum_given(v.drop_last()) + match v.last() {
            Some(a) => a as int,
            None => 0int,
        }
    }
}

pub open spec fn given_ok(v: Seq<Option<i64>>) -> bool {
    forall|j: int| 0 <= j < v.len() ==> (#[trigger] v[j] matches Some(a) ==> amount_ok(a as int))
}

pub open spec fn opt_vec_view(o: Option<Vec<Option<i64>>>) -> Option<Seq<Option<i64>>> {
    match o {
        Some(v) => Some(v@),
        None => None,
    }
}

/// What a refund does: it records a negative payment of the refunded
/// amount (the items' amounts, or the cart's total) under "refund", and the
/// first open shift of the cart's cashier counts it.  The cart itself is
/// left as it is.  The answer gives the refund id and amount.
pub open spec fn refund_spec(s: StoreView, i: RefundInput, sfx: Seq<char>, ts: Seq<char>) -> (StoreView, Result<(Seq<char>, i64), PosError>) {
    match lookup(s.carts, i.cart_id@) {
        None => (s, Err(PosError::CartNotFound)),
        Some(c) => {
            let amt: int = match opt_vec_view(i.items) {
                Some(v) => sum_given(v),
                None => c.total as int,
            };
            let items_fine = match opt_vec_view(i.items) {
                Some(v) => given_ok(v),
                None => true,
            };
            let k = first_open_shift(s.shifts, c.cashier);
            if !(items_fine && amount_ok(amt) && (k >= 0 ==> amount_ok(s.shifts[k].1.refunds + amt))) {
                (s, Err(PosError::OutOfRange))
            } else {
                let id = "ref_"@ + sfx;
                let p = PaymentView {
                    id,
                    cart_id: i.cart_id@,
                    method: "refund"@,
                    amount: (-amt) as i64,
                    tendered: 0,
                    change: 0,
                    reference: Some(i.reason@),
                    status: PaymentStatus::Refunded,
                    timestamp: ts,
                };
                let s2 = StoreView { payments: s.payments.push(p), ..s };
                let s3 = if k >= 0 {
                    with_shift_at(s2, k, ShiftView { refunds: (s.shifts[k].1.refunds + amt) as i64, ..s.shifts[k].1 })
                } else {
                    s2
                };
                (s3, Ok((id, amt as i64)))
            }
        },
    }
}

pub struct Refunded {
    pub refund_id: String,
    pub amount: i64,
}

pub open spec fn refunded_view(r: Result<Refunded, PosError>) -> Result<(Seq<char>, i64), PosError> {
    match r {
        Ok(d) => Ok((d.refund_id@, d.amount)),
        Err(e) => Err(e),
    }
}

/// Adds up the amounts given, where each is in range.
pub fn sum_given_exec(v: &Vec<Option<i64>>) -> (r: Option<i128>)
    ensures
        r is Some <==> given_ok(v@),
        r matches Some(x) ==> x == sum_given(v@),
{
    let n = v.len();
    let mut acc: i128 = 0;
    assert(v@.take(0) =~= Seq::<Option<i64>>::empty());
    for j in 0..n
        invariant
            n == v@.len(),
            acc == sum_given(v@.take(j as int)),
            given_ok(v@.take(j as int)),
            -(j as int) * crate::money::AMOUNT_LIMIT <= acc <= (j as int) * crate::money::AMOUNT_LIMIT,
    {
        assert(v@.take(j + 1).drop_last() =~= v@.take(j as int));
        match v[j] {
            Some(a) => {
                if to_amount(a as i128).is_none() {
                    assert(!given_ok(v@)) by {
                        assert(v@[j as int] == Some(a));
                    }
                    return None;
                }
                acc = acc + a as i128;
            },
            None => {},
        }
        assert(given_ok(v@.take(j + 1))) by {
            assert forall|i: int| 0 <= i < j + 1 implies (#[trigger] v@.take(j + 1)[i] matches Some(a) ==> amount_ok(a as int)) by {
                if i < j {
                    assert(v@.take(j + 1)[i] == v@.take(j as int)[i]);
                }
            }
        }
    }
    assert(v@.take(n as int) =~= v@);
    Some(acc)
}

impl PosServer {
    /// Refunds a cart; see `refund_spec`.
    pub fn refund_with(&mut self, input: RefundInput, sfx: String, ts: String) -> (r: Result<Refunded, PosError>)
        requires
            old(self).wf(),
        ensures
            final(self).wf(),
            (final(self)@, refunded_view(r)) == refund_spec(old(self)@, input, sfx@, ts@),
    {
        let ghost s0 = self@;
        let (_ci, cart) = match self.take_cart(&input.cart_id) {
            Some(x) => x,
            None => {
                return Err(PosError::CartNotFound);
            },
        };
        let amt: i64 = match &input.items {
            Some(v) => match sum_given_exec(v) {
                Some(x) => match to_amount(x) {
                    Some(a) => a,
                    None => {
                        return Err(PosError::OutOfRange);
                    },
                },
                None => {
                    return Err(PosError::OutOfRange);
                },
            },
            None => cart.total,
        };
        let shift = self.find_open_shift(&cart.cashier);
        let mut new_shift: Option<(usize, Shift)> = None;
        match shift {
            Some(k) => {
                let mut sh = self.store.shifts.value_at(k).duplicate();
                assert(shift_ok(s0.shifts[k as int].1));
                match to_amount(sh.refunds as i128 + amt as i128) {
                    Some(v) => sh.refunds = v,
                    None => {
                        return Err(PosError::OutOfRange);
                    },
                }
                new_shift = Some((k, sh));
            },
            None => {},
        }
        let mut id = lit("ref_");
        id.append(sfx.as_str());
        let p = Payment {
            id: id.clone(),
            cart_id: input.cart_id,
            method: lit("refund"),
            amount: -amt,
            tendered: 0,
            change: 0,
            reference: Some(input.reason),
            status: PaymentStatus::Refunded,
            timestamp: ts,
        };
        self.push_payment(p);
        match new_shift {
            Some((k, sh)) => {
                self.put_shift(k, sh);
            },
            None => {},
        }
        Ok(Refunded { refund_id: id, amount: amt })
    }

    /// Refunds a cart under a fresh refund id, stamped with the current time.
    pub fn refund(&mut self, input: RefundInput) -> (r: Result<Refunded, PosError>)
        requires
            old(self).wf(),
        ensures
            final(self).wf(),
            exists|x: u128, t: Seq<char>| (final(self)@, refunded_view(r)) == refund_spec(old(self)@, input, uid_text(x), t),
    {
        let sfx = uid();
        let t = now();
        self.refund_with(input, sfx, t)
    }
}

pub struct ShiftOpenInput {
    pub cashier: String,
    pub register_id: String,
    /// Cash in the drawer at opening, minor units.
    pub opening_float: i64,
}

pub struct ShiftCloseInput {
    pub shift_id: String,
    /// Cash counted in the drawer at closing, minor units.
    pub counted_cash: i64,
}

/// The shift an opening makes.
pub open spec fn new_shift(i: ShiftOpenInput, sfx: Seq<char>, ts: Seq<char>) -> ShiftView {
    ShiftView {
        id: "shift_"@ + sfx,
        cashier: i.cashier@,
        register_id: i.register_id@,
        status: ShiftStatus::Open,
        opening_float: i.opening_float,
        cash_sales: 0,
        card_sales: 0,
        mobile_sales: 0,
        refunds: 0,
        transactions: 0,
        opened_at: ts,
        closed_at: None,
    }
}

/// A shift closed at time `t`.
pub open spec fn closed_shift(sh: ShiftView, t: Seq<char>) -> ShiftView {
    ShiftView { status: ShiftStatus::Closed, closed_at: Some(t), ..sh }
}

/// The reconciliation at the close of a shift.
pub struct ShiftClosed {
    pub transactions: u32,
    pub cash_sales: i64,
    pub card_sales: i64,
    pub mobile_sales: i64,
    pub refunds: i64,
    /// Cash, card and mobile sales together.
    pub total_sales: i128,
    /// Opening float plus cash sales less refunds.
    pub expected_cash: i128,
    pub counted_cash: i64,
    /// Counted less expected cash.
    pub variance: i128,
}

impl PosServer {
    /// Opens a shift with id "shift_" followed by `sfx`.
    pub fn shift_open_with(&mut self, input: ShiftOpenInput, sfx: String, ts: String) -> (r: Result<String, PosError>)
        requires
            old(self).wf(),
        ensures
            final(self).wf(),
            !amount_ok(input.opening_float as int) ==> r == Err::<String, PosError>(PosError::OutOfRange)
                && final(self)@ == old(self)@,
            amount_ok(input.opening_float as int) ==> (r matches Ok(id) && id@ == "shift_"@ + sfx@
                && final(self)@ == (StoreView {
                shifts: put(old(self)@.shifts, id@, new_shift(input, sfx@, ts@)),
                ..old(self)@
            })),
    {
        if to_amount(input.opening_float as i128).is_none() {
            return Err(PosError::OutOfRange);
        }
        let mut id = lit("shift_");
        id.append(sfx.as_str());
        let sh = Shift {
            id: id.clone(),
            cashier: input.cashier,
            register_id: input.register_id,
            status: ShiftStatus::Open,
            opening_float: input.opening_float,
            cash_sales: 0,
            card_sales: 0,
            mobile_sales: 0,
            refunds: 0,
            transactions: 0,
            opened_at: ts,
            closed_at: None,
        };
        let ghost before = self@;
        let ghost v = sh@;
        self.store.shifts.insert(id.clone(), sh);
        proof {
            lemma_put(before.shifts, id@, v);
            let ss = put(before.shifts, id@, v);
            assert forall|i: int| 0 <= i < ss.len() implies #[trigger] shift_ok(ss[i].1) by {
                if ss[i] != (id@, v) {
                    assert(ss[i] == before.shifts[i]);
                }
            }
            assert(self@ =~= StoreView { shifts: ss, ..before });
        }
        Ok(id)
    }

    /// Opens a shift under a fresh id, stamped with the current time.
    pub fn shift_open(&mut self, input: ShiftOpenInput) -> (r: Result<String, PosError>)
        requires
            old(self).wf(),
        ensures
            final(self).wf(),
            !amount_ok(input.opening_float as int) ==> r == Err::<String, PosError>(PosError::OutOfRange)
                && final(self)@ == old(self)@,
            amount_ok(input.opening_float as int) ==> exists|x: u128, t: Seq<char>|
                r matches Ok(id) && id@ == "shift_"@ + #[trigger] uid_text(x) && final(self)@ == (StoreView {
                shifts: put(old(self)@.shifts, id@, #[trigger] new_shift(input, uid_text(x), t)),
                ..old(self)@
            }),
    {
        let sfx = uid();
        let t = now();
        self.shift_open_with(input, sfx, t)
    }

    /// Closes a shift at time `ts` and reconciles its cash.
    pub fn shift_close_with(&mut self, input: ShiftCloseInput, ts: String) -> (r: Result<ShiftClosed, PosError>)
        requires
            old(self).wf(),
        ensures
            final(self).wf(),
            match lookup(old(self)@.shifts, input.shift_id@) {
                None => r == Err::<ShiftClosed, PosError>(PosError::ShiftNotFound) && final(self)@ == old(self)@,
                Some(sh) => r matches Ok(c) && final(self)@ == (StoreView {
                    shifts: put(old(self)@.shifts, input.shift_id@, closed_shift(sh, ts@)),
                    ..old(self)@
                }) && c.transactions == sh.transactions && c.cash_sales == sh.cash_sales
                    && c.card_sales == sh.card_sales && c.mobile_sales == sh.mobile_sales
                    && c.refunds == sh.refunds
                    && c.total_sales == sh.cash_sales + sh.card_sales + sh.mobile_sales
                    && c.expected_cash == sh.opening_float + sh.cash_sales - sh.refunds
                    && c.counted_cash == input.counted_cash
                    && c.variance == input.counted_cash - (sh.opening_float + sh.cash_sales - sh.refunds),
            },
    {
        proof {
            lemma_lookup(self@.shifts, input.shift_id@);
        }
        let k = match self.store.shifts.find(&input.shift_id) {
            Some(k) => k,
            None => {
                return Err(PosError::ShiftNotFound);
            },
        };
        let ghost before = self@;
        let mut sh = self.store.shifts.value_at(k).duplicate();
        assert(shift_ok(before.shifts[k as int].1));
        sh.status = ShiftStatus::Closed;
        sh.closed_at = Some(ts);
        let expected: i128 = sh.opening_float as i128 + sh.cash_sales as i128 - sh.refunds as i128;
        let out = ShiftClosed {
            transactions: sh.transactions,
            cash_sales: sh.cash_sales,
            card_sales: sh.card_sales,
            mobile_sales: sh.mobile_sales,
            refunds: sh.refunds,
            total_sales: sh.cash_sales as i128 + sh.card_sales as i128 + sh.mobile_sales as i128,
            expected_cash: expected,
            counted_cash: input.counted_cash,
            variance: input.counted_cash as i128 - expected,
        };
        self.put_shift(k, sh);
        proof {
            assert(before.shifts[k as int].0 == input.shift_id@);
            assert(self@.shifts =~= put(before.shifts, input.shift_id@, closed_shift(before.shifts[k as int].1, ts@)));
        }
        Ok(out)
    }

    /// Closes a shift, stamped with the current time.
    pub fn shift_close(&mut self, input: ShiftCloseInput) -> (r: Result<ShiftClosed, PosError>)
        requires
            old(self).wf(),
        ensures
            final(self).wf(),
            match lookup(old(self)@.shifts, input.shift_id@) {
                None => r == Err::<ShiftClosed, PosError>(PosError::ShiftNotFound) && final(self)@ == old(self)@,
                Some(sh) => r matches Ok(c) && (exists|t: Seq<char>| final(self)@ == (StoreView {
                    shifts: put(old(self)@.shifts, input.shift_id@, #[trigger] closed_shift(sh, t)),
                    ..old(self)@
                })) && c.transactions == sh.transactions && c.cash_sales == sh.cash_sales
                    && c.card_sales == sh.card_sales && c.mobile_sales == sh.mobile_sales
                    && c.refunds == sh.refunds
                    && c.total_sales == sh.cash_sales + sh.card_sales + sh.mobile_sales
                    && c.expected_cash == sh.opening_float + sh.cash_sales - sh.refunds
                    && c.counted_cash == input.counted_cash
                    && c.variance == input.counted_cash - (sh.opening_float + sh.cash_sales - sh.refunds),
            },
    {
        let t = now();
        self.shift_close_with(input, t)
    }
}

} // verus!
