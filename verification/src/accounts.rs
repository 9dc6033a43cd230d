//! Tips, loyalty points and the daily summary.
use vstd::prelude::*;
use crate::cart::{spread_discount, spread_spec, to_amount};
use crate::money::{amount_ok, div_round, milli_ok, round_div};
use crate::server::{PosError, PosServer, with_cart};
use crate::store::{StoreView, store_ok};
use crate::table::{lemma_lookup, lemma_put, lookup, put};
use crate::text::{eq_lit, lit, prefix, take_prefix};
use crate::types::{CartView, LoyaltyAccount, LoyaltyAccountView, PaymentView};

verus! {

pub struct TipInput {
    pub cart_id: String,
    /// Minor units.
    pub tip_amount: i64,
}

impl PosServer {
    /// Adds a tip to a cart's total (its lines and other totals are kept;
    /// the next recomputation of the totals drops it).  Answers the new
    /// total.
    pub fn tip_add(&mut self, input: TipInput) -> (r: Result<i64, PosError>)
        requires
            old(self).wf(),
        ensures
            final(self).wf(),
            match lookup(old(self)@.carts, input.cart_id@) {
                None => r == Err::<i64, PosError>(PosError::CartNotFound) && final(self)@ == old(self)@,
                Some(c) => if amount_ok(c.total + input.tip_amount) {
                    r == Ok::<i64, PosError>((c.total + input.tip_amount) as i64) && final(self)@ == with_cart(
                        old(self)@,
                        input.cart_id@,
                        CartView { total: (c.total + input.tip_amount) as i64, ..c },
                    )
                } else {
                    r == Err::<i64, PosError>(PosError::OutOfRange) && final(self)@ == old(self)@
                },
            },
    {
        let (ci, mut cart) = match self.take_cart(&input.cart_id) {
            Some(x) => x,
            None => {
                return Err(PosError::CartNotFound);
            },
        };
        match to_amount(cart.total as i128 + input.tip_amount as i128) {
            Some(t) => {
                cart.total = t;
                self.put_cart(ci, Ghost(input.cart_id@), cart);
                Ok(t)
            },
            None => Err(PosError::OutOfRange),
        }
    }
}

pub struct TipConfigInput {
    pub cart_id: String,
    /// A fixed tip, minor units.
    pub tip_amount: Option<i64>,
    /// A tip as a percentage, thousandths of a percent.
    pub tip_pct: Option<i64>,
    /// Whether the tip is reckoned on the subtotal (the default) or on the
    /// total.
    pub on_pretax: Option<bool>,
}

/// A tip worked out for a cart.
pub struct TipQuote {
    /// The cart's unrounded subtotal, thousandths of a minor unit.
    pub subtotal: i64,
    pub tax: i64,
    pub tip: i128,
    pub new_total: i128,
    pub pretax: bool,
    /// Tips at 15, 18, 20 and 25 percent of the base.
    pub suggestions: Vec<(u32, i128)>,
}

/// The base a tip is reckoned on, in thousandths of a minor unit: the
/// unrounded subtotal, or the total.
pub open spec fn tip_base(c: CartView, pretax: bool) -> int {
    if pretax {
        c.subtotal as int
    } else {
        1000 * c.total
    }
}

/// The tip: the fixed amount, else the percentage of the base, else none.
pub open spec fn tip_of(c: CartView, i: TipConfigInput) -> int {
    let pretax = match i.on_pretax {
        Some(b) => b,
        None => true,
    };
    match i.tip_amount {
        Some(a) => a as int,
        None => match i.tip_pct {
            Some(p) => div_round(tip_base(c, pretax) * p, 100_000_000),
            None => 0,
        },
    }
}

impl PosServer {
    /// Works out a tip for a cart, without changing anything.
    pub fn tip_calculate(&self, input: TipConfigInput) -> (r: Result<TipQuote, PosError>)
        requires
            self.wf(),
        ensures
            match lookup(self@.carts, input.cart_id@) {
                None => r == Err::<TipQuote, PosError>(PosError::CartNotFound),
                Some(c) => r matches Ok(q) && {
                    let pretax = match input.on_pretax {
                        Some(b) => b,
                        None => true,
                    };
                    let base = tip_base(c, pretax);
                    &&& q.subtotal == c.subtotal
                    &&& q.tax == c.total_tax
                    &&& q.pretax == pretax
                    &&& q.tip == tip_of(c, input)
                    &&& q.new_total == c.total + tip_of(c, input)
                    &&& q.suggestions@ == seq![
                        (15u32, div_round(base * 15, 100_000) as i128),
                        (18u32, div_round(base * 18, 100_000) as i128),
                        (20u32, div_round(base * 20, 100_000) as i128),
                        (25u32, div_round(base * 25, 100_000) as i128),
                    ]
                },
            },
    {
        let (_ci, cart) = match self.take_cart(&input.cart_id) {
            Some(x) => x,
            None => {
                return Err(PosError::CartNotFound);
            },
        };
        let pretax = match input.on_pretax {
            Some(b) => b,
            None => true,
        };
        let base: i128 = if pretax { cart.subtotal as i128 } else { 1000 * cart.total as i128 };
        let tip: i128 = match input.tip_amount {
            Some(a) => a as i128,
            None => match input.tip_pct {
                Some(p) => {
                    proof {
                        crate::cart::lemma_mul_bound(base as int, p as int, crate::money::MILLI_LIMIT as int, 0x8000_0000_0000_0000);
                    }
                    round_div(base * p as i128, 100_000_000)
                },
                None => 0,
            },
        };
        let mut suggestions: Vec<(u32, i128)> = Vec::new();
        suggestions.push((15, round_div(base * 15, 100_000)));
        suggestions.push((18, round_div(base * 18, 100_000)));
        suggestions.push((20, round_div(base * 20, 100_000)));
        suggestions.push((25, round_div(base * 25, 100_000)));
        let ghost b = base as int;
        assert(suggestions@ =~= seq![
                        (15u32, div_round(b * 15, 100_000) as i128),
                        (18u32, div_round(b * 18, 100_000) as i128),
                        (20u32, div_round(b * 20, 100_000) as i128),
                        (25u32, div_round(b * 25, 100_000) as i128),
                    ]);
        Ok(TipQuote {
            subtotal: cart.subtotal,
            tax: cart.total_tax,
            tip,
            new_total: cart.total as i128 + tip,
            pretax,
            suggestions,
        })
    }
}

pub struct LoyaltyInput {
    pub customer_id: String,
}

pub struct LoyaltyRedeemInput {
    pub customer_id: String,
    pub cart_id: String,
    pub points: u64,
}

/// A new customer's account: no name, no points, bronze.
pub open spec fn new_account(id: Seq<char>) -> LoyaltyAccountView {
    LoyaltyAccountView { customer_id: id, name: seq![], points: 0, tier: "bronze"@, total_spend: 0 }
}

/// What redeeming points does.  The customer gets an account where they
/// had none.  Where the account holds enough points, they are taken from
/// it and their value (one currency unit a point, held as 100 000
/// thousandths of a minor unit) is spread over the cart's lines in equal
/// shares as a discount; where the cart is missing
/// the points are taken all the same.  The answer gives the points used,
/// the discount and the cart's new total.
pub open spec fn redeem_spec(s: StoreView, i: LoyaltyRedeemInput) -> (StoreView, Result<(u64, i64, i64), PosError>) {
    let acct = match lookup(s.loyalty, i.customer_id@) {
        Some(a) => a,
        None => new_account(i.customer_id@),
    };
    let kept = StoreView { loyalty: put(s.loyalty, i.customer_id@, acct), ..s };
    let d = i.points * 100_000;
    if acct.points < i.points {
        (kept, Err(PosError::InsufficientPoints { available: acct.points, requested: i.points }))
    } else if !milli_ok(d) {
        (kept, Err(PosError::OutOfRange))
    } else {
        let taken = StoreView {
            loyalty: put(s.loyalty, i.customer_id@, LoyaltyAccountView { points: (acct.points - i.points) as u64, ..acct }),
            ..s
        };
        match lookup(s.carts, i.cart_id@) {
            None => (taken, Err(PosError::CartNotFound)),
            Some(c) => match spread_spec(c, d) {
                None => (kept, Err(PosError::OutOfRange)),
                Some(n) => (with_cart(taken, i.cart_id@, n), Ok((i.points, d as i64, n.total))),
            },
        }
    }
}

pub struct Redeemed {
    pub points_used: u64,
    /// Thousandths of a minor unit.
    pub discount_applied: i64,
    pub cart_total: i64,
}

pub open spec fn redeemed_view(r: Result<Redeemed, PosError>) -> Result<(u64, i64, i64), PosError> {
    match r {
        Ok(d) => Ok((d.points_used, d.discount_applied, d.cart_total)),
        Err(e) => Err(e),
    }
}

impl PosServer {
    /// The loyalty account of a customer, if they have one.
    pub fn loyalty_check(&self, input: LoyaltyInput) -> (r: Option<LoyaltyAccount>)
        ensures
            match lookup(self@.loyalty, input.customer_id@) {
                None => r is None,
                Some(a) => r matches Some(x) && x@ == a,
            },
    {
        proof {
            lemma_lookup(self@.loyalty, input.customer_id@);
        }
        match self.store.loyalty.find(&input.customer_id) {
            Some(i) => Some(self.store.loyalty.value_at(i).duplicate()),
            None => None,
        }
    }

    pub(crate) fn put_account(&mut self, k: &String, a: LoyaltyAccount)
        requires
            old(self).wf(),
        ensures
            final(self).wf(),
            final(self)@ == (StoreView { loyalty: put(old(self)@.loyalty, k@, a@), ..old(self)@ }),
    {
        let ghost before = self@;
        let ghost av = a@;
        self.store.loyalty.insert(k.clone(), a);
        proof {
            lemma_put(before.loyalty, k@, av);
            assert(self@ =~= StoreView { loyalty: put(before.loyalty, k@, av), ..before });
        }
    }

    /// Redeems loyalty points against a cart; see `redeem_spec`.
    pub fn loyalty_redeem(&mut self, input: LoyaltyRedeemInput) -> (r: Result<Redeemed, PosError>)
        requires
            old(self).wf(),
        ensures
            final(self).wf(),
            (final(self)@, redeemed_view(r)) == redeem_spec(old(self)@, input),
    {
        let ghost s0 = self@;
        proof {
            lemma_lookup(s0.loyalty, input.customer_id@);
        }
        let acct = match self.store.loyalty.find(&input.customer_id) {
            Some(i) => self.store.loyalty.value_at(i).duplicate(),
            None => LoyaltyAccount {
                customer_id: input.customer_id.clone(),
                name: String::new(),
                points: 0,
                tier: lit("bronze"),
                total_spend: 0,
            },
        };
        if acct.points < input.points {
            let available = acct.points;
            self.put_account(&input.customer_id, acct);
            return Err(PosError::InsufficientPoints { available, requested: input.points });
        }
        if input.points > 10_000_000_000_000 {
            self.put_account(&input.customer_id, acct);
            return Err(PosError::OutOfRange);
        }
        let d: i64 = (input.points * 100_000) as i64;
        let mut taken = acct.duplicate();
        taken.points = acct.points - input.points;
        match self.take_cart(&input.cart_id) {
            None => {
                self.put_account(&input.customer_id, taken);
                Err(PosError::CartNotFound)
            },
            Some((ci, cart)) => {
                match spread_discount(cart, d) {
                    None => {
                        self.put_account(&input.customer_id, acct);
                        Err(PosError::OutOfRange)
                    },
                    Some(n) => {
                        let total = n.total;
                        let ghost nv = n@;
                        self.put_account(&input.customer_id, taken);
                        proof {
                            lemma_lookup(self@.carts, input.cart_id@);
                            assert(self@.carts == s0.carts);
                        }
                        self.put_cart(ci, Ghost(input.cart_id@), n);
                        Ok(Redeemed { points_used: input.points, discount_applied: d, cart_total: total })
                    },
                }
            },
        }
    }
}

pub struct DailySummaryInput {
    /// YYYY-MM-DD; today where absent.
    pub date: Option<String>,
}

/// Sales of the day, from the payments recorded.
pub struct DailySummary {
    pub date: String,
    /// Payments of a positive amount.
    pub transactions: u64,
    pub cash_sales: i128,
    pub card_sales: i128,
    pub mobile_sales: i128,
    pub refunds: i128,
    pub net_sales: i128,
    pub avg_transaction: i128,
}

/// Whether payment `p` was taken on the day written `date` (the first ten
/// characters of its time stamp).
pub open spec fn on_day(p: PaymentView, date: Seq<char>) -> bool {
    prefix(p.timestamp, 10) == date
}

/// Cash payments of a positive amount taken on day `date`.
pub open spec fn sum_cash(ps: Seq<PaymentView>, date: Seq<char>) -> int
    decreases ps.len(),
{
    if ps.len() == 0 {
        0
    } else {
        sum_cash(ps.drop_last(), date) + if on_day(ps.last(), date) && ps.last().method == "cash"@
            && ps.last().amount > 0 {
            ps.last().amount as int
        } else {
            0int
        }
    }
}

/// Payments by method `m` taken on day `date`.
pub open spec fn sum_method(ps: Seq<PaymentView>, m: Seq<char>, date: Seq<char>) -> int
    decreases ps.len(),
{
    if ps.len() == 0 {
        0
    } else {
        sum_method(ps.drop_last(), m, date) + if on_day(ps.last(), date) && ps.last().method == m {
            ps.last().amount as int
        } else {
            0int
        }
    }
}

/// The amounts paid back on day `date`: the magnitudes of the negative
/// payments.
pub open spec fn sum_refunds(ps: Seq<PaymentView>, date: Seq<char>) -> int
    decreases ps.len(),
{
    if ps.len() == 0 {
        0
    } else {
        sum_refunds(ps.drop_last(), date) + if on_day(ps.last(), date) && ps.last().amount < 0 {
            -(ps.last().amount as int)
        } else {
            0int
        }
    }
}

/// The payments of a positive amount taken on day `date`.
pub open spec fn count_sales(ps: Seq<PaymentView>, date: Seq<char>) -> int
    decreases ps.len(),
{
    if ps.len() == 0 {
        0
    } else {
        count_sales(ps.drop_last(), date) + if on_day(ps.last(), date) && ps.last().amount > 0 {
            1int
        } else {
            0int
        }
    }
}

/// The daily summary of payments `ps` for day `date`, as plain values:
/// date, sales, cash, card, mobile money, refunds, net and average sale.
pub open spec fn summary_spec(ps: Seq<PaymentView>, date: Seq<char>) -> (Seq<char>, int, int, int, int, int, int, int) {
    let total = sum_cash(ps, date) + sum_method(ps, "card"@, date) + sum_method(ps, "mobile_money"@, date);
    let n = count_sales(ps, date);
    (
        date,
        n,
        sum_cash(ps, date),
        sum_method(ps, "card"@, date),
        sum_method(ps, "mobile_money"@, date),
        sum_refunds(ps, date),
        total - sum_refunds(ps, date),
        if n > 0 { div_round(total, n) } else { 0 },
    )
}

pub open spec fn summary_view(r: DailySummary) -> (Seq<char>, int, int, int, int, int, int, int) {
    (r.date@, r.transactions as int, r.cash_sales as int, r.card_sales as int, r.mobile_sales as int,
        r.refunds as int, r.net_sales as int, r.avg_transaction as int)
}

impl PosServer {
    /// Totals the payments recorded on the day written `date`
    /// (YYYY-MM-DD): cash (positive amounts), card, mobile money, refunds,
    /// their net, the number of sales and the average sale.
    pub fn daily_summary_on(&self, date: String) -> (r: DailySummary)
        requires
            self.wf(),
        ensures
            summary_view(r) == summary_spec(self@.payments, date@),
    {
        let ghost ps = self@.payments;
        let ghost d = date@;
        let n = self.store.payments.len();
        let mut cash: i128 = 0;
        let mut card: i128 = 0;
        let mut mobile: i128 = 0;
        let mut refunds: i128 = 0;
        let mut count: u64 = 0;
        let card_lit = lit("card");
        let mobile_lit = lit("mobile_money");
        assert(ps.take(0) =~= Seq::<PaymentView>::empty());
        for j in 0..n
            invariant
                n == ps.len(),
                ps == self@.payments,
                d == date@,
                store_ok(self@),
                card_lit@ == "card"@,
                mobile_lit@ == "mobile_money"@,
                cash == sum_cash(ps.take(j as int), d),
                card == sum_method(ps.take(j as int), "card"@, d),
                mobile == sum_method(ps.take(j as int), "mobile_money"@, d),
                refunds == sum_refunds(ps.take(j as int), d),
                count == count_sales(ps.take(j as int), d),
                0 <= count <= j,
                -(j as int) * crate::money::AMOUNT_LIMIT <= cash <= (j as int) * crate::money::AMOUNT_LIMIT,
                -(j as int) * crate::money::AMOUNT_LIMIT <= card <= (j as int) * crate::money::AMOUNT_LIMIT,
                -(j as int) * crate::money::AMOUNT_LIMIT <= mobile <= (j as int) * crate::money::AMOUNT_LIMIT,
                -(j as int) * crate::money::AMOUNT_LIMIT <= refunds <= (j as int) * crate::money::AMOUNT_LIMIT,
        {
            assert(ps.take(j + 1).drop_last() =~= ps.take(j as int));
            assert(amount_ok(ps[j as int].amount as int));
            let p = &self.store.payments[j];
            let day = take_prefix(p.timestamp.as_str(), 10);
            if day == date {
                if eq_lit(&p.method, "cash") && p.amount > 0 {
                    cash = cash + p.amount as i128;
                }
                if p.method == card_lit {
                    card = card + p.amount as i128;
                }
                if p.method == mobile_lit {
                    mobile = mobile + p.amount as i128;
                }
                if p.amount < 0 {
                    refunds = refunds - p.amount as i128;
                }
                if p.amount > 0 {
                    count = count + 1;
                }
            }
        }
        assert(ps.take(n as int) =~= ps);
        let total = cash + card + mobile;
        let avg = if count > 0 { round_div(total, count as i128) } else { 0 };
        DailySummary {
            date,
            transactions: count,
            cash_sales: cash,
            card_sales: card,
            mobile_sales: mobile,
            refunds,
            net_sales: total - refunds,
            avg_transaction: avg,
        }
    }

    /// Totals the payments recorded on the day asked for, or on today where
    /// none is given.
    pub fn daily_summary(&self, input: DailySummaryInput) -> (r: DailySummary)
        requires
            self.wf(),
        ensures
            match input.date {
                Some(d) => summary_view(r) == summary_spec(self@.payments, d@),
                None => exists|t: Seq<char>| summary_view(r) == #[trigger] summary_spec(self@.payments, prefix(t, 10)),
            },
    {
        let date = match input.date {
            Some(d) => d,
            None => {
                let t = crate::clock::now();
                take_prefix(t.as_str(), 10)
            },
        };
        self.daily_summary_on(date)
    }
}

} // verus!
