use mcp_pos::accounts::{DailySummaryInput, LoyaltyInput, LoyaltyRedeemInput, TipConfigInput, TipInput};
use mcp_pos::payments::{PaymentInput, RefundInput, ShiftCloseInput, ShiftOpenInput};
use mcp_pos::server::{CartAddInput, CartCreateInput, CartIdInput, PosError, PosServer, ProductInput};
use mcp_pos::tenders::{EbtSnapInput, MealVoucherInput, MultiCurrencyInput, SplitPayment, SplitTenderInput};
use mcp_pos::types::CartStatus;

fn product(sku: &str, price: i64, rate: i64) -> ProductInput {
    ProductInput {
        sku: sku.to_string(),
        barcode: format!("B-{}", sku),
        name: sku.to_string(),
        price,
        tax_rate: Some(rate),
        category: None,
        currency: None,
    }
}

/// A store with a cart "cart_c1" of two litres of milk (total 278.40).
fn sale() -> (PosServer, String) {
    let mut s = PosServer::new();
    s.product_register(product("MILK", 12000, 16000)).unwrap();
    s.product_register(product("BREAD", 5000, 0)).unwrap();
    let id = s.cart_create_with(
        CartCreateInput { cashier: "mary".to_string(), customer_id: None, currency: None },
        "c1".to_string(),
        "2025-01-15T10:00:00+00:00".to_string(),
    );
    s.cart_add_item(CartAddInput { cart_id: id.clone(), barcode: "MILK".to_string(), quantity: Some(2000) })
        .unwrap();
    (s, id)
}

fn pay(s: &mut PosServer, id: &str, method: &str, tendered: Option<i64>) -> Result<mcp_pos::payments::PaymentDone, PosError> {
    s.payment_process_with(
        PaymentInput {
            cart_id: id.to_string(),
            method: method.to_string(),
            amount: None,
            tendered,
            reference: None,
        },
        "p1".to_string(),
        "2025-01-15T10:05:00+00:00".to_string(),
    )
}

#[test]
fn cash_payment_gives_change() {
    let (mut s, id) = sale();
    let d = pay(&mut s, &id, "cash", Some(30000)).unwrap();
    assert_eq!(d.payment_id, "pay_p1");
    assert_eq!(d.amount, 27840);
    assert_eq!(d.tendered, 30000);
    assert_eq!(d.change, 2160);
    let c = s.cart_get(CartIdInput { cart_id: id }).unwrap();
    assert_eq!(c.status, CartStatus::CheckedOut);
}

#[test]
fn card_payment_no_change() {
    let (mut s, id) = sale();
    let d = pay(&mut s, &id, "card", Some(30000)).unwrap();
    assert_eq!(d.change, 0);
}

#[test]
fn paying_twice_is_refused() {
    let (mut s, id) = sale();
    pay(&mut s, &id, "cash", None).unwrap();
    assert_eq!(pay(&mut s, &id, "cash", None).err(), Some(PosError::CartNotOpen(CartStatus::CheckedOut)));
    assert_eq!(pay(&mut s, "cart_x", "cash", None).err(), Some(PosError::CartNotFound));
}

#[test]
fn payment_with_fresh_id() {
    let (mut s, id) = sale();
    let d = s
        .payment_process(PaymentInput { cart_id: id, method: "mpesa".to_string(), amount: None, tendered: None, reference: None })
        .unwrap();
    assert!(d.payment_id.starts_with("pay_"));
    assert_eq!(d.payment_id.len(), 12);
}

#[test]
fn shift_reconciles_cash() {
    let (mut s, id) = sale();
    let sid = s
        .shift_open_with(
            ShiftOpenInput { cashier: "mary".to_string(), register_id: "R1".to_string(), opening_float: 10000 },
            "s1".to_string(),
            "2025-01-15T08:00:00+00:00".to_string(),
        )
        .unwrap();
    assert_eq!(sid, "shift_s1");
    pay(&mut s, &id, "cash", Some(30000)).unwrap();
    let r = s
        .refund_with(
            RefundInput { cart_id: id.clone(), reason: "damaged".to_string(), items: Some(vec![Some(1000), None, Some(500)]) },
            "r1".to_string(),
            "2025-01-15T11:00:00+00:00".to_string(),
        )
        .unwrap();
    assert_eq!(r.refund_id, "ref_r1");
    assert_eq!(r.amount, 1500);
    let c = s
        .shift_close_with(ShiftCloseInput { shift_id: sid, counted_cash: 36000 }, "2025-01-15T18:00:00+00:00".to_string())
        .unwrap();
    assert_eq!(c.transactions, 1);
    assert_eq!(c.cash_sales, 27840);
    assert_eq!(c.refunds, 1500);
    assert_eq!(c.total_sales, 27840);
    assert_eq!(c.expected_cash, 10000 + 27840 - 1500);
    assert_eq!(c.variance, 36000 - 36340);
}

#[test]
fn card_sale_leaves_expected_cash() {
    let (mut s, id) = sale();
    let sid = s
        .shift_open(ShiftOpenInput { cashier: "mary".to_string(), register_id: "R1".to_string(), opening_float: 5000 })
        .unwrap();
    pay(&mut s, &id, "card", None).unwrap();
    let c = s.shift_close(ShiftCloseInput { shift_id: sid, counted_cash: 5000 }).unwrap();
    assert_eq!(c.card_sales, 27840);
    assert_eq!(c.expected_cash, 5000);
    assert_eq!(c.variance, 0);
}

#[test]
fn shift_errors() {
    let mut s = PosServer::new();
    let r = s.shift_open(ShiftOpenInput { cashier: "a".to_string(), register_id: "R".to_string(), opening_float: i64::MAX });
    assert_eq!(r, Err(PosError::OutOfRange));
    let r = s.shift_close(ShiftCloseInput { shift_id: "shift_none".to_string(), counted_cash: 0 });
    assert_eq!(r.err(), Some(PosError::ShiftNotFound));
}

#[test]
fn refund_whole_cart() {
    let (mut s, id) = sale();
    let r = s.refund(RefundInput { cart_id: id, reason: "return".to_string(), items: None }).unwrap();
    assert_eq!(r.amount, 27840);
    assert!(r.refund_id.starts_with("ref_"));
    let r = s.refund(RefundInput { cart_id: "no".to_string(), reason: "x".to_string(), items: None });
    assert_eq!(r.err(), Some(PosError::CartNotFound));
}

fn tender(method: &str, amount: i64, tendered: Option<i64>) -> SplitPayment {
    SplitPayment { method: Some(method.to_string()), amount: Some(amount), tendered, reference: None }
}

#[test]
fn split_tender_short_is_refused() {
    let (mut s, id) = sale();
    let r = s.split_tender(SplitTenderInput {
        cart_id: id.clone(),
        payments: vec![tender("cash", 20000, None), tender("card", 5000, None)],
    });
    assert_eq!(r.err(), Some(PosError::InsufficientPayment { total: 27840, paid: 25000 }));
    let c = s.cart_get(CartIdInput { cart_id: id }).unwrap();
    assert_eq!(c.status, CartStatus::Open);
}

#[test]
fn split_tender_pays() {
    let (mut s, id) = sale();
    let d = s
        .split_tender_with(
            SplitTenderInput {
                cart_id: id.clone(),
                payments: vec![tender("cash", 20000, Some(25000)), tender("card", 7840, None)],
            },
            vec!["t1".to_string(), "t2".to_string()],
            "2025-01-15T10:05:00+00:00".to_string(),
        )
        .unwrap();
    assert_eq!(d.total, 27840);
    assert_eq!(d.payments.len(), 2);
    assert_eq!(d.payments[0].method, "cash");
    assert_eq!(d.payments[0].change, 5000);
    assert_eq!(d.payments[1].change, 0);
    let c = s.cart_get(CartIdInput { cart_id: id.clone() }).unwrap();
    assert_eq!(c.status, CartStatus::CheckedOut);
    let again = s.split_tender(SplitTenderInput { cart_id: id, payments: vec![tender("cash", 30000, None)] });
    assert_eq!(again.err(), Some(PosError::CartNotOpen(CartStatus::CheckedOut)));
}

#[test]
fn foreign_currency_checkout() {
    let (mut s, id) = sale();
    let f = s
        .multi_currency_checkout(MultiCurrencyInput {
            cart_id: id.clone(),
            payment_currency: "USD".to_string(),
            exchange_rate: 129_500_000,
            tendered_foreign: 500,
        })
        .unwrap();
    assert_eq!(f.local_amount, 27840);
    assert_eq!(f.foreign_equivalent, 215);
    assert_eq!(f.change_foreign, 285);
    assert_eq!(f.change_local, 36908);
    assert_eq!(f.tendered_local, 64750);
    let r = s.multi_currency_checkout(MultiCurrencyInput {
        cart_id: id,
        payment_currency: "USD".to_string(),
        exchange_rate: 0,
        tendered_foreign: 500,
    });
    assert_eq!(r.err(), Some(PosError::OutOfRange));
}

#[test]
fn meal_voucher_partial_and_full() {
    let (mut s, id) = sale();
    let a = s
        .meal_voucher(MealVoucherInput { cart_id: id.clone(), voucher_type: "sodexo".to_string(), amount: 10000, reference: None })
        .unwrap();
    assert_eq!((a.applied, a.remaining, a.cart_total), (10000, 17840, 27840));
    assert_eq!(s.cart_get(CartIdInput { cart_id: id.clone() }).unwrap().status, CartStatus::Open);
    let b = s
        .meal_voucher(MealVoucherInput { cart_id: id.clone(), voucher_type: "edenred".to_string(), amount: 30000, reference: None })
        .unwrap();
    assert_eq!((b.applied, b.remaining), (27840, 0));
    assert_eq!(s.cart_get(CartIdInput { cart_id: id }).unwrap().status, CartStatus::CheckedOut);
}

#[test]
fn ebt_pays_untaxed_lines_only() {
    let (mut s, id) = sale();
    s.cart_add_item(CartAddInput { cart_id: id.clone(), barcode: "BREAD".to_string(), quantity: None }).unwrap();
    let e = s.ebt_snap_pay(EbtSnapInput { cart_id: id.clone(), card_last4: "4567".to_string(), amount: None }).unwrap();
    assert_eq!(e.snap_eligible_total, 5000);
    assert_eq!(e.snap_applied, 5000);
    assert_eq!(e.remaining, 27840);
    let e = s.ebt_snap_pay(EbtSnapInput { cart_id: id, card_last4: "4567".to_string(), amount: Some(2000) }).unwrap();
    assert_eq!(e.snap_applied, 2000);
}

#[test]
fn tip_added_to_total() {
    let (mut s, id) = sale();
    assert_eq!(s.tip_add(TipInput { cart_id: id.clone(), tip_amount: 2000 }), Ok(29840));
    assert_eq!(s.cart_get(CartIdInput { cart_id: id }).unwrap().total, 29840);
    assert_eq!(s.tip_add(TipInput { cart_id: "x".to_string(), tip_amount: 1 }), Err(PosError::CartNotFound));
}

#[test]
fn tip_suggestions() {
    let (s, id) = sale();
    let q = s
        .tip_calculate(TipConfigInput { cart_id: id.clone(), tip_amount: None, tip_pct: Some(20000), on_pretax: None })
        .unwrap();
    assert!(q.pretax);
    assert_eq!(q.tip, 4800);
    assert_eq!(q.new_total, 27840 + 4800);
    assert_eq!(q.suggestions, vec![(15, 3600), (18, 4320), (20, 4800), (25, 6000)]);
    let q = s
        .tip_calculate(TipConfigInput { cart_id: id, tip_amount: None, tip_pct: Some(10000), on_pretax: Some(false) })
        .unwrap();
    assert_eq!(q.tip, 2784);
    assert_eq!(q.suggestions[0], (15, 4176));
}

#[test]
fn loyalty_redeem_needs_points() {
    let (mut s, id) = sale();
    assert!(s.loyalty_check(LoyaltyInput { customer_id: "cust1".to_string() }).is_none());
    let r = s.loyalty_redeem(LoyaltyRedeemInput { customer_id: "cust1".to_string(), cart_id: id, points: 50 });
    assert_eq!(r.err(), Some(PosError::InsufficientPoints { available: 0, requested: 50 }));
    let a = s.loyalty_check(LoyaltyInput { customer_id: "cust1".to_string() }).unwrap();
    assert_eq!(a.points, 0);
    assert_eq!(a.tier, "bronze");
}

#[test]
fn daily_summary_totals() {
    let (mut s, id) = sale();
    pay(&mut s, &id, "cash", Some(30000)).unwrap();
    s.refund_with(
        RefundInput { cart_id: id.clone(), reason: "r".to_string(), items: Some(vec![Some(840)]) },
        "r1".to_string(),
        "2025-01-15T12:00:00+00:00".to_string(),
    )
    .unwrap();
    s.refund_with(
        RefundInput { cart_id: id, reason: "r".to_string(), items: Some(vec![Some(100)]) },
        "r2".to_string(),
        "2025-01-16T12:00:00+00:00".to_string(),
    )
    .unwrap();
    let d = s.daily_summary_on("2025-01-15".to_string());
    assert_eq!(d.date, "2025-01-15");
    assert_eq!(d.transactions, 1);
    assert_eq!(d.cash_sales, 27840);
    assert_eq!(d.card_sales, 0);
    assert_eq!(d.refunds, 840);
    assert_eq!(d.net_sales, 27000);
    assert_eq!(d.avg_transaction, 27840);
    let next = s.daily_summary(DailySummaryInput { date: Some("2025-01-16".to_string()) });
    assert_eq!(next.transactions, 0);
    assert_eq!(next.refunds, 100);
    assert_eq!(next.net_sales, -100);
    let today = s.daily_summary(DailySummaryInput { date: None });
    assert_eq!(today.date.len(), 10);
    assert_eq!(today.transactions, 0);
}

#[test]
fn sale_earns_loyalty_points() {
    let mut s = PosServer::new();
    s.product_register(product("TV", 5_000_000, 16000)).unwrap();
    let id = s.cart_create_with(
        CartCreateInput { cashier: "mary".to_string(), customer_id: Some("cust7".to_string()), currency: None },
        "c7".to_string(),
        "2025-01-15T10:00:00+00:00".to_string(),
    );
    s.cart_add_item(CartAddInput { cart_id: id.clone(), barcode: "TV".to_string(), quantity: None }).unwrap();
    pay(&mut s, &id, "card", None).unwrap();
    let a = s.loyalty_check(LoyaltyInput { customer_id: "cust7".to_string() }).unwrap();
    // 58 000.00 paid: 580 points
    assert_eq!(a.points, 580);
    assert_eq!(a.total_spend, 5_800_000);
    let r = s
        .loyalty_redeem(LoyaltyRedeemInput { customer_id: "cust7".to_string(), cart_id: id, points: 80 })
        .unwrap();
    assert_eq!(r.points_used, 80);
    assert_eq!(r.discount_applied, 8_000_000);
    assert_eq!(s.loyalty_check(LoyaltyInput { customer_id: "cust7".to_string() }).unwrap().points, 500);
}

#[test]
fn split_tender_earns_loyalty_points() {
    let mut s = PosServer::new();
    s.product_register(product("TV", 5_000_000, 16000)).unwrap();
    let id = s.cart_create_with(
        CartCreateInput { cashier: "mary".to_string(), customer_id: Some("cust8".to_string()), currency: None },
        "c8".to_string(),
        "2025-01-15T10:00:00+00:00".to_string(),
    );
    s.cart_add_item(CartAddInput { cart_id: id.clone(), barcode: "TV".to_string(), quantity: None }).unwrap();
    s.split_tender(SplitTenderInput {
        cart_id: id,
        payments: vec![tender("cash", 800_000, None), tender("card", 5_000_000, None)],
    })
    .unwrap();
    let a = s.loyalty_check(LoyaltyInput { customer_id: "cust8".to_string() }).unwrap();
    assert_eq!(a.points, 580);
}
