use mcp_pos::documents::PaymentQrInput;
use mcp_pos::sales::BarcodeInput;
use mcp_pos::server::{
    CartAddInput, CartCreateInput, CartDiscountInput, CartIdInput, CartRemoveInput, PosError, PosServer,
    ProductInput,
};
use mcp_pos::types::CartStatus;

fn milk() -> ProductInput {
    ProductInput {
        sku: "MILK-1L".to_string(),
        barcode: "5901234123457".to_string(),
        name: "Fresh Milk 1L".to_string(),
        price: 12000,
        tax_rate: Some(16000),
        category: None,
        currency: None,
    }
}

fn bread() -> ProductInput {
    ProductInput {
        sku: "BREAD".to_string(),
        barcode: "600100".to_string(),
        name: "Bread".to_string(),
        price: 5000,
        tax_rate: Some(0),
        category: Some("bakery".to_string()),
        currency: None,
    }
}

fn shop() -> (PosServer, String) {
    let mut s = PosServer::new();
    s.product_register(milk()).unwrap();
    s.product_register(bread()).unwrap();
    let id = s.cart_create_with(
        CartCreateInput { cashier: "mary".to_string(), customer_id: None, currency: None },
        "abc123".to_string(),
        "2025-01-15T10:00:00+00:00".to_string(),
    );
    (s, id)
}

fn add(s: &mut PosServer, id: &str, code: &str, qty: Option<i64>) -> Result<i64, PosError> {
    s.cart_add_item(CartAddInput { cart_id: id.to_string(), barcode: code.to_string(), quantity: qty })
        .map(|a| a.cart_total)
}

#[test]
fn register_fills_defaults() {
    let mut s = PosServer::new();
    let mut p = milk();
    p.tax_rate = None;
    assert_eq!(s.product_register(p).unwrap(), "MILK-1L");
    let got = s.barcode_lookup(BarcodeInput { barcode: "MILK-1L".to_string() }).unwrap();
    assert_eq!(got.tax_rate, 16000);
    assert_eq!(got.currency, "KES");
    assert_eq!(got.category, "");
}

#[test]
fn register_refuses_price_out_of_range() {
    let mut s = PosServer::new();
    let mut p = milk();
    p.price = i64::MAX;
    assert_eq!(s.product_register(p), Err(PosError::OutOfRange));
    assert!(s.barcode_lookup(BarcodeInput { barcode: "MILK-1L".to_string() }).is_err());
}

#[test]
fn barcode_lookup_by_barcode_and_sku() {
    let (s, _) = shop();
    let a = s.barcode_lookup(BarcodeInput { barcode: "5901234123457".to_string() }).unwrap();
    assert_eq!(a.sku, "MILK-1L");
    let b = s.barcode_lookup(BarcodeInput { barcode: "BREAD".to_string() }).unwrap();
    assert_eq!(b.name, "Bread");
    assert_eq!(
        s.barcode_lookup(BarcodeInput { barcode: "nothing".to_string() }).err(),
        Some(PosError::ProductNotFound)
    );
}

#[test]
fn cart_create_defaults() {
    let (s, id) = shop();
    assert_eq!(id, "cart_abc123");
    let c = s.cart_get(CartIdInput { cart_id: id }).unwrap();
    assert_eq!(c.currency, "KES");
    assert_eq!(c.status, CartStatus::Open);
    assert_eq!(c.total, 0);
    assert_eq!(c.cashier, "mary");
}

#[test]
fn cart_create_fresh_ids() {
    let mut s = PosServer::new();
    let a = s.cart_create(CartCreateInput { cashier: "x".to_string(), customer_id: None, currency: None });
    let b = s.cart_create(CartCreateInput { cashier: "x".to_string(), customer_id: None, currency: None });
    assert!(a.starts_with("cart_"));
    assert_eq!(a.len(), 13);
    assert!(a[5..].chars().all(|c| c.is_ascii_hexdigit() && !c.is_ascii_uppercase()));
    assert_ne!(a, b);
}

#[test]
fn add_item_computes_tax_and_total() {
    let (mut s, id) = shop();
    assert_eq!(add(&mut s, &id, "5901234123457", Some(2000)), Ok(27840));
    let c = s.cart_get(CartIdInput { cart_id: id.clone() }).unwrap();
    assert_eq!(c.subtotal, 24_000_000);
    assert_eq!(c.total_tax, 3840);
    assert_eq!(c.total_discount, 0);
    assert_eq!(c.items.len(), 1);
    assert_eq!(c.items[0].line_total, 27840);
}

#[test]
fn add_same_item_grows_line() {
    let (mut s, id) = shop();
    add(&mut s, &id, "5901234123457", Some(2000)).unwrap();
    assert_eq!(add(&mut s, &id, "MILK-1L", None), Ok(41760));
    let c = s.cart_get(CartIdInput { cart_id: id }).unwrap();
    assert_eq!(c.items.len(), 1);
    assert_eq!(c.items[0].quantity, 3000);
    assert_eq!(c.items[0].tax, 5760);
}

#[test]
fn add_item_errors() {
    let (mut s, id) = shop();
    assert_eq!(add(&mut s, &id, "missing", None), Err(PosError::ProductNotFound));
    assert_eq!(add(&mut s, "cart_none", "BREAD", None), Err(PosError::CartNotFound));
    assert_eq!(add(&mut s, &id, "BREAD", Some(i64::MAX)), Err(PosError::OutOfRange));
}

#[test]
fn remove_item_recomputes() {
    let (mut s, id) = shop();
    add(&mut s, &id, "MILK-1L", Some(2000)).unwrap();
    add(&mut s, &id, "BREAD", None).unwrap();
    let r = s.cart_remove_item(CartRemoveInput { cart_id: id.clone(), sku: "MILK-1L".to_string() });
    assert_eq!(r, Ok(5000));
    let c = s.cart_get(CartIdInput { cart_id: id.clone() }).unwrap();
    assert_eq!(c.items.len(), 1);
    assert_eq!(c.subtotal, 5_000_000);
    assert_eq!(c.total_tax, 0);
    let r = s.cart_remove_item(CartRemoveInput { cart_id: "nope".to_string(), sku: "BREAD".to_string() });
    assert_eq!(r, Err(PosError::CartNotFound));
    let r = s.cart_remove_item(CartRemoveInput { cart_id: id.clone(), sku: "MILK-1L".to_string() });
    assert_eq!(r, Err(PosError::ItemNotInCart));
    assert_eq!(s.cart_get(CartIdInput { cart_id: id }).unwrap().items.len(), 1);
}

#[test]
fn loyalty_points_spread_evenly() {
    let (mut s, id) = shop();
    add(&mut s, &id, "MILK-1L", Some(1000)).unwrap();
    add(&mut s, &id, "BREAD", Some(1000)).unwrap();
    let mut p = milk();
    p.sku = "EGGS".to_string();
    p.barcode = "777".to_string();
    s.product_register(p).unwrap();
    add(&mut s, &id, "EGGS", Some(1000)).unwrap();
    let r = s.cart_apply_discount(CartDiscountInput {
        cart_id: id.clone(),
        discount_type: "fixed".to_string(),
        value: 10_000,
        sku: None,
    });
    assert!(r.is_ok());
    let c = s.cart_get(CartIdInput { cart_id: id }).unwrap();
    // 10.00 over three lines: 3.33333 each
    assert_eq!(c.items[0].discount, 333_333);
    assert_eq!(c.items[1].discount, 333_333);
    assert_eq!(c.items[2].discount, 333_333);
    assert_eq!(c.total_discount, 999_999);
}

#[test]
fn fractional_quantities_sum_unrounded() {
    let mut s = PosServer::new();
    for sku in ["A", "B"] {
        s.product_register(ProductInput {
            sku: sku.to_string(),
            barcode: sku.to_string(),
            name: sku.to_string(),
            price: 333,
            tax_rate: Some(0),
            category: None,
            currency: None,
        })
        .unwrap();
    }
    let id = s.cart_create_with(
        CartCreateInput { cashier: "a".to_string(), customer_id: None, currency: None },
        "q".to_string(),
        "2025-01-15T10:00:00+00:00".to_string(),
    );
    // 1.5 units at 3.33 is 4.995 a line: each line shows 5.00, the cart 9.99
    add(&mut s, &id, "A", Some(1500)).unwrap();
    add(&mut s, &id, "B", Some(1500)).unwrap();
    let c = s.cart_get(CartIdInput { cart_id: id }).unwrap();
    assert_eq!(c.items[0].line_total, 500);
    assert_eq!(c.subtotal, 999_000);
    assert_eq!(c.total, 999);
}

#[test]
fn remove_after_add_restores_totals() {
    let (mut s, id) = shop();
    add(&mut s, &id, "BREAD", Some(2000)).unwrap();
    let before = s.cart_get(CartIdInput { cart_id: id.clone() }).unwrap();
    add(&mut s, &id, "MILK-1L", None).unwrap();
    s.cart_remove_item(CartRemoveInput { cart_id: id.clone(), sku: "MILK-1L".to_string() }).unwrap();
    let after = s.cart_get(CartIdInput { cart_id: id }).unwrap();
    assert_eq!(after.items.len(), before.items.len());
    assert_eq!(after.total, before.total);
    assert_eq!(after.subtotal, before.subtotal);
    assert_eq!(after.total_tax, before.total_tax);
}

#[test]
fn whole_cart_fixed_discount_is_spread_exactly() {
    let (mut s, id) = shop();
    add(&mut s, &id, "MILK-1L", Some(3000)).unwrap();
    add(&mut s, &id, "BREAD", None).unwrap();
    let r = s.cart_apply_discount(CartDiscountInput {
        cart_id: id.clone(),
        discount_type: "fixed".to_string(),
        value: 1010,
        sku: None,
    });
    assert_eq!(r, Ok(46659));
    let c = s.cart_get(CartIdInput { cart_id: id }).unwrap();
    assert_eq!(c.total_discount, 101_000);
    assert_eq!(c.items[0].discount, 50_500);
    assert_eq!(c.items[1].discount, 50_500);
    assert_eq!(c.items[0].line_total, 41710);
    assert_eq!(c.items[1].line_total, 4950);
    assert_eq!(c.subtotal, 41_000_000);
    assert_eq!(c.total, 46659);
}

#[test]
fn whole_cart_percentage_discount() {
    let (mut s, id) = shop();
    add(&mut s, &id, "MILK-1L", Some(2000)).unwrap();
    let r = s.cart_apply_discount(CartDiscountInput {
        cart_id: id.clone(),
        discount_type: "percentage".to_string(),
        value: 10000,
        sku: None,
    });
    assert_eq!(r, Ok(27840 - 2400));
    let c = s.cart_get(CartIdInput { cart_id: id }).unwrap();
    assert_eq!(c.total_discount, 2_400_000);
}

#[test]
fn line_percentage_discount() {
    let (mut s, id) = shop();
    add(&mut s, &id, "MILK-1L", Some(3000)).unwrap();
    add(&mut s, &id, "BREAD", None).unwrap();
    let r = s.cart_apply_discount(CartDiscountInput {
        cart_id: id.clone(),
        discount_type: "percentage".to_string(),
        value: 10000,
        sku: Some("MILK-1L".to_string()),
    });
    assert_eq!(r, Ok(46760 - 3600));
    let c = s.cart_get(CartIdInput { cart_id: id.clone() }).unwrap();
    assert_eq!(c.items[0].discount, 3_600_000);
    assert_eq!(c.items[1].discount, 0);
    let r = s.cart_apply_discount(CartDiscountInput {
        cart_id: id.clone(),
        discount_type: "fixed".to_string(),
        value: 2500,
        sku: Some("BREAD".to_string()),
    });
    assert_eq!(r, Ok(46760 - 3600 - 250));
}

#[test]
fn discount_on_missing_cart() {
    let (mut s, _) = shop();
    let r = s.cart_apply_discount(CartDiscountInput {
        cart_id: "none".to_string(),
        discount_type: "fixed".to_string(),
        value: 1,
        sku: None,
    });
    assert_eq!(r, Err(PosError::CartNotFound));
}

#[test]
fn cart_get_missing() {
    let (s, _) = shop();
    assert_eq!(s.cart_get(CartIdInput { cart_id: "x".to_string() }).err(), Some(PosError::CartNotFound));
}

#[test]
fn qr_for_missing_cart() {
    let (s, _) = shop();
    let r = s.payment_qr_generate(PaymentQrInput {
        cart_id: "none".to_string(),
        qr_type: "mpesa".to_string(),
        merchant_id: None,
    });
    assert_eq!(r.err(), Some(PosError::CartNotFound));
}
