use mcp_pos::controls::{
    AuthorizeInput, FiscalConfigInput, PriceOverrideInput, RecallInput, RoleLimitInput, SuspendInput, VoidInput,
};
use mcp_pos::fiscal::{
    AgeVerifyInput, BuyerIdentifyInput, EnvLevyInput, ReceiptSignInput, TaxCategoryInput, UsTaxInput, age_decision,
    md5_simple, state_tax_of, us_state_tax,
};
use mcp_pos::server::{CartAddInput, CartCreateInput, CartIdInput, PosError, PosServer, ProductInput};
use mcp_pos::types::{CartStatus, TaxRegime};

fn sale() -> (PosServer, String) {
    let mut s = PosServer::new();
    s.product_register(ProductInput {
        sku: "MILK".to_string(),
        barcode: "111".to_string(),
        name: "Fresh Milk 1L".to_string(),
        price: 12000,
        tax_rate: Some(16000),
        category: None,
        currency: None,
    })
    .unwrap();
    let id = s.cart_create_with(
        CartCreateInput { cashier: "mary".to_string(), customer_id: None, currency: None },
        "c1".to_string(),
        "2025-01-15T10:00:00+00:00".to_string(),
    );
    s.cart_add_item(CartAddInput { cart_id: id.clone(), barcode: "111".to_string(), quantity: Some(2000) }).unwrap();
    (s, id)
}

fn void(s: &mut PosServer, id: &str, role: &str) -> Result<(), PosError> {
    s.cart_void(VoidInput {
        cart_id: id.to_string(),
        actor: "joe".to_string(),
        role: role.to_string(),
        reason: "customer left".to_string(),
    })
}

fn authorized(s: &PosServer, role: &str, action: &str) -> Option<bool> {
    s.authorize_check(AuthorizeInput { action: action.to_string(), actor: "joe".to_string(), role: role.to_string() })
        .map(|a| a.authorized)
}

#[test]
fn cashier_cannot_void_manager_can() {
    let (mut s, id) = sale();
    assert_eq!(void(&mut s, &id, "cashier"), Err(PosError::Unauthorized));
    assert_eq!(void(&mut s, &id, "nobody"), Err(PosError::Unauthorized));
    assert_eq!(s.cart_get(CartIdInput { cart_id: id.clone() }).unwrap().status, CartStatus::Open);
    assert_eq!(void(&mut s, &id, "manager"), Ok(()));
    assert_eq!(s.cart_get(CartIdInput { cart_id: id.clone() }).unwrap().status, CartStatus::Voided);
    assert_eq!(void(&mut s, "cart_none", "supervisor"), Err(PosError::CartNotFound));
}

#[test]
fn authorization_matches_gates() {
    for role in ["cashier", "supervisor", "manager", "nobody"] {
        let (mut s, id) = sale();
        let allowed = authorized(&s, role, "void") == Some(true);
        let res = void(&mut s, &id, role);
        assert_eq!(res != Err(PosError::Unauthorized), allowed, "role {}", role);
    }
}

#[test]
fn default_role_limits() {
    let s = PosServer::new();
    assert_eq!(authorized(&s, "cashier", "refund"), Some(false));
    assert_eq!(authorized(&s, "cashier", "discount"), Some(true));
    assert_eq!(authorized(&s, "supervisor", "price_override"), Some(true));
    assert_eq!(authorized(&s, "manager", "fly"), Some(false));
    assert_eq!(authorized(&s, "ghost", "void"), None);
    let a = s
        .authorize_check(AuthorizeInput { action: "discount".to_string(), actor: "a".to_string(), role: "supervisor".to_string() })
        .unwrap();
    assert_eq!(a.max_discount_pct, 20000);
}

#[test]
fn role_limits_can_be_changed() {
    let mut s = PosServer::new();
    s.role_set_limits(RoleLimitInput {
        role: "cashier".to_string(),
        max_discount_pct: 10000,
        can_void: true,
        can_refund: false,
        can_price_override: false,
        max_refund_amount: None,
    });
    assert_eq!(authorized(&s, "cashier", "void"), Some(true));
    s.role_set_limits(RoleLimitInput {
        role: "trainee".to_string(),
        max_discount_pct: 0,
        can_void: false,
        can_refund: false,
        can_price_override: false,
        max_refund_amount: Some(0),
    });
    assert_eq!(authorized(&s, "trainee", "void"), Some(false));
}

#[test]
fn price_override_is_gated() {
    let (mut s, id) = sale();
    let input = |role: &str, sku: &str| PriceOverrideInput {
        cart_id: id.clone(),
        sku: sku.to_string(),
        new_price: 10000,
        actor: "joe".to_string(),
        role: role.to_string(),
        reason: "damaged pack".to_string(),
    };
    assert_eq!(s.price_override(input("cashier", "MILK")).err(), Some(PosError::Unauthorized));
    assert_eq!(s.price_override(input("manager", "EGGS")).err(), Some(PosError::ItemNotInCart));
    let o = s.price_override(input("supervisor", "MILK")).unwrap();
    assert_eq!((o.old_price, o.new_price), (12000, 10000));
    let c = s.cart_get(CartIdInput { cart_id: id.clone() }).unwrap();
    assert_eq!(c.subtotal, 20_000_000);
    assert_eq!(c.items[0].line_total, 23840);
    assert_eq!(c.total, 23840);
}

#[test]
fn suspend_then_recall_restores_cart() {
    let (mut s, id) = sale();
    let before = s.cart_get(CartIdInput { cart_id: id.clone() }).unwrap();
    s.cart_suspend_with(SuspendInput { cart_id: id.clone(), reason: Some("forgot wallet".to_string()) }, "t".to_string())
        .unwrap();
    assert_eq!(s.cart_get(CartIdInput { cart_id: id.clone() }).err(), Some(PosError::CartNotFound));
    let list = s.suspended_list();
    assert_eq!(list.len(), 1);
    assert_eq!(list[0].cart_id, id);
    assert_eq!(list[0].total, 27840);
    assert_eq!(list[0].items, 1);
    assert_eq!(list[0].reason, Some("forgot wallet".to_string()));
    s.cart_recall(RecallInput { cart_id: id.clone() }).unwrap();
    assert!(s.suspended_list().is_empty());
    let after = s.cart_get(CartIdInput { cart_id: id.clone() }).unwrap();
    assert_eq!(after.total, before.total);
    assert_eq!(after.items.len(), before.items.len());
    assert_eq!(after.created_at, before.created_at);
    assert_eq!(s.cart_recall(RecallInput { cart_id: id.clone() }), Err(PosError::SuspendedCartNotFound));
    assert_eq!(s.cart_suspend(SuspendInput { cart_id: "no".to_string(), reason: None }), Err(PosError::CartNotFound));
}

#[test]
fn fiscal_config_sets_regime() {
    let mut s = PosServer::new();
    let f = s.fiscal_config(FiscalConfigInput {
        country: "IN".to_string(),
        business_name: "Kirana".to_string(),
        business_pin: Some("27AAAPL1234C1ZV".to_string()),
        device_id: None,
        currency: Some("INR".to_string()),
        smallest_denomination: None,
        receipt_prefix: Some("INV".to_string()),
    });
    assert_eq!(f.tax_regime, TaxRegime::Gst);
    assert_eq!(f.currency, "INR");
    assert_eq!(f.receipt_prefix, "INV");
    assert_eq!(f.smallest_denomination, 100);
    let g = s.fiscal_config(FiscalConfigInput {
        country: "US".to_string(),
        business_name: "Diner".to_string(),
        business_pin: None,
        device_id: None,
        currency: None,
        smallest_denomination: None,
        receipt_prefix: None,
    });
    assert_eq!(g.tax_regime, TaxRegime::SalesTax);
    assert_eq!(g.currency, "INR");
    let h = s.fiscal_config(FiscalConfigInput {
        country: "KE".to_string(),
        business_name: "Duka".to_string(),
        business_pin: None,
        device_id: None,
        currency: None,
        smallest_denomination: None,
        receipt_prefix: None,
    });
    assert_eq!(h.tax_regime, TaxRegime::Vat);
}

#[test]
fn md5_simple_values() {
    assert_eq!(md5_simple(""), 14695981039346656037);
    assert_eq!(md5_simple("abc"), 0x13cc2c14124cb461e71fa2190541574b);
}

#[test]
fn signatures_form_a_chain() {
    let (mut s, id) = sale();
    let a = s
        .receipt_sign_with(ReceiptSignInput { cart_id: id.clone() }, "2025-01-01T00:00:00+00:00".to_string())
        .unwrap();
    assert_eq!(a.receipt_number, 1);
    assert_eq!(a.previous_hash, "GENESIS");
    assert_eq!(a.hash, "96008a1f4de45420f8fa5411dd1b241a5258ecc9cedbfde7026b57d7b60135da");
    let b = s.receipt_sign(ReceiptSignInput { cart_id: id }).unwrap();
    assert_eq!(b.receipt_number, 2);
    assert_eq!(b.previous_hash, a.hash);
    assert_eq!(s.receipt_sign(ReceiptSignInput { cart_id: "none".to_string() }).err(), Some(PosError::CartNotFound));
}

#[test]
fn us_state_rates() {
    assert_eq!(us_state_tax("CA"), (7250, "California"));
    assert_eq!(us_state_tax("ny"), (4000, "New York"));
    assert_eq!(us_state_tax("OR"), (0, "Oregon"));
    assert_eq!(us_state_tax("nm"), (4500, "New Mexico"));
    assert_eq!(us_state_tax("CT"), (6250, "Connecticut"));
    assert_eq!(state_tax_of(&"TX".to_string()), (6250, "Texas"));
    assert_eq!(state_tax_of(&"tx".to_string()), (0, "Unknown"));
    assert_eq!(us_state_tax("ZZ"), (0, "Unknown"));
}

#[test]
fn us_tax_quote() {
    let s = PosServer::new();
    let q = s.us_tax_lookup(UsTaxInput {
        state: "tx".to_string(),
        county: Some("Travis".to_string()),
        city: Some("Austin".to_string()),
        amount: Some(10000),
    });
    assert_eq!(q.state_name, "Texas");
    assert_eq!(q.state_rate, 6250);
    assert_eq!(q.combined_rate, 8500);
    assert_eq!(q.tax_amount, Some(850));
    assert_eq!(q.total, Some(10850));
    let q = s.us_tax_lookup(UsTaxInput { state: "OR".to_string(), county: None, city: None, amount: None });
    assert_eq!(q.combined_rate, 0);
    assert_eq!(q.tax_amount, None);
}

#[test]
fn levy_adds_a_line() {
    let (mut s, id) = sale();
    let l = s
        .env_levy_add(EnvLevyInput { cart_id: id.clone(), levy_type: "carrier_bag".to_string(), quantity: Some(3000) })
        .unwrap();
    assert_eq!((l.quantity, l.levy_per_unit, l.total_levy, l.cart_total), (3000, 10, 30, 27870));
    let c = s.cart_get(CartIdInput { cart_id: id.clone() }).unwrap();
    assert_eq!(c.items[1].sku, "LEVY-CARRIER_BAG");
    assert_eq!(c.items[1].name, "Carrier Bag Charge");
    let l = s.env_levy_add(EnvLevyInput { cart_id: id, levy_type: "other".to_string(), quantity: None }).unwrap();
    assert_eq!(l.total_levy, 0);
    assert_eq!(
        s.env_levy_add(EnvLevyInput { cart_id: "x".to_string(), levy_type: "sugar_tax".to_string(), quantity: None })
            .err(),
        Some(PosError::CartNotFound)
    );
}

#[test]
fn age_rules() {
    let m = |t: &str| t.to_string();
    let t = (2026, 5, 27);
    assert!(age_decision(&m("id_scanned"), None, t));
    assert!(age_decision(&m("challenge25_passed"), None, t));
    assert!(!age_decision(&m("looked_old"), None, t));
    assert!(!age_decision(&m("dob_check"), Some((2008, 5, 30)), t));
    assert!(age_decision(&m("dob_check"), Some((2008, 5, 30)), (2026, 5, 30)));
    assert!(age_decision(&m("dob_check"), Some((2008, 5, 27)), t));
    assert!(!age_decision(&m("dob_check"), Some((2008, 12, 1)), (2026, 6, 1)));
    assert!(age_decision(&m("dob_check"), Some((1990, 1, 1)), t));
    assert!(!age_decision(&m("dob_check"), None, t));
}

#[test]
fn age_verify_parses_dates() {
    let s = PosServer::new();
    let input = |dob: &str| AgeVerifyInput {
        cart_id: "c".to_string(),
        method: "dob_check".to_string(),
        dob: Some(dob.to_string()),
        verified_by: "joe".to_string(),
    };
    assert!(s.age_verify(input("1970-05-20")));
    assert!(!s.age_verify(input("2099-01-01")));
    assert!(!s.age_verify(input("not a date")));
}

#[test]
fn tax_codes_and_buyers_need_records() {
    let (mut s, id) = sale();
    let t = |sku: &str| TaxCategoryInput { sku: sku.to_string(), tax_code: "0401".to_string(), code_type: "hsn".to_string() };
    assert_eq!(s.tax_category_set(t("MILK")), Ok(()));
    assert_eq!(s.tax_category_set(t("EGGS")), Err(PosError::ProductNotFound));
    let b = |c: &str| BuyerIdentifyInput {
        cart_id: c.to_string(),
        tax_id: "P051234567A".to_string(),
        name: "Acme".to_string(),
        id_type: "kra_pin".to_string(),
    };
    assert_eq!(s.buyer_identify(b(&id)), Ok(()));
    assert_eq!(s.buyer_identify(b("none")), Err(PosError::CartNotFound));
}

#[test]
fn voided_cart_cannot_be_paid() {
    let (mut s, id) = sale();
    void(&mut s, &id, "supervisor").unwrap();
    let r = s.payment_process(mcp_pos::payments::PaymentInput {
        cart_id: id.clone(),
        method: "cash".to_string(),
        amount: None,
        tendered: None,
        reference: None,
    });
    assert_eq!(r.err(), Some(PosError::CartNotOpen(CartStatus::Voided)));
    let r = s.split_tender(mcp_pos::tenders::SplitTenderInput {
        cart_id: id,
        payments: vec![mcp_pos::tenders::SplitPayment {
            method: None,
            amount: Some(30000),
            tendered: None,
            reference: None,
        }],
    });
    assert_eq!(r.err(), Some(PosError::CartNotOpen(CartStatus::Voided)));
}

#[test]
fn redeeming_no_points_changes_nothing() {
    let (mut s, id) = sale();
    let r = s
        .loyalty_redeem(mcp_pos::accounts::LoyaltyRedeemInput { customer_id: "c9".to_string(), cart_id: id.clone(), points: 0 })
        .unwrap();
    assert_eq!((r.points_used, r.discount_applied, r.cart_total), (0, 0, 27840));
    let r = s.loyalty_redeem(mcp_pos::accounts::LoyaltyRedeemInput {
        customer_id: "c9".to_string(),
        cart_id: "missing".to_string(),
        points: 0,
    });
    assert_eq!(r.err(), Some(PosError::CartNotFound));
}
