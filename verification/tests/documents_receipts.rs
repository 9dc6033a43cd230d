use mcp_pos::controls::FiscalConfigInput;
use mcp_pos::documents::{EInvoiceInput, PaymentQrInput, supported_standards};
use mcp_pos::fiscal::BuyerIdentifyInput;
use mcp_pos::payments::PaymentInput;
use mcp_pos::receipts::{BilingualReceiptInput, ReprintInput, labels_for, qty_str};
use mcp_pos::server::{CartAddInput, CartCreateInput, CartIdInput, PosError, PosServer, ProductInput};

fn product(sku: &str, name: &str, price: i64, rate: i64) -> ProductInput {
    ProductInput {
        sku: sku.to_string(),
        barcode: sku.to_string(),
        name: name.to_string(),
        price,
        tax_rate: Some(rate),
        category: None,
        currency: None,
    }
}

fn sale() -> (PosServer, String) {
    let mut s = PosServer::new();
    s.product_register(product("MILK", "Fresh Milk 1L", 12000, 16000)).unwrap();
    s.product_register(product("BREAD", "Bread", 5050, 0)).unwrap();
    let id = s.cart_create_with(
        CartCreateInput { cashier: "mary".to_string(), customer_id: None, currency: None },
        "c1".to_string(),
        "2025-01-15T10:00:00+00:00".to_string(),
    );
    s.cart_add_item(CartAddInput { cart_id: id.clone(), barcode: "MILK".to_string(), quantity: Some(2000) }).unwrap();
    (s, id)
}

fn qr(s: &PosServer, id: &str, t: &str, merchant: Option<&str>) -> String {
    s.payment_qr_generate_with(
        PaymentQrInput { cart_id: id.to_string(), qr_type: t.to_string(), merchant_id: merchant.map(|m| m.to_string()) },
        "2025-01-15T10:05:00+00:00".to_string(),
    )
    .unwrap()
    .qr_payload
}

#[test]
fn qr_mpesa_and_default_merchant() {
    let (s, id) = sale();
    assert_eq!(qr(&s, &id, "mpesa", Some("123456")), "MPESA:BUY_GOODS:123456:cart_c1:278.40");
    let q = s
        .payment_qr_generate_with(
            PaymentQrInput { cart_id: id.clone(), qr_type: "upi".to_string(), merchant_id: None },
            "t".to_string(),
        )
        .unwrap();
    assert_eq!(q.merchant, "MERCHANT001");
    assert_eq!(q.amount, 27840);
    assert_eq!(q.currency, "KES");
    assert_eq!(q.qr_payload, "upi://pay?pa=MERCHANT001&pn=My Store&am=278.40&cu=INR&tn=POS-cart_c1");
}

#[test]
fn qr_merchant_falls_back_to_business_pin() {
    let (mut s, id) = sale();
    s.fiscal_config(FiscalConfigInput {
        country: "SA".to_string(),
        business_name: "Souq".to_string(),
        business_pin: Some("300000000000003".to_string()),
        device_id: None,
        currency: None,
        smallest_denomination: None,
        receipt_prefix: None,
    });
    assert_eq!(
        qr(&s, &id, "zatca", None),
        "ZATCA:1=Souq&2=300000000000003&3=2025-01-15T10:05:00+00:00&4=278.40&5=38.40"
    );
}

#[test]
fn qr_wechat_in_cents_and_vnd_in_whole_units() {
    let (mut s, id) = sale();
    assert_eq!(qr(&s, &id, "wechat", Some("M")), "wxp://f2f/M/pay?total_fee=27840&body=POS-cart_c1");
    assert_eq!(qr(&s, &id, "vnpay", Some("M")), "VNPAY:M:cart_c1:278:VND");
    s.cart_add_item(CartAddInput { cart_id: id.clone(), barcode: "BREAD".to_string(), quantity: None }).unwrap();
    // 278.40 + 50.50 = 328.90, rounded to 329
    assert_eq!(qr(&s, &id, "momo_vn", Some("M")), "MOMO:PAY:M:cart_c1:329:VND");
}

#[test]
fn qr_unknown_type_is_generic() {
    let (s, id) = sale();
    assert_eq!(qr(&s, &id, "bitcoin", Some("M")), "PAY:bitcoin:cart_c1:278.40");
    assert_eq!(qr(&s, &id, "mtn_momo", Some("M")), "MOMO:PAY:M:cart_c1:278.40:KES");
}

#[test]
fn einvoice_kra() {
    let (s, id) = sale();
    let e = s
        .einvoice_generate_with(
            EInvoiceInput { cart_id: id.clone(), standard: "kra_etr".to_string(), buyer_tax_id: Some("P1".to_string()), buyer_name: None },
            "2025-01-15T10:05:00+00:00".to_string(),
            "aaaa1111".to_string(),
            "bbbb2222".to_string(),
        )
        .unwrap();
    assert_eq!(e.invoice_number, "RCP-000001");
    let b = e.body.unwrap();
    assert_eq!(b.issue_date, "2025-01-15");
    assert_eq!(b.seller_name, "My Store");
    assert_eq!(b.buyer_tax_id, Some("P1".to_string()));
    assert_eq!(b.lines.len(), 1);
    assert_eq!(b.lines[0].net, 24_000_000);
    assert_eq!(b.lines[0].tax, 3840);
    assert_eq!(b.lines[0].total, 27840);
    assert_eq!(b.lines[0].tax_rate, Some(16000));
    assert_eq!((b.subtotal, b.total_tax, b.total), (24_000_000, 3840, 27840));
    assert!(b.codes.is_empty());
}

#[test]
fn einvoice_codes() {
    let (s, id) = sale();
    let gen = |std: &str| {
        s.einvoice_generate_with(
            EInvoiceInput { cart_id: id.clone(), standard: std.to_string(), buyer_tax_id: None, buyer_name: None },
            "2025-01-15T10:05:00+00:00".to_string(),
            "aaaa1111".to_string(),
            "bbbb2222".to_string(),
        )
        .unwrap()
        .body
        .unwrap()
    };
    assert_eq!(gen("nf525_fr").codes, vec!["SHA256-aaaa1111".to_string(), "NF525-bbbb2222".to_string()]);
    assert_eq!(gen("rra_ebm").codes, vec!["EBM-RCP-000001".to_string()]);
    assert_eq!(gen("zatca").codes, vec!["1=My Store&2=&3=2025-01-15T10:05:00+00:00&4=278.40&5=38.40".to_string()]);
    assert_eq!(gen("tse_de").lines[0].tax_rate, Some(19000));
    assert_eq!(gen("firs").lines[0].tax_rate, Some(7500));
    assert_eq!(gen("india_irn").lines[0].tax_rate, None);
}

#[test]
fn einvoice_unknown_standard_and_missing_cart() {
    let (s, id) = sale();
    let e = s
        .einvoice_generate(EInvoiceInput { cart_id: id, standard: "xyz".to_string(), buyer_tax_id: None, buyer_name: None })
        .unwrap();
    assert_eq!(e.invoice_number, "RCP-000001");
    assert_eq!(e.standard, "xyz");
    assert!(e.body.is_none());
    let r = s.einvoice_generate(EInvoiceInput {
        cart_id: "none".to_string(),
        standard: "kra_etr".to_string(),
        buyer_tax_id: None,
        buyer_name: None,
    });
    assert_eq!(r.err(), Some(PosError::CartNotFound));
}

#[test]
fn quantities_round_half_to_even() {
    assert_eq!(qty_str(2000), "2");
    assert_eq!(qty_str(2500), "2");
    assert_eq!(qty_str(3500), "4");
    assert_eq!(qty_str(1499), "1");
    assert_eq!(qty_str(-1500), "-2");
}

#[test]
fn sales_receipt_lines() {
    let (mut s, id) = sale();
    s.payment_process_with(
        PaymentInput { cart_id: id.clone(), method: "cash".to_string(), amount: None, tendered: Some(30000), reference: None },
        "p1".to_string(),
        "t".to_string(),
    )
    .unwrap();
    let r = s.receipt_generate_with(CartIdInput { cart_id: id.clone() }, "2025-01-15T10:10:00+00:00".to_string()).unwrap();
    assert_eq!(r.cart_id, id);
    assert_eq!(r.generated_at, "2025-01-15T10:10:00+00:00");
    let expected = vec![
        "================================",
        "         SALES RECEIPT          ",
        "================================",
        "Date: 2025-01-15",
        "Cashier: mary",
        "--------------------------------",
        "Fresh Milk 1L        x2",
        "  KES 278.40",
        "--------------------------------",
        "Subtotal:    KES 240.00",
        "Tax:         KES 38.40",
        "TOTAL:       KES 278.40",
        "--------------------------------",
        "CASH: KES 278.40",
        "Change: KES 21.60",
        "================================",
        "      Thank you! Come again     ",
        "================================",
    ];
    assert_eq!(r.lines, expected);
    let now = s.receipt_generate(CartIdInput { cart_id: id }).unwrap();
    assert_eq!(now.lines, expected);
}

#[test]
fn reprint_is_marked_copy() {
    let (s, id) = sale();
    let lines = s.receipt_reprint(ReprintInput { cart_id: id }).unwrap();
    assert_eq!(lines[1], "     *** COPY / DUPLICATE ***   ");
    assert_eq!(lines[3], "  My Store");
    assert_eq!(lines[7], "Fresh Milk 1L        x2  KES 278.40");
    assert_eq!(lines[9], "TOTAL: KES 278.40");
    assert_eq!(lines[lines.len() - 1], "       *** COPY ***            ");
    assert_eq!(s.receipt_reprint(ReprintInput { cart_id: "x".to_string() }).err(), Some(PosError::CartNotFound));
}

#[test]
fn bilingual_receipt() {
    let (s, id) = sale();
    let lines = s
        .receipt_bilingual(BilingualReceiptInput { cart_id: id, primary_lang: "en".to_string(), secondary_lang: "sw".to_string() })
        .unwrap();
    assert_eq!(lines[1], "  Risiti ya Mauzo / SALES RECEIPT");
    assert_eq!(lines[4], "");
    assert_eq!(lines[7], "Fresh Milk 1L      x2 KES 278.40");
    assert_eq!(lines[9], "Jumla / TOTAL: KES 278.40");
    assert_eq!(lines[10], "  Tax/VAT: KES 38.40");
    assert_eq!(lines[12], "  Asante kwa kununua / Thank you!");
    assert_eq!(lines[9], "Jumla / TOTAL: KES 278.40");
    assert_eq!(labels_for(&"xx".to_string()), ("Receipt", "Total", "Thank you"));
    assert_eq!(labels_for(&"de".to_string()).1, "Gesamt");
}

#[test]
fn bilingual_receipt_in_two_other_languages() {
    let (s, id) = sale();
    let lines = s
        .receipt_bilingual(BilingualReceiptInput { cart_id: id, primary_lang: "fr".to_string(), secondary_lang: "ar".to_string() })
        .unwrap();
    assert_eq!(lines[1], "  إيصال المبيعات / Reçu de Vente");
    assert_eq!(lines[9], "المجموع / Total: KES 278.40");
    assert_eq!(lines[12], "  شكراً لزيارتكم / Merci de votre visite");
}

#[test]
fn supported_standards_are_listed() {
    let v = supported_standards();
    assert_eq!(v.len(), 22);
    assert_eq!(v[0], "india_irn");
    assert_eq!(v[21], "einvoice_vn");
    assert!(v.contains(&"hmrc_mtd"));
}

#[test]
fn einvoice_uses_identified_buyer() {
    let (mut s, id) = sale();
    s.buyer_identify(BuyerIdentifyInput {
        cart_id: id.clone(),
        tax_id: "P051234567A".to_string(),
        name: "Acme Ltd".to_string(),
        id_type: "kra_pin".to_string(),
    })
    .unwrap();
    let gen = |t: Option<&str>| {
        s.einvoice_generate(EInvoiceInput {
            cart_id: id.clone(),
            standard: "kra_etr".to_string(),
            buyer_tax_id: t.map(|x| x.to_string()),
            buyer_name: None,
        })
        .unwrap()
        .body
        .unwrap()
    };
    let b = gen(None);
    assert_eq!(b.buyer_tax_id, Some("P051234567A".to_string()));
    assert_eq!(b.buyer_name, Some("Acme Ltd".to_string()));
    assert_eq!(gen(Some("OTHER")).buyer_tax_id, Some("OTHER".to_string()));
}

#[test]
fn einvoice_repeats_and_takes_no_number() {
    let (s, id) = sale();
    let gen = |ts: &str, a: &str| {
        s.einvoice_generate_with(
            EInvoiceInput { cart_id: id.clone(), standard: "kra_etr".to_string(), buyer_tax_id: None, buyer_name: None },
            ts.to_string(),
            a.to_string(),
            "b".to_string(),
        )
        .unwrap()
    };
    let e1 = gen("2025-01-15T10:05:00+00:00", "x1");
    let e2 = gen("2025-02-01T09:00:00+00:00", "x2");
    assert_eq!(e1.invoice_number, "RCP-000001");
    assert_eq!(e2.invoice_number, e1.invoice_number);
    let (b1, b2) = (e1.body.unwrap(), e2.body.unwrap());
    assert_eq!(b1.lines.len(), b2.lines.len());
    assert_eq!(b1.lines[0].total, b2.lines[0].total);
    assert_eq!((b1.subtotal, b1.total), (b2.subtotal, b2.total));
    assert_eq!(b1.codes, b2.codes);
    assert_ne!(b1.issue_date, b2.issue_date);
}
