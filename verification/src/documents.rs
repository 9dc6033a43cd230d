//! Documents handed to customers and tax authorities: payment QR codes and
//! electronic invoices.
use vstd::prelude::*;
use crate::cart::{cart_ok, item_ok, items_ok};
use crate::server::{PosError, PosServer};
use crate::store::StoreView;
use crate::table::{lemma_lookup, lookup};
use crate::text::{
    cents_text, decimal, eq_lit, lit, prefix, push_cents, push_char, push_rounded, push_signed,
    push_zero_padded, rounded_text, signed_decimal, take_prefix, zero_pad,
};
use crate::clock::{now, uid, uid_text};
use crate::types::{
    Cart, CartItem, CartItemView, CartView, FiscalConfig, FiscalConfigView, copy_opt, opt_view,
};

verus! {

/// The payload of a payment QR code of type `t` for cart `c`, with
/// merchant `m`, business name `business` and time `ts`.
pub open spec fn qr_payload(t: Seq<char>, m: Seq<char>, business: Seq<char>, c: CartView, ts: Seq<char>) -> Seq<char> {
    if t == "upi"@ {
        "upi://pay?pa="@ + m + "&pn="@ + business + "&am="@ + cents_text(c.total as int) + "&cu=INR&tn=POS-"@ + c.id
    } else if t == "wechat"@ {
        "wxp://f2f/"@ + m + "/pay?total_fee="@ + signed_decimal(c.total as int) + "&body=POS-"@ + c.id
    } else if t == "alipay"@ {
        "https://qr.alipay.com/"@ + m + "?amount="@ + cents_text(c.total as int) + "&memo=POS-"@ + c.id
    } else if t == "mpesa"@ {
        "MPESA:BUY_GOODS:"@ + m + ":"@ + c.id + ":"@ + cents_text(c.total as int)
    } else if t == "mtn_momo"@ {
        "MOMO:PAY:"@ + m + ":"@ + c.id + ":"@ + cents_text(c.total as int) + ":"@ + c.currency
    } else if t == "airtel_money"@ {
        "AIRTEL:PAY:"@ + m + ":"@ + c.id + ":"@ + cents_text(c.total as int) + ":"@ + c.currency
    } else if t == "telebirr"@ {
        "TELEBIRR:PAY:"@ + m + ":"@ + c.id + ":"@ + cents_text(c.total as int) + ":ETB"@
    } else if t == "tigo_pesa"@ {
        "TIGO:PAY:"@ + m + ":"@ + c.id + ":"@ + cents_text(c.total as int) + ":TZS"@
    } else if t == "snapscan"@ {
        "SNAPSCAN:"@ + m + ":"@ + c.id + ":"@ + cents_text(c.total as int) + ":ZAR"@
    } else if t == "opay"@ {
        "OPAY:PAY:"@ + m + ":"@ + c.id + ":"@ + cents_text(c.total as int) + ":NGN"@
    } else if t == "palmpay"@ {
        "PALMPAY:"@ + m + ":"@ + c.id + ":"@ + cents_text(c.total as int) + ":NGN"@
    } else if t == "fawry"@ {
        "FAWRY:PAY:"@ + m + ":"@ + c.id + ":"@ + cents_text(c.total as int) + ":EGP"@
    } else if t == "paynow_sg"@ {
        "https://sgqr.com/paynow?UEN="@ + m + "&AMT="@ + cents_text(c.total as int) + "&REF="@ + c.id
    } else if t == "duitnow_my"@ {
        "DUITNOW:"@ + m + ":"@ + c.id + ":"@ + cents_text(c.total as int) + ":MYR"@
    } else if t == "promptpay_th"@ {
        "https://promptpay.io/"@ + m + "?amount="@ + cents_text(c.total as int)
    } else if t == "qris_id"@ {
        "QRIS:"@ + m + ":"@ + c.id + ":"@ + cents_text(c.total as int) + ":IDR"@
    } else if t == "gcash_ph"@ {
        "GCASH:PAY:"@ + m + ":"@ + c.id + ":"@ + cents_text(c.total as int) + ":PHP"@
    } else if t == "maya_ph"@ {
        "MAYA:PAY:"@ + m + ":"@ + c.id + ":"@ + cents_text(c.total as int) + ":PHP"@
    } else if t == "vnpay"@ {
        "VNPAY:"@ + m + ":"@ + c.id + ":"@ + rounded_text(c.total as int, 100) + ":VND"@
    } else if t == "momo_vn"@ {
        "MOMO:PAY:"@ + m + ":"@ + c.id + ":"@ + rounded_text(c.total as int, 100) + ":VND"@
    } else if t == "zatca"@ {
        "ZATCA:1="@ + business + "&2="@ + m + "&3="@ + ts + "&4="@ + cents_text(c.total as int) + "&5="@ + cents_text(c.total_tax as int)
    } else {
        "PAY:"@ + t + ":"@ + c.id + ":"@ + cents_text(c.total as int)
    }
}

/// The payload of a payment QR code; see `qr_payload`.
pub fn qr_payload_for(t: &String, m: &String, business: &String, c: &Cart, ts: &String) -> (r: String)
    requires
        cart_ok(c@),
    ensures
        r@ == qr_payload(t@, m@, business@, c@, ts@),
{
    let r = if eq_lit(t, "upi") {
        let mut s = String::new();
        s.append("upi://pay?pa=");
        s.append(m.as_str());
        s.append("&pn=");
        s.append(business.as_str());
        s.append("&am=");
        push_cents(&mut s, c.total);
        s.append("&cu=INR&tn=POS-");
        s.append(c.id.as_str());
        s
    } else if eq_lit(t, "wechat") {
        let mut s = String::new();
        s.append("wxp://f2f/");
        s.append(m.as_str());
        s.append("/pay?total_fee=");
        push_signed(&mut s, c.total);
        s.append("&body=POS-");
        s.append(c.id.as_str());
        s
    } else if eq_lit(t, "alipay") {
        let mut s = String::new();
        s.append("https://qr.alipay.com/");
        s.append(m.as_str());
        s.append("?amount=");
        push_cents(&mut s, c.total);
        s.append("&memo=POS-");
        s.append(c.id.as_str());
        s
    } else if eq_lit(t, "mpesa") {
        let mut s = String::new();
        s.append("MPESA:BUY_GOODS:");
        s.append(m.as_str());
        s.append(":");
        s.append(c.id.as_str());
        s.append(":");
        push_cents(&mut s, c.total);
        s
    } else if eq_lit(t, "mtn_momo") {
        let mut s = String::new();
        s.append("MOMO:PAY:");
        s.append(m.as_str());
        s.append(":");
        s.append(c.id.as_str());
        s.append(":");
        push_cents(&mut s, c.total);
        s.append(":");
        s.append(c.currency.as_str());
        s
    } else if eq_lit(t, "airtel_money") {
        let mut s = String::new();
        s.append("AIRTEL:PAY:");
        s.append(m.as_str());
        s.append(":");
        s.append(c.id.as_str());
        s.append(":");
        push_cents(&mut s, c.total);
        s.append(":");
        s.append(c.currency.as_str());
        s
    } else if eq_lit(t, "telebirr") {
        let mut s = String::new();
        s.append("TELEBIRR:PAY:");
        s.append(m.as_str());
        s.append(":");
        s.append(c.id.as_str());
        s.append(":");
        push_cents(&mut s, c.total);
        s.append(":ETB");
        s
    } else if eq_lit(t, "tigo_pesa") {
        let mut s = String::new();
        s.append("TIGO:PAY:");
        s.append(m.as_str());
        s.append(":");
        s.append(c.id.as_str());
        s.append(":");
        push_cents(&mut s, c.total);
        s.append(":TZS");
        s
    } else if eq_lit(t, "snapscan") {
        let mut s = String::new();
        s.append("SNAPSCAN:");
        s.append(m.as_str());
        s.append(":");
        s.append(c.id.as_str());
        s.append(":");
        push_cents(&mut s, c.total);
        s.append(":ZAR");
        s
    } else if eq_lit(t, "opay") {
        let mut s = String::new();
        s.append("OPAY:PAY:");
        s.append(m.as_str());
        s.append(":");
        s.append(c.id.as_str());
        s.append(":");
        push_cents(&mut s, c.total);
        s.append(":NGN");
        s
    } else if eq_lit(t, "palmpay") {
        let mut s = String::new();
        s.append("PALMPAY:");
        s.append(m.as_str());
        s.append(":");
        s.append(c.id.as_str());
        s.append(":");
        push_cents(&mut s, c.total);
        s.append(":NGN");
        s
    } else if eq_lit(t, "fawry") {
        let mut s = String::new();
        s.append("FAWRY:PAY:");
        s.append(m.as_str());
        s.append(":");
        s.append(c.id.as_str());
        s.append(":");
        push_cents(&mut s, c.total);
        s.append(":EGP");
        s
    } else if eq_lit(t, "paynow_sg") {
        let mut s = String::new();
        s.append("https://sgqr.com/paynow?UEN=");
        s.append(m.as_str());
        s.append("&AMT=");
        push_cents(&mut s, c.total);
        s.append("&REF=");
        s.append(c.id.as_str());
        s
    } else if eq_lit(t, "duitnow_my") {
        let mut s = String::new();
        s.append("DUITNOW:");
        s.append(m.as_str());
        s.append(":");
        s.append(c.id.as_str());
        s.append(":");
        push_cents(&mut s, c.total);
        s.append(":MYR");
        s
    } else if eq_lit(t, "promptpay_th") {
        let mut s = String::new();
        s.append("https://promptpay.io/");
        s.append(m.as_str());
        s.append("?amount=");
        push_cents(&mut s, c.total);
        s
    } else if eq_lit(t, "qris_id") {
        let mut s = String::new();
        s.append("QRIS:");
        s.append(m.as_str());
        s.append(":");
        s.append(c.id.as_str());
        s.append(":");
        push_cents(&mut s, c.total);
        s.append(":IDR");
        s
    } else if eq_lit(t, "gcash_ph") {
        let mut s = String::new();
        s.append("GCASH:PAY:");
        s.append(m.as_str());
        s.append(":");
        s.append(c.id.as_str());
        s.append(":");
        push_cents(&mut s, c.total);
        s.append(":PHP");
        s
    } else if eq_lit(t, "maya_ph") {
        let mut s = String::new();
        s.append("MAYA:PAY:");
        s.append(m.as_str());
        s.append(":");
        s.append(c.id.as_str());
        s.append(":");
        push_cents(&mut s, c.total);
        s.append(":PHP");
        s
    } else if eq_lit(t, "vnpay") {
        let mut s = String::new();
        s.append("VNPAY:");
        s.append(m.as_str());
        s.append(":");
        s.append(c.id.as_str());
        s.append(":");
        push_rounded(&mut s, c.total, 100);
        s.append(":VND");
        s
    } else if eq_lit(t, "momo_vn") {
        let mut s = String::new();
        s.append("MOMO:PAY:");
        s.append(m.as_str());
        s.append(":");
        s.append(c.id.as_str());
        s.append(":");
        push_rounded(&mut s, c.total, 100);
        s.append(":VND");
        s
    } else if eq_lit(t, "zatca") {
        let mut s = String::new();
        s.append("ZATCA:1=");
        s.append(business.as_str());
        s.append("&2=");
        s.append(m.as_str());
        s.append("&3=");
        s.append(ts.as_str());
        s.append("&4=");
        push_cents(&mut s, c.total);
        s.append("&5=");
        push_cents(&mut s, c.total_tax);
        s
    } else {
        let mut s = String::new();
        s.append("PAY:");
        s.append(t.as_str());
        s.append(":");
        s.append(c.id.as_str());
        s.append(":");
        push_cents(&mut s, c.total);
        s
    };
    r
}

pub struct PaymentQrInput {
    pub cart_id: String,
    /// upi, wechat, alipay, mpesa, zatca and others; an unknown type gets a
    /// generic payload.
    pub qr_type: String,
    /// Merchant id; the business PIN, or "MERCHANT001", where absent.
    pub merchant_id: Option<String>,
}

/// A payment QR code for a cart.
pub struct QrCode {
    pub qr_type: String,
    pub cart_id: String,
    /// The cart's total, in minor units.
    pub amount: i64,
    pub currency: String,
    pub qr_payload: String,
    pub merchant: String,
}

/// The merchant a QR code names: the one given, else the business PIN,
/// else "MERCHANT001".
pub open spec fn merchant_of(given: Option<Seq<char>>, f: FiscalConfigView) -> Seq<char> {
    match given {
        Some(m) => m,
        None => match f.business_pin {
            Some(p) => p,
            None => "MERCHANT001"@,
        },
    }
}

/// What a QR code holds, as plain values.
pub open spec fn qr_view(q: QrCode) -> (Seq<char>, Seq<char>, i64, Seq<char>, Seq<char>, Seq<char>) {
    (q.qr_type@, q.cart_id@, q.amount, q.currency@, q.qr_payload@, q.merchant@)
}

/// The QR code for cart `c` asked for by `input`, made at time `ts`.
pub open spec fn qr_spec(input_type: Seq<char>, input_cart: Seq<char>, given: Option<Seq<char>>, f: FiscalConfigView, c: CartView, ts: Seq<char>) -> (Seq<char>, Seq<char>, i64, Seq<char>, Seq<char>, Seq<char>) {
    let m = merchant_of(given, f);
    (input_type, input_cart, c.total, c.currency, qr_payload(input_type, m, f.business_name, c, ts), m)
}

impl PosServer {
    /// The payment QR code of a cart, with `ts` as the time it is made.
    pub fn payment_qr_generate_with(&self, input: PaymentQrInput, ts: String) -> (r: Result<QrCode, PosError>)
        requires
            self.wf(),
        ensures
            match lookup(self@.carts, input.cart_id@) {
                None => r == Err::<QrCode, PosError>(PosError::CartNotFound),
                Some(c) => r matches Ok(q) && qr_view(q) == qr_spec(
                    input.qr_type@,
                    input.cart_id@,
                    opt_view(input.merchant_id),
                    self@.fiscal,
                    c,
                    ts@,
                ),
            },
    {
        let (_ci, cart) = match self.take_cart(&input.cart_id) {
            Some(x) => x,
            None => {
                return Err(PosError::CartNotFound);
            },
        };
        let fiscal = &self.store.fiscal;
        let merchant: String = match input.merchant_id {
            Some(m) => m,
            None => match &fiscal.business_pin {
                Some(p) => p.clone(),
                None => lit("MERCHANT001"),
            },
        };
        let payload = qr_payload_for(&input.qr_type, &merchant, &fiscal.business_name, &cart, &ts);
        Ok(QrCode {
            qr_type: input.qr_type,
            cart_id: input.cart_id,
            amount: cart.total,
            currency: cart.currency,
            qr_payload: payload,
            merchant,
        })
    }

    /// The payment QR code of a cart, made now.
    pub fn payment_qr_generate(&self, input: PaymentQrInput) -> (r: Result<QrCode, PosError>)
        requires
            self.wf(),
        ensures
            match lookup(self@.carts, input.cart_id@) {
                None => r == Err::<QrCode, PosError>(PosError::CartNotFound),
                Some(c) => r matches Ok(q) && exists|ts: Seq<char>| qr_view(q) == qr_spec(
                    input.qr_type@,
                    input.cart_id@,
                    opt_view(input.merchant_id),
                    self@.fiscal,
                    c,
                    ts,
                ),
            },
    {
        let t = now();
        self.payment_qr_generate_with(input, t)
    }
}

/// The e-invoicing standards the library knows.
pub open spec fn known_standard(s: Seq<char>) -> bool {
    s == "india_irn"@
        || s == "zatca"@
        || s == "kra_etr"@
        || s == "fapiao"@
        || s == "ura_efris"@
        || s == "tra_efd"@
        || s == "erca"@
        || s == "rra_ebm"@
        || s == "sars"@
        || s == "firs"@
        || s == "eta"@
        || s == "hmrc_mtd"@
        || s == "tse_de"@
        || s == "nf525_fr"@
        || s == "rt_it"@
        || s == "ticketbai_es"@
        || s == "invoicenow_sg"@
        || s == "myinvois_my"@
        || s == "etax_th"@
        || s == "efaktur_id"@
        || s == "cas_ph"@
        || s == "einvoice_vn"@
}

/// The names of the e-invoicing standards the library knows, in the order
/// they are listed to a caller who asks for another.
pub open spec fn standard_names() -> Seq<Seq<char>> {
    seq!["india_irn"@, "zatca"@, "kra_etr"@, "fapiao"@, "ura_efris"@, "tra_efd"@, "erca"@, "rra_ebm"@, "sars"@, "firs"@, "eta"@, "hmrc_mtd"@, "tse_de"@, "nf525_fr"@, "rt_it"@, "ticketbai_es"@, "invoicenow_sg"@, "myinvois_my"@, "etax_th"@, "efaktur_id"@, "cas_ph"@, "einvoice_vn"@]
}

/// The names of the supported e-invoicing standards.
pub fn supported_standards() -> (r: Vec<&'static str>)
    ensures
        r@.len() == standard_names().len(),
        forall|i: int| 0 <= i < r@.len() ==> #[trigger] r@[i]@ == standard_names()[i],
        forall|s: Seq<char>| #[trigger] known_standard(s) <==> standard_names().contains(s),
{
    let v: Vec<&'static str> = vec!["india_irn", "zatca", "kra_etr", "fapiao", "ura_efris", "tra_efd", "erca", "rra_ebm", "sars", "firs", "eta", "hmrc_mtd", "tse_de", "nf525_fr", "rt_it", "ticketbai_es", "invoicenow_sg", "myinvois_my", "etax_th", "efaktur_id", "cas_ph", "einvoice_vn"];
    proof {
        assert forall|s: Seq<char>| #[trigger] known_standard(s) <==> standard_names().contains(s) by {
            if known_standard(s) {
                if s == "india_irn"@ { assert(standard_names()[0] == s); }
                if s == "zatca"@ { assert(standard_names()[1] == s); }
                if s == "kra_etr"@ { assert(standard_names()[2] == s); }
                if s == "fapiao"@ { assert(standard_names()[3] == s); }
                if s == "ura_efris"@ { assert(standard_names()[4] == s); }
                if s == "tra_efd"@ { assert(standard_names()[5] == s); }
                if s == "erca"@ { assert(standard_names()[6] == s); }
                if s == "rra_ebm"@ { assert(standard_names()[7] == s); }
                if s == "sars"@ { assert(standard_names()[8] == s); }
                if s == "firs"@ { assert(standard_names()[9] == s); }
                if s == "eta"@ { assert(standard_names()[10] == s); }
                if s == "hmrc_mtd"@ { assert(standard_names()[11] == s); }
                if s == "tse_de"@ { assert(standard_names()[12] == s); }
                if s == "nf525_fr"@ { assert(standard_names()[13] == s); }
                if s == "rt_it"@ { assert(standard_names()[14] == s); }
                if s == "ticketbai_es"@ { assert(standard_names()[15] == s); }
                if s == "invoicenow_sg"@ { assert(standard_names()[16] == s); }
                if s == "myinvois_my"@ { assert(standard_names()[17] == s); }
                if s == "etax_th"@ { assert(standard_names()[18] == s); }
                if s == "efaktur_id"@ { assert(standard_names()[19] == s); }
                if s == "cas_ph"@ { assert(standard_names()[20] == s); }
                if s == "einvoice_vn"@ { assert(standard_names()[21] == s); }
            }
        }
    }
    v
}

pub fn is_known_standard(s: &String) -> (b: bool)
    ensures
        b == known_standard(s@),
{
    eq_lit(s, "india_irn")
        || eq_lit(s, "zatca")
        || eq_lit(s, "kra_etr")
        || eq_lit(s, "fapiao")
        || eq_lit(s, "ura_efris")
        || eq_lit(s, "tra_efd")
        || eq_lit(s, "erca")
        || eq_lit(s, "rra_ebm")
        || eq_lit(s, "sars")
        || eq_lit(s, "firs")
        || eq_lit(s, "eta")
        || eq_lit(s, "hmrc_mtd")
        || eq_lit(s, "tse_de")
        || eq_lit(s, "nf525_fr")
        || eq_lit(s, "rt_it")
        || eq_lit(s, "ticketbai_es")
        || eq_lit(s, "invoicenow_sg")
        || eq_lit(s, "myinvois_my")
        || eq_lit(s, "etax_th")
        || eq_lit(s, "efaktur_id")
        || eq_lit(s, "cas_ph")
        || eq_lit(s, "einvoice_vn")
}

/// The tax rate, in thousandths of a percent, that standard `s` prints on a
/// line with tax `tax`; `None` where it prints none.
pub open spec fn standard_rate(s: Seq<char>, tax: i64) -> Option<i64> {
    if s == "kra_etr"@ {
        Some(16000)
    } else if s == "ura_efris"@ {
        Some(18000)
    } else if s == "tra_efd"@ {
        Some(18000)
    } else if s == "erca"@ {
        Some(15000)
    } else if s == "rra_ebm"@ {
        Some(18000)
    } else if s == "sars"@ {
        Some(15000)
    } else if s == "firs"@ {
        Some(7500)
    } else if s == "eta"@ {
        Some(14000)
    } else if s == "hmrc_mtd"@ {
        Some(20000)
    } else if s == "tse_de"@ {
        if tax > 0 { Some(19000) } else { Some(7000) }
    } else if s == "nf525_fr"@ {
        Some(20000)
    } else if s == "rt_it"@ {
        Some(22000)
    } else if s == "ticketbai_es"@ {
        Some(21000)
    } else if s == "invoicenow_sg"@ {
        Some(9000)
    } else if s == "myinvois_my"@ {
        Some(6000)
    } else if s == "etax_th"@ {
        Some(7000)
    } else if s == "efaktur_id"@ {
        Some(11000)
    } else if s == "cas_ph"@ {
        Some(12000)
    } else if s == "einvoice_vn"@ {
        Some(10000)
    } else {
        None
    }
}

pub fn rate_for(s: &String, tax: i64) -> (r: Option<i64>)
    ensures
        r == standard_rate(s@, tax),
{
    if eq_lit(s, "kra_etr") {
        Some(16000)
    } else if eq_lit(s, "ura_efris") {
        Some(18000)
    } else if eq_lit(s, "tra_efd") {
        Some(18000)
    } else if eq_lit(s, "erca") {
        Some(15000)
    } else if eq_lit(s, "rra_ebm") {
        Some(18000)
    } else if eq_lit(s, "sars") {
        Some(15000)
    } else if eq_lit(s, "firs") {
        Some(7500)
    } else if eq_lit(s, "eta") {
        Some(14000)
    } else if eq_lit(s, "hmrc_mtd") {
        Some(20000)
    } else if eq_lit(s, "tse_de") {
        if tax > 0 { Some(19000) } else { Some(7000) }
    } else if eq_lit(s, "nf525_fr") {
        Some(20000)
    } else if eq_lit(s, "rt_it") {
        Some(22000)
    } else if eq_lit(s, "ticketbai_es") {
        Some(21000)
    } else if eq_lit(s, "invoicenow_sg") {
        Some(9000)
    } else if eq_lit(s, "myinvois_my") {
        Some(6000)
    } else if eq_lit(s, "etax_th") {
        Some(7000)
    } else if eq_lit(s, "efaktur_id") {
        Some(11000)
    } else if eq_lit(s, "cas_ph") {
        Some(12000)
    } else if eq_lit(s, "einvoice_vn") {
        Some(10000)
    } else {
        None
    }
}

/// One line of an electronic invoice.
pub struct InvoiceLine {
    pub name: String,
    /// Thousandths of a unit.
    pub qty: i64,
    pub unit_price: i64,
    /// Unit price times quantity, unrounded (thousandths of a minor unit).
    pub net: i64,
    pub tax: i64,
    pub total: i64,
    /// Thousandths of a percent, where the standard prints a rate.
    pub tax_rate: Option<i64>,
}

pub struct InvoiceLineView {
    pub name: Seq<char>,
    pub qty: i64,
    pub unit_price: i64,
    pub net: i64,
    pub tax: i64,
    pub total: i64,
    pub tax_rate: Option<i64>,
}

impl View for InvoiceLine {
    type V = InvoiceLineView;

    open spec fn view(&self) -> InvoiceLineView {
        InvoiceLineView {
            name: self.name@,
            qty: self.qty,
            unit_price: self.unit_price,
            net: self.net,
            tax: self.tax,
            total: self.total,
            tax_rate: self.tax_rate,
        }
    }
}

/// The content of an electronic invoice in a known standard.
pub struct InvoiceBody {
    /// The date part of `issued_at`.
    pub issue_date: String,
    pub issued_at: String,
    pub seller_name: String,
    pub seller_pin: Option<String>,
    pub device_id: Option<String>,
    /// The receipt prefix, which some standards print as the invoice symbol.
    pub invoice_symbol: String,
    pub buyer_tax_id: Option<String>,
    pub buyer_name: Option<String>,
    pub lines: Vec<InvoiceLine>,
    /// The cart's unrounded subtotal, thousandths of a minor unit.
    pub subtotal: i64,
    pub total_tax: i64,
    pub total: i64,
    /// The codes the standard adds: the QR text for ZATCA, the verification
    /// code, signature, hash chain or lottery code of the others.
    pub codes: Vec<String>,
}

pub struct InvoiceBodyView {
    pub issue_date: Seq<char>,
    pub issued_at: Seq<char>,
    pub seller_name: Seq<char>,
    pub seller_pin: Option<Seq<char>>,
    pub device_id: Option<Seq<char>>,
    pub invoice_symbol: Seq<char>,
    pub buyer_tax_id: Option<Seq<char>>,
    pub buyer_name: Option<Seq<char>>,
    pub lines: Seq<InvoiceLineView>,
    pub subtotal: i64,
    pub total_tax: i64,
    pub total: i64,
    pub codes: Seq<Seq<char>>,
}

impl View for InvoiceBody {
    type V = InvoiceBodyView;

    open spec fn view(&self) -> InvoiceBodyView {
        InvoiceBodyView {
            issue_date: self.issue_date@,
            issued_at: self.issued_at@,
            seller_name: self.seller_name@,
            seller_pin: opt_view(self.seller_pin),
            device_id: opt_view(self.device_id),
            invoice_symbol: self.invoice_symbol@,
            buyer_tax_id: opt_view(self.buyer_tax_id),
            buyer_name: opt_view(self.buyer_name),
            lines: self.lines@.map_values(|l: InvoiceLine| l@),
            subtotal: self.subtotal,
            total_tax: self.total_tax,
            total: self.total,
            codes: self.codes@.map_values(|s: String| s@),
        }
    }
}

/// An electronic invoice: its number, its standard and, where the standard
/// is known, its content.
pub struct EInvoice {
    pub invoice_number: String,
    pub standard: String,
    pub body: Option<InvoiceBody>,
}

pub struct EInvoiceView {
    pub invoice_number: Seq<char>,
    pub standard: Seq<char>,
    pub body: Option<InvoiceBodyView>,
}

impl View for EInvoice {
    type V = EInvoiceView;

    open spec fn view(&self) -> EInvoiceView {
        EInvoiceView {
            invoice_number: self.invoice_number@,
            standard: self.standard@,
            body: match self.body {
                Some(b) => Some(b@),
                None => None,
            },
        }
    }
}

pub struct EInvoiceInput {
    pub cart_id: String,
    /// india_irn, zatca, kra_etr, fapiao and the others of `known_standard`.
    pub standard: String,
    pub buyer_tax_id: Option<String>,
    pub buyer_name: Option<String>,
}

/// The number of the next fiscal document: prefix, a dash and the counter
/// in at least six digits.
pub open spec fn invoice_number(f: FiscalConfigView) -> Seq<char> {
    f.receipt_prefix + seq!['-'] + zero_pad(decimal(f.next_receipt_number as nat), 6)
}

/// The QR text of a ZATCA invoice.
pub open spec fn zatca_tlv(f: FiscalConfigView, c: CartView, ts: Seq<char>) -> Seq<char> {
    let pin = match f.business_pin {
        Some(p) => p,
        None => seq![],
    };
    "1="@ + f.business_name + "&2="@ + pin + "&3="@ + ts + "&4="@ + cents_text(c.total as int) + "&5="@
        + cents_text(c.total_tax as int)
}

/// The codes standard `s` adds to invoice `number`, with fresh ids `a` and
/// `b` where it needs them.
pub open spec fn codes_of(s: Seq<char>, number: Seq<char>, tlv: Seq<char>, a: Seq<char>, b: Seq<char>) -> Seq<Seq<char>> {
    if s == "zatca"@ {
        seq![tlv]
    } else if s == "tra_efd"@ {
        seq!["TRA-"@ + a]
    } else if s == "rra_ebm"@ {
        seq!["EBM-"@ + number]
    } else if s == "tse_de"@ {
        seq!["TSE-SIG-"@ + a]
    } else if s == "nf525_fr"@ {
        seq!["SHA256-"@ + a, "NF525-"@ + b]
    } else if s == "rt_it"@ {
        seq!["LOT-"@ + a]
    } else if s == "ticketbai_es"@ {
        seq!["TBAI-"@ + a, "https://batuz.eus/TBAI/"@ + b]
    } else {
        seq![]
    }
}

/// The invoice line of cart line `i` under standard `s`.
pub open spec fn invoice_line(s: Seq<char>, i: CartItemView) -> InvoiceLineView {
    InvoiceLineView {
        name: i.name,
        qty: i.quantity,
        unit_price: i.unit_price,
        net: (i.unit_price * i.quantity) as i64,
        tax: i.tax,
        total: i.line_total,
        tax_rate: standard_rate(s, i.tax),
    }
}

/// A buyer field: the one given, else the one the cart was identified
/// with.
pub open spec fn given_or(given: Option<Seq<char>>, stored: Option<Seq<char>>) -> Option<Seq<char>> {
    match given {
        Some(x) => Some(x),
        None => stored,
    }
}

/// The buyer's tax id and name recorded for cart `id`, if any.
pub open spec fn stored_tax_id(s: StoreView, id: Seq<char>) -> Option<Seq<char>> {
    match lookup(s.buyers, id) {
        Some(b) => Some(b.tax_id),
        None => None,
    }
}

pub open spec fn stored_name(s: StoreView, id: Seq<char>) -> Option<Seq<char>> {
    match lookup(s.buyers, id) {
        Some(b) => Some(b.name),
        None => None,
    }
}

fn pick(given: Option<String>, stored: Option<&String>) -> (r: Option<String>)
    ensures
        opt_view(r) == given_or(opt_view(given), match stored {
            Some(x) => Some(x@),
            None => None,
        }),
{
    match given {
        Some(x) => Some(x),
        None => match stored {
            Some(x) => Some(x.clone()),
            None => None,
        },
    }
}

/// The e-invoice of cart `c` in the standard `input` asks for, issued at
/// `ts`, with fresh ids `a` and `b`.
pub open spec fn einvoice_spec(
    standard: Seq<char>,
    buyer_tax_id: Option<Seq<char>>,
    buyer_name: Option<Seq<char>>,
    f: FiscalConfigView,
    c: CartView,
    ts: Seq<char>,
    a: Seq<char>,
    b: Seq<char>,
) -> EInvoiceView {
    let number = invoice_number(f);
    EInvoiceView {
        invoice_number: number,
        standard,
        body: if known_standard(standard) {
            Some(InvoiceBodyView {
                issue_date: prefix(ts, 10),
                issued_at: ts,
                seller_name: f.business_name,
                seller_pin: f.business_pin,
                device_id: f.device_id,
                invoice_symbol: f.receipt_prefix,
                buyer_tax_id,
                buyer_name,
                lines: c.items.map_values(|i: CartItemView| invoice_line(standard, i)),
                subtotal: c.subtotal,
                total_tax: c.total_tax,
                total: c.total,
                codes: codes_of(standard, number, zatca_tlv(f, c, ts), a, b),
            })
        } else {
            None
        },
    }
}

pub fn invoice_number_of(f: &FiscalConfig) -> (r: String)
    ensures
        r@ == invoice_number(f@),
{
    let mut s = f.receipt_prefix.clone();
    push_char(&mut s, '-');
    push_zero_padded(&mut s, f.next_receipt_number as u128, 6);
    assert(s@ =~= invoice_number(f@));
    s
}

pub fn zatca_tlv_of(f: &FiscalConfig, c: &Cart, ts: &String) -> (r: String)
    ensures
        r@ == zatca_tlv(f@, c@, ts@),
{
    let mut s = lit("1=");
    s.append(f.business_name.as_str());
    s.append("&2=");
    match &f.business_pin {
        Some(p) => s.append(p.as_str()),
        None => {},
    }
    s.append("&3=");
    s.append(ts.as_str());
    s.append("&4=");
    push_cents(&mut s, c.total);
    s.append("&5=");
    push_cents(&mut s, c.total_tax);
    assert(s@ =~= zatca_tlv(f@, c@, ts@));
    s
}

fn joined_code(lead: &str, t: &String) -> (r: String)
    ensures
        r@ == lead@ + t@,
{
    let mut s = lit(lead);
    s.append(t.as_str());
    s
}

pub fn codes_for(s: &String, number: &String, tlv: String, a: &String, b: &String) -> (r: Vec<String>)
    ensures
        r@.map_values(|x: String| x@) == codes_of(s@, number@, tlv@, a@, b@),
{
    let mut v: Vec<String> = Vec::new();
    if eq_lit(s, "zatca") {
        v.push(tlv);
    } else if eq_lit(s, "tra_efd") {
        v.push(joined_code("TRA-", a));
    } else if eq_lit(s, "rra_ebm") {
        v.push(joined_code("EBM-", number));
    } else if eq_lit(s, "tse_de") {
        v.push(joined_code("TSE-SIG-", a));
    } else if eq_lit(s, "nf525_fr") {
        v.push(joined_code("SHA256-", a));
        v.push(joined_code("NF525-", b));
    } else if eq_lit(s, "rt_it") {
        v.push(joined_code("LOT-", a));
    } else if eq_lit(s, "ticketbai_es") {
        v.push(joined_code("TBAI-", a));
        v.push(joined_code("https://batuz.eus/TBAI/", b));
    }
    assert(v@.map_values(|x: String| x@) =~= codes_of(s@, number@, tlv@, a@, b@));
    v
}

pub fn invoice_lines(s: &String, items: &Vec<CartItem>) -> (r: Vec<InvoiceLine>)
    requires
        items_ok(items@.map_values(|i: CartItem| i@)),
    ensures
        r@.map_values(|l: InvoiceLine| l@) == items@.map_values(|i: CartItem| i@).map_values(
            |i: CartItemView| invoice_line(s@, i),
        ),
{
    let ghost iv = items@.map_values(|i: CartItem| i@);
    let mut v: Vec<InvoiceLine> = Vec::new();
    let mut k: usize = 0;
    while k < items.len()
        invariant
            k <= items.len(),
            iv == items@.map_values(|i: CartItem| i@),
            items_ok(iv),
            v.len() == k,
            forall|j: int| 0 <= j < k ==> #[trigger] v@[j]@ == invoice_line(s@, iv[j]),
        decreases items.len() - k,
    {
        let it = &items[k];
        assert(item_ok(iv[k as int]));
        let net: i128 = it.unit_price as i128 * it.quantity as i128;
        v.push(InvoiceLine {
            name: it.name.clone(),
            qty: it.quantity,
            unit_price: it.unit_price,
            net: net as i64,
            tax: it.tax,
            total: it.line_total,
            tax_rate: rate_for(s, it.tax),
        });
        k = k + 1;
    }
    assert(v@.map_values(|l: InvoiceLine| l@) =~= iv.map_values(|i: CartItemView| invoice_line(s@, i)));
    v
}

impl PosServer {
    /// The e-invoice of a cart, issued at `ts`, with `a` and `b` as the
    /// fresh ids that some standards print.
    pub fn einvoice_generate_with(&self, input: EInvoiceInput, ts: String, a: String, b: String) -> (r: Result<EInvoice, PosError>)
        requires
            self.wf(),
        ensures
            match lookup(self@.carts, input.cart_id@) {
                None => r == Err::<EInvoice, PosError>(PosError::CartNotFound),
                Some(c) => r matches Ok(e) && e@ == einvoice_spec(
                    input.standard@,
                    given_or(opt_view(input.buyer_tax_id), stored_tax_id(self@, input.cart_id@)),
                    given_or(opt_view(input.buyer_name), stored_name(self@, input.cart_id@)),
                    self@.fiscal,
                    c,
                    ts@,
                    a@,
                    b@,
                ),
            },
    {
        let (_ci, cart) = match self.take_cart(&input.cart_id) {
            Some(x) => x,
            None => {
                return Err(PosError::CartNotFound);
            },
        };
        let fiscal = &self.store.fiscal;
        let number = invoice_number_of(fiscal);
        proof {
            lemma_lookup(self@.buyers, input.cart_id@);
        }
        let (buyer_tax_id, buyer_name) = match self.store.buyers.find(&input.cart_id) {
            Some(k) => {
                let b = self.store.buyers.value_at(k);
                (pick(input.buyer_tax_id, Some(&b.tax_id)), pick(input.buyer_name, Some(&b.name)))
            },
            None => (pick(input.buyer_tax_id, None), pick(input.buyer_name, None)),
        };
        let body = if is_known_standard(&input.standard) {
            let tlv = zatca_tlv_of(fiscal, &cart, &ts);
            let codes = codes_for(&input.standard, &number, tlv, &a, &b);
            let lines = invoice_lines(&input.standard, &cart.items);
            Some(InvoiceBody {
                issue_date: take_prefix(ts.as_str(), 10),
                issued_at: ts,
                seller_name: fiscal.business_name.clone(),
                seller_pin: copy_opt(&fiscal.business_pin),
                device_id: copy_opt(&fiscal.device_id),
                invoice_symbol: fiscal.receipt_prefix.clone(),
                buyer_tax_id,
                buyer_name,
                lines,
                subtotal: cart.subtotal,
                total_tax: cart.total_tax,
                total: cart.total,
                codes,
            })
        } else {
            None
        };
        Ok(EInvoice { invoice_number: number, standard: input.standard, body })
    }

    /// The e-invoice of a cart, issued now.
    pub fn einvoice_generate(&self, input: EInvoiceInput) -> (r: Result<EInvoice, PosError>)
        requires
            self.wf(),
        ensures
            match lookup(self@.carts, input.cart_id@) {
                None => r == Err::<EInvoice, PosError>(PosError::CartNotFound),
                Some(c) => r matches Ok(e) && exists|ts: Seq<char>, x: u128, y: u128| e@ == #[trigger] einvoice_spec(
                    input.standard@,
                    given_or(opt_view(input.buyer_tax_id), stored_tax_id(self@, input.cart_id@)),
                    given_or(opt_view(input.buyer_name), stored_name(self@, input.cart_id@)),
                    self@.fiscal,
                    c,
                    ts,
                    uid_text(x),
                    uid_text(y),
                ),
            },
    {
        let t = now();
        let a = uid();
        let b = uid();
        self.einvoice_generate_with(input, t, a, b)
    }
}

} // verus!
