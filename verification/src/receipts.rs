//! Receipts in thermal-printer form: the sales receipt, the reprint marked
//! as a copy, and the bilingual receipt.
use vstd::prelude::*;
use crate::clock::now;
use crate::money::div_round;
use crate::server::{CartIdInput, PosError, PosServer};
use crate::table::lookup;
use crate::text::{
    cents_text, eq_lit, lit, pad_right, prefix, push_cents, push_char, push_padded, push_rounded,
    rounded_text, take_prefix, to_uppercase, uppercase,
};
use crate::types::{CartItemView, CartView, PaymentView, Receipt};

verus! {

pub open spec fn lines_view(v: Seq<String>) -> Seq<Seq<char>> {
    v.map_values(|s: String| s@)
}

/// A quantity (thousandths) as whole units, rounded as decimal
/// formatting rounds.
pub open spec fn qty_text(q: i64) -> Seq<char> {
    rounded_text(q as int, 1000)
}

/// A figure in thousandths of a minor unit, rounded to minor units.
pub open spec fn in_cents(x: i64) -> i64 {
    div_round(x as int, 1000) as i64
}

pub fn cents_of(x: i64) -> (r: i64)
    ensures
        r == in_cents(x),
{
    proof {
        crate::money::lemma_div_round_bound(x as int, 1000, 0x8000_0000_0000_0000int / 1000 + 1);
    }
    crate::money::round_div(x as i128, 1000) as i64
}

/// An amount after its currency code.
pub open spec fn money_text(cur: Seq<char>, amt: i64) -> Seq<char> {
    cur + seq![' '] + cents_text(amt as int)
}

pub open spec fn rule() -> Seq<char> {
    "================================"@
}

pub open spec fn dashes() -> Seq<char> {
    "--------------------------------"@
}

pub fn push_line(lines: &mut Vec<String>, s: String)
    ensures
        lines_view(final(lines)@) == lines_view(old(lines)@).push(s@),
{
    let ghost before = lines@;
    lines.push(s);
    assert(lines_view(lines@) =~= lines_view(before).push(s@));
}

pub fn qty_str(q: i64) -> (r: String)
    ensures
        r@ == qty_text(q),
{
    let mut s = String::new();
    push_rounded(&mut s, q, 1000);
    assert(s@ =~= qty_text(q));
    s
}

pub fn money_str(cur: &String, amt: i64) -> (r: String)
    ensures
        r@ == money_text(cur@, amt),
{
    let mut s = cur.clone();
    push_char(&mut s, ' ');
    push_cents(&mut s, amt);
    assert(s@ =~= money_text(cur@, amt));
    s
}

/// `lead` followed by an amount in its currency.
pub fn labeled_money(lead: &str, cur: &String, amt: i64) -> (r: String)
    ensures
        r@ == lead@ + money_text(cur@, amt),
{
    let mut s = lit(lead);
    let m = money_str(cur, amt);
    s.append(m.as_str());
    s
}

/// `lead` followed by `t`.
pub fn joined(lead: &str, t: &str) -> (r: String)
    ensures
        r@ == lead@ + t@,
{
    let mut s = lit(lead);
    s.append(t);
    s
}

/// Two lines per item: its name padded to 20 and its quantity, then its
/// total.
pub open spec fn item_lines(items: Seq<CartItemView>, cur: Seq<char>) -> Seq<Seq<char>>
    decreases items.len(),
{
    if items.len() == 0 {
        seq![]
    } else {
        let it = items.last();
        item_lines(items.drop_last(), cur) + seq![
            pad_right(it.name, 20) + " x"@ + qty_text(it.quantity),
            "  "@ + money_text(cur, it.line_total),
        ]
    }
}

/// For each payment of the cart, its method in upper case and amount, and
/// the change where there was some.
pub open spec fn payment_lines(ps: Seq<PaymentView>, cart_id: Seq<char>, cur: Seq<char>) -> Seq<Seq<char>>
    decreases ps.len(),
{
    if ps.len() == 0 {
        seq![]
    } else {
        let p = ps.last();
        payment_lines(ps.drop_last(), cart_id, cur) + if p.cart_id == cart_id {
            seq![uppercase(p.method) + ": "@ + money_text(cur, p.amount)] + if p.change > 0 {
                seq!["Change: "@ + money_text(cur, p.change)]
            } else {
                seq![]
            }
        } else {
            seq![]
        }
    }
}

/// The lines of the sales receipt of cart `c` (id `id`) with the payments
/// recorded for it.
pub open spec fn sales_receipt(c: CartView, ps: Seq<PaymentView>, id: Seq<char>) -> Seq<Seq<char>> {
    let cur = c.currency;
    seq![rule(), "         SALES RECEIPT          "@, rule(), "Date: "@ + prefix(c.created_at, 10), "Cashier: "@ + c.cashier, dashes()]
        + item_lines(c.items, cur) + seq![dashes(), "Subtotal:    "@ + money_text(cur, in_cents(c.subtotal))] + (if c.total_discount > 0 {
        seq!["Discount:   -"@ + money_text(cur, in_cents(c.total_discount))]
    } else {
        seq![]
    }) + seq!["Tax:         "@ + money_text(cur, c.total_tax), "TOTAL:       "@ + money_text(cur, c.total), dashes()]
        + payment_lines(ps, id, cur) + seq![rule(), "      Thank you! Come again     "@, rule()]
}

pub open spec fn receipt_result(r: Result<Receipt, PosError>) -> Result<(Seq<char>, Seq<Seq<char>>, Seq<char>), PosError> {
    match r {
        Ok(x) => Ok((x.cart_id@, lines_view(x.lines@), x.generated_at@)),
        Err(e) => Err(e),
    }
}

fn push_item_lines(lines: &mut Vec<String>, items: &Vec<crate::types::CartItem>, cur: &String)
    ensures
        lines_view(final(lines)@) == lines_view(old(lines)@) + item_lines(items@.map_values(|i: crate::types::CartItem| i@), cur@),
{
    let ghost v = items@.map_values(|i: crate::types::CartItem| i@);
    let ghost base = lines_view(lines@);
    let n = items.len();
    assert(v.take(0) =~= Seq::<CartItemView>::empty());
    assert(base + item_lines(v.take(0), cur@) =~= base);
    for i in 0..n
        invariant
            n == items@.len(),
            v == items@.map_values(|i: crate::types::CartItem| i@),
            lines_view(lines@) == base + item_lines(v.take(i as int), cur@),
    {
        assert(v.take(i + 1).drop_last() =~= v.take(i as int));
        let it = &items[i];
        let mut first = String::new();
        push_padded(&mut first, it.name.as_str(), 20);
        first.append(" x");
        let q = qty_str(it.quantity);
        first.append(q.as_str());
        push_line(lines, first);
        let second = labeled_money("  ", cur, it.line_total);
        push_line(lines, second);
        assert(lines_view(lines@) =~= base + item_lines(v.take(i + 1), cur@));
    }
    assert(v.take(n as int) =~= v);
}

impl PosServer {
    fn push_payment_lines(&self, lines: &mut Vec<String>, id: &String, cur: &String)
        ensures
            lines_view(final(lines)@) == lines_view(old(lines)@) + payment_lines(self@.payments, id@, cur@),
    {
        let ghost ps = self@.payments;
        let ghost base = lines_view(lines@);
        let n = self.store.payments.len();
        assert(ps.take(0) =~= Seq::<PaymentView>::empty());
        assert(base + payment_lines(ps.take(0), id@, cur@) =~= base);
        for i in 0..n
            invariant
                n == ps.len(),
                ps == self@.payments,
                lines_view(lines@) == base + payment_lines(ps.take(i as int), id@, cur@),
        {
            assert(ps.take(i + 1).drop_last() =~= ps.take(i as int));
            let p = &self.store.payments[i];
            if p.cart_id == *id {
                let mut l = to_uppercase(p.method.as_str());
                l.append(": ");
                let m = money_str(cur, p.amount);
                l.append(m.as_str());
                push_line(lines, l);
                if p.change > 0 {
                    push_line(lines, labeled_money("Change: ", cur, p.change));
                }
            }
            assert(lines_view(lines@) =~= base + payment_lines(ps.take(i + 1), id@, cur@));
        }
        assert(ps.take(n as int) =~= ps);
    }

    /// The sales receipt of a cart, generated at `ts`; see `sales_receipt`.
    pub fn receipt_generate_with(&self, input: CartIdInput, ts: String) -> (r: Result<Receipt, PosError>)
        requires
            self.wf(),
        ensures
            receipt_result(r) == match lookup(self@.carts, input.cart_id@) {
                None => Err(PosError::CartNotFound),
                Some(c) => Ok((input.cart_id@, sales_receipt(c, self@.payments, input.cart_id@), ts@)),
            },
    {
        let (_ci, cart) = match self.take_cart(&input.cart_id) {
            Some(x) => x,
            None => {
                return Err(PosError::CartNotFound);
            },
        };
        let ghost c = cart@;
        let cur = &cart.currency;
        let mut lines: Vec<String> = Vec::new();
        push_line(&mut lines, lit("================================"));
        push_line(&mut lines, lit("         SALES RECEIPT          "));
        push_line(&mut lines, lit("================================"));
        let d = take_prefix(cart.created_at.as_str(), 10);
        push_line(&mut lines, joined("Date: ", d.as_str()));
        push_line(&mut lines, joined("Cashier: ", cart.cashier.as_str()));
        push_line(&mut lines, lit("--------------------------------"));
        let ghost head = lines_view(lines@);
        push_item_lines(&mut lines, &cart.items, cur);
        push_line(&mut lines, lit("--------------------------------"));
        push_line(&mut lines, labeled_money("Subtotal:    ", cur, cents_of(cart.subtotal)));
        if cart.total_discount > 0 {
            push_line(&mut lines, labeled_money("Discount:   -", cur, cents_of(cart.total_discount)));
        }
        push_line(&mut lines, labeled_money("Tax:         ", cur, cart.total_tax));
        push_line(&mut lines, labeled_money("TOTAL:       ", cur, cart.total));
        push_line(&mut lines, lit("--------------------------------"));
        self.push_payment_lines(&mut lines, &input.cart_id, cur);
        push_line(&mut lines, lit("================================"));
        push_line(&mut lines, lit("      Thank you! Come again     "));
        push_line(&mut lines, lit("================================"));
        assert(lines_view(lines@) =~= sales_receipt(c, self@.payments, input.cart_id@));
        Ok(Receipt { cart_id: input.cart_id, lines, generated_at: ts })
    }

    /// The sales receipt of a cart, generated now.
    pub fn receipt_generate(&self, input: CartIdInput) -> (r: Result<Receipt, PosError>)
        requires
            self.wf(),
        ensures
            match lookup(self@.carts, input.cart_id@) {
                None => r == Err::<Receipt, PosError>(PosError::CartNotFound),
                Some(c) => r matches Ok(x) && x.cart_id@ == input.cart_id@ && lines_view(x.lines@)
                    == sales_receipt(c, self@.payments, input.cart_id@),
            },
    {
        let t = now();
        self.receipt_generate_with(input, t)
    }
}

pub struct ReprintInput {
    pub cart_id: String,
}

/// Lines of a reprint: one per item with its name padded to 20, quantity
/// and total.
pub open spec fn copy_item_lines(items: Seq<CartItemView>, cur: Seq<char>) -> Seq<Seq<char>>
    decreases items.len(),
{
    if items.len() == 0 {
        seq![]
    } else {
        let it = items.last();
        copy_item_lines(items.drop_last(), cur).push(
            pad_right(it.name, 20) + " x"@ + qty_text(it.quantity) + "  "@ + money_text(cur, it.line_total),
        )
    }
}

/// The lines of a reprinted receipt, marked as a copy.
pub open spec fn reprint_lines(c: CartView, business: Seq<char>) -> Seq<Seq<char>> {
    seq![rule(), "     *** COPY / DUPLICATE ***   "@, rule(), "  "@ + business, "Date: "@ + prefix(c.created_at, 10), "Cashier: "@ + c.cashier, dashes()]
        + copy_item_lines(c.items, c.currency) + seq![dashes(), "TOTAL: "@ + money_text(c.currency, c.total), rule(), "       *** COPY ***            "@]
}

impl PosServer {
    /// A reprint of a cart's receipt, marked as a copy.
    pub fn receipt_reprint(&self, input: ReprintInput) -> (r: Result<Vec<String>, PosError>)
        requires
            self.wf(),
        ensures
            match lookup(self@.carts, input.cart_id@) {
                None => r == Err::<Vec<String>, PosError>(PosError::CartNotFound),
                Some(c) => r matches Ok(v) && lines_view(v@) == reprint_lines(c, self@.fiscal.business_name),
            },
    {
        let (_ci, cart) = match self.take_cart(&input.cart_id) {
            Some(x) => x,
            None => {
                return Err(PosError::CartNotFound);
            },
        };
        let ghost c = cart@;
        let cur = &cart.currency;
        let mut lines: Vec<String> = Vec::new();
        push_line(&mut lines, lit("================================"));
        push_line(&mut lines, lit("     *** COPY / DUPLICATE ***   "));
        push_line(&mut lines, lit("================================"));
        push_line(&mut lines, joined("  ", self.store.fiscal.business_name.as_str()));
        let d = take_prefix(cart.created_at.as_str(), 10);
        push_line(&mut lines, joined("Date: ", d.as_str()));
        push_line(&mut lines, joined("Cashier: ", cart.cashier.as_str()));
        push_line(&mut lines, lit("--------------------------------"));
        let ghost base = lines_view(lines@);
        let ghost v = c.items;
        let n = cart.items.len();
        assert(v.take(0) =~= Seq::<CartItemView>::empty());
        assert(base + copy_item_lines(v.take(0), cur@) =~= base);
        for i in 0..n
            invariant
                n == cart.items@.len(),
                v == cart@.items,
                lines_view(lines@) == base + copy_item_lines(v.take(i as int), cur@),
        {
            assert(v.take(i + 1).drop_last() =~= v.take(i as int));
            let it = &cart.items[i];
            let mut l = String::new();
            push_padded(&mut l, it.name.as_str(), 20);
            l.append(" x");
            let q = qty_str(it.quantity);
            l.append(q.as_str());
            let m = labeled_money("  ", cur, it.line_total);
            l.append(m.as_str());
            assert(l@ =~= pad_right(it.name@, 20) + " x"@ + qty_text(it.quantity) + "  "@ + money_text(cur@, it.line_total));
            push_line(&mut lines, l);
            assert(lines_view(lines@) =~= base + copy_item_lines(v.take(i + 1), cur@));
        }
        assert(v.take(n as int) =~= v);
        push_line(&mut lines, lit("--------------------------------"));
        push_line(&mut lines, labeled_money("TOTAL: ", cur, cart.total));
        push_line(&mut lines, lit("================================"));
        push_line(&mut lines, lit("       *** COPY ***            "));
        assert(lines_view(lines@) =~= reprint_lines(c, self@.fiscal.business_name));
        Ok(lines)
    }
}

/// The receipt header, total and thanks in one of the 23 languages
/// besides English.
pub open spec fn label_set(lang: Seq<char>) -> Option<(Seq<char>, Seq<char>, Seq<char>)> {
    if lang == "ar"@ {
        Some(("إيصال المبيعات"@, "المجموع"@, "شكراً لزيارتكم"@))
    } else if lang == "zh"@ {
        Some(("销售收据"@, "总计"@, "谢谢光临"@))
    } else if lang == "hi"@ {
        Some(("बिक्री रसीद"@, "कुल"@, "धन्यवाद"@))
    } else if lang == "sw"@ {
        Some(("Risiti ya Mauzo"@, "Jumla"@, "Asante kwa kununua"@))
    } else if lang == "ja"@ {
        Some(("販売レシート"@, "合計"@, "ありがとうございました"@))
    } else if lang == "fr"@ {
        Some(("Reçu de Vente"@, "Total"@, "Merci de votre visite"@))
    } else if lang == "am"@ {
        Some(("የሽያጭ ደረሰኝ"@, "ጠቅላላ"@, "እናመሰግናለን"@))
    } else if lang == "rw"@ {
        Some(("Inyemezabuguzi"@, "Igiteranyo"@, "Murakoze"@))
    } else if lang == "zu"@ {
        Some(("Irisidi Yokuthengisa"@, "Isamba"@, "Siyabonga"@))
    } else if lang == "af"@ {
        Some(("Verkoopbewys"@, "Totaal"@, "Dankie vir u aankope"@))
    } else if lang == "yo"@ {
        Some(("Ìwé-ẹ̀rí Títà"@, "Àpapọ̀"@, "A dúpẹ́"@))
    } else if lang == "ha"@ {
        Some(("Takardar Siyarwa"@, "Jimla"@, "Mun gode"@))
    } else if lang == "de"@ {
        Some(("Kassenbon"@, "Gesamt"@, "Vielen Dank für Ihren Einkauf"@))
    } else if lang == "it"@ {
        Some(("Scontrino"@, "Totale"@, "Grazie per il suo acquisto"@))
    } else if lang == "es"@ {
        Some(("Recibo de Venta"@, "Total"@, "Gracias por su compra"@))
    } else if lang == "pt"@ {
        Some(("Recibo de Venda"@, "Total"@, "Obrigado pela sua compra"@))
    } else if lang == "nl"@ {
        Some(("Kassabon"@, "Totaal"@, "Bedankt voor uw aankoop"@))
    } else if lang == "pl"@ {
        Some(("Paragon"@, "Suma"@, "Dziękujemy za zakupy"@))
    } else if lang == "th"@ {
        Some(("ใบเสร็จรับเงิน"@, "รวมทั้งสิ้น"@, "ขอบคุณที่ใช้บริการ"@))
    } else if lang == "ms"@ {
        Some(("Resit Jualan"@, "Jumlah"@, "Terima kasih"@))
    } else if lang == "id"@ {
        Some(("Struk Penjualan"@, "Total"@, "Terima kasih atas kunjungan Anda"@))
    } else if lang == "vi"@ {
        Some(("Hóa đơn bán hàng"@, "Tổng cộng"@, "Cảm ơn quý khách"@))
    } else if lang == "tl"@ {
        Some(("Resibo ng Benta"@, "Kabuuan"@, "Salamat po"@))
    } else {
        None
    }
}

/// The header, total and thanks in a second language; English words for
/// a language the library does not know.
pub open spec fn labels(lang: Seq<char>) -> (Seq<char>, Seq<char>, Seq<char>) {
    match label_set(lang) {
        Some(l) => l,
        None => ("Receipt"@, "Total"@, "Thank you"@),
    }
}

/// The header, total and thanks in the primary language; the English
/// ones of the receipt for English or a language the library does not know.
pub open spec fn primary_labels(lang: Seq<char>) -> (Seq<char>, Seq<char>, Seq<char>) {
    match label_set(lang) {
        Some(l) => l,
        None => ("SALES RECEIPT"@, "TOTAL"@, "Thank you!"@),
    }
}

/// The labels of a language, where the library knows it.
pub fn label_set_for(lang: &String) -> (r: Option<(&'static str, &'static str, &'static str)>)
    ensures
        match r {
            Some(t) => label_set(lang@) == Some((t.0@, t.1@, t.2@)),
            None => label_set(lang@) is None,
        },
{
    if eq_lit(lang, "ar") {
        Some(("إيصال المبيعات", "المجموع", "شكراً لزيارتكم"))
    } else if eq_lit(lang, "zh") {
        Some(("销售收据", "总计", "谢谢光临"))
    } else if eq_lit(lang, "hi") {
        Some(("बिक्री रसीद", "कुल", "धन्यवाद"))
    } else if eq_lit(lang, "sw") {
        Some(("Risiti ya Mauzo", "Jumla", "Asante kwa kununua"))
    } else if eq_lit(lang, "ja") {
        Some(("販売レシート", "合計", "ありがとうございました"))
    } else if eq_lit(lang, "fr") {
        Some(("Reçu de Vente", "Total", "Merci de votre visite"))
    } else if eq_lit(lang, "am") {
        Some(("የሽያጭ ደረሰኝ", "ጠቅላላ", "እናመሰግናለን"))
    } else if eq_lit(lang, "rw") {
        Some(("Inyemezabuguzi", "Igiteranyo", "Murakoze"))
    } else if eq_lit(lang, "zu") {
        Some(("Irisidi Yokuthengisa", "Isamba", "Siyabonga"))
    } else if eq_lit(lang, "af") {
        Some(("Verkoopbewys", "Totaal", "Dankie vir u aankope"))
    } else if eq_lit(lang, "yo") {
        Some(("Ìwé-ẹ̀rí Títà", "Àpapọ̀", "A dúpẹ́"))
    } else if eq_lit(lang, "ha") {
        Some(("Takardar Siyarwa", "Jimla", "Mun gode"))
    } else if eq_lit(lang, "de") {
        Some(("Kassenbon", "Gesamt", "Vielen Dank für Ihren Einkauf"))
    } else if eq_lit(lang, "it") {
        Some(("Scontrino", "Totale", "Grazie per il suo acquisto"))
    } else if eq_lit(lang, "es") {
        Some(("Recibo de Venta", "Total", "Gracias por su compra"))
    } else if eq_lit(lang, "pt") {
        Some(("Recibo de Venda", "Total", "Obrigado pela sua compra"))
    } else if eq_lit(lang, "nl") {
        Some(("Kassabon", "Totaal", "Bedankt voor uw aankoop"))
    } else if eq_lit(lang, "pl") {
        Some(("Paragon", "Suma", "Dziękujemy za zakupy"))
    } else if eq_lit(lang, "th") {
        Some(("ใบเสร็จรับเงิน", "รวมทั้งสิ้น", "ขอบคุณที่ใช้บริการ"))
    } else if eq_lit(lang, "ms") {
        Some(("Resit Jualan", "Jumlah", "Terima kasih"))
    } else if eq_lit(lang, "id") {
        Some(("Struk Penjualan", "Total", "Terima kasih atas kunjungan Anda"))
    } else if eq_lit(lang, "vi") {
        Some(("Hóa đơn bán hàng", "Tổng cộng", "Cảm ơn quý khách"))
    } else if eq_lit(lang, "tl") {
        Some(("Resibo ng Benta", "Kabuuan", "Salamat po"))
    } else {
        None
    }
}

/// The receipt header, total and thanks in a second language.
pub fn labels_for(lang: &String) -> (r: (&'static str, &'static str, &'static str))
    ensures
        (r.0@, r.1@, r.2@) == labels(lang@),
{
    match label_set_for(lang) {
        Some(t) => t,
        None => ("Receipt", "Total", "Thank you"),
    }
}

/// The receipt header, total and thanks in the primary language.
pub fn primary_labels_for(lang: &String) -> (r: (&'static str, &'static str, &'static str))
    ensures
        (r.0@, r.1@, r.2@) == primary_labels(lang@),
{
    match label_set_for(lang) {
        Some(t) => t,
        None => ("SALES RECEIPT", "TOTAL", "Thank you!"),
    }
}

pub struct BilingualReceiptInput {
    pub cart_id: String,
    pub primary_lang: String,
    pub secondary_lang: String,
}

/// Lines of a bilingual receipt: one per item with its name padded to 18,
/// quantity and total.
pub open spec fn bilingual_item_lines(items: Seq<CartItemView>, cur: Seq<char>) -> Seq<Seq<char>>
    decreases items.len(),
{
    if items.len() == 0 {
        seq![]
    } else {
        let it = items.last();
        bilingual_item_lines(items.drop_last(), cur).push(
            pad_right(it.name, 18) + " x"@ + qty_text(it.quantity) + " "@ + money_text(cur, it.line_total),
        )
    }
}

/// The lines of a receipt with the secondary language's header, total and
/// thanks beside the English ones.
pub open spec fn bilingual_lines(c: CartView, business: Seq<char>, pin: Option<Seq<char>>, primary: Seq<char>, lang: Seq<char>) -> Seq<Seq<char>> {
    let (h, t, th) = labels(lang);
    let (ph, pt, pth) = primary_labels(primary);
    seq![
        rule(),
        "  "@ + h + " / "@ + ph,
        rule(),
        "  "@ + business,
        match pin {
            Some(p) => "  Tax ID: "@ + p,
            None => seq![],
        },
        "  Date: "@ + prefix(c.created_at, 10),
        dashes(),
    ] + bilingual_item_lines(c.items, c.currency) + seq![
        dashes(),
        t + " / "@ + pt + ": "@ + money_text(c.currency, c.total),
        "  Tax/VAT: "@ + money_text(c.currency, c.total_tax),
        rule(),
        "  "@ + th + " / "@ + pth,
        rule(),
    ]
}

impl PosServer {
    /// A receipt in a primary and a second language.
    pub fn receipt_bilingual(&self, input: BilingualReceiptInput) -> (r: Result<Vec<String>, PosError>)
        requires
            self.wf(),
        ensures
            match lookup(self@.carts, input.cart_id@) {
                None => r == Err::<Vec<String>, PosError>(PosError::CartNotFound),
                Some(c) => r matches Ok(v) && lines_view(v@) == bilingual_lines(
                    c,
                    self@.fiscal.business_name,
                    self@.fiscal.business_pin,
                    input.primary_lang@,
                    input.secondary_lang@,
                ),
            },
    {
        let (_ci, cart) = match self.take_cart(&input.cart_id) {
            Some(x) => x,
            None => {
                return Err(PosError::CartNotFound);
            },
        };
        let ghost c = cart@;
        let cur = &cart.currency;
        let (h, t, th) = labels_for(&input.secondary_lang);
        let (ph, pt, pth) = primary_labels_for(&input.primary_lang);
        let mut lines: Vec<String> = Vec::new();
        push_line(&mut lines, lit("================================"));
        let mut l = joined("  ", h);
        l.append(" / ");
        l.append(ph);
        assert(l@ =~= "  "@ + h@ + " / "@ + ph@);
        push_line(&mut lines, l);
        push_line(&mut lines, lit("================================"));
        push_line(&mut lines, joined("  ", self.store.fiscal.business_name.as_str()));
        match &self.store.fiscal.business_pin {
            Some(p) => push_line(&mut lines, joined("  Tax ID: ", p.as_str())),
            None => {
                let e = String::new();
                assert(e@ =~= Seq::<char>::empty());
                push_line(&mut lines, e);
            },
        }
        let d = take_prefix(cart.created_at.as_str(), 10);
        push_line(&mut lines, joined("  Date: ", d.as_str()));
        push_line(&mut lines, lit("--------------------------------"));
        let ghost base = lines_view(lines@);
        let ghost v = c.items;
        let n = cart.items.len();
        assert(v.take(0) =~= Seq::<CartItemView>::empty());
        assert(base + bilingual_item_lines(v.take(0), cur@) =~= base);
        for i in 0..n
            invariant
                n == cart.items@.len(),
                v == cart@.items,
                lines_view(lines@) == base + bilingual_item_lines(v.take(i as int), cur@),
        {
            assert(v.take(i + 1).drop_last() =~= v.take(i as int));
            let it = &cart.items[i];
            let mut l = String::new();
            push_padded(&mut l, it.name.as_str(), 18);
            l.append(" x");
            let q = qty_str(it.quantity);
            l.append(q.as_str());
            let m = labeled_money(" ", cur, it.line_total);
            l.append(m.as_str());
            assert(l@ =~= pad_right(it.name@, 18) + " x"@ + qty_text(it.quantity) + " "@ + money_text(cur@, it.line_total));
            push_line(&mut lines, l);
            assert(lines_view(lines@) =~= base + bilingual_item_lines(v.take(i + 1), cur@));
        }
        assert(v.take(n as int) =~= v);
        push_line(&mut lines, lit("--------------------------------"));
        let mut tl = lit(t);
        tl.append(" / ");
        tl.append(pt);
        let tm = labeled_money(": ", cur, cart.total);
        tl.append(tm.as_str());
        assert(tl@ =~= t@ + " / "@ + pt@ + ": "@ + money_text(cur@, cart.total));
        push_line(&mut lines, tl);
        push_line(&mut lines, labeled_money("  Tax/VAT: ", cur, cart.total_tax));
        push_line(&mut lines, lit("================================"));
        let mut bye = joined("  ", th);
        bye.append(" / ");
        bye.append(pth);
        assert(bye@ =~= "  "@ + th@ + " / "@ + pth@);
        push_line(&mut lines, bye);
        push_line(&mut lines, lit("================================"));
        assert(lines_view(lines@) =~= bilingual_lines(c, self@.fiscal.business_name, self@.fiscal.business_pin, input.primary_lang@, input.secondary_lang@));
        Ok(lines)
    }
}

} // verus!
