//! Fiscal signing, US sales tax, levies, age checks and product tax codes.
use vstd::prelude::*;
use crate::cart::{gross, gross_exec, make_line, place_line, quantity_in_range, settle};
use crate::clock::{now, parse_ymd, today, ymd};
use crate::money::{QUANTITY_LIMIT, div_round, quantity_ok, round_div};
use crate::sales::i64_or;
use crate::server::{PosError, PosServer, with_cart};
use crate::store::{StoreView, chain_ok};
use crate::table::{lemma_lookup, lemma_put, lookup, put};
use crate::text::{
    cents_text, decimal, eq_lit, hex_char, lit, push_cents, push_char, push_decimal, to_uppercase, uppercase,
};
use crate::types::{
    BuyerIdentity, BuyerIdentityView, CartItemView, CartView, FiscalReceipt, FiscalReceiptView,
};
use vstd::utf8::encode_utf8;
use sha2::Digest;

verus! {

/// The 128-bit hash of a byte string: start from 0xcbf29ce484222325 and,
/// for each byte, xor it in and multiply by 0x100000001b3, wrapping.
pub open spec fn fnv_hash(bytes: Seq<u8>) -> u128
    decreases bytes.len(),
{
    if bytes.len() == 0 {
        0xcbf29ce484222325u128
    } else {
        let h = fnv_hash(bytes.drop_last()) ^ (bytes.last() as u128);
        ((h as nat * 0x100000001b3nat) % 0x1_0000_0000_0000_0000_0000_0000_0000_0000nat) as u128
    }
}

/// The hash of the UTF-8 bytes of `input`; see `fnv_hash`.
pub fn md5_simple(input: &str) -> (h: u128)
    ensures
        h == fnv_hash(encode_utf8(input@)),
{
    let bytes = input.as_bytes();
    let n = bytes.len();
    let mut hash: u128 = 0xcbf29ce484222325;
    assert(bytes@.take(0) =~= Seq::<u8>::empty());
    for i in 0..n
        invariant
            n == bytes@.len(),
            hash == fnv_hash(bytes@.take(i as int)),
    {
        assert(bytes@.take(i + 1).drop_last() =~= bytes@.take(i as int));
        hash = hash ^ (bytes[i] as u128);
        hash = hash.wrapping_mul(0x100000001b3);
    }
    assert(bytes@.take(n as int) =~= bytes@);
    hash
}

/// The SHA-256 digest of the UTF-8 bytes of a text.
pub uninterp spec fn sha256_of(s: Seq<char>) -> Seq<u8>;

/// The SHA-256 digest of the UTF-8 bytes of `s`
/// (`sha2::Sha256::digest`), 32 bytes.
#[verifier::external_body]
pub(crate) fn sha256(s: &str) -> (r: Vec<u8>)
    ensures
        r@ == sha256_of(s@),
        r@.len() == 32,
{
    sha2::Sha256::digest(s.as_bytes()).to_vec()
}

/// Bytes as lower-case hexadecimal, two digits a byte.
pub open spec fn hex_bytes(b: Seq<u8>) -> Seq<char>
    decreases b.len(),
{
    if b.len() == 0 {
        seq![]
    } else {
        hex_bytes(b.drop_last()) + seq![hex_char((b.last() / 16) as nat), hex_char((b.last() % 16) as nat)]
    }
}

pub proof fn lemma_hex_bytes_len(b: Seq<u8>)
    ensures
        hex_bytes(b).len() == 2 * b.len(),
    decreases b.len(),
{
    if b.len() > 0 {
        lemma_hex_bytes_len(b.drop_last());
    }
}

pub fn hex_of_bytes(b: &Vec<u8>) -> (r: String)
    ensures
        r@ == hex_bytes(b@),
        r@.len() == 2 * b@.len(),
{
    let mut s = String::new();
    let n = b.len();
    assert(b@.take(0) =~= Seq::<u8>::empty());
    for i in 0..n
        invariant
            n == b@.len(),
            s@ == hex_bytes(b@.take(i as int)),
    {
        assert(b@.take(i + 1).drop_last() =~= b@.take(i as int));
        let x = b[i];
        let hi: u8 = x / 16;
        let lo: u8 = x % 16;
        let ch: char = if hi < 10 { (48u8 + hi) as char } else { (87u8 + hi) as char };
        let cl: char = if lo < 10 { (48u8 + lo) as char } else { (87u8 + lo) as char };
        push_char(&mut s, ch);
        push_char(&mut s, cl);
        assert(s@ =~= hex_bytes(b@.take(i + 1)));
    }
    assert(b@.take(n as int) =~= b@);
    proof {
        lemma_hex_bytes_len(b@);
    }
    s
}

pub struct ReceiptSignInput {
    pub cart_id: String,
}

/// The text a receipt's hash is taken of.
pub open spec fn sign_text(prev: Seq<char>, num: u64, cart_id: Seq<char>, total: i64, ts: Seq<char>) -> Seq<char> {
    prev + seq!['|'] + decimal(num as nat) + seq!['|'] + cart_id + seq!['|'] + cents_text(total as int) + seq!['|'] + ts
}

/// The hash the last signed receipt names, or "GENESIS" where none is.
pub open spec fn last_hash(rs: Seq<FiscalReceiptView>) -> Seq<char> {
    if rs.len() == 0 {
        "GENESIS"@
    } else {
        rs.last().hash
    }
}

/// What signing a receipt does at time `ts`: the next receipt number is
/// taken, and a receipt recorded whose hash is the SHA-256 digest, in
/// hexadecimal, of the previous hash,
/// the number, the cart's id and total and the time, joined by "|"; it
/// names the previous hash.
pub open spec fn sign_spec(s: StoreView, i: ReceiptSignInput, ts: Seq<char>) -> (StoreView, Result<FiscalReceiptView, PosError>) {
    match lookup(s.carts, i.cart_id@) {
        None => (s, Err(PosError::CartNotFound)),
        Some(c) => {
            let num = s.fiscal.next_receipt_number;
            if num == u64::MAX {
                (s, Err(PosError::OutOfRange))
            } else {
                let prev = last_hash(s.fiscal_receipts);
                let hash = hex_bytes(sha256_of(sign_text(prev, num, c.id, c.total, ts)));
                let r = FiscalReceiptView {
                    receipt_number: num,
                    cart_id: i.cart_id@,
                    hash,
                    previous_hash: prev,
                    timestamp: ts,
                    device_id: s.fiscal.device_id,
                    is_copy: false,
                };
                (
                    StoreView {
                        fiscal: crate::types::FiscalConfigView { next_receipt_number: (num + 1) as u64, ..s.fiscal },
                        fiscal_receipts: s.fiscal_receipts.push(r),
                        ..s
                    },
                    Ok(r),
                )
            }
        },
    }
}

pub open spec fn receipt_view(r: Result<FiscalReceipt, PosError>) -> Result<FiscalReceiptView, PosError> {
    match r {
        Ok(x) => Ok(x@),
        Err(e) => Err(e),
    }
}

impl PosServer {
    /// Signs a receipt for a cart into the hash chain at time `ts`; see
    /// `sign_spec`.
    pub fn receipt_sign_with(&mut self, input: ReceiptSignInput, ts: String) -> (r: Result<FiscalReceipt, PosError>)
        requires
            old(self).wf(),
        ensures
            final(self).wf(),
            (final(self)@, receipt_view(r)) == sign_spec(old(self)@, input, ts@),
            r matches Ok(x) ==> x.hash@.len() == 64,
    {
        let ghost s0 = self@;
        let (_ci, cart) = match self.take_cart(&input.cart_id) {
            Some(x) => x,
            None => {
                return Err(PosError::CartNotFound);
            },
        };
        let num = self.store.fiscal.next_receipt_number;
        if num == u64::MAX {
            return Err(PosError::OutOfRange);
        }
        let nr = self.store.fiscal_receipts.len();
        let prev = if nr == 0 {
            lit("GENESIS")
        } else {
            self.store.fiscal_receipts[nr - 1].hash.clone()
        };
        let mut text = prev.clone();
        push_char(&mut text, '|');
        push_decimal(&mut text, num as u128);
        push_char(&mut text, '|');
        text.append(cart.id.as_str());
        push_char(&mut text, '|');
        push_cents(&mut text, cart.total);
        push_char(&mut text, '|');
        text.append(ts.as_str());
        assert(text@ =~= sign_text(prev@, num, cart@.id, cart@.total, ts@));
        let digest = sha256(text.as_str());
        let hash = hex_of_bytes(&digest);
        let rec = FiscalReceipt {
            receipt_number: num,
            cart_id: input.cart_id,
            hash,
            previous_hash: prev,
            timestamp: ts,
            device_id: crate::types::copy_opt(&self.store.fiscal.device_id),
            is_copy: false,
        };
        let out = rec.duplicate();
        let ghost rv = rec@;
        self.store.fiscal.next_receipt_number = num + 1;
        self.store.fiscal_receipts.push(rec);
        proof {
            let t = self@;
            assert(t.fiscal_receipts =~= s0.fiscal_receipts.push(rv));
            assert(t =~= StoreView {
                fiscal: crate::types::FiscalConfigView { next_receipt_number: (num + 1) as u64, ..s0.fiscal },
                fiscal_receipts: s0.fiscal_receipts.push(rv),
                ..s0
            });
            let rs = t.fiscal_receipts;
            assert forall|i: int| 0 < i < rs.len() implies #[trigger] rs[i].previous_hash == rs[i - 1].hash by {
                if i < rs.len() - 1 {
                    assert(rs[i] == s0.fiscal_receipts[i]);
                    assert(rs[i - 1] == s0.fiscal_receipts[i - 1]);
                }
            }
            assert forall|i: int| 0 < i < rs.len() implies #[trigger] rs[i].receipt_number == rs[i - 1].receipt_number + 1 by {
                if i < rs.len() - 1 {
                    assert(rs[i] == s0.fiscal_receipts[i]);
                    assert(rs[i - 1] == s0.fiscal_receipts[i - 1]);
                }
            }
            assert(chain_ok(rs, t.fiscal.next_receipt_number));
        }
        Ok(out)
    }

    /// Signs a receipt for a cart into the hash chain, stamped with the
    /// current time.
    pub fn receipt_sign(&mut self, input: ReceiptSignInput) -> (r: Result<FiscalReceipt, PosError>)
        requires
            old(self).wf(),
        ensures
            final(self).wf(),
            exists|t: Seq<char>| (final(self)@, receipt_view(r)) == #[trigger] sign_spec(old(self)@, input, t),
            r matches Ok(x) ==> x.hash@.len() == 64,
    {
        let t = now();
        self.receipt_sign_with(input, t)
    }
}

/// The base sales tax rate (thousandths of a percent) and name of a US
/// state, by its upper-cased two-letter code.
pub open spec fn state_tax(code: Seq<char>) -> (i64, Seq<char>) {
    if code == "AL"@ {
        (4000, "Alabama"@)
    } else if code == "AZ"@ {
        (5600, "Arizona"@)
    } else if code == "AR"@ {
        (6500, "Arkansas"@)
    } else if code == "CA"@ {
        (7250, "California"@)
    } else if code == "CO"@ {
        (2900, "Colorado"@)
    } else if code == "CT"@ {
        (6250, "Connecticut"@)
    } else if code == "DC"@ {
        (6000, "District of Columbia"@)
    } else if code == "FL"@ {
        (6000, "Florida"@)
    } else if code == "GA"@ {
        (4000, "Georgia"@)
    } else if code == "HI"@ {
        (4000, "Hawaii"@)
    } else if code == "ID"@ {
        (6000, "Idaho"@)
    } else if code == "IL"@ {
        (6250, "Illinois"@)
    } else if code == "IN"@ {
        (7000, "Indiana"@)
    } else if code == "IA"@ {
        (6000, "Iowa"@)
    } else if code == "KS"@ {
        (6500, "Kansas"@)
    } else if code == "KY"@ {
        (6000, "Kentucky"@)
    } else if code == "LA"@ {
        (4450, "Louisiana"@)
    } else if code == "ME"@ {
        (5500, "Maine"@)
    } else if code == "MD"@ {
        (6000, "Maryland"@)
    } else if code == "MA"@ {
        (6250, "Massachusetts"@)
    } else if code == "MI"@ {
        (6000, "Michigan"@)
    } else if code == "MN"@ {
        (6875, "Minnesota"@)
    } else if code == "MS"@ {
        (7000, "Mississippi"@)
    } else if code == "MO"@ {
        (4225, "Missouri"@)
    } else if code == "NE"@ {
        (5500, "Nebraska"@)
    } else if code == "NV"@ {
        (6850, "Nevada"@)
    } else if code == "NJ"@ {
        (6625, "New Jersey"@)
    } else if code == "NM"@ {
        (4500, "New Mexico"@)
    } else if code == "NY"@ {
        (4000, "New York"@)
    } else if code == "NC"@ {
        (4750, "North Carolina"@)
    } else if code == "ND"@ {
        (5000, "North Dakota"@)
    } else if code == "OH"@ {
        (5750, "Ohio"@)
    } else if code == "OK"@ {
        (4500, "Oklahoma"@)
    } else if code == "PA"@ {
        (6000, "Pennsylvania"@)
    } else if code == "RI"@ {
        (7000, "Rhode Island"@)
    } else if code == "SC"@ {
        (6000, "South Carolina"@)
    } else if code == "SD"@ {
        (4200, "South Dakota"@)
    } else if code == "TN"@ {
        (7000, "Tennessee"@)
    } else if code == "TX"@ {
        (6250, "Texas"@)
    } else if code == "UT"@ {
        (6100, "Utah"@)
    } else if code == "VT"@ {
        (6000, "Vermont"@)
    } else if code == "VA"@ {
        (5300, "Virginia"@)
    } else if code == "WA"@ {
        (6500, "Washington"@)
    } else if code == "WV"@ {
        (6000, "West Virginia"@)
    } else if code == "WI"@ {
        (5000, "Wisconsin"@)
    } else if code == "WY"@ {
        (4000, "Wyoming"@)
    } else if code == "OR"@ {
        (0, "Oregon"@)
    } else if code == "NH"@ {
        (0, "New Hampshire"@)
    } else if code == "MT"@ {
        (0, "Montana"@)
    } else if code == "DE"@ {
        (0, "Delaware"@)
    } else if code == "AK"@ {
        (0, "Alaska"@)
    } else {
        (0, "Unknown"@)
    }
}

/// The base sales tax rate (thousandths of a percent) and name of a US
/// state, by its two-letter code in any case; 0 and "Unknown" for others.
pub fn us_state_tax(state: &str) -> (r: (i64, &'static str))
    ensures
        r.0 == state_tax(uppercase(state@)).0,
        r.1@ == state_tax(uppercase(state@)).1,
{
    let up = to_uppercase(state);
    state_tax_of(&up)
}

/// The base sales tax rate (thousandths of a percent) and name of a US
/// state by its upper-case two-letter code; 0 and "Unknown" for others.
pub fn state_tax_of(up: &String) -> (r: (i64, &'static str))
    ensures
        r.0 == state_tax(up@).0,
        r.1@ == state_tax(up@).1,
{
    if eq_lit(up, "AL") {
        (4000, "Alabama")
    } else if eq_lit(up, "AZ") {
        (5600, "Arizona")
    } else if eq_lit(up, "AR") {
        (6500, "Arkansas")
    } else if eq_lit(up, "CA") {
        (7250, "California")
    } else if eq_lit(up, "CO") {
        (2900, "Colorado")
    } else if eq_lit(up, "CT") {
        (6250, "Connecticut")
    } else if eq_lit(up, "DC") {
        (6000, "District of Columbia")
    } else if eq_lit(up, "FL") {
        (6000, "Florida")
    } else if eq_lit(up, "GA") {
        (4000, "Georgia")
    } else if eq_lit(up, "HI") {
        (4000, "Hawaii")
    } else if eq_lit(up, "ID") {
        (6000, "Idaho")
    } else if eq_lit(up, "IL") {
        (6250, "Illinois")
    } else if eq_lit(up, "IN") {
        (7000, "Indiana")
    } else if eq_lit(up, "IA") {
        (6000, "Iowa")
    } else if eq_lit(up, "KS") {
        (6500, "Kansas")
    } else if eq_lit(up, "KY") {
        (6000, "Kentucky")
    } else if eq_lit(up, "LA") {
        (4450, "Louisiana")
    } else if eq_lit(up, "ME") {
        (5500, "Maine")
    } else if eq_lit(up, "MD") {
        (6000, "Maryland")
    } else if eq_lit(up, "MA") {
        (6250, "Massachusetts")
    } else if eq_lit(up, "MI") {
        (6000, "Michigan")
    } else if eq_lit(up, "MN") {
        (6875, "Minnesota")
    } else if eq_lit(up, "MS") {
        (7000, "Mississippi")
    } else if eq_lit(up, "MO") {
        (4225, "Missouri")
    } else if eq_lit(up, "NE") {
        (5500, "Nebraska")
    } else if eq_lit(up, "NV") {
        (6850, "Nevada")
    } else if eq_lit(up, "NJ") {
        (6625, "New Jersey")
    } else if eq_lit(up, "NM") {
        (4500, "New Mexico")
    } else if eq_lit(up, "NY") {
        (4000, "New York")
    } else if eq_lit(up, "NC") {
        (4750, "North Carolina")
    } else if eq_lit(up, "ND") {
        (5000, "North Dakota")
    } else if eq_lit(up, "OH") {
        (5750, "Ohio")
    } else if eq_lit(up, "OK") {
        (4500, "Oklahoma")
    } else if eq_lit(up, "PA") {
        (6000, "Pennsylvania")
    } else if eq_lit(up, "RI") {
        (7000, "Rhode Island")
    } else if eq_lit(up, "SC") {
        (6000, "South Carolina")
    } else if eq_lit(up, "SD") {
        (4200, "South Dakota")
    } else if eq_lit(up, "TN") {
        (7000, "Tennessee")
    } else if eq_lit(up, "TX") {
        (6250, "Texas")
    } else if eq_lit(up, "UT") {
        (6100, "Utah")
    } else if eq_lit(up, "VT") {
        (6000, "Vermont")
    } else if eq_lit(up, "VA") {
        (5300, "Virginia")
    } else if eq_lit(up, "WA") {
        (6500, "Washington")
    } else if eq_lit(up, "WV") {
        (6000, "West Virginia")
    } else if eq_lit(up, "WI") {
        (5000, "Wisconsin")
    } else if eq_lit(up, "WY") {
        (4000, "Wyoming")
    } else if eq_lit(up, "OR") {
        (0, "Oregon")
    } else if eq_lit(up, "NH") {
        (0, "New Hampshire")
    } else if eq_lit(up, "MT") {
        (0, "Montana")
    } else if eq_lit(up, "DE") {
        (0, "Delaware")
    } else if eq_lit(up, "AK") {
        (0, "Alaska")
    } else {
        (0, "Unknown")
    }
}

pub struct UsTaxInput {
    /// Two-letter state code.
    pub state: String,
    pub county: Option<String>,
    pub city: Option<String>,
    /// Minor units to reckon the tax on.
    pub amount: Option<i64>,
}

/// A US sales tax quote.  Rates are in thousandths of a percent.
pub struct UsTax {
    pub state_name: String,
    pub state_rate: i64,
    /// An estimated 1.5% where a county is named.
    pub county_rate: i64,
    /// An estimated 0.75% where a city is named.
    pub city_rate: i64,
    pub combined_rate: i64,
    /// Tax on the amount at the combined rate, minor units.
    pub tax_amount: Option<i128>,
    /// The amount with that tax, minor units.
    pub total: Option<i128>,
}

impl PosServer {
    /// Quotes US sales tax: the state's base rate plus estimated county and
    /// city rates, and the tax and total on the amount where given.
    pub fn us_tax_lookup(&self, input: UsTaxInput) -> (r: UsTax)
        ensures
            ({
                let (rate, name) = state_tax(uppercase(input.state@));
                let county: int = if input.county is Some { 1500 } else { 0 };
                let city: int = if input.city is Some { 750 } else { 0 };
                let combined = rate + county + city;
                &&& r.state_name@ == name
                &&& r.state_rate == rate
                &&& r.county_rate == county
                &&& r.city_rate == city
                &&& r.combined_rate == combined
                &&& r.tax_amount == match input.amount {
                    Some(a) => Some(div_round(a * combined, 100_000) as i128),
                    None => None,
                }
                &&& r.total == match input.amount {
                    Some(a) => Some(div_round(a * 100_000 + a * combined, 100_000) as i128),
                    None => None,
                }
            }),
    {
        let (rate, name) = us_state_tax(input.state.as_str());
        let county: i64 = if input.county.is_some() { 1500 } else { 0 };
        let city: i64 = if input.city.is_some() { 750 } else { 0 };
        let combined: i64 = rate + county + city;
        let (tax, total) = match input.amount {
            Some(a) => {
                proof {
                    crate::cart::lemma_mul_bound(a as int, combined as int, 0x8000_0000_0000_0000, 10_000);
                    crate::cart::lemma_mul_bound(a as int, 100_000, 0x8000_0000_0000_0000, 100_000);
                }
                let t = round_div(a as i128 * combined as i128, 100_000);
                let tot = round_div(a as i128 * 100_000 + a as i128 * combined as i128, 100_000);
                (Some(t), Some(tot))
            },
            None => (None, None),
        };
        UsTax {
            state_name: lit(name),
            state_rate: rate,
            county_rate: county,
            city_rate: city,
            combined_rate: combined,
            tax_amount: tax,
            total,
        }
    }
}

pub struct EnvLevyInput {
    pub cart_id: String,
    /// carrier_bag, carrier_bag_ie, plastic_tax or sugar_tax.
    pub levy_type: String,
    /// Thousandths of a unit; one unit where absent.
    pub quantity: Option<i64>,
}

/// The charge per unit (minor units) and name of a levy.
pub open spec fn levy_of(t: Seq<char>) -> (i64, Seq<char>) {
    if t == "carrier_bag"@ {
        (10, "Carrier Bag Charge"@)
    } else if t == "carrier_bag_ie"@ {
        (22, "Plastic Bag Levy"@)
    } else if t == "plastic_tax"@ {
        (20, "Plastic Packaging Tax"@)
    } else if t == "sugar_tax"@ {
        (24, "Soft Drinks Levy"@)
    } else {
        (0, "Environmental Levy"@)
    }
}

pub fn levy_for(t: &String) -> (r: (i64, &'static str))
    ensures
        r.0 == levy_of(t@).0,
        r.1@ == levy_of(t@).1,
{
    if eq_lit(t, "carrier_bag") {
        (10, "Carrier Bag Charge")
    } else if eq_lit(t, "carrier_bag_ie") {
        (22, "Plastic Bag Levy")
    } else if eq_lit(t, "plastic_tax") {
        (20, "Plastic Packaging Tax")
    } else if eq_lit(t, "sugar_tax") {
        (24, "Soft Drinks Levy")
    } else {
        (0, "Environmental Levy")
    }
}

/// The line a levy adds: SKU "LEVY-" and the upper-cased type, no tax or
/// discount, total the charge for the quantity.
pub open spec fn levy_line(t: Seq<char>, qty: i64) -> CartItemView {
    let (per, name) = levy_of(t);
    CartItemView {
        sku: "LEVY-"@ + uppercase(t),
        name,
        quantity: qty,
        unit_price: per,
        discount: 0,
        tax: 0,
        line_total: gross(per as int, qty as int) as i64,
    }
}

/// A levy added to a cart.
pub struct LevyAdded {
    pub quantity: i64,
    pub levy_per_unit: i64,
    pub total_levy: i64,
    pub cart_total: i64,
}

impl PosServer {
    /// Adds an environmental levy line to a cart and recomputes its totals.
    pub fn env_levy_add(&mut self, input: EnvLevyInput) -> (r: Result<LevyAdded, PosError>)
        requires
            old(self).wf(),
        ensures
            final(self).wf(),
            ({
                let qty = i64_or(input.quantity, 1000);
                let line = levy_line(input.levy_type@, qty);
                match lookup(old(self)@.carts, input.cart_id@) {
                    None => r == Err::<LevyAdded, PosError>(PosError::CartNotFound) && final(self)@ == old(self)@,
                    Some(c) => if !quantity_ok(qty as int) {
                        r == Err::<LevyAdded, PosError>(PosError::OutOfRange) && final(self)@ == old(self)@
                    } else {
                        match settle(CartView { items: c.items.push(line), ..c }) {
                            None => r == Err::<LevyAdded, PosError>(PosError::OutOfRange) && final(self)@ == old(self)@,
                            Some(n) => r matches Ok(a) && a.quantity == qty && a.levy_per_unit == line.unit_price
                                && a.total_levy == line.line_total && a.cart_total == n.total
                                && final(self)@ == with_cart(old(self)@, input.cart_id@, n),
                        }
                    },
                }
            }),
    {
        let qty = match input.quantity {
            Some(q) => q,
            None => 1000,
        };
        let (per, name) = levy_for(&input.levy_type);
        let (ci, cart) = match self.take_cart(&input.cart_id) {
            Some(x) => x,
            None => {
                return Err(PosError::CartNotFound);
            },
        };
        if !quantity_in_range(qty) {
            return Err(PosError::OutOfRange);
        }
        let total = gross_exec(per, qty);
        proof {
            crate::cart::lemma_mul_bound(per as int, qty as int, 24, QUANTITY_LIMIT as int);
            crate::money::lemma_div_round_bound(per * qty, 1000, 24 * QUANTITY_LIMIT / 1000);
        }
        let mut sku = lit("LEVY-");
        let up = to_uppercase(input.levy_type.as_str());
        sku.append(up.as_str());
        let line = match make_line(sku, lit(name), qty, per, 0, 0, total) {
            Some(l) => l,
            None => {
                return Err(PosError::OutOfRange);
            },
        };
        let total_levy = line.line_total;
        match place_line(cart, None, line) {
            Some(n) => {
                let ct = n.total;
                self.put_cart(ci, Ghost(input.cart_id@), n);
                Ok(LevyAdded { quantity: qty, levy_per_unit: per, total_levy, cart_total: ct })
            },
            None => Err(PosError::OutOfRange),
        }
    }
}

pub struct AgeVerifyInput {
    pub cart_id: String,
    /// dob_check, id_scanned or challenge25_passed.
    pub method: String,
    /// Date of birth, YYYY-MM-DD, for dob_check.
    pub dob: Option<String>,
    pub verified_by: String,
}

/// Whether calendar date `a` falls on or before `b`, each as year, month
/// and day.
pub open spec fn not_after(a: (int, int, int), b: (int, int, int)) -> bool {
    a.0 < b.0 || (a.0 == b.0 && (a.1 < b.1 || (a.1 == b.1 && a.2 <= b.2)))
}

/// Whether a customer passes the age check: an ID scan or a passed
/// Challenge 25; a date-of-birth check passes where the date parses (as
/// `birth`) and its 18th anniversary, the same month and day 18 years on,
/// is not after `today`.
pub open spec fn age_rule(method: Seq<char>, birth: Option<(i32, u32, u32)>, today: (i32, u32, u32)) -> bool {
    if method == "dob_check"@ {
        match birth {
            Some(b) => not_after((b.0 + 18, b.1 as int, b.2 as int), (today.0 as int, today.1 as int, today.2 as int)),
            None => false,
        }
    } else {
        method == "id_scanned"@ || method == "challenge25_passed"@
    }
}

/// The age check on given dates; see `age_rule`.
pub fn age_decision(method: &String, birth: Option<(i32, u32, u32)>, today: (i32, u32, u32)) -> (b: bool)
    ensures
        b == age_rule(method@, birth, today),
{
    if eq_lit(method, "dob_check") {
        match birth {
            Some((y, m, d)) => {
                let y18: i64 = y as i64 + 18;
                let ty: i64 = today.0 as i64;
                y18 < ty || (y18 == ty && (m < today.1 || (m == today.1 && d <= today.2)))
            },
            None => false,
        }
    } else {
        eq_lit(method, "id_scanned") || eq_lit(method, "challenge25_passed")
    }
}

pub open spec fn birth_of(dob: Option<String>) -> Option<(i32, u32, u32)> {
    match dob {
        Some(s) => ymd(s@),
        None => None,
    }
}

impl PosServer {
    /// Checks a customer's age for restricted items, on today's date.
    pub fn age_verify(&self, input: AgeVerifyInput) -> (b: bool)
        ensures
            exists|t: (i32, u32, u32)| b == #[trigger] age_rule(input.method@, birth_of(input.dob), t),
    {
        let birth = match &input.dob {
            Some(s) => parse_ymd(s.as_str()),
            None => None,
        };
        let t = today();
        age_decision(&input.method, birth, t)
    }
}

pub struct TaxCategoryInput {
    pub sku: String,
    /// HSN, SAC, HS or VAT category code.
    pub tax_code: String,
    /// hsn, sac, hs or vat_category.
    pub code_type: String,
}

pub struct BuyerIdentifyInput {
    pub cart_id: String,
    pub tax_id: String,
    pub name: String,
    /// gstin, trn, kra_pin, national_id or passport.
    pub id_type: String,
}

impl PosServer {
    /// Acknowledges a tax code for a registered product (the catalog keeps
    /// no tax codes).
    pub fn tax_category_set(&self, input: TaxCategoryInput) -> (r: Result<(), PosError>)
        ensures
            r is Ok <==> lookup(self@.products, input.sku@) is Some,
            r is Err ==> r == Err::<(), PosError>(PosError::ProductNotFound),
    {
        proof {
            lemma_lookup(self@.products, input.sku@);
        }
        match self.store.products.find(&input.sku) {
            Some(_) => Ok(()),
            None => Err(PosError::ProductNotFound),
        }
    }

    /// Identifies the buyer of a cart, for its business invoice; a later
    /// identification of the same cart replaces it.
    pub fn buyer_identify(&mut self, input: BuyerIdentifyInput) -> (r: Result<(), PosError>)
        requires
            old(self).wf(),
        ensures
            final(self).wf(),
            match lookup(old(self)@.carts, input.cart_id@) {
                None => r == Err::<(), PosError>(PosError::CartNotFound) && final(self)@ == old(self)@,
                Some(_) => r == Ok::<(), PosError>(()) && final(self)@ == (StoreView {
                    buyers: put(
                        old(self)@.buyers,
                        input.cart_id@,
                        BuyerIdentityView { tax_id: input.tax_id@, name: input.name@, id_type: input.id_type@ },
                    ),
                    ..old(self)@
                }),
            },
    {
        proof {
            lemma_lookup(self@.carts, input.cart_id@);
        }
        if self.store.carts.find(&input.cart_id).is_none() {
            return Err(PosError::CartNotFound);
        }
        let ghost before = self@;
        let b = BuyerIdentity { tax_id: input.tax_id, name: input.name, id_type: input.id_type };
        let ghost bv = b@;
        self.store.buyers.insert(input.cart_id.clone(), b);
        proof {
            lemma_put(before.buyers, input.cart_id@, bv);
            assert(self@ =~= StoreView { buyers: put(before.buyers, input.cart_id@, bv), ..before });
        }
        Ok(())
    }
}

} // verus!
