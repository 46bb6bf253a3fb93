//! Payloads of each request kind, and how they are synthesised.

use crate::random::{
    ascii_chars, ascii_string, card_digits, coin, decimal_string, drawn_from, fake_city,
    fake_country, fake_email, fake_state, fake_street, fake_zip_code, gen_range_u32, is_digit,
    pick, signed_decimal,
};
use rand::rngs::StdRng;
use vstd::prelude::*;

verus! {

/// The pools that identifiers are drawn from: product identifiers and
/// currency codes, both supplied at startup.
#[derive(Debug, Clone)]
pub struct Catalog {
    pub product_ids: Vec<String>,
    pub currency_codes: Vec<String>,
}

impl Catalog {
    /// Both pools hold at least one entry.
    pub open spec fn wf(&self) -> bool {
        self.product_ids@.len() > 0 && self.currency_codes@.len() > 0
    }

    /// A catalog over the given pools, or `None` when either is empty.
    pub fn new(product_ids: Vec<String>, currency_codes: Vec<String>) -> (r: Option<Catalog>)
        ensures
            r is Some <==> (product_ids@.len() > 0 && currency_codes@.len() > 0),
            r matches Some(c) ==> c.product_ids == product_ids && c.currency_codes
                == currency_codes && c.wf(),
    {
        if product_ids.len() > 0 && currency_codes.len() > 0 {
            Some(Catalog { product_ids, currency_codes })
        } else {
            None
        }
    }
}

#[derive(Debug, Clone)]
pub struct Home {}

/// A product page; the identifier goes into the request path, not a form.
#[derive(Debug, Clone)]
pub struct Product {
    pub id: String,
}

#[derive(Debug, Clone)]
pub struct ViewCart {}

#[derive(Debug, Clone)]
pub struct AddToCart {
    pub product_id: String,
    pub quantity: u32,
}

#[derive(Debug, Clone)]
pub struct EmptyCart {}

#[derive(Debug, Clone)]
pub struct SetCurrency {
    pub currency_code: String,
}

#[derive(Debug, Clone)]
pub struct Logout {}

#[derive(Debug, Clone)]
pub struct PlaceOrder {
    pub email: String,
    pub street_address: String,
    pub zip_code: String,
    pub city: String,
    pub state: String,
    pub country: String,
    pub cc_number: String,
    pub cc_month: String,
    pub cc_year: String,
    pub cc_cvv: u16,
}

/// The dash that separates groups of a card number.
pub const DASH: u8 = 45;

/// A digit sequence split into groups of four, joined by dashes.
pub open spec fn group4(s: Seq<u8>) -> Seq<u8>
    decreases s.len(),
{
    if s.len() <= 4 {
        s
    } else {
        s.take(4) + seq![DASH] + group4(s.skip(4))
    }
}

/// The leading digit of a Visa (`4`) or MasterCard (`5`) number.
pub open spec fn lead_digit(visa: bool) -> u8 {
    if visa { 52u8 } else { 53u8 }
}

/// The printed form of a card number: its digits with the first one replaced
/// by the issuer's digit, grouped by four.
pub open spec fn card_text(digits: Seq<u8>, visa: bool) -> Seq<u8> {
    group4(digits.update(0, lead_digit(visa)))
}

/// Whether a text is a printed card number of 13 to 16 digits that a Visa or
/// MasterCard digit leads.
pub open spec fn is_card_number(s: Seq<char>) -> bool {
    exists|d: Seq<u8>, visa: bool|
        13 <= d.len() <= 16 && (forall|i: int| 0 <= i < d.len() ==> is_digit(#[trigger] d[i]))
            && s == ascii_chars(card_text(d, visa))
}

/// The name of a month, counted from zero for January.
pub open spec fn month_name(i: int) -> Seq<char> {
    if i == 0 { "January"@ }
    else if i == 1 { "February"@ }
    else if i == 2 { "March"@ }
    else if i == 3 { "April"@ }
    else if i == 4 { "May"@ }
    else if i == 5 { "June"@ }
    else if i == 6 { "July"@ }
    else if i == 7 { "August"@ }
    else if i == 8 { "September"@ }
    else if i == 9 { "October"@ }
    else if i == 10 { "November"@ }
    else { "December"@ }
}

pub open spec fn is_month_name(s: Seq<char>) -> bool {
    exists|i: int| 0 <= i < 12 && s == month_name(i)
}

/// Whether a text is the decimal form of a year after `current`, at most five
/// years ahead.
pub open spec fn is_expiry_year(s: Seq<char>, current: i32) -> bool {
    exists|y: int| current < y <= current + 5 && s == signed_decimal(y)
}

impl PlaceOrder {
    /// What every synthesised order satisfies, given the current year.
    pub open spec fn valid_for(&self, current_year: i32) -> bool {
        &&& is_card_number(self.cc_number@)
        &&& is_month_name(self.cc_month@)
        &&& is_expiry_year(self.cc_year@, current_year)
        &&& 100 <= self.cc_cvv <= 999
    }
}

fn push_range(out: &mut Vec<u8>, d: &Vec<u8>, lo: usize, hi: usize)
    requires
        lo <= hi <= d@.len(),
    ensures
        final(out)@ == old(out)@ + d@.subrange(lo as int, hi as int),
{
    let mut j: usize = lo;
    while j < hi
        invariant
            lo <= j <= hi <= d@.len(),
            out@ == old(out)@ + d@.subrange(lo as int, j as int),
        decreases hi - j,
    {
        out.push(d[j]);
        assert(d@.subrange(lo as int, j + 1) =~= d@.subrange(lo as int, j as int).push(d@[j as int]));
        j = j + 1;
    }
}

/// Splits a digit sequence into groups of four joined by dashes.
pub fn group_by_four(d: &Vec<u8>) -> (r: Vec<u8>)
    ensures
        r@ == group4(d@),
{
    let mut out: Vec<u8> = Vec::new();
    let mut i: usize = 0;
    assert(d@.skip(0) =~= d@);
    while d.len() - i > 4
        invariant
            i <= d@.len(),
            out@ + group4(d@.skip(i as int)) == group4(d@),
        decreases d@.len() - i,
    {
        let ghost rest = d@.skip(i as int);
        assert(rest.take(4) =~= d@.subrange(i as int, i + 4));
        assert(rest.skip(4) =~= d@.skip(i + 4));
        push_range(&mut out, d, i, i + 4);
        out.push(DASH);
        i = i + 4;
        assert(out@ + group4(d@.skip(i as int)) =~= group4(d@));
    }
    push_range(&mut out, d, i, d.len());
    assert(d@.skip(i as int) =~= d@.subrange(i as int, d@.len() as int));
    out
}

/// The printed card number for the given digits and issuer.
pub fn card_number(digits: &Vec<u8>, visa: bool) -> (r: Vec<u8>)
    requires
        digits@.len() > 0,
    ensures
        r@ == card_text(digits@, visa),
{
    let lead: u8 = if visa { 52 } else { 53 };
    let mut d: Vec<u8> = Vec::new();
    d.push(lead);
    push_range(&mut d, digits, 1, digits.len());
    assert(d@ =~= digits@.update(0, lead_digit(visa)));
    group_by_four(&d)
}

proof fn lemma_group4_ascii(s: Seq<u8>)
    requires
        forall|i: int| 0 <= i < s.len() ==> is_digit(#[trigger] s[i]),
    ensures
        forall|i: int| 0 <= i < group4(s).len() ==> #[trigger] group4(s)[i] < 128,
    decreases s.len(),
{
    if s.len() > 4 {
        let t = s.skip(4);
        assert forall|i: int| 0 <= i < t.len() implies is_digit(#[trigger] t[i]) by {
            assert(t[i] == s[i + 4]);
        }
        lemma_group4_ascii(t);
        let g = group4(s);
        assert forall|i: int| 0 <= i < g.len() implies #[trigger] g[i] < 128 by {
            if i < 4 {
                assert(g[i] == s[i]);
            } else if i > 4 {
                assert(g[i] == group4(t)[i - 5]);
            }
        }
    }
}

/// A fictitious card number: 13 to 16 digits from the faker, led by a Visa or
/// MasterCard digit chosen by a coin, grouped by four.
pub fn fake_card_number(rng: &mut StdRng) -> (r: String)
    ensures
        is_card_number(r@),
{
    let digits = card_digits(rng);
    let visa = coin(rng);
    let bytes = card_number(&digits, visa);
    let ghost d2 = digits@.update(0, lead_digit(visa));
    proof {
        assert forall|i: int| 0 <= i < d2.len() implies is_digit(#[trigger] d2[i]) by {
            if i != 0 {
                assert(d2[i] == digits@[i]);
            }
        }
        lemma_group4_ascii(d2);
    }
    let r = ascii_string(bytes);
    assert(13 <= digits@.len() <= 16 && (forall|i: int|
        0 <= i < digits@.len() ==> is_digit(#[trigger] digits@[i])) && r@ == ascii_chars(
        card_text(digits@, visa),
    ));
    r
}

/// The names of the twelve months, in calendar order.
pub fn month_names() -> (r: Vec<String>)
    ensures
        r@.len() == 12,
        forall|i: int| 0 <= i < 12 ==> (#[trigger] r@[i])@ == month_name(i),
{
    let r = vec![
        String::from_str("January"),
        String::from_str("February"),
        String::from_str("March"),
        String::from_str("April"),
        String::from_str("May"),
        String::from_str("June"),
        String::from_str("July"),
        String::from_str("August"),
        String::from_str("September"),
        String::from_str("October"),
        String::from_str("November"),
        String::from_str("December"),
    ];
    r
}

/// An expiry month, drawn uniformly from the twelve month names.
pub fn fake_month(rng: &mut StdRng) -> (r: String)
    ensures
        is_month_name(r@),
{
    let names = month_names();
    let r = pick(&names, rng);
    let ghost i = choose|i: int| 0 <= i < names@.len() && names@[i]@ == r@;
    assert(names@[i]@ == month_name(i));
    r
}

/// An expiry year from one to five years after `current_year`, in decimal.
pub fn fake_year(current_year: i32, rng: &mut StdRng) -> (r: String)
    ensures
        is_expiry_year(r@, current_year),
{
    let ahead = gen_range_u32(1, 5, rng);
    let year: i64 = current_year as i64 + ahead as i64;
    let r = decimal_string(year);
    assert(current_year < year <= current_year + 5 && r@ == signed_decimal(year as int));
    r
}

impl Product {
    /// A product page for an identifier drawn from the catalog.
    pub fn fake(catalog: &Catalog, rng: &mut StdRng) -> (r: Product)
        requires
            catalog.wf(),
        ensures
            drawn_from(catalog.product_ids@, r.id@),
    {
        Product { id: pick(&catalog.product_ids, rng) }
    }
}

impl AddToCart {
    /// A product drawn from the catalog and a quantity from 1 to 10.
    pub fn fake(catalog: &Catalog, rng: &mut StdRng) -> (r: AddToCart)
        requires
            catalog.wf(),
        ensures
            drawn_from(catalog.product_ids@, r.product_id@),
            1 <= r.quantity <= 10,
    {
        let product_id = pick(&catalog.product_ids, rng);
        let quantity = gen_range_u32(1, 10, rng);
        AddToCart { product_id, quantity }
    }
}

impl SetCurrency {
    /// A currency code drawn from the catalog.
    pub fn fake(catalog: &Catalog, rng: &mut StdRng) -> (r: SetCurrency)
        requires
            catalog.wf(),
        ensures
            drawn_from(catalog.currency_codes@, r.currency_code@),
    {
        SetCurrency { currency_code: pick(&catalog.currency_codes, rng) }
    }
}

impl PlaceOrder {
    /// A fictitious order: faked address and e-mail, a card number, an expiry
    /// in the coming five years and a three-digit CVV.
    pub fn fake(current_year: i32, rng: &mut StdRng) -> (r: PlaceOrder)
        ensures
            r.valid_for(current_year),
    {
        let email = fake_email(rng);
        let street_address = fake_street(rng);
        let zip_code = fake_zip_code(rng);
        let city = fake_city(rng);
        let state = fake_state(rng);
        let country = fake_country(rng);
        let cc_number = fake_card_number(rng);
        let cc_month = fake_month(rng);
        let cc_year = fake_year(current_year, rng);
        let cc_cvv = gen_range_u32(100, 999, rng) as u16;
        PlaceOrder {
            email,
            street_address,
            zip_code,
            city,
            state,
            country,
            cc_number,
            cc_month,
            cc_year,
            cc_cvv,
        }
    }
}

} // verus!
