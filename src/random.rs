//! The random sources and fakers that payload synthesis draws from, each
//! behind a contract that says what holds of every outcome.

use chrono::Datelike;
use fake::faker::address::en::{CityName, CountryName, StateAbbr, StreetName, ZipCode};
use fake::faker::creditcard::en::CreditCardNumber;
use fake::faker::internet::en::FreeEmail;
use fake::Fake;
use rand::rngs::StdRng;
use rand::seq::SliceRandom;
use rand::Rng;
use rand_distr::{Distribution, WeightedIndex};
use vstd::prelude::*;

verus! {

#[verifier::external_type_specification]
#[verifier::external_body]
pub struct ExStdRng(StdRng);

/// The sum of a sequence of weights.
pub open spec fn weight_sum(w: Seq<u64>) -> int
    decreases w.len(),
{
    if w.len() == 0 {
        0
    } else {
        weight_sum(w.drop_last()) + w.last()
    }
}

/// Whether a character is an ASCII decimal digit.
pub open spec fn is_digit(c: u8) -> bool {
    48 <= c && c <= 57
}

/// The character of a decimal digit.
pub open spec fn digit_char(d: nat) -> char {
    if d == 0 { '0' }
    else if d == 1 { '1' }
    else if d == 2 { '2' }
    else if d == 3 { '3' }
    else if d == 4 { '4' }
    else if d == 5 { '5' }
    else if d == 6 { '6' }
    else if d == 7 { '7' }
    else if d == 8 { '8' }
    else { '9' }
}

/// The decimal digits of a natural number, most significant first.
pub open spec fn decimal(n: nat) -> Seq<char>
    decreases n,
{
    if n < 10 {
        seq![digit_char(n)]
    } else {
        decimal(n / 10).push(digit_char(n % 10))
    }
}

/// The decimal text of an integer, with a leading minus sign when negative.
pub open spec fn signed_decimal(i: int) -> Seq<char> {
    if i < 0 {
        seq!['-'] + decimal((-i) as nat)
    } else {
        decimal(i as nat)
    }
}

/// Whether a text is one of the strings of a pool.
pub open spec fn drawn_from(pool: Seq<String>, s: Seq<char>) -> bool {
    exists|i: int| 0 <= i < pool.len() && pool[i]@ == s
}

/// The characters that ASCII bytes encode.
pub open spec fn ascii_chars(b: Seq<u8>) -> Seq<char> {
    b.map_values(|x: u8| x as char)
}

/// Relies on rand's `WeightedIndex::new` and its `sample`: the cumulative weights
/// are searched for the first one above a uniform draw below the total, so the
/// index returned is in bounds and its weight is positive.
#[verifier::external_body]
pub(crate) fn weighted_index(weights: &Vec<u64>, rng: &mut StdRng) -> (r: usize)
    requires
        0 < weight_sum(weights@) <= u64::MAX,
    ensures
        r < weights@.len(),
        weights@[r as int] > 0,
{
    WeightedIndex::<u64>::new(weights.iter()).unwrap().sample(rng)
}

/// Relies on rand's `SliceRandom::choose`: on a non-empty slice it returns one
/// of its elements.
#[verifier::external_body]
pub(crate) fn pick(pool: &Vec<String>, rng: &mut StdRng) -> (r: String)
    requires
        pool@.len() > 0,
    ensures
        drawn_from(pool@, r@),
{
    pool.as_slice().choose(rng).unwrap().clone()
}

/// Relies on rand's `Rng::gen_range` over an inclusive range: the result lies
/// in the range, which must not be empty.
#[verifier::external_body]
pub(crate) fn gen_range_u32(low: u32, high: u32, rng: &mut StdRng) -> (r: u32)
    requires
        low <= high,
    ensures
        low <= r <= high,
{
    rng.gen_range(low..=high)
}

/// Relies on rand's `Rng::gen` for `bool`: a fair coin.
#[verifier::external_body]
pub(crate) fn coin(rng: &mut StdRng) -> (r: bool) {
    rng.gen::<bool>()
}

/// Relies on fake's `CreditCardNumber`: a prefix digit, further digits and a
/// check digit, between 13 and 16 ASCII digits in all.
#[verifier::external_body]
pub(crate) fn card_digits(rng: &mut StdRng) -> (r: Vec<u8>)
    ensures
        13 <= r@.len() <= 16,
        forall|i: int| 0 <= i < r@.len() ==> is_digit(#[trigger] r@[i]),
{
    let s: String = CreditCardNumber().fake_with_rng(rng);
    s.into_bytes()
}

/// Relies on fake's `FreeEmail`.
#[verifier::external_body]
pub(crate) fn fake_email(rng: &mut StdRng) -> (r: String) {
    FreeEmail().fake_with_rng(rng)
}

/// Relies on fake's `StreetName`.
#[verifier::external_body]
pub(crate) fn fake_street(rng: &mut StdRng) -> (r: String) {
    StreetName().fake_with_rng(rng)
}

/// Relies on fake's `ZipCode`.
#[verifier::external_body]
pub(crate) fn fake_zip_code(rng: &mut StdRng) -> (r: String) {
    ZipCode().fake_with_rng(rng)
}

/// Relies on fake's `CityName`.
#[verifier::external_body]
pub(crate) fn fake_city(rng: &mut StdRng) -> (r: String) {
    CityName().fake_with_rng(rng)
}

/// Relies on fake's `StateAbbr`.
#[verifier::external_body]
pub(crate) fn fake_state(rng: &mut StdRng) -> (r: String) {
    StateAbbr().fake_with_rng(rng)
}

/// Relies on fake's `CountryName`.
#[verifier::external_body]
pub(crate) fn fake_country(rng: &mut StdRng) -> (r: String) {
    CountryName().fake_with_rng(rng)
}

/// Relies on chrono's `Utc::now` and `Datelike::year`: the current calendar year.
#[verifier::external_body]
pub(crate) fn current_year() -> (r: i32) {
    chrono::Utc::now().year()
}

/// Relies on std's `Display` for `i64`: decimal digits, with a minus sign when
/// negative.
#[verifier::external_body]
pub(crate) fn decimal_string(i: i64) -> (r: String)
    ensures
        r@ == signed_decimal(i as int),
{
    i.to_string()
}

/// Relies on std's `String::from_utf8`: ASCII bytes are valid UTF-8, each byte
/// one character.
#[verifier::external_body]
pub(crate) fn ascii_string(bytes: Vec<u8>) -> (r: String)
    requires
        forall|i: int| 0 <= i < bytes@.len() ==> #[trigger] bytes@[i] < 128,
    ensures
        r@ == ascii_chars(bytes@),
{
    String::from_utf8(bytes).unwrap()
}

} // verus!
