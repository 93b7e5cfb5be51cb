//! Fresh identifiers: ULIDs, written in Crockford's base 32.
//!
//! The identifiers are drawn by the `ulid` crate from the clock and a random
//! source. What is stated here is how the 128 bits of one are written, and
//! that the writing tells any two of them apart.

use vstd::prelude::*;
use vstd::arithmetic::div_mod::lemma_basic_div;
use vstd::arithmetic::div_mod::lemma_div_denominator;
use vstd::arithmetic::power::lemma_pow_positive;
use vstd::arithmetic::power::pow;

verus! {

/// The digits of Crockford's base 32, by value.
pub open spec fn crockford_alphabet() -> Seq<char> {
    "0123456789ABCDEFGHJKMNPQRSTVWXYZ"@
}

/// The digit of `value` that counts multiples of `32^place`.
pub open spec fn base32_digit(value: int, place: nat) -> int {
    (value / pow(32, place)) % 32
}

/// The text of a ULID: the 128 bits as 26 digits of Crockford's base 32, most
/// significant first.
pub open spec fn ulid_text(value: u128) -> Seq<char> {
    Seq::new(26, |i: int| crockford_alphabet()[base32_digit(value as int, (25 - i) as nat)])
}

/// Whether `s` has the shape of a ULID's text: 26 digits of Crockford's base 32.
pub open spec fn is_ulid_text(s: Seq<char>) -> bool {
    &&& s.len() == 26
    &&& forall|i: int| 0 <= i < 26 ==> crockford_alphabet().contains(#[trigger] s[i])
}

/// Whether `s` is the text of a ULID.
pub open spec fn is_ulid(s: Seq<char>) -> bool {
    exists|value: u128| s == #[trigger] ulid_text(value)
}

/// The text of every ULID has the shape of one.
pub proof fn lemma_ulid_text_shape(value: u128)
    ensures
        is_ulid_text(ulid_text(value)),
{
    reveal_strlit("0123456789ABCDEFGHJKMNPQRSTVWXYZ");
    let s = ulid_text(value);
    assert forall|i: int| 0 <= i < 26 implies crockford_alphabet().contains(#[trigger] s[i]) by {
        let k = base32_digit(value as int, (25 - i) as nat);
        assert(0 <= k < 32);
        assert(crockford_alphabet()[k] == s[i]);
    }
}

proof fn lemma_alphabet_is_distinct(j: int, k: int)
    requires
        0 <= j < 32,
        0 <= k < 32,
        crockford_alphabet()[j] == crockford_alphabet()[k],
    ensures
        j == k,
{
    reveal_strlit("0123456789ABCDEFGHJKMNPQRSTVWXYZ");
}

proof fn lemma_pow32_step(place: nat)
    ensures
        pow(32, place + 1) == pow(32, place) * 32,
        pow(32, place) > 0,
{
    reveal(pow);
    lemma_pow_positive(32, place);
}

proof fn lemma_u128_has_26_digits(value: u128)
    ensures
        value < pow(32, 26),
{
    reveal(pow);
    reveal_with_fuel(pow, 27);
    assert(pow(32, 26) == 0x4_0000_0000_0000_0000_0000_0000_0000_0000int);
}

proof fn lemma_same_digits_same_quotient(a: int, b: int, place: nat)
    requires
        0 <= a < pow(32, 26),
        0 <= b < pow(32, 26),
        place <= 26,
        forall|p: nat| place <= p < 26 ==> base32_digit(a, p) == base32_digit(b, p),
    ensures
        a / pow(32, place) == b / pow(32, place),
    decreases 26 - place,
{
    if place == 26 {
        lemma_basic_div(a, pow(32, 26));
        lemma_basic_div(b, pow(32, 26));
    } else {
        lemma_same_digits_same_quotient(a, b, place + 1);
        lemma_pow32_step(place);
        let unit = pow(32, place);
        lemma_div_denominator(a, unit, 32);
        lemma_div_denominator(b, unit, 32);
        assert(base32_digit(a, place) == base32_digit(b, place));
        let qa = a / unit;
        let qb = b / unit;
        assert(qa / 32 == qb / 32);
        assert(qa % 32 == qb % 32);
    }
}

/// Two ULIDs that are written alike are the same.
pub proof fn lemma_ulid_text_injective(a: u128, b: u128)
    requires
        ulid_text(a) == ulid_text(b),
    ensures
        a == b,
{
    lemma_u128_has_26_digits(a);
    lemma_u128_has_26_digits(b);
    assert forall|p: nat| 0 <= p < 26 implies base32_digit(a as int, p) == base32_digit(
        b as int,
        p,
    ) by {
        let i = 25 - p;
        assert((25 - i) as nat == p);
        assert(ulid_text(a)[i] == crockford_alphabet()[base32_digit(a as int, p)]);
        assert(ulid_text(b)[i] == crockford_alphabet()[base32_digit(b as int, p)]);
        lemma_alphabet_is_distinct(base32_digit(a as int, p), base32_digit(b as int, p));
    }
    lemma_same_digits_same_quotient(a as int, b as int, 0);
    reveal(pow);
    assert(pow(32, 0) == 1);
}

/// Calls `ulid::Ulid::new` and hands out the 128 bits of the identifier it
/// made. They come from the clock and a random source, so nothing is claimed
/// of them.
#[verifier::external_body]
fn ulid_new() -> (value: u128) {
    ulid::Ulid::new().0
}

/// Calls `ulid::Ulid::to_string` on the identifier with the given bits.
/// Claimed: the result is the 26 digits that the crate's encoder writes, each
/// the alphabet's digit for five bits of the value, from the top down.
#[verifier::external_body]
fn ulid_to_string(value: u128) -> (r: String)
    ensures
        r@ == ulid_text(value),
{
    ulid::Ulid(value).to_string()
}

/// The text of the ULID with the given bits.
pub fn ulid_text_of(value: u128) -> (r: String)
    ensures
        r@ == ulid_text(value),
        is_ulid_text(r@),
{
    proof {
        lemma_ulid_text_shape(value);
    }
    ulid_to_string(value)
}

/// The text of a fresh ULID.
pub fn fresh_ulid_text() -> (r: String)
    ensures
        is_ulid(r@),
        is_ulid_text(r@),
{
    let value = ulid_new();
    ulid_text_of(value)
}

} // verus!
