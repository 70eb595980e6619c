//! The smartcard PIN: an 8-digit, zero-padded decimal string drawn from a
//! ChaCha20 generator seeded from the operating system's entropy source.
//!
//! The draw itself is an outside call; everything after it — the range of
//! the drawn number and its rendering as exactly eight decimal digits — is
//! verified.

use vstd::prelude::*;

verus! {

/// Declares `rand_chacha`'s ChaCha20 generator so it can stand in
/// signatures; the value is opaque and only carried through.
#[verifier::external_type_specification]
#[verifier::external_body]
pub struct ExChaCha20Rng(rand_chacha::ChaCha20Rng);

/// Relies on `rand_core::SeedableRng::from_entropy`: returns a generator
/// seeded from the OS entropy source.  Nothing is promised of the seed.
/// Panics only if the OS entropy source itself fails.
#[verifier::external_body]
pub fn entropy_seeded_rng() -> rand_chacha::ChaCha20Rng {
    <rand_chacha::ChaCha20Rng as rand::SeedableRng>::from_entropy()
}

/// The PIN value space: eight decimal digits.
pub const PIN_MODULUS: u32 = 100000000;

/// Relies on `rand::Rng::gen_range` over the non-empty range
/// `0..=99999999`: the sample lies in the range.  Which value comes back is
/// random, so nothing more is stated.
#[verifier::external_body]
pub fn draw_pin_number(rng: &mut rand_chacha::ChaCha20Rng) -> (n: u32)
    ensures
        n < PIN_MODULUS,
{
    rand::Rng::gen_range(rng, 0u32..=99999999u32)
}

/// The character for one decimal digit.
pub open spec fn digit_char(d: int) -> char {
    if d == 0 { '0' }
    else if d == 1 { '1' }
    else if d == 2 { '2' }
    else if d == 3 { '3' }
    else if d == 4 { '4' }
    else if d == 5 { '5' }
    else if d == 6 { '6' }
    else if d == 7 { '7' }
    else if d == 8 { '8' }
    else { '9' }
}

/// The eight characters of `n` written in decimal, zero-padded on the left.
pub open spec fn pin_seq(n: int) -> Seq<char> {
    seq![
        digit_char((n / 10000000) % 10),
        digit_char((n / 1000000) % 10),
        digit_char((n / 100000) % 10),
        digit_char((n / 10000) % 10),
        digit_char((n / 1000) % 10),
        digit_char((n / 100) % 10),
        digit_char((n / 10) % 10),
        digit_char(n % 10),
    ]
}

/// A well-formed PIN: exactly eight characters, each a decimal digit.
pub open spec fn is_pin(s: Seq<char>) -> bool {
    s.len() == 8 && forall|i: int| 0 <= i < 8 ==> '0' <= s[i] && s[i] <= '9'
}

/// Every rendered PIN is eight decimal digits.
pub proof fn lemma_pin_seq_is_pin(n: int)
    ensures
        is_pin(pin_seq(n)),
{
    assert forall|i: int| 0 <= i < 8 implies '0' <= pin_seq(n)[i] && pin_seq(n)[i] <= '9' by {
        let s = pin_seq(n);
        assert('0' <= s[0] && s[0] <= '9');
        assert('0' <= s[1] && s[1] <= '9');
        assert('0' <= s[2] && s[2] <= '9');
        assert('0' <= s[3] && s[3] <= '9');
        assert('0' <= s[4] && s[4] <= '9');
        assert('0' <= s[5] && s[5] <= '9');
        assert('0' <= s[6] && s[6] <= '9');
        assert('0' <= s[7] && s[7] <= '9');
    }
}

/// One digit as a one-character string.
fn digit_str(d: u32) -> (s: &'static str)
    requires
        d < 10,
    ensures
        s@.len() == 1,
        s@[0] == digit_char(d as int),
{
    if d == 0 { proof { reveal_strlit("0"); } "0" }
    else if d == 1 { proof { reveal_strlit("1"); } "1" }
    else if d == 2 { proof { reveal_strlit("2"); } "2" }
    else if d == 3 { proof { reveal_strlit("3"); } "3" }
    else if d == 4 { proof { reveal_strlit("4"); } "4" }
    else if d == 5 { proof { reveal_strlit("5"); } "5" }
    else if d == 6 { proof { reveal_strlit("6"); } "6" }
    else if d == 7 { proof { reveal_strlit("7"); } "7" }
    else if d == 8 { proof { reveal_strlit("8"); } "8" }
    else { proof { reveal_strlit("9"); } "9" }
}

/// Renders `n` as its eight-digit, zero-padded decimal string.
pub fn format_pin(n: u32) -> (pin: String)
    requires
        n < PIN_MODULUS,
    ensures
        pin@ == pin_seq(n as int),
        is_pin(pin@),
{
    let mut pin = String::new();
    pin.append(digit_str((n / 10000000) % 10));
    pin.append(digit_str((n / 1000000) % 10));
    pin.append(digit_str((n / 100000) % 10));
    pin.append(digit_str((n / 10000) % 10));
    pin.append(digit_str((n / 1000) % 10));
    pin.append(digit_str((n / 100) % 10));
    pin.append(digit_str((n / 10) % 10));
    pin.append(digit_str(n % 10));
    proof {
        assert(pin@ =~= pin_seq(n as int));
        lemma_pin_seq_is_pin(n as int);
    }
    pin
}

/// Draws a fresh PIN: eight decimal digits, zero-padded.
pub fn generate_pin(rng: &mut rand_chacha::ChaCha20Rng) -> (pin: String)
    ensures
        is_pin(pin@),
        exists|n: int| 0 <= n < PIN_MODULUS && pin@ == pin_seq(n),
{
    let n = draw_pin_number(rng);
    let pin = format_pin(n);
    proof {
        assert(0 <= (n as int) && (n as int) < PIN_MODULUS && pin@ == pin_seq(n as int));
    }
    pin
}

} // verus!
