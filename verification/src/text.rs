//! Turning bytes into text.
use vstd::prelude::*;

verus! {

/// The text of a byte string, with invalid UTF-8 replaced, as
/// `String::from_utf8_lossy` produces it.
pub uninterp spec fn utf8_lossy(bytes: Seq<u8>) -> Seq<char>;

/// Whether every byte is ASCII.
pub open spec fn all_ascii(bytes: Seq<u8>) -> bool {
    forall|i: int| 0 <= i < bytes.len() ==> bytes[i] < 0x80
}

/// The characters an ASCII byte string spells, one per byte.
pub open spec fn ascii_chars(bytes: Seq<u8>) -> Seq<char> {
    bytes.map_values(|b: u8| b as char)
}

/// `String::from_utf8_lossy`, owned.
///
/// Its documentation promises that valid UTF-8 comes through unchanged; ASCII is
/// valid UTF-8 with one character per byte, so that case is stated. What it makes of
/// other bytes is left to the name.
#[verifier::external_body]
pub(crate) fn lossy_text(bytes: &[u8]) -> (r: String)
    ensures
        r@ == utf8_lossy(bytes@),
        all_ascii(bytes@) ==> r@ == ascii_chars(bytes@),
{
    String::from_utf8_lossy(bytes).into_owned()
}

/// An upper-case hexadecimal digit.
pub open spec fn hex_digit(n: u8) -> u8 {
    if n < 10 {
        (0x30 + n) as u8
    } else {
        (0x41 + n - 10) as u8
    }
}

/// The decimal digits of `n`, most significant first, as ASCII.
pub open spec fn decimal_digits(n: nat) -> Seq<u8>
    decreases n,
{
    if n < 10 {
        seq![(0x30 + n) as u8]
    } else {
        decimal_digits(n / 10).push((0x30 + n % 10) as u8)
    }
}

/// Decimal digits are ASCII.
pub proof fn lemma_decimal_ascii(n: nat)
    ensures
        all_ascii(decimal_digits(n)),
    decreases n,
{
    if n >= 10 {
        lemma_decimal_ascii(n / 10);
    }
}

/// One upper-case hexadecimal digit.
pub fn hex_digit_of(n: u8) -> (r: u8)
    requires
        n < 16,
    ensures
        r == hex_digit(n),
        r < 0x80,
{
    if n < 10 {
        0x30 + n
    } else {
        0x41 + n - 10
    }
}

/// Appends the decimal digits of `n`.
fn push_decimal(n: usize, out: &mut Vec<u8>)
    ensures
        final(out)@ == old(out)@ + decimal_digits(n as nat),
    decreases n,
{
    if n >= 10 {
        push_decimal(n / 10, out);
    }
    out.push(0x30 + (n % 10) as u8);
}

/// `n` in decimal.
pub fn decimal_text(n: usize) -> (r: String)
    ensures
        r@ == ascii_chars(decimal_digits(n as nat)),
{
    let mut digits: Vec<u8> = Vec::new();
    push_decimal(n, &mut digits);
    proof {
        assert(digits@ =~= decimal_digits(n as nat));
        lemma_decimal_ascii(n as nat);
    }
    lossy_text(digits.as_slice())
}

/// `byte` as two upper-case hexadecimal digits.
pub fn hex_byte_text(byte: u8) -> (r: String)
    ensures
        r@ == ascii_chars(seq![hex_digit(byte / 16), hex_digit(byte % 16)]),
{
    let digits = vec![hex_digit_of(byte / 16), hex_digit_of(byte % 16)];
    proof {
        assert(digits@ =~= seq![hex_digit(byte / 16), hex_digit(byte % 16)]);
    }
    lossy_text(digits.as_slice())
}


/// The four upper-case hexadecimal digits of `word`, most significant first.
pub open spec fn hex_word_digits(word: u16) -> Seq<u8> {
    seq![
        hex_digit((word / 0x1000) as u8),
        hex_digit((word / 0x100 % 16) as u8),
        hex_digit((word / 16 % 16) as u8),
        hex_digit((word % 16) as u8),
    ]
}

/// `word` as four upper-case hexadecimal digits.
pub fn hex_word_text(word: u16) -> (r: String)
    ensures
        r@ == ascii_chars(hex_word_digits(word)),
{
    let digits = vec![
        hex_digit_of((word / 0x1000) as u8),
        hex_digit_of((word / 0x100 % 16) as u8),
        hex_digit_of((word / 16 % 16) as u8),
        hex_digit_of((word % 16) as u8),
    ];
    proof {
        assert(digits@ =~= hex_word_digits(word));
    }
    lossy_text(digits.as_slice())
}

} // verus!
