//! Identifiers: 128-bit values and their textual forms.

use crate::models::{DBError, DBErrorView};
use vstd::arithmetic::div_mod::{lemma_div_denominator, lemma_fundamental_div_mod};
use vstd::prelude::*;
use vstd::string::StrSliceExecFns;

verus! {

/// Whether `c` is one of the characters `0-9`, `a-f`, `A-F`.
pub open spec fn is_hex_digit(c: char) -> bool {
    ('0' <= c && c <= '9') || ('a' <= c && c <= 'f') || ('A' <= c && c <= 'F')
}

/// The number that a hexadecimal digit stands for; 0 for any other character.
pub open spec fn hex_value(c: char) -> nat {
    if '0' <= c && c <= '9' {
        (c as nat - '0' as nat) as nat
    } else if 'a' <= c && c <= 'f' {
        (c as nat - 'a' as nat + 10) as nat
    } else if 'A' <= c && c <= 'F' {
        (c as nat - 'A' as nat + 10) as nat
    } else {
        0
    }
}

/// Whether position `i` of the hyphenated form holds a hyphen.
pub open spec fn is_hyphen_position(i: int) -> bool {
    i == 8 || i == 13 || i == 18 || i == 23
}

/// The simple form: 32 hexadecimal digits.
pub open spec fn is_simple(s: Seq<char>) -> bool {
    &&& s.len() == 32
    &&& forall|i: int| 0 <= i < 32 ==> is_hex_digit(#[trigger] s[i])
}

/// The hyphenated form: 32 hexadecimal digits in groups of 8, 4, 4, 4 and 12,
/// with a hyphen between two groups.
pub open spec fn is_hyphenated(s: Seq<char>) -> bool {
    &&& s.len() == 36
    &&& forall|i: int|
        0 <= i < 36 ==> if is_hyphen_position(i) {
            #[trigger] s[i] == '-'
        } else {
            is_hex_digit(s[i])
        }
}

/// The braced form: the hyphenated form between `{` and `}`.
pub open spec fn is_braced(s: Seq<char>) -> bool {
    &&& s.len() == 38
    &&& s[0] == '{'
    &&& s[37] == '}'
    &&& is_hyphenated(s.subrange(1, 37))
}

/// Whether `c` is the letter `lower`, which is a lower-case letter, in either
/// case.
pub open spec fn is_letter(c: char, lower: char) -> bool {
    c == lower || (c as nat) + 32 == lower as nat
}

/// The URN form: the hyphenated form after `urn:uuid:`, whose letters may be
/// of either case.
pub open spec fn is_urn(s: Seq<char>) -> bool {
    &&& s.len() == 45
    &&& is_letter(s[0], 'u')
    &&& is_letter(s[1], 'r')
    &&& is_letter(s[2], 'n')
    &&& s[3] == ':'
    &&& is_letter(s[4], 'u')
    &&& is_letter(s[5], 'u')
    &&& is_letter(s[6], 'i')
    &&& is_letter(s[7], 'd')
    &&& s[8] == ':'
    &&& is_hyphenated(s.subrange(9, 45))
}

/// The texts that are identifiers: those in the hyphenated form, with digits
/// of either case, and nothing else. A text of another length, with a
/// character that is no digit, or with its hyphens elsewhere is none.
pub open spec fn well_formed(s: Seq<char>) -> bool {
    is_hyphenated(s)
}

/// The texts that the parser of the database driver takes: besides the
/// identifiers, the simple, braced and URN forms.
pub open spec fn parser_accepts(s: Seq<char>) -> bool {
    is_simple(s) || is_hyphenated(s) || is_braced(s) || is_urn(s)
}

/// The 32 digits of a text in the hyphenated form.
pub open spec fn without_hyphens(s: Seq<char>) -> Seq<char> {
    s.subrange(0, 8) + s.subrange(9, 13) + s.subrange(14, 18) + s.subrange(19, 23) + s.subrange(
        24,
        36,
    )
}

/// The 32 digits of a text that the parser of the database driver takes.
pub open spec fn digits_of(s: Seq<char>) -> Seq<char> {
    if s.len() == 32 {
        s
    } else if s.len() == 36 {
        without_hyphens(s)
    } else if s.len() == 38 {
        without_hyphens(s.subrange(1, 37))
    } else {
        without_hyphens(s.subrange(9, 45))
    }
}

/// The number that a sequence of hexadecimal digits writes, the first digit
/// being the most significant.
pub open spec fn hex_number(digits: Seq<char>) -> nat
    decreases digits.len(),
{
    if digits.len() == 0 {
        0
    } else {
        16 * hex_number(digits.drop_last()) + hex_value(digits.last())
    }
}

/// The value of an identifier's text.
pub open spec fn value_of(s: Seq<char>) -> nat {
    hex_number(without_hyphens(s))
}

/// The value that the parser of the database driver gives a text that it
/// takes. For an identifier's text it is the value of the text.
pub open spec fn parsed_value(s: Seq<char>) -> nat {
    hex_number(digits_of(s))
}

/// The lower-case hexadecimal digit for a number below 16.
pub open spec fn hex_digit(n: nat) -> char {
    seq!['0', '1', '2', '3', '4', '5', '6', '7', '8', '9', 'a', 'b', 'c', 'd', 'e', 'f'][n as int]
}

/// 16 to the power `e`.
pub open spec fn pow16(e: nat) -> nat
    decreases e,
{
    if e == 0 {
        1
    } else {
        16 * pow16((e - 1) as nat)
    }
}

/// Digit `k` of the 32 hexadecimal digits of `bits`, digit 0 being the most
/// significant.
pub open spec fn nibble(bits: u128, k: int) -> nat {
    (bits as nat / pow16((31 - k) as nat)) % 16
}

/// The place among the 32 digits of the digit at position `i` of the
/// hyphenated form.
pub open spec fn digit_place(i: int) -> int {
    if i < 8 {
        i
    } else if i < 13 {
        i - 1
    } else if i < 18 {
        i - 2
    } else if i < 23 {
        i - 3
    } else {
        i - 4
    }
}

/// The canonical text of an identifier: the hyphenated form with lower-case
/// digits.
pub open spec fn canonical_text(bits: u128) -> Seq<char> {
    Seq::new(
        36,
        |i: int|
            if is_hyphen_position(i) {
                '-'
            } else {
                hex_digit(nibble(bits, digit_place(i)))
            },
    )
}

/// An identifier of a question or of an answer: a 128-bit value.
#[derive(Clone, Copy, PartialEq, Eq, Debug, Structural)]
pub struct Identifier {
    pub bits: u128,
}

/// `sqlx::types::Uuid::parse_str`, with the value of the parsed identifier
/// taken by `as_u128`. Trusted: the parser accepts exactly the simple,
/// hyphenated, braced and URN forms, with digits of either case, and the
/// value is the number that the 32 digits write, most significant first.
#[verifier::external_body]
fn parse_uuid(raw: &str) -> (parsed: Option<u128>)
    ensures
        parsed is Some <==> parser_accepts(raw@),
        parsed matches Some(bits) ==> bits as nat == parsed_value(raw@),
{
    match sqlx::types::Uuid::parse_str(raw) {
        Ok(uuid) => Some(uuid.as_u128()),
        Err(_) => None,
    }
}

/// `to_string` of `sqlx::types::Uuid`, on the identifier that `from_u128`
/// makes of the value. Trusted: the text is the hyphenated form with
/// lower-case digits.
#[verifier::external_body]
fn format_uuid(bits: u128) -> (text: String)
    ensures
        text@ == canonical_text(bits),
{
    sqlx::types::Uuid::from_u128(bits).to_string()
}

impl Identifier {
    /// Reads an identifier that a client supplied. A text that is not
    /// well-formed is refused with `InvalidUUID`, which carries the text as
    /// it was supplied. The other forms that the parser of the database
    /// driver takes are refused here by their length.
    pub fn parse(raw: String) -> (result: Result<Identifier, DBError>)
        ensures
            match result {
                Ok(id) => well_formed(raw@) && id.bits as nat == value_of(raw@),
                Err(e) => !well_formed(raw@) && e@ == DBErrorView::InvalidUUID(raw@),
            },
    {
        if raw.as_str().unicode_len() != 36 {
            return Err(DBError::InvalidUUID(raw));
        }
        match parse_uuid(raw.as_str()) {
            Some(bits) => Ok(Identifier { bits }),
            None => Err(DBError::InvalidUUID(raw)),
        }
    }

    /// The canonical text of the identifier. It is well-formed, and read
    /// again it gives the same identifier.
    pub fn to_text(&self) -> (text: String)
        ensures
            text@ == canonical_text(self.bits),
            well_formed(text@),
            value_of(text@) == self.bits as nat,
    {
        proof {
            lemma_canonical_text_well_formed(self.bits);
            lemma_canonical_text_value(self.bits);
        }
        format_uuid(self.bits)
    }
}

/// A lower-case hexadecimal digit is a hexadecimal digit, and stands for the
/// number it was made from.
pub proof fn lemma_hex_digit(n: nat)
    requires
        n < 16,
    ensures
        is_hex_digit(hex_digit(n)),
        hex_value(hex_digit(n)) == n,
{
    let digits = seq![
        '0',
        '1',
        '2',
        '3',
        '4',
        '5',
        '6',
        '7',
        '8',
        '9',
        'a',
        'b',
        'c',
        'd',
        'e',
        'f',
    ];
    assert(digits[0] == '0' && digits[1] == '1' && digits[2] == '2' && digits[3] == '3');
    assert(digits[4] == '4' && digits[5] == '5' && digits[6] == '6' && digits[7] == '7');
    assert(digits[8] == '8' && digits[9] == '9' && digits[10] == 'a' && digits[11] == 'b');
    assert(digits[12] == 'c' && digits[13] == 'd' && digits[14] == 'e' && digits[15] == 'f');
}

/// The canonical text of every identifier is in the hyphenated form, and so
/// is well-formed.
pub proof fn lemma_canonical_text_well_formed(bits: u128)
    ensures
        is_hyphenated(canonical_text(bits)),
        well_formed(canonical_text(bits)),
{
    let text = canonical_text(bits);
    assert forall|i: int| 0 <= i < 36 implies if is_hyphen_position(i) {
        #[trigger] text[i] == '-'
    } else {
        is_hex_digit(text[i])
    } by {
        if !is_hyphen_position(i) {
            lemma_hex_digit(nibble(bits, digit_place(i)));
        }
    }
}

/// The digits of the canonical text, from the most significant on, write
/// the identifier's value without what is below them.
proof fn lemma_leading_digits(bits: u128, k: nat)
    requires
        k <= 32,
    ensures
        hex_number(without_hyphens(canonical_text(bits)).take(k as int)) == bits as nat / pow16(
            (32 - k) as nat,
        ),
    decreases k,
{
    let digits = without_hyphens(canonical_text(bits));
    assert(digits.len() == 32);
    if k == 0 {
        reveal_with_fuel(pow16, 33);
        assert(pow16(32) == 0x1_0000_0000_0000_0000_0000_0000_0000_0000);
        assert(bits as nat / pow16(32) == 0);
    } else {
        let place = (k - 1) as int;
        lemma_leading_digits(bits, (k - 1) as nat);
        assert(digits.take(k as int).drop_last() =~= digits.take(place));
        assert(digits.take(k as int).last() == digits[place]);
        assert(digits[place] == hex_digit(nibble(bits, place)));
        lemma_hex_digit(nibble(bits, place));
        let unit = pow16((31 - place) as nat);
        lemma_pow16_positive((31 - place) as nat);
        assert(pow16((32 - place) as nat) == 16 * unit);
        let upper = bits as nat / unit;
        lemma_div_denominator(bits as int, unit as int, 16);
        assert(unit * 16 == 16 * unit) by (nonlinear_arith);
        assert(bits as nat / pow16((32 - place) as nat) == upper / 16);
        lemma_fundamental_div_mod(upper as int, 16);
    }
}

/// A sequence of digits writes a number below 16 to the power of its length.
proof fn lemma_hex_number_bound(digits: Seq<char>)
    ensures
        hex_number(digits) < pow16(digits.len()),
    decreases digits.len(),
{
    if digits.len() > 0 {
        lemma_hex_number_bound(digits.drop_last());
        assert(hex_value(digits.last()) < 16);
    }
}

/// The value of an identifier's text fits in 128 bits.
pub proof fn lemma_value_fits(s: Seq<char>)
    requires
        well_formed(s),
    ensures
        value_of(s) <= u128::MAX,
{
    lemma_hex_number_bound(without_hyphens(s));
    assert(without_hyphens(s).len() == 32);
    reveal_with_fuel(pow16, 33);
    assert(pow16(32) == 0x1_0000_0000_0000_0000_0000_0000_0000_0000);
}

/// Every power of 16 is positive.
proof fn lemma_pow16_positive(e: nat)
    ensures
        pow16(e) > 0,
    decreases e,
{
    if e > 0 {
        lemma_pow16_positive((e - 1) as nat);
    }
}

/// The value of the canonical text of an identifier is the identifier: a
/// text that was written from an identifier is read as the same identifier.
pub proof fn lemma_canonical_text_value(bits: u128)
    ensures
        value_of(canonical_text(bits)) == bits as nat,
{
    let digits = without_hyphens(canonical_text(bits));
    lemma_leading_digits(bits, 32);
    assert(digits.take(32) =~= digits);
    assert(pow16(0) == 1);
    assert(bits as nat / 1 == bits as nat);
}

/// Two identifiers with the same canonical text are the same.
pub proof fn lemma_canonical_text_injective(a: u128, b: u128)
    requires
        canonical_text(a) == canonical_text(b),
    ensures
        a == b,
{
    lemma_canonical_text_value(a);
    lemma_canonical_text_value(b);
}

/// A lower-case hexadecimal digit is the digit for the number it stands for.
pub proof fn lemma_hex_value_digit(c: char)
    requires
        ('0' <= c && c <= '9') || ('a' <= c && c <= 'f'),
    ensures
        hex_value(c) < 16,
        hex_digit(hex_value(c)) == c,
{
    lemma_hex_digit(hex_value(c));
    if c == '0' {
    } else if c == '1' {
    } else if c == '2' {
    } else if c == '3' {
    } else if c == '4' {
    } else if c == '5' {
    } else if c == '6' {
    } else if c == '7' {
    } else if c == '8' {
    } else if c == '9' {
    } else if c == 'a' {
    } else if c == 'b' {
    } else if c == 'c' {
    } else if c == 'd' {
    } else if c == 'e' {
    } else {
        assert(c == 'f');
    }
}

/// Digit `k` of a sequence of digits is digit `k` of the number that the
/// sequence writes.
proof fn lemma_hex_number_digit(digits: Seq<char>, k: int)
    requires
        0 <= k < digits.len(),
    ensures
        (hex_number(digits) / pow16((digits.len() - 1 - k) as nat)) % 16 == hex_value(digits[k]),
    decreases digits.len(),
{
    let rest = digits.drop_last();
    let low = hex_value(digits.last());
    assert(low < 16);
    assert(hex_number(digits) == 16 * hex_number(rest) + low);
    let number = hex_number(digits);
    if k == digits.len() - 1 {
        assert(pow16(0) == 1);
        assert(number / 1 == number);
        assert(number % 16 == low);
    } else {
        lemma_hex_number_digit(rest, k);
        let unit = pow16((rest.len() - 1 - k) as nat);
        lemma_pow16_positive((rest.len() - 1 - k) as nat);
        assert(pow16((digits.len() - 1 - k) as nat) == 16 * unit);
        lemma_div_denominator(number as int, 16, unit as int);
        assert(number / 16 == hex_number(rest));
        assert((number / 16) / unit == number / (16 * unit));
        assert(rest[k] == digits[k]);
    }
}

/// Whether no digit of `s` is an upper-case letter.
pub open spec fn is_lower_case(s: Seq<char>) -> bool {
    forall|i: int| 0 <= i < s.len() ==> !('A' <= #[trigger] s[i] && s[i] <= 'F')
}

/// The canonical text of the value of an identifier's text in lower case is
/// that text: an identifier that was read from its canonical text is written
/// as the same text.
pub proof fn lemma_value_canonical_text(s: Seq<char>)
    requires
        well_formed(s),
        is_lower_case(s),
    ensures
        value_of(s) <= u128::MAX,
        canonical_text(value_of(s) as u128) == s,
{
    lemma_value_fits(s);
    let bits = value_of(s) as u128;
    let digits = without_hyphens(s);
    assert forall|i: int| 0 <= i < 36 implies canonical_text(bits)[i] == s[i] by {
        if !is_hyphen_position(i) {
            let k = digit_place(i);
            lemma_hex_number_digit(digits, k);
            assert(digits[k] == s[i]);
            assert(is_hex_digit(s[i]));
            lemma_hex_value_digit(s[i]);
        }
    }
    assert(canonical_text(bits) =~= s);
}

} // verus!
