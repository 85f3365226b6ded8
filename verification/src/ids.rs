//! Agent identifiers: 128-bit UUID values, their canonical text form and
//! their parsing, both done by the `uuid` crate.
use vstd::prelude::*;

verus! {

/// An agent identifier: the 128-bit value of a UUID, most significant byte first.
pub type AgentId = u128;

/// The lowercase hexadecimal digit of `d` (for `d < 16`).
pub open spec fn hex_digit_char(d: nat) -> char {
    if d == 0 { '0' } else if d == 1 { '1' } else if d == 2 { '2' } else if d == 3 { '3' }
    else if d == 4 { '4' } else if d == 5 { '5' } else if d == 6 { '6' } else if d == 7 { '7' }
    else if d == 8 { '8' } else if d == 9 { '9' } else if d == 10 { 'a' } else if d == 11 { 'b' }
    else if d == 12 { 'c' } else if d == 13 { 'd' } else if d == 14 { 'e' } else { 'f' }
}

/// The last `n` hexadecimal digits of `v`, most significant first.
pub open spec fn hex_digits(v: nat, n: nat) -> Seq<char>
    decreases n,
{
    if n == 0 {
        Seq::empty()
    } else {
        hex_digits(v / 16, (n - 1) as nat).push(hex_digit_char(v % 16))
    }
}

/// The canonical hyphenated form of a UUID: 32 lowercase hex digits in
/// groups of 8-4-4-4-12 separated by `-`.
pub open spec fn uuid_hyphenated(id: u128) -> Seq<char> {
    let h = hex_digits(id as nat, 32);
    h.subrange(0, 8) + seq!['-'] + h.subrange(8, 12) + seq!['-'] + h.subrange(12, 16)
        + seq!['-'] + h.subrange(16, 20) + seq!['-'] + h.subrange(20, 32)
}

/// The value of a hexadecimal digit, in either case.
pub open spec fn hex_value_of(c: char) -> Option<nat> {
    if '0' <= c <= '9' {
        Some((c as int - '0' as int) as nat)
    } else if 'a' <= c <= 'f' {
        Some((c as int - 'a' as int + 10) as nat)
    } else if 'A' <= c <= 'F' {
        Some((c as int - 'A' as int + 10) as nat)
    } else {
        None
    }
}

/// The number that a text of hexadecimal digits writes, most significant
/// first, or `None` where a character is no hex digit.
pub open spec fn hex_number(s: Seq<char>) -> Option<nat>
    decreases s.len(),
{
    if s.len() == 0 {
        Some(0)
    } else {
        match (hex_number(s.drop_last()), hex_value_of(s.last())) {
            (Some(v), Some(d)) => Some(v * 16 + d),
            _ => None,
        }
    }
}

/// The UUID that 32 hexadecimal digits write.
pub open spec fn hex_uuid(s: Seq<char>) -> Option<u128> {
    if s.len() == 32 {
        match hex_number(s) {
            Some(v) => Some(v as u128),
            None => None,
        }
    } else {
        None
    }
}

/// The UUID that the hyphenated form writes: 36 characters, `-` at
/// positions 8, 13, 18 and 23, hex digits everywhere else.
pub open spec fn hyphenated_uuid(s: Seq<char>) -> Option<u128> {
    if s.len() == 36 && s[8] == '-' && s[13] == '-' && s[18] == '-' && s[23] == '-' {
        hex_uuid(s.subrange(0, 8) + s.subrange(9, 13) + s.subrange(14, 18) + s.subrange(19, 23) + s.subrange(24, 36))
    } else {
        None
    }
}

/// What `uuid::Uuid::parse_str` makes of a text: 32 hex digits (simple
/// form), the hyphenated form, the hyphenated form in braces, or `urn:uuid:`
/// (in any case) before the hyphenated form; hex digits in either case; any
/// other text is refused.
pub open spec fn uuid_parse_result(text: Seq<char>) -> Option<u128> {
    if text.len() == 32 {
        hex_uuid(text)
    } else if text.len() == 36 {
        hyphenated_uuid(text)
    } else if text.len() == 38 && text[0] == '{' && text[37] == '}' {
        hyphenated_uuid(text.subrange(1, 37))
    } else if text.len() == 45 && text.take(9).map_values(|c: char| crate::keys::ascii_lower(c)) == "urn:uuid:"@ {
        hyphenated_uuid(text.skip(9))
    } else {
        None
    }
}

/// `16` to the power `n`.
pub open spec fn pow16(n: nat) -> nat
    decreases n,
{
    if n == 0 { 1 } else { 16 * pow16((n - 1) as nat) }
}

proof fn lemma_hex_digit_value(d: nat)
    requires
        d < 16,
    ensures
        hex_value_of(hex_digit_char(d)) == Some(d),
{
}

proof fn lemma_hex_digits_value(v: nat, n: nat)
    ensures
        hex_digits(v, n).len() == n,
        hex_number(hex_digits(v, n)) == Some(v % pow16(n)),
    decreases n,
{
    if n == 0 {
        assert(v % 1 == 0);
    } else {
        lemma_hex_digits_value(v / 16, (n - 1) as nat);
        lemma_hex_digit_value(v % 16);
        let h = hex_digits(v, n);
        assert(h.drop_last() =~= hex_digits(v / 16, (n - 1) as nat));
        assert(pow16((n - 1) as nat) > 0) by {
            lemma_pow16_positive((n - 1) as nat);
        }
        vstd::arithmetic::div_mod::lemma_mod_breakdown(v as int, 16, pow16((n - 1) as nat) as int);
    }
}

proof fn lemma_pow16_positive(n: nat)
    ensures
        pow16(n) > 0,
    decreases n,
{
    if n > 0 {
        lemma_pow16_positive((n - 1) as nat);
    }
}

/// The canonical text of every identifier parses back to it.
pub proof fn lemma_uuid_reads_back(id: u128)
    ensures
        uuid_parse_result(uuid_hyphenated(id)) == Some(id),
{
    let h = hex_digits(id as nat, 32);
    lemma_hex_digits_value(id as nat, 32);
    assert(pow16(32) == 0x1_0000_0000_0000_0000_0000_0000_0000_0000nat) by {
        reveal_with_fuel(pow16, 33);
    }
    vstd::arithmetic::div_mod::lemma_small_mod(id as nat, pow16(32));
    let t = uuid_hyphenated(id);
    assert(t.len() == 36);
    assert(t[8] == '-' && t[13] == '-' && t[18] == '-' && t[23] == '-');
    assert(t.subrange(0, 8) + t.subrange(9, 13) + t.subrange(14, 18) + t.subrange(19, 23) + t.subrange(24, 36) =~= h);
}

/// The text of an identifier, by `uuid::Uuid::from_u128(id).to_string()`.
/// Claims that the text is the lowercase hyphenated form, which is what the
/// crate's `Display` implementation (`LowerHex`, hyphenated) writes.
#[verifier::external_body]
pub(crate) fn uuid_to_text(id: AgentId) -> (text: String)
    ensures
        text@ == uuid_hyphenated(id),
{
    uuid::Uuid::from_u128(id).to_string()
}

/// Parses an identifier with `uuid::Uuid::parse_str`, keeping its 128-bit
/// value. Claims that the result is [`uuid_parse_result`] of the text, which
/// writes out the crate's parser: the text's byte length picks the form (32,
/// 36, 38 or 45), every other byte must be a hex digit, a `-`, a brace or the
/// `urn:uuid:` prefix where that form puts it, and the digits give the value
/// most significant first (`Uuid::from_bytes`, then `as_u128`). A text with a
/// non-ASCII character is refused either way, so counting characters in
/// place of bytes changes nothing.
#[verifier::external_body]
pub(crate) fn uuid_parse(text: &str) -> (id: Option<AgentId>)
    ensures
        id == uuid_parse_result(text@),
{
    match uuid::Uuid::parse_str(text) {
        Ok(u) => Some(u.as_u128()),
        Err(_) => None,
    }
}

} // verus!
