//! Message and entity ids: 128-bit UUIDs, held as plain `u128` values.
use vstd::prelude::*;

verus! {

/// A version 4 (random) UUID: version nibble 4 and the RFC 4122 variant bits.
pub open spec fn is_random_id(id: u128) -> bool {
    &&& (id >> 76u128) & 0xfu128 == 4u128
    &&& (id >> 62u128) & 0x3u128 == 2u128
}

/// The lowercase hexadecimal digit for a value below sixteen.
pub open spec fn hex_char(d: u128) -> char {
    if d < 10 {
        (d + 48) as char
    } else {
        (d + 87) as char
    }
}

/// The `n` lowest hexadecimal digits of `v`, most significant first.
pub open spec fn hex_digits(v: u128, n: nat) -> Seq<char>
    decreases n,
{
    if n == 0 {
        Seq::empty()
    } else {
        hex_digits(v / 16, (n - 1) as nat).push(hex_char(v % 16))
    }
}

/// The hyphenated text of an id: 32 lowercase hex digits in groups 8-4-4-4-12.
pub open spec fn hyphenated(id: u128) -> Seq<char> {
    let d = hex_digits(id, 32);
    d.subrange(0, 8) + seq!['-'] + d.subrange(8, 12) + seq!['-'] + d.subrange(12, 16)
        + seq!['-'] + d.subrange(16, 20) + seq!['-'] + d.subrange(20, 32)
}

/// The id that `uuid::Uuid::parse_str` reads from a text, if it reads one.
pub uninterp spec fn uuid_from_text(text: Seq<char>) -> Option<u128>;

/// Draws a fresh id with `uuid::Uuid::new_v4`, read back as a `u128` with
/// `as_u128`. The id is random: the claim is only that every id it gives is
/// a version 4 id, which the source of `new_v4` sets by masking. (`new_v4`
/// panics if the operating system cannot supply random bytes.)
#[verifier::external_body]
pub(crate) fn fresh_id() -> (id: u128)
    ensures
        is_random_id(id),
{
    uuid::Uuid::new_v4().as_u128()
}

/// Reads an id from text with `uuid::Uuid::parse_str` (simple, hyphenated,
/// braced or URN form). The claim is that the answer is the named result
/// `uuid_from_text` of the text: the same text always reads the same way.
#[verifier::external_body]
pub(crate) fn parse_id(text: &str) -> (id: Option<u128>)
    ensures
        id == uuid_from_text(text@),
{
    match uuid::Uuid::parse_str(text) {
        Ok(uuid) => Some(uuid.as_u128()),
        Err(_) => None,
    }
}

/// Writes an id as text with `uuid::Uuid::from_u128` and its `Display`, which
/// writes the lowercase hyphenated form (`fmt.rs` of the uuid crate). The
/// claim is that form, and that `uuid::Uuid::parse_str` reads the text back
/// as the same id, as the uuid crate documents of its hyphenated form.
#[verifier::external_body]
pub(crate) fn id_text(id: u128) -> (text: String)
    ensures
        text@ == hyphenated(id),
        uuid_from_text(text@) == Some(id),
{
    uuid::Uuid::from_u128(id).to_string()
}

/// The nil id (all bits zero), as `uuid::Uuid::nil` gives it.
pub fn nil_id() -> (id: u128)
    ensures
        id == 0,
{
    0
}

} // verus!
