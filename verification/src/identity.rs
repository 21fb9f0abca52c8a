//! Identities: opaque 128-bit tokens that name staging slots, files and tag templates, with
//! the text form under which they appear in paths, queries and messages.

use vstd::prelude::*;

verus! {

/// The lower-case hexadecimal digit for a value below sixteen.
pub open spec fn hex_digit(value: int) -> char {
    "0123456789abcdef"@[value]
}

/// The hexadecimal digit of `id` at place `k`, counted from the most significant, of 32.
pub open spec fn hex_place(id: u128, k: int) -> int {
    ((id >> ((4 * (31 - k)) as u128)) & 0xf) as int
}

/// How many hyphens stand before position `i` of the canonical text.
pub open spec fn hyphens_before(i: int) -> int {
    if i < 8 {
        0
    } else if i < 13 {
        1
    } else if i < 18 {
        2
    } else if i < 23 {
        3
    } else {
        4
    }
}

/// The canonical text of an identity: its 32 hexadecimal digits in lower case, most
/// significant first, in groups of 8, 4, 4, 4 and 12 with a hyphen between groups.
pub open spec fn canonical_text(id: u128) -> Seq<char> {
    Seq::new(
        36,
        |i: int|
            if i == 8 || i == 13 || i == 18 || i == 23 {
                '-'
            } else {
                hex_digit(hex_place(id, i - hyphens_before(i)))
            },
    )
}

/// The identity that `uuid::Uuid::parse_str` reads from a text, as a number with the first
/// byte most significant; `None` where it rejects the text.
pub uninterp spec fn parsed_identity(text: Seq<char>) -> Option<u128>;

/// Calls `uuid::Uuid::from_u128` and formats the value with its `Display`, which writes the
/// hyphenated lower-case form.
#[verifier::external_body]
pub(crate) fn uuid_text(id: u128) -> (text: String)
    ensures
        text@ == canonical_text(id),
{
    uuid::Uuid::from_u128(id).to_string()
}

/// Calls `uuid::Uuid::parse_str` and takes the value of the result with `as_u128`. The
/// parser takes the plain, hyphenated, braced and `urn:uuid:` spellings, in either case of
/// the letters.
#[verifier::external_body]
pub(crate) fn uuid_parse(text: &str) -> (id: Option<u128>)
    ensures
        id == parsed_identity(text@),
{
    match uuid::Uuid::parse_str(text) {
        Ok(value) => Some(value.as_u128()),
        Err(_) => None,
    }
}

/// Two values below sixteen with the same hexadecimal digit are the same value.
proof fn lemma_hex_digit_is_unique(first: int, second: int)
    requires
        0 <= first < 16,
        0 <= second < 16,
        hex_digit(first) == hex_digit(second),
    ensures
        first == second,
{
    reveal_strlit("0123456789abcdef");
    let digits = "0123456789abcdef"@;
    assert(digits.len() == 16);
    assert(digits[0] == '0' && digits[1] == '1' && digits[2] == '2' && digits[3] == '3');
    assert(digits[4] == '4' && digits[5] == '5' && digits[6] == '6' && digits[7] == '7');
    assert(digits[8] == '8' && digits[9] == '9' && digits[10] == 'a' && digits[11] == 'b');
    assert(digits[12] == 'c' && digits[13] == 'd' && digits[14] == 'e' && digits[15] == 'f');
}

/// A canonical text begins with a digit, never with a slash: as a name below a directory it
/// is never taken for an absolute path.
pub proof fn lemma_canonical_text_is_relative(id: u128)
    ensures
        canonical_text(id).len() == 36,
        canonical_text(id)[0] != '/',
{
    reveal_strlit("0123456789abcdef");
    let digits = "0123456789abcdef"@;
    assert(0 <= (id >> 124) & 0xf < 16) by (bit_vector);
    assert(canonical_text(id)[0] == digits[hex_place(id, 0)]);
    assert(digits[0] == '0' && digits[1] == '1' && digits[2] == '2' && digits[3] == '3');
    assert(digits[4] == '4' && digits[5] == '5' && digits[6] == '6' && digits[7] == '7');
    assert(digits[8] == '8' && digits[9] == '9' && digits[10] == 'a' && digits[11] == 'b');
    assert(digits[12] == 'c' && digits[13] == 'd' && digits[14] == 'e' && digits[15] == 'f');
}

/// Two identities with the same digit at place `k` of their canonical texts have the same
/// four bits there.
proof fn lemma_same_digit_same_bits(first: u128, second: u128, k: int)
    requires
        0 <= k < 32,
        canonical_text(first) == canonical_text(second),
    ensures
        hex_place(first, k) == hex_place(second, k),
{
    let at = k + if k < 8 {
        0int
    } else if k < 12 {
        1int
    } else if k < 16 {
        2int
    } else if k < 20 {
        3int
    } else {
        4int
    };
    assert(canonical_text(first)[at] == hex_digit(hex_place(first, k)));
    assert(canonical_text(second)[at] == hex_digit(hex_place(second, k)));
    let shift = (4 * (31 - k)) as u128;
    assert(0 <= (first >> shift) & 0xf < 16 && 0 <= (second >> shift) & 0xf < 16)
        by (bit_vector);
    lemma_hex_digit_is_unique(hex_place(first, k), hex_place(second, k));
}

/// No two identities share a canonical text: objects that are named by the canonical text
/// of their identities never collide.
pub proof fn lemma_canonical_text_is_unique(first: u128, second: u128)
    requires
        canonical_text(first) == canonical_text(second),
    ensures
        first == second,
{
    assert forall|k: int| 0 <= k < 32 implies hex_place(first, k) == hex_place(second, k) by {
        lemma_same_digit_same_bits(first, second, k);
    }
    assert(hex_place(first, 0) == hex_place(second, 0));
    assert(hex_place(first, 1) == hex_place(second, 1));
    assert(hex_place(first, 2) == hex_place(second, 2));
    assert(hex_place(first, 3) == hex_place(second, 3));
    assert(hex_place(first, 4) == hex_place(second, 4));
    assert(hex_place(first, 5) == hex_place(second, 5));
    assert(hex_place(first, 6) == hex_place(second, 6));
    assert(hex_place(first, 7) == hex_place(second, 7));
    assert(hex_place(first, 8) == hex_place(second, 8));
    assert(hex_place(first, 9) == hex_place(second, 9));
    assert(hex_place(first, 10) == hex_place(second, 10));
    assert(hex_place(first, 11) == hex_place(second, 11));
    assert(hex_place(first, 12) == hex_place(second, 12));
    assert(hex_place(first, 13) == hex_place(second, 13));
    assert(hex_place(first, 14) == hex_place(second, 14));
    assert(hex_place(first, 15) == hex_place(second, 15));
    assert(hex_place(first, 16) == hex_place(second, 16));
    assert(hex_place(first, 17) == hex_place(second, 17));
    assert(hex_place(first, 18) == hex_place(second, 18));
    assert(hex_place(first, 19) == hex_place(second, 19));
    assert(hex_place(first, 20) == hex_place(second, 20));
    assert(hex_place(first, 21) == hex_place(second, 21));
    assert(hex_place(first, 22) == hex_place(second, 22));
    assert(hex_place(first, 23) == hex_place(second, 23));
    assert(hex_place(first, 24) == hex_place(second, 24));
    assert(hex_place(first, 25) == hex_place(second, 25));
    assert(hex_place(first, 26) == hex_place(second, 26));
    assert(hex_place(first, 27) == hex_place(second, 27));
    assert(hex_place(first, 28) == hex_place(second, 28));
    assert(hex_place(first, 29) == hex_place(second, 29));
    assert(hex_place(first, 30) == hex_place(second, 30));
    assert(hex_place(first, 31) == hex_place(second, 31));
    assert(first == second) by (bit_vector)
        requires
            (first >> 124) & 0xf == (second >> 124) & 0xf,
            (first >> 120) & 0xf == (second >> 120) & 0xf,
            (first >> 116) & 0xf == (second >> 116) & 0xf,
            (first >> 112) & 0xf == (second >> 112) & 0xf,
            (first >> 108) & 0xf == (second >> 108) & 0xf,
            (first >> 104) & 0xf == (second >> 104) & 0xf,
            (first >> 100) & 0xf == (second >> 100) & 0xf,
            (first >> 96) & 0xf == (second >> 96) & 0xf,
            (first >> 92) & 0xf == (second >> 92) & 0xf,
            (first >> 88) & 0xf == (second >> 88) & 0xf,
            (first >> 84) & 0xf == (second >> 84) & 0xf,
            (first >> 80) & 0xf == (second >> 80) & 0xf,
            (first >> 76) & 0xf == (second >> 76) & 0xf,
            (first >> 72) & 0xf == (second >> 72) & 0xf,
            (first >> 68) & 0xf == (second >> 68) & 0xf,
            (first >> 64) & 0xf == (second >> 64) & 0xf,
            (first >> 60) & 0xf == (second >> 60) & 0xf,
            (first >> 56) & 0xf == (second >> 56) & 0xf,
            (first >> 52) & 0xf == (second >> 52) & 0xf,
            (first >> 48) & 0xf == (second >> 48) & 0xf,
            (first >> 44) & 0xf == (second >> 44) & 0xf,
            (first >> 40) & 0xf == (second >> 40) & 0xf,
            (first >> 36) & 0xf == (second >> 36) & 0xf,
            (first >> 32) & 0xf == (second >> 32) & 0xf,
            (first >> 28) & 0xf == (second >> 28) & 0xf,
            (first >> 24) & 0xf == (second >> 24) & 0xf,
            (first >> 20) & 0xf == (second >> 20) & 0xf,
            (first >> 16) & 0xf == (second >> 16) & 0xf,
            (first >> 12) & 0xf == (second >> 12) & 0xf,
            (first >> 8) & 0xf == (second >> 8) & 0xf,
            (first >> 4) & 0xf == (second >> 4) & 0xf,
            (first >> 0) & 0xf == (second >> 0) & 0xf,
    ;
}

} // verus!
