use vstd::prelude::*;
use vstd::string::StrSliceExecFns;

verus! {

/// Number of characters in a hyphenated identifier.
pub const ID_LEN: usize = 36;

/// A lower-case hexadecimal digit.
pub open spec fn is_hex_lower(c: char) -> bool {
    ('0' <= c && c <= '9') || ('a' <= c && c <= 'f')
}

/// Positions of the four hyphens in the canonical hyphenated form.
pub open spec fn is_hyphen_pos(i: int) -> bool {
    i == 8 || i == 13 || i == 18 || i == 23
}

/// The canonical lower-case hyphenated text of a random (version 4,
/// RFC 4122 variant) 128-bit identifier: `xxxxxxxx-xxxx-4xxx-Vxxx-xxxxxxxxxxxx`
/// with `V` one of `8`, `9`, `a`, `b`.
pub open spec fn is_uuid_text(s: Seq<char>) -> bool {
    &&& s.len() == 36
    &&& forall|i: int| 0 <= i < 36 ==> (if is_hyphen_pos(i) {
        #[trigger] s[i] == '-'
    } else {
        is_hex_lower(s[i])
    })
    &&& s[14] == '4'
    &&& (s[19] == '8' || s[19] == '9' || s[19] == 'a' || s[19] == 'b')
}

/// Whether the character at position `i` of an identifier is acceptable.
pub open spec fn char_ok_at(i: int, c: char) -> bool {
    if is_hyphen_pos(i) {
        c == '-'
    } else if i == 14 {
        c == '4'
    } else if i == 19 {
        c == '8' || c == '9' || c == 'a' || c == 'b'
    } else {
        is_hex_lower(c)
    }
}

/// Relies on uuid::Uuid::new_v4 and its `Display` impl: a random version-4
/// identifier, written as 32 lower-case hex digits in groups of 8-4-4-4-12
/// with the version nibble `4` and the variant nibble in `8..=b`. It panics
/// only where the operating system hands out no random bytes.
#[verifier::external_body]
pub(crate) fn new_v4_text() -> (r: String)
    ensures
        is_uuid_text(r@),
{
    uuid::Uuid::new_v4().hyphenated().to_string()
}

/// Whether `s` is the canonical hyphenated text of a random identifier.
pub fn is_valid_id(s: &str) -> (r: bool)
    ensures
        r == is_uuid_text(s@),
{
    let n = s.unicode_len();
    if n != ID_LEN {
        return false;
    }
    let mut i: usize = 0;
    while i < ID_LEN
        invariant
            n == ID_LEN,
            s@.len() == 36,
            0 <= i <= 36,
            forall|j: int| 0 <= j < i ==> char_ok_at(j, #[trigger] s@[j]),
        decreases 36 - i,
    {
        let c = s.get_char(i);
        let ok = if i == 8 || i == 13 || i == 18 || i == 23 {
            c == '-'
        } else if i == 14 {
            c == '4'
        } else if i == 19 {
            c == '8' || c == '9' || c == 'a' || c == 'b'
        } else {
            ('0' <= c && c <= '9') || ('a' <= c && c <= 'f')
        };
        if !ok {
            assert(!char_ok_at(i as int, s@[i as int]));
            return false;
        }
        i = i + 1;
    }
    assert(forall|j: int| 0 <= j < 36 ==> char_ok_at(j, #[trigger] s@[j]));
    true
}

} // verus!
