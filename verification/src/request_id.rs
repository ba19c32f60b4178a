use vstd::prelude::*;
use vstd::string::StrSliceExecFns;

verus! {

/// A hexadecimal digit, in either case: the code points of '0' to '9',
/// 'a' to 'f' and 'A' to 'F'.
pub open spec fn is_hex_digit_char(c: char) -> bool {
    ||| 48 <= c as u32 <= 57
    ||| 97 <= c as u32 <= 102
    ||| 65 <= c as u32 <= 70
}

/// What a hyphenated UUID demands of the character at one position:
/// a dash at positions 8, 13, 18 and 23, a hexadecimal digit elsewhere.
pub open spec fn uuid_char_ok(s: Seq<char>, i: int) -> bool {
    if i == 8 || i == 13 || i == 18 || i == 23 {
        s[i] == '-'
    } else {
        is_hex_digit_char(s[i])
    }
}

/// A syntactically valid hyphenated UUID: 36 characters in five groups of
/// hexadecimal digits separated by dashes.
pub open spec fn is_uuid_seq(s: Seq<char>) -> bool {
    &&& s.len() == 36
    &&& forall|i: int| 0 <= i < 36 ==> uuid_char_ok(s, i)
}

/// Relies on uuid::Uuid::new_v4 and its Display form: a freshly drawn
/// identifier rendered hyphenated, 36 characters of hexadecimal digits
/// with dashes at positions 8, 13, 18 and 23. The draw is random, so
/// nothing relates two calls.
#[verifier::external_body]
fn fresh_uuid_string() -> (r: String)
    ensures
        is_uuid_seq(r@),
{
    uuid::Uuid::new_v4().to_string()
}

/// The correlation id of one request: the inbound header value when the
/// caller supplied one, else a freshly generated hyphenated UUID.
pub fn resolve_request_id(header_value: Option<String>) -> (r: String)
    ensures
        header_value matches Some(h) ==> r == h,
        header_value is None ==> is_uuid_seq(r@),
{
    match header_value {
        Some(h) => h,
        None => fresh_uuid_string(),
    }
}

/// Decides whether a string is a syntactically valid hyphenated UUID, the
/// shape every generated request id has.
pub fn is_uuid_string(s: &str) -> (r: bool)
    ensures
        r == is_uuid_seq(s@),
{
    let n: usize = s.unicode_len();
    if n != 36 {
        return false;
    }
    let mut i: usize = 0;
    while i < 36
        invariant
            s@.len() == 36,
            0 <= i <= 36,
            forall|j: int| 0 <= j < i ==> uuid_char_ok(s@, j),
        decreases 36 - i,
    {
        let c = s.get_char(i);
        let u: u32 = c as u32;
        let ok: bool = if i == 8 || i == 13 || i == 18 || i == 23 {
            c == '-'
        } else {
            (48 <= u && u <= 57) || (97 <= u && u <= 102) || (65 <= u && u <= 70)
        };
        if !ok {
            assert(!uuid_char_ok(s@, i as int));
            return false;
        }
        i = i + 1;
    }
    true
}

} // verus!
