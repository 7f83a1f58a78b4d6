//! Fresh names and clock readings: random file names for temporary files,
//! and the local time stamps recorded in the history.
use vstd::prelude::*;

verus! {

/// A lowercase hexadecimal digit.
pub open spec fn is_hex_lower(c: char) -> bool {
    ('0' <= c <= '9') || ('a' <= c <= 'f')
}

/// The lowercase hyphenated text of a random (version 4, RFC 4122 variant)
/// UUID: 36 characters, hyphens at 8, 13, 18 and 23, hexadecimal digits
/// elsewhere, the version digit `4` at 14 and the variant digit at 19.
pub open spec fn is_uuid_v4_text(s: Seq<char>) -> bool {
    &&& s.len() == 36
    &&& forall|i: int| 0 <= i < 36 ==> if i == 8 || i == 13 || i == 18 || i == 23 {
        #[trigger] s[i] == '-'
    } else {
        is_hex_lower(s[i])
    }
    &&& s[14] == '4'
    &&& (s[19] == '8' || s[19] == '9' || s[19] == 'a' || s[19] == 'b')
}

/// A new random UUID in text form (`uuid::Uuid::new_v4().to_string()`).
/// Which UUID comes back is left open; its text form is as stated.
#[verifier::external_body]
fn new_uuid_text() -> (s: String)
    ensures
        is_uuid_v4_text(s@),
{
    uuid::Uuid::new_v4().to_string()
}

/// A fresh name for a temporary file: `prefix`, a new random UUID, then
/// `suffix`.
pub fn temp_file_name(prefix: &str, suffix: &str) -> (r: String)
    ensures
        exists|u: Seq<char>| is_uuid_v4_text(u) && r@ == prefix@ + u + suffix@,
{
    let u = new_uuid_text();
    let mut r = prefix.to_owned();
    r.append(u.as_str());
    r.append(suffix);
    assert(r@ == prefix@ + u@ + suffix@);
    r
}

/// An ASCII digit.
pub open spec fn is_ascii_digit(c: char) -> bool {
    '0' <= c <= '9'
}

/// The shape of a local time stamp written as `%Y-%m-%d %H:%M:%S`: a year
/// (at least four digits, signed outside 0..=9999), then `-MM-DD HH:MM:SS`
/// with two digits each.
pub open spec fn is_timestamp_text(s: Seq<char>) -> bool {
    let t = s.len() - 15;
    &&& s.len() >= 19
    &&& s[t] == '-'
    &&& is_ascii_digit(s[t + 1]) && is_ascii_digit(s[t + 2])
    &&& s[t + 3] == '-'
    &&& is_ascii_digit(s[t + 4]) && is_ascii_digit(s[t + 5])
    &&& s[t + 6] == ' '
    &&& is_ascii_digit(s[t + 7]) && is_ascii_digit(s[t + 8])
    &&& s[t + 9] == ':'
    &&& is_ascii_digit(s[t + 10]) && is_ascii_digit(s[t + 11])
    &&& s[t + 12] == ':'
    &&& is_ascii_digit(s[t + 13]) && is_ascii_digit(s[t + 14])
    &&& forall|i: int| 1 <= i < t ==> is_ascii_digit(#[trigger] s[i])
    &&& (is_ascii_digit(s[0]) || s[0] == '+' || s[0] == '-')
}

/// The current local time as `%Y-%m-%d %H:%M:%S`
/// (`chrono::Local::now().format(..)`). Which time comes back is left open;
/// its text form is as stated.
#[verifier::external_body]
pub(crate) fn local_timestamp() -> (s: String)
    ensures
        is_timestamp_text(s@),
{
    chrono::Local::now().format("%Y-%m-%d %H:%M:%S").to_string()
}

} // verus!
