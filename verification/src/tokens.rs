//! Order tokens are opaque, UUID-shaped strings. The server mints them; the
//! client only checks their shape and echoes them back. The shape check
//! itself is delegated to the uuid crate.
use vstd::prelude::*;
use vstd::string::StrSliceExecFns;

verus! {

/// A hexadecimal digit character, either case.
pub open spec fn is_hex_char(c: char) -> bool {
    (48 <= c as int && c as int <= 57) || (97 <= c as int && c as int <= 102) || (65 <= c as int
        && c as int <= 70)
}

/// The canonical hyphenated UUID shape: 36 characters with hyphens at
/// positions 8, 13, 18 and 23 and hex digits everywhere else.
pub open spec fn is_hyphenated_uuid(s: Seq<char>) -> bool {
    s.len() == 36 && s[8] == '-' && s[13] == '-' && s[18] == '-' && s[23] == '-' && forall|i: int|
        0 <= i < 36 && i != 8 && i != 13 && i != 18 && i != 23 ==> is_hex_char(#[trigger] s[i])
}

/// Relies on uuid::Uuid::parse_str: every hyphenated-shape input is
/// accepted, and a 36-character input is accepted only in that shape. (The
/// parser also takes the simple, braced and URN forms at other lengths, and
/// rejects any input holding a non-ASCII character.)
#[verifier::external_body]
pub(crate) fn uuid_shape_ok(s: &str) -> (r: bool)
    ensures
        is_hyphenated_uuid(s@) ==> r,
        s@.len() == 36 && !is_hyphenated_uuid(s@) ==> !r,
{
    uuid::Uuid::parse_str(s).is_ok()
}

/// Whether a token has the canonical hyphenated shape. The 36-character
/// gate makes the parser's answer decisive in both directions: within that
/// length it accepts exactly the hyphenated shape, and no shorter or longer
/// text has it.
pub(crate) fn token_ok(s: &str) -> (r: bool)
    ensures
        r <==> is_hyphenated_uuid(s@),
{
    s.unicode_len() == 36 && uuid_shape_ok(s)
}

} // verus!
