//! What the library takes from outside itself: fresh identifiers and the
//! time of day.

use vstd::prelude::*;
use vstd::utf8::is_ascii_chars;

verus! {

/// `Uuid::new_v4`, rendered by `to_string`.  Which id comes out is left to
/// chance; its text is always the hyphenated form, 36 ASCII characters.
/// The call fails only where the operating system yields no random bytes.
#[verifier::external_body]
pub(crate) fn fresh_id() -> (id: String)
    ensures
        id@.len() == 36,
        is_ascii_chars(id@),
{
    uuid::Uuid::new_v4().to_string()
}

/// `Utc::now`, rendered by `to_rfc3339`.  Nothing is promised of the text.
/// The call fails only where the system clock stands before the Unix epoch.
#[verifier::external_body]
pub(crate) fn now_rfc3339() -> String {
    chrono::Utc::now().to_rfc3339()
}

/// `Utc::now`, as seconds since the Unix epoch by `timestamp`.  Nothing is
/// promised of the number.  The call fails only where the system clock
/// stands before the Unix epoch.
#[verifier::external_body]
pub(crate) fn now_unix_seconds() -> i64 {
    chrono::Utc::now().timestamp()
}

} // verus!
