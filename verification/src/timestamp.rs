//! Timezone-offset-aware timestamps, kept as the RFC 3339 text they were
//! validated from.
//!
//! The upstream API sends interval boundaries as RFC 3339 strings.  A record
//! only accepts a timestamp that chrono can parse; the accepted text is kept
//! verbatim, so a caller that needs calendar arithmetic can re-parse it with
//! chrono without any loss.

use vstd::prelude::*;

verus! {

/// Whether chrono accepts `s` as an RFC 3339 date-and-time string with a
/// timezone offset.
pub uninterp spec fn rfc3339_ok(s: Seq<char>) -> bool;

/// Relies on chrono::DateTime::parse_from_rfc3339: whether parsing succeeds
/// depends on the characters of `s` alone.
#[verifier::external_body]
pub(crate) fn parses_as_rfc3339(s: &str) -> (b: bool)
    ensures
        b == rfc3339_ok(s@),
{
    chrono::DateTime::parse_from_rfc3339(s).is_ok()
}

/// An instant with a timezone offset, as the RFC 3339 text it was validated
/// from.
#[derive(Debug, Clone, PartialEq, Eq)]
pub struct Timestamp {
    /// The RFC 3339 text.
    pub text: String,
}

impl View for Timestamp {
    type V = Seq<char>;

    open spec fn view(&self) -> Seq<char> {
        self.text@
    }
}

impl Timestamp {
    /// A timestamp is valid when its text is an RFC 3339 date-and-time.
    pub open spec fn valid(self) -> bool {
        rfc3339_ok(self.text@)
    }

    /// Accept `text` exactly when it is a valid RFC 3339 date-and-time.
    pub fn new(text: String) -> (r: Option<Timestamp>)
        ensures
            r is Some <==> rfc3339_ok(text@),
            r matches Some(t) ==> t == (Timestamp { text }) && t.valid(),
    {
        if parses_as_rfc3339(text.as_str()) {
            Some(Timestamp { text })
        } else {
            None
        }
    }

    /// The RFC 3339 text of this timestamp.
    pub fn as_str(&self) -> (s: &str)
        ensures
            s@ == self@,
    {
        self.text.as_str()
    }
}

} // verus!
