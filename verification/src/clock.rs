//! Points in time.
//!
//! A point in time is held as whole seconds since the Unix epoch and the nanoseconds
//! within that second. The `chrono` crate reads the clock and writes a point in time as
//! text.

use vstd::prelude::*;

verus! {

/// A point in time: seconds since 1970-01-01T00:00:00Z, and nanoseconds within the second.
#[derive(Debug, Clone, Copy, PartialEq, Eq, Structural)]
pub struct Timestamp {
    pub secs: i64,
    pub nanos: u32,
}

impl DeepView for Timestamp {
    type V = Timestamp;

    open spec fn deep_view(&self) -> Timestamp {
        *self
    }
}

/// The RFC 3339 text of the point in time that `chrono` makes of the two numbers,
/// if it makes one of them.
pub uninterp spec fn rfc3339(secs: int, nanos: int) -> Option<Seq<char>>;

/// `Utc::now`, taken apart by `DateTime::timestamp` and
/// `DateTime::timestamp_subsec_nanos`. Which point in time comes back depends on the
/// clock; the contract states what holds of each: it is not before the epoch, and
/// the nanoseconds stay below one second. (On a machine whose clock stands before
/// the epoch, `Utc::now` does not return.)
#[verifier::external_body]
pub(crate) fn now() -> (t: Timestamp)
    ensures
        t.secs >= 0,
        t.nanos < 1_000_000_000,
{
    let t = chrono::Utc::now();
    Timestamp { secs: t.timestamp(), nanos: t.timestamp_subsec_nanos() }
}

/// `DateTime::from_timestamp`, then `DateTime::to_rfc3339`. The contract only names the
/// result.
#[verifier::external_body]
pub(crate) fn rfc3339_text(secs: i64, nanos: u32) -> (r: Option<String>)
    ensures
        r.deep_view() == rfc3339(secs as int, nanos as int),
{
    chrono::DateTime::from_timestamp(secs, nanos).map(|t| t.to_rfc3339())
}

impl Timestamp {
    /// The text of this point in time; empty where the numbers denote none.
    pub open spec fn text(self) -> Seq<char> {
        match rfc3339(self.secs as int, self.nanos as int) {
            Some(s) => s,
            None => Seq::empty(),
        }
    }

    /// The point in time as RFC 3339 text, such as `2015-05-15T00:00:00+00:00`.
    pub fn to_rfc3339(&self) -> (r: String)
        ensures
            r@ == self.text(),
    {
        match rfc3339_text(self.secs, self.nanos) {
            Some(s) => s,
            None => String::new(),
        }
    }
}

} // verus!
