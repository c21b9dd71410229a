//! Points in time as the filters carry them: whole seconds since the Unix
//! epoch, in UTC.

use vstd::prelude::*;

verus! {

/// The text that chrono's `DateTime<Utc>` shows for `seconds` since the epoch,
/// as in `2015-05-15 00:00:00 UTC`.
pub uninterp spec fn utc_text(seconds: i64) -> Seq<char>;

/// Seconds within about 250,000 years of the epoch, which chrono's calendar
/// (years -262143 to 262142) always represents.
pub open spec fn in_calendar_range(seconds: i64) -> bool {
    -8_000_000_000_000 <= seconds <= 8_000_000_000_000
}

/// Relies on `chrono::DateTime::from_timestamp`, which is `None` only for
/// seconds out of chrono's range of years, and on the `Display` form of the
/// result.
#[verifier::external_body]
fn utc_display(seconds: i64) -> (r: Option<String>)
    ensures
        r matches Some(s) ==> s@ == utc_text(seconds),
        in_calendar_range(seconds) ==> r is Some,
{
    match chrono::DateTime::from_timestamp(seconds, 0) {
        Some(d) => Some(d.to_string()),
        None => None,
    }
}

/// A moment in UTC, to whole seconds.
#[derive(Debug)]
pub struct Timestamp {
    seconds: i64,
    text: String,
}

impl Timestamp {
    #[verifier::type_invariant]
    spec fn inv(&self) -> bool {
        self.text@ == utc_text(self.seconds)
    }

    /// Seconds since the Unix epoch.
    pub closed spec fn seconds_spec(&self) -> i64 {
        self.seconds
    }

    /// The moment `seconds` after the Unix epoch; `None` where the calendar
    /// cannot represent it, which it always can within `in_calendar_range`.
    pub fn from_unix(seconds: i64) -> (r: Option<Timestamp>)
        ensures
            r matches Some(t) ==> t.seconds_spec() == seconds,
            in_calendar_range(seconds) ==> r is Some,
    {
        match utc_display(seconds) {
            Some(text) => Some(Timestamp { seconds, text }),
            None => None,
        }
    }

    /// Seconds since the Unix epoch.
    pub fn seconds(&self) -> (r: i64)
        ensures
            r == self.seconds_spec(),
    {
        self.seconds
    }

    /// The wire form of the moment.
    pub fn text(&self) -> (r: String)
        ensures
            r@ == utc_text(self.seconds_spec()),
    {
        proof {
            use_type_invariant(self);
        }
        self.text.clone()
    }
}

} // verus!
