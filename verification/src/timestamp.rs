//! Creation times of user records.
//!
//! A [`Timestamp`] is a UTC instant given as whole seconds since the Unix
//! epoch and a sub-second count of nanoseconds. Every value of the type can be
//! rendered by chrono as a naive UTC date and time.

use vstd::prelude::*;

verus! {

/// The text that chrono gives for the naive UTC date and time at `secs`
/// seconds and `nanos` nanoseconds after the Unix epoch (the `Display` of
/// `NaiveDateTime`, such as `2024-05-01 12:30:00.250`), or `None` where
/// `chrono::DateTime::from_timestamp` refuses the pair.
pub uninterp spec fn unix_time_text(secs: i64, nanos: u32) -> Option<Seq<char>>;

/// Calls `chrono::DateTime::<Utc>::from_timestamp(secs, nanos)` and, where it
/// gives a date and time, renders its `naive_utc()` with `to_string()`.
/// The contract claims only that the outcome is `unix_time_text(secs, nanos)`.
#[verifier::external_body]
fn format_unix_time(secs: i64, nanos: u32) -> (text: Option<String>)
    ensures
        match text {
            Some(s) => unix_time_text(secs, nanos) == Some(s@),
            None => unix_time_text(secs, nanos) is None,
        },
{
    match chrono::DateTime::from_timestamp(secs, nanos) {
        Some(dt) => Some(dt.naive_utc().to_string()),
        None => None,
    }
}

/// Reads the system clock with `std::time::SystemTime::now()` and measures it
/// from the Unix epoch with `duration_since(UNIX_EPOCH)`, giving the whole
/// seconds (`Duration::as_secs`) and the nanoseconds past them
/// (`Duration::subsec_nanos`); `None` where the clock reads before the epoch,
/// which is when `duration_since` returns its error.
/// The contract claims only that the nanoseconds are below one billion, as the
/// standard library documents for `subsec_nanos`; which instant comes back is
/// left open.
#[verifier::external_body]
fn read_clock() -> (since_epoch: Option<(u64, u32)>)
    ensures
        since_epoch matches Some(t) ==> t.1 < 1_000_000_000,
{
    match std::time::SystemTime::now().duration_since(std::time::UNIX_EPOCH) {
        Ok(d) => Some((d.as_secs(), d.subsec_nanos())),
        Err(_) => None,
    }
}

/// A UTC instant that chrono can render as a date and time.
#[derive(Clone, Copy, Debug, PartialEq, Eq, Structural)]
pub struct Timestamp {
    secs: i64,
    nanos: u32,
}

impl View for Timestamp {
    type V = (i64, u32);

    closed spec fn view(&self) -> (i64, u32) {
        (self.secs, self.nanos)
    }
}

/// The rendered text of a timestamp.
pub open spec fn timestamp_text(t: (i64, u32)) -> Seq<char> {
    unix_time_text(t.0, t.1).unwrap()
}

impl Timestamp {
    #[verifier::type_invariant]
    spec fn renderable(self) -> bool {
        unix_time_text(self.secs, self.nanos) is Some
    }

    /// The current time of the system clock, or `None` where the clock reads
    /// before the Unix epoch or past what chrono can represent.
    pub fn now() -> (t: Option<Timestamp>)
        ensures
            t matches Some(t) ==> {
                &&& t@.0 >= 0
                &&& t@.1 < 1_000_000_000
                &&& unix_time_text(t@.0, t@.1) is Some
            },
    {
        Timestamp::from_clock_reading(read_clock())
    }

    /// The timestamp of a reading of the system clock, given as whole seconds
    /// and nanoseconds since the Unix epoch (`None` where the clock could not
    /// be read): exactly the instant read, or `None` where there was no
    /// reading or its seconds do not fit in an `i64` or chrono cannot
    /// represent it.
    pub fn from_clock_reading(reading: Option<(u64, u32)>) -> (t: Option<Timestamp>)
        ensures
            match reading {
                Some(r) => {
                    let representable = r.0 <= i64::MAX && unix_time_text(r.0 as i64, r.1) is Some;
                    &&& representable ==> (t matches Some(t) && t@ == (r.0 as i64, r.1))
                    &&& !representable ==> t is None
                },
                None => t is None,
            },
    {
        match reading {
            Some((secs, nanos)) => {
                if secs <= i64::MAX as u64 {
                    Timestamp::from_unix(secs as i64, nanos)
                } else {
                    None
                }
            },
            None => None,
        }
    }

    /// The instant `secs` seconds and `nanos` nanoseconds after the Unix
    /// epoch, or `None` where chrono cannot represent it.
    pub fn from_unix(secs: i64, nanos: u32) -> (t: Option<Timestamp>)
        ensures
            match t {
                Some(t) => t@ == (secs, nanos) && unix_time_text(secs, nanos) is Some,
                None => unix_time_text(secs, nanos) is None,
            },
    {
        match format_unix_time(secs, nanos) {
            Some(_) => Some(Timestamp { secs, nanos }),
            None => None,
        }
    }

    /// Whole seconds since the Unix epoch.
    pub fn secs(&self) -> (s: i64)
        ensures
            s == self@.0,
    {
        self.secs
    }

    /// Nanoseconds past the whole second.
    pub fn nanos(&self) -> (n: u32)
        ensures
            n == self@.1,
    {
        self.nanos
    }

    /// The naive UTC date and time as chrono renders it, such as
    /// `1970-01-02 01:01:01.500`.
    pub fn to_text(&self) -> (s: String)
        ensures
            s@ == timestamp_text(self@),
    {
        proof {
            use_type_invariant(self);
        }
        match format_unix_time(self.secs, self.nanos) {
            Some(s) => s,
            None => {
                proof {
                    assert(false);
                }
                String::new()
            },
        }
    }
}

} // verus!
