//! The user record as the store keeps it, and the values written to the store.
use vstd::prelude::*;

verus! {

/// The earliest whole second, counted from the Unix epoch, that chrono's
/// calendar holds: the first second of the year -262143.
pub const MIN_TIMESTAMP: i64 = -8334601228800;

/// The last whole second, counted from the Unix epoch, that chrono's
/// calendar holds: 23:59:59 on the last day of the year 262142.
pub const MAX_TIMESTAMP: i64 = 8210266876799;

/// A moment that chrono can hold as a date and time: a whole second within
/// its calendar and a fraction below one second.
pub open spec fn timestamp_in_range(secs: i64, nanos: u32) -> bool {
    &&& MIN_TIMESTAMP <= secs <= MAX_TIMESTAMP
    &&& nanos < 1_000_000_000
}

/// The text that chrono's `NaiveDateTime` shows for the moment `secs`
/// seconds and `nanos` nanoseconds after the Unix epoch, or `None` where
/// chrono holds no such moment.
pub uninterp spec fn naive_datetime_text(secs: i64, nanos: u32) -> Option<Seq<char>>;

/// Builds a chrono date and time with `chrono::DateTime::from_timestamp` and
/// renders it with the `Display` of `chrono::NaiveDateTime`, as in
/// `2024-01-02 03:04:05`. Claimed: the text is the named result of these two
/// calls on the arguments, and chrono holds every moment that
/// `timestamp_in_range` admits (`from_timestamp` refuses only days outside
/// its calendar and fractions it cannot place).
#[verifier::external_body]
fn render_naive_datetime(secs: i64, nanos: u32) -> (text: Option<String>)
    ensures
        naive_datetime_text(secs, nanos) == (match text {
            Some(s) => Some(s@),
            None => None::<Seq<char>>,
        }),
        timestamp_in_range(secs, nanos) ==> text is Some,
{
    match chrono::DateTime::from_timestamp(secs, nanos) {
        Some(moment) => Some(moment.naive_utc().to_string()),
        None => None,
    }
}

/// A moment on chrono's calendar, as seconds and nanoseconds after the Unix
/// epoch; the store's `DATETIME` columns hold such moments.
#[derive(Debug)]
pub struct Timestamp {
    secs: i64,
    nanos: u32,
}

impl View for Timestamp {
    type V = (i64, u32);

    closed spec fn view(&self) -> (i64, u32) {
        (self.secs, self.nanos)
    }
}

impl Timestamp {
    #[verifier::type_invariant]
    spec fn well_formed(self) -> bool {
        timestamp_in_range(self.secs, self.nanos)
    }

    /// The moment `secs` seconds and `nanos` nanoseconds after the epoch, or
    /// `None` where chrono's calendar does not hold it.
    pub fn new(secs: i64, nanos: u32) -> (t: Option<Timestamp>)
        ensures
            t is Some <==> timestamp_in_range(secs, nanos),
            t matches Some(t) ==> t@ == (secs, nanos),
    {
        if MIN_TIMESTAMP <= secs && secs <= MAX_TIMESTAMP && nanos < 1_000_000_000 {
            Some(Timestamp { secs, nanos })
        } else {
            None
        }
    }

    /// Whole seconds after the epoch.
    pub fn seconds(&self) -> (s: i64)
        ensures
            s == self@.0,
            timestamp_in_range(self@.0, self@.1),
    {
        proof {
            use_type_invariant(self);
        }
        self.secs
    }

    /// Nanoseconds past the whole second.
    pub fn subsec_nanos(&self) -> (n: u32)
        ensures
            n == self@.1,
    {
        self.nanos
    }

    /// The date and time as chrono's `NaiveDateTime` shows it.
    pub fn to_text(&self) -> (text: String)
        ensures
            naive_datetime_text(self@.0, self@.1) == Some(text@),
    {
        proof {
            use_type_invariant(self);
        }
        match render_naive_datetime(self.secs, self.nanos) {
            Some(text) => text,
            None => {
                proof {
                    assert(false);
                }
                String::new()
            },
        }
    }
}

/// A stored user.
#[derive(Debug)]
pub struct User {
    pub id: i32,
    pub username: String,
    pub password_hash: String,
    pub email: String,
    pub created_at: Timestamp,
    pub updated_at: Timestamp,
}

/// The row that registration writes: the store assigns the id and the times.
#[derive(Debug)]
pub struct NewUser {
    pub username: String,
    pub email: String,
    pub password_hash: String,
}

/// The columns that an update writes; a `None` leaves the column as it is.
#[derive(Debug)]
pub struct UpdateUser {
    pub username: Option<String>,
    pub email: Option<String>,
}

} // verus!
