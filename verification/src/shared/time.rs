//! Instants on the UTC time line, held as plain numbers.
//!
//! The calendar itself is `chrono`'s: which pairs of numbers denote an instant,
//! what an instant plus a number of seconds is, and how an instant is written in
//! RFC 3339 are named here and computed there.

use vstd::prelude::*;

verus! {

/// Whether `chrono::DateTime::from_timestamp(secs, nanos)` yields an instant.
pub uninterp spec fn utc_representable(secs: i64, nanos: u32) -> bool;

/// The seconds and nanoseconds of the instant `delta` seconds after the instant
/// `(secs, nanos)`, as `chrono::DateTime::checked_add_signed` computes it, or `None`
/// where `chrono` has no such instant or no such span.
pub uninterp spec fn utc_plus_seconds(secs: i64, nanos: u32, delta: i64) -> Option<(i64, u32)>;

/// The text that `chrono::DateTime::to_rfc3339` writes for the instant `(secs, nanos)`.
pub uninterp spec fn rfc3339_text(secs: i64, nanos: u32) -> Seq<char>;

/// Calls `chrono::DateTime::from_timestamp` and reports whether it returned an
/// instant. Nothing is claimed beyond the name of that answer.
#[verifier::external_body]
fn chrono_representable(secs: i64, nanos: u32) -> (r: bool)
    ensures
        r == utc_representable(secs, nanos),
{
    chrono::DateTime::from_timestamp(secs, nanos).is_some()
}

/// Calls `chrono::Utc::now` and takes the result apart with `timestamp` and
/// `timestamp_subsec_nanos`. Claimed: the parts denote an instant again (the
/// round trip that `chrono` documents for `from_timestamp`), and the seconds are
/// not negative, since `now` builds its result from a span counted from the
/// epoch. On a machine whose clock stands before the epoch `now` does not
/// return.
#[verifier::external_body]
fn chrono_now() -> (r: (i64, u32))
    ensures
        utc_representable(r.0, r.1),
        r.0 >= 0,
{
    let t = chrono::Utc::now();
    (t.timestamp(), t.timestamp_subsec_nanos())
}

/// Calls `chrono::DateTime::checked_add_signed` on the instant `(secs, nanos)` with
/// a span of `delta` whole seconds made by `chrono::TimeDelta::try_seconds`, and
/// takes the sum apart. Claimed: the result is the named one, and a sum that
/// exists denotes an instant.
#[verifier::external_body]
fn chrono_plus_seconds(secs: i64, nanos: u32, delta: i64) -> (r: Option<(i64, u32)>)
    ensures
        r == utc_plus_seconds(secs, nanos, delta),
        r matches Some(p) ==> utc_representable(p.0, p.1),
{
    let start = chrono::DateTime::from_timestamp(secs, nanos)?;
    let span = chrono::TimeDelta::try_seconds(delta)?;
    let end = start.checked_add_signed(span)?;
    Some((end.timestamp(), end.timestamp_subsec_nanos()))
}

/// Calls `chrono::DateTime::to_rfc3339` on the instant `(secs, nanos)`. Claimed:
/// the result is the named text.
#[verifier::external_body]
fn chrono_rfc3339(secs: i64, nanos: u32) -> (r: String)
    requires
        utc_representable(secs, nanos),
    ensures
        r@ == rfc3339_text(secs, nanos),
{
    match chrono::DateTime::from_timestamp(secs, nanos) {
        Some(t) => t.to_rfc3339(),
        None => String::new(),
    }
}

/// An instant in UTC: whole seconds since the Unix epoch and the nanoseconds
/// within that second. Every value denotes an instant that `chrono` can hold.
#[derive(Debug, Clone, Copy)]
pub struct Timestamp {
    secs: i64,
    nanos: u32,
}

impl View for Timestamp {
    type V = (i64, u32);

    closed spec fn view(&self) -> (i64, u32) {
        (self.secs, self.nanos)
    }
}

impl Timestamp {
    #[verifier::type_invariant]
    spec fn representable(self) -> bool {
        utc_representable(self.secs, self.nanos)
    }

    /// The instant with the given parts, if there is one.
    pub fn from_parts(secs: i64, nanos: u32) -> (r: Option<Timestamp>)
        ensures
            r is Some <==> utc_representable(secs, nanos),
            r matches Some(t) ==> t@ == (secs, nanos),
    {
        if chrono_representable(secs, nanos) {
            Some(Timestamp { secs, nanos })
        } else {
            None
        }
    }

    /// The current instant. It never lies before the Unix epoch.
    pub fn now() -> (t: Timestamp)
        ensures
            t@.0 >= 0,
    {
        let parts = chrono_now();
        Timestamp { secs: parts.0, nanos: parts.1 }
    }

    /// Whole seconds since the Unix epoch.
    pub fn secs(&self) -> (r: i64)
        ensures
            r == self@.0,
    {
        self.secs
    }

    /// Nanoseconds within the second.
    pub fn nanos(&self) -> (r: u32)
        ensures
            r == self@.1,
    {
        self.nanos
    }

    /// The instant `delta` seconds later (earlier, if negative), or `None` where
    /// the calendar ends before it.
    pub fn plus_seconds(&self, delta: i64) -> (r: Option<Timestamp>)
        ensures
            match r {
                Some(t) => utc_plus_seconds(self@.0, self@.1, delta) == Some(t@),
                None => utc_plus_seconds(self@.0, self@.1, delta) is None,
            },
    {
        match chrono_plus_seconds(self.secs, self.nanos, delta) {
            Some(p) => Some(Timestamp { secs: p.0, nanos: p.1 }),
            None => None,
        }
    }

    /// The instant in RFC 3339 form.
    pub fn to_rfc3339(&self) -> (r: String)
        ensures
            r@ == rfc3339_text(self@.0, self@.1),
    {
        proof {
            use_type_invariant(self);
        }
        chrono_rfc3339(self.secs, self.nanos)
    }
}

} // verus!
