//! Wall-clock time.

use vstd::prelude::*;

verus! {

/// `secs` and `nanos` are an instant that `chrono` can represent: from the
/// start of the year -262143 to the end of the year 262142, with a leap second
/// held as up to one more second in `nanos` at the end of a minute.
pub open spec fn instant(secs: int, nanos: int) -> bool {
    &&& -8334601228800 <= secs <= 8210266876799
    &&& 0 <= nanos < 1000000000 || 1000000000 <= nanos < 2000000000 && secs % 60 == 59
}

/// The RFC 3339 text that `chrono` writes for an instant, in UTC, with as many
/// fractional digits (none, three, six or nine) as the instant needs. A year
/// outside 0 to 9999 is written with its sign.
pub uninterp spec fn rfc3339_printed(secs: int, nanos: int) -> Seq<char>;

/// The instant that `chrono` reads from a text, or `None` where the text is not
/// a date and time with an offset.
pub uninterp spec fn rfc3339_parsed(text: Seq<char>) -> Option<(int, int)>;

/// `chrono::Utc::now`. Trusted: the clock gives an instant at or after the
/// Unix epoch, not in a leap second. Which one is not stated: it is the time of
/// the call. `chrono` panics where the machine's clock is set before the epoch.
#[verifier::external_body]
fn utc_now() -> (now: (i64, u32))
    ensures
        instant(now.0 as int, now.1 as int) && now.0 >= 0 && now.1 < 1000000000,
{
    let now = chrono::Utc::now();
    (now.timestamp(), now.timestamp_subsec_nanos())
}

/// `chrono::DateTime::to_rfc3339_opts`, with automatic precision and `Z`.
/// Trusted: the text depends on the instant alone.
#[verifier::external_body]
fn print_rfc3339(secs: i64, nanos: u32) -> (text: String)
    requires
        instant(secs as int, nanos as int),
    ensures
        text@ == rfc3339_printed(secs as int, nanos as int),
{
    let time = chrono::DateTime::from_timestamp(secs, nanos).unwrap();
    time.to_rfc3339_opts(chrono::SecondsFormat::AutoSi, true)
}

/// `FromStr` of `chrono::DateTime<Utc>`. Trusted: what is read depends on the
/// text alone and is an instant; and the printed text of an instant is read as
/// that instant.
#[verifier::external_body]
fn parse_rfc3339(text: &str) -> (parsed: Option<(i64, u32)>)
    ensures
        parsed is Some <==> rfc3339_parsed(text@) is Some,
        parsed matches Some(p) ==> rfc3339_parsed(text@) == Some((p.0 as int, p.1 as int)),
        parsed matches Some(p) ==> instant(p.0 as int, p.1 as int),
        forall|secs: int, nanos: int|
            text@ == #[trigger] rfc3339_printed(secs, nanos) && instant(secs, nanos)
                ==> parsed is Some && parsed->Some_0.0 == secs && parsed->Some_0.1 == nanos,
{
    let time = text.parse::<chrono::DateTime<chrono::Utc>>().ok()?;
    Some((time.timestamp(), time.timestamp_subsec_nanos()))
}

/// A point in time, in UTC.
#[derive(Debug, Clone, Copy, PartialEq, Eq, Hash)]
pub struct Timestamp {
    secs: i64,
    nanos: u32,
}

/// What a [`Timestamp`] is: seconds since the Unix epoch, and nanoseconds
/// since that second.
pub struct TimestampView {
    pub secs: int,
    pub nanos: int,
}

impl TimestampView {
    /// The view is that of a timestamp.
    pub open spec fn valid(self) -> bool {
        instant(self.secs, self.nanos)
    }
}

/// The time is one that the clock gave to a call.
pub closed spec fn clock_read(time: TimestampView) -> bool {
    exists|now: (i64, u32)| #[trigger]
        call_ensures(utc_now, (), now) && now.0 == time.secs && now.1 == time.nanos
}

/// What was read is what a call of the clock returned.
proof fn read_by_a_call(time: TimestampView)
    requires
        clock_read(time),
    ensures
        exists|now: (i64, u32)| #[trigger]
            call_ensures(utc_now, (), now) && now.0 == time.secs && now.1 == time.nanos,
        time.valid(),
{
}

impl View for Timestamp {
    type V = TimestampView;

    closed spec fn view(&self) -> TimestampView {
        TimestampView { secs: self.secs as int, nanos: self.nanos as int }
    }
}

impl Timestamp {
    #[verifier::type_invariant]
    spec fn well_formed(self) -> bool {
        instant(self.secs as int, self.nanos as int)
    }

    /// The current time.
    ///
    /// Panics where the machine's clock is set before the Unix epoch.
    pub fn now() -> (now: Timestamp)
        ensures
            now@.valid(),
            now@.secs >= 0,
            now@.nanos < 1000000000,
            clock_read(now@),
    {
        let now = utc_now();
        assert(call_ensures(utc_now, (), now));
        Timestamp { secs: now.0, nanos: now.1 }
    }

    /// The time `secs` seconds and `nanos` nanoseconds after the Unix epoch, or
    /// `None` where that is no representable instant.
    pub fn from_parts(secs: i64, nanos: u32) -> (time: Option<Timestamp>)
        ensures
            time is Some <==> instant(secs as int, nanos as int),
            time matches Some(t) ==> t@.secs == secs && t@.nanos == nanos,
    {
        let minute_ends: bool = if secs >= 0 {
            secs % 60 == 59
        } else {
            (secs + 1) % 60 == 0
        };
        if -8334601228800 <= secs && secs <= 8210266876799 && (nanos < 1000000000 || nanos
            < 2000000000 && minute_ends) {
            Some(Timestamp { secs, nanos })
        } else {
            None
        }
    }

    /// Seconds since the Unix epoch.
    pub fn secs(&self) -> (secs: i64)
        ensures
            secs == self@.secs,
    {
        self.secs
    }

    /// Nanoseconds since the second began, past a whole second within a leap
    /// second.
    pub fn nanos(&self) -> (nanos: u32)
        ensures
            nanos == self@.nanos,
    {
        self.nanos
    }

    /// The time as RFC 3339 text.
    pub fn to_rfc3339(&self) -> (text: String)
        ensures
            text@ == rfc3339_printed(self@.secs, self@.nanos),
            self@.valid(),
    {
        proof {
            use_type_invariant(self);
        }
        print_rfc3339(self.secs, self.nanos)
    }

    /// Reads a time from RFC 3339 text.
    pub fn parse_rfc3339(text: &str) -> (time: Option<Timestamp>)
        ensures
            time is Some <==> rfc3339_parsed(text@) is Some,
            time matches Some(t) ==> rfc3339_parsed(text@) == Some((t@.secs, t@.nanos)),
            time matches Some(t) ==> t@.valid(),
            forall|v: TimestampView|
                #![trigger rfc3339_printed(v.secs, v.nanos)]
                text@ == rfc3339_printed(v.secs, v.nanos) && v.valid() ==> time is Some
                    && time->Some_0@ == v,
    {
        match parse_rfc3339(text) {
            Some((secs, nanos)) => Some(Timestamp { secs, nanos }),
            None => None,
        }
    }
}

} // verus!
