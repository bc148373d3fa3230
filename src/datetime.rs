use vstd::prelude::*;

use core::cmp::Ordering;
use vstd::std_specs::cmp::{PartialEqSpec, PartialOrdSpec};

use crate::arith::{lemma_lex_cmp_equal, lex_cmp};

use crate::naive::{is_wrapped_instant, wrapped_instant, NaiveDateTime};
use crate::tai::{is_tai_offset, Tai};
use crate::timestamp::Timestamp;
use crate::timezone::{TimeZone, Utc, UtcOffset};

verus! {

/// An instant, held as its date-time in UTC, with the time zone in which
/// it is read.
#[derive(Copy, Clone, Debug)]
pub struct DateTime<Tz: TimeZone> {
    pub utc_datetime: NaiveDateTime,
    pub timezone: Tz,
}

/// `utc` is the UTC date-time at which the local date-time `local` is read
/// under `offset`: `local` moved back by the offset's seconds, wrapped as
/// `NaiveDateTime` arithmetic wraps.
pub open spec fn utc_of_local(utc: NaiveDateTime, local: NaiveDateTime, offset: UtcOffset) -> bool {
    is_wrapped_instant(
        utc,
        local.seconds_since_epoch() - offset.offset_seconds,
        local.time.nanosecond as int,
    )
}

/// `local` is how the UTC date-time `utc` reads under `offset`: `utc`
/// moved forward by the offset's seconds, wrapped as `NaiveDateTime`
/// arithmetic wraps.
pub open spec fn local_of_utc(local: NaiveDateTime, utc: NaiveDateTime, offset: UtcOffset) -> bool {
    is_wrapped_instant(
        local,
        utc.seconds_since_epoch() + offset.offset_seconds,
        utc.time.nanosecond as int,
    )
}

/// `to` and `overflow` are what moving the instant `from` by `seconds`
/// seconds of TAI gives: `from` read in TAI under an offset of TAI, that
/// reading moved as `NaiveDateTime::add_seconds_overflowing` moves it, and
/// the result read back from TAI under an offset of TAI.
pub open spec fn shifted_in_tai(from: NaiveDateTime, to: NaiveDateTime, overflow: bool, seconds: int) -> bool {
    exists|local: NaiveDateTime, moved: NaiveDateTime, before: UtcOffset, after: UtcOffset|
        #![trigger local_of_utc(local, from, before), utc_of_local(to, moved, after)]
        {
            &&& is_tai_offset(before)
            &&& local_of_utc(local, from, before)
            &&& wrapped_instant(
                (moved, overflow),
                local.seconds_since_epoch() + seconds,
                local.time.nanosecond as int,
            )
            &&& is_tai_offset(after)
            &&& utc_of_local(to, moved, after)
        }
}

/// As `shifted_in_tai`, the reading in TAI moved by `nanoseconds`
/// nanoseconds as `NaiveDateTime::add_nanoseconds_overflowing` moves it.
pub open spec fn shifted_in_tai_nanos(
    from: NaiveDateTime,
    to: NaiveDateTime,
    overflow: bool,
    nanoseconds: int,
) -> bool {
    exists|local: NaiveDateTime, moved: NaiveDateTime, before: UtcOffset, after: UtcOffset|
        #![trigger local_of_utc(local, from, before), utc_of_local(to, moved, after)]
        {
            let total = local.seconds_since_epoch() * 1_000_000_000 + local.time.nanosecond
                + nanoseconds;
            &&& is_tai_offset(before)
            &&& local_of_utc(local, from, before)
            &&& wrapped_instant((moved, overflow), total / 1_000_000_000, total % 1_000_000_000)
            &&& is_tai_offset(after)
            &&& utc_of_local(to, moved, after)
        }
}

impl<Tz: TimeZone> DateTime<Tz> {
    /// The instant with the given date-time in UTC, read in `timezone`.
    pub fn from_utc(utc_datetime: NaiveDateTime, timezone: Tz) -> (r: DateTime<Tz>)
        ensures
            r.utc_datetime == utc_datetime,
            r.timezone == timezone,
    {
        DateTime { utc_datetime, timezone }
    }

    /// The instant whose local date-time, under an offset of `offset`, reads
    /// `local_datetime`: its UTC date-time is `offset` seconds earlier.
    pub fn from_local_offset(
        local_datetime: NaiveDateTime,
        offset: UtcOffset,
        timezone: Tz,
    ) -> (r: DateTime<Tz>)
        requires
            local_datetime.time.nanosecond < 1_000_000_000,
        ensures
            utc_of_local(r.utc_datetime, local_datetime, offset),
            r.timezone == timezone,
    {
        let (utc_datetime, _) = local_datetime.add_seconds_overflowing(
            -(offset.seconds_ahead() as i64),
        );
        DateTime { utc_datetime, timezone }
    }

    /// The instant whose local date-time in `timezone` reads
    /// `local_datetime`, under the offset that the zone gives for it; the
    /// zone's error where it gives none.
    pub fn from_local(local_datetime: NaiveDateTime, timezone: Tz) -> (r: Result<
        DateTime<Tz>,
        Tz::Err,
    >)
        requires
            local_datetime.time.nanosecond < 1_000_000_000,
        ensures
            r matches Ok(dt) ==> dt.timezone == timezone && exists|offset: UtcOffset|
                #[trigger] utc_of_local(dt.utc_datetime, local_datetime, offset)
                    && timezone.gives_local_offset(
                    local_datetime,
                    Ok::<UtcOffset, Tz::Err>(offset),
                ),
            r matches Err(e) ==> timezone.gives_local_offset(
                local_datetime,
                Err::<UtcOffset, Tz::Err>(e),
            ),
    {
        match timezone.offset_from_local_naive(local_datetime) {
            Ok(offset) => {
                let dt = DateTime::from_local_offset(local_datetime, offset, timezone);
                assert(utc_of_local(dt.utc_datetime, local_datetime, offset));
                Ok(dt)
            },
            Err(e) => Err(e),
        }
    }

    /// The offset from UTC that the zone gives at this instant.
    pub fn offset(&self) -> (r: UtcOffset)
        ensures
            self.timezone.gives_offset(self.utc_datetime, r),
    {
        let utc = DateTime { utc_datetime: self.utc_datetime, timezone: Utc };
        self.timezone.utc_offset(utc)
    }

    pub fn timezone(&self) -> (r: &Tz)
        ensures
            *r == self.timezone,
    {
        &self.timezone
    }

    /// The date-time in UTC.
    pub fn naive_utc(&self) -> (r: NaiveDateTime)
        ensures
            r == self.utc_datetime,
    {
        self.utc_datetime
    }

    /// The local date-time: the UTC date-time moved by the zone's offset,
    /// with the flag of `NaiveDateTime::add_seconds_overflowing`.
    pub fn to_naive_overflowing(&self) -> (r: (NaiveDateTime, bool))
        requires
            self.utc_datetime.time.nanosecond < 1_000_000_000,
        ensures
            exists|offset: UtcOffset|
                #[trigger] self.timezone.gives_offset(self.utc_datetime, offset) && wrapped_instant(
                    r,
                    self.utc_datetime.seconds_since_epoch() + offset.offset_seconds,
                    self.utc_datetime.time.nanosecond as int,
                ),
    {
        let offset = self.offset();
        let r = self.utc_datetime.add_seconds_overflowing(offset.seconds_ahead() as i64);
        assert(self.timezone.gives_offset(self.utc_datetime, offset));
        r
    }

    /// The same instant, read in another zone.
    pub fn into_timezone<NewZone: TimeZone>(&self, timezone: NewZone) -> (r: DateTime<NewZone>)
        ensures
            r.utc_datetime == self.utc_datetime,
            r.timezone == timezone,
    {
        DateTime { utc_datetime: self.utc_datetime, timezone }
    }

    /// The same instant, read in UTC.
    pub fn as_utc(&self) -> (r: DateTime<Utc>)
        ensures
            r.utc_datetime == self.utc_datetime,
    {
        self.into_timezone(Utc)
    }

    /// The timestamp of the instant.
    pub fn unix_timestamp(&self) -> (r: Timestamp)
        ensures
            r.seconds == self.utc_datetime.seconds_since_epoch(),
            r.nanoseconds == self.utc_datetime.time.nanosecond,
    {
        self.utc_datetime.timestamp()
    }
    /// The same instant, read in TAI.
    pub fn as_tai(&self, tai: Tai) -> (r: DateTime<Tai>)
        ensures
            r.utc_datetime == self.utc_datetime,
    {
        self.into_timezone(tai)
    }

    /// The timestamp of the instant's reading in TAI.
    pub fn tai_timestamp(&self, tai: Tai) -> (r: Timestamp)
        requires
            self.utc_datetime.time.nanosecond < 1_000_000_000,
        ensures
            exists|local: NaiveDateTime, offset: UtcOffset|
                #[trigger] local_of_utc(local, self.utc_datetime, offset) && is_tai_offset(offset)
                    && r.seconds == local.seconds_since_epoch() && r.nanoseconds
                    == local.time.nanosecond,
    {
        let tai_dt = self.as_tai(tai);
        let (local, local_overflow) = tai_dt.to_naive_overflowing();
        let ghost offset = choose|o: UtcOffset|
            #[trigger] tai_dt.timezone.gives_offset(self.utc_datetime, o) && wrapped_instant(
                (local, local_overflow),
                self.utc_datetime.seconds_since_epoch() + o.offset_seconds,
                self.utc_datetime.time.nanosecond as int,
            );
        let r = local.timestamp();
        assert(local_of_utc(local, self.utc_datetime, offset));
        r
    }

    /// The instant `seconds` seconds of TAI later, read in the same zone;
    /// the flag says whether the reading in TAI left the supported years.
    pub fn add_seconds_overflowing(self, seconds: i64, tai: Tai) -> (r: (DateTime<Tz>, bool))
        requires
            self.utc_datetime.time.nanosecond < 1_000_000_000,
        ensures
            r.0.timezone == self.timezone,
            shifted_in_tai(self.utc_datetime, r.0.utc_datetime, r.1, seconds as int),
    {
        let tai_dt = DateTime { utc_datetime: self.utc_datetime, timezone: tai };
        let (local, local_overflow) = tai_dt.to_naive_overflowing();
        let ghost before = choose|o: UtcOffset|
            #[trigger] tai_dt.timezone.gives_offset(self.utc_datetime, o) && wrapped_instant(
                (local, local_overflow),
                self.utc_datetime.seconds_since_epoch() + o.offset_seconds,
                self.utc_datetime.time.nanosecond as int,
            );
        assert(local_of_utc(local, self.utc_datetime, before));
        let (moved, overflow) = local.add_seconds_overflowing(seconds);
        let utc_datetime = match tai_dt.timezone.offset_from_local_naive(moved) {
            Ok(offset) => {
                let utc = DateTime::from_local_offset(moved, offset, Utc).utc_datetime;
                assert(utc_of_local(utc, moved, offset));
                utc
            },
            Err(_) => {
                proof {
                    assert(false);
                }
                moved
            },
        };
        (DateTime { utc_datetime, timezone: self.timezone }, overflow)
    }

    /// The instant `nanoseconds` nanoseconds of TAI later, read in the same
    /// zone; the flag says whether the reading in TAI left the supported
    /// years.
    pub fn add_nanoseconds_overflowing(self, nanoseconds: i64, tai: Tai) -> (r: (
        DateTime<Tz>,
        bool,
    ))
        requires
            self.utc_datetime.time.nanosecond < 1_000_000_000,
        ensures
            r.0.timezone == self.timezone,
            shifted_in_tai_nanos(self.utc_datetime, r.0.utc_datetime, r.1, nanoseconds as int),
    {
        let tai_dt = DateTime { utc_datetime: self.utc_datetime, timezone: tai };
        let (local, local_overflow) = tai_dt.to_naive_overflowing();
        let ghost before = choose|o: UtcOffset|
            #[trigger] tai_dt.timezone.gives_offset(self.utc_datetime, o) && wrapped_instant(
                (local, local_overflow),
                self.utc_datetime.seconds_since_epoch() + o.offset_seconds,
                self.utc_datetime.time.nanosecond as int,
            );
        assert(local_of_utc(local, self.utc_datetime, before));
        let (moved, overflow) = local.add_nanoseconds_overflowing(nanoseconds);
        let utc_datetime = match tai_dt.timezone.offset_from_local_naive(moved) {
            Ok(offset) => {
                let utc = DateTime::from_local_offset(moved, offset, Utc).utc_datetime;
                assert(utc_of_local(utc, moved, offset));
                utc
            },
            Err(_) => {
                proof {
                    assert(false);
                }
                moved
            },
        };
        (DateTime { utc_datetime, timezone: self.timezone }, overflow)
    }
}

impl<Tz: TimeZone, Other: TimeZone> PartialEq<DateTime<Other>> for DateTime<Tz> {
    /// Two instants are equal where their UTC date-times are, whatever
    /// their zones.
    fn eq(&self, other: &DateTime<Other>) -> (r: bool) {
        self.utc_datetime == other.utc_datetime
    }
}

impl<Tz: TimeZone, Other: TimeZone> vstd::std_specs::cmp::PartialEqSpecImpl<DateTime<Other>> for DateTime<Tz> {
    open spec fn obeys_eq_spec() -> bool {
        true
    }

    open spec fn eq_spec(&self, other: &DateTime<Other>) -> bool {
        self.utc_datetime == other.utc_datetime
    }
}

/// Two date-times that hold the same UTC date-time are equal, whatever
/// their zones.
pub proof fn lemma_equal_across_zones<A: TimeZone, B: TimeZone>(a: DateTime<A>, b: DateTime<B>)
    requires
        a.utc_datetime == b.utc_datetime,
    ensures
        a.eq_spec(&b),
        a.partial_cmp_spec(&b) == Some(Ordering::Equal),
{
    lemma_lex_cmp_equal(a.utc_datetime.key());
}

impl<Tz: TimeZone> Eq for DateTime<Tz> {
}

impl<Tz: TimeZone, Other: TimeZone> PartialOrd<DateTime<Other>> for DateTime<Tz> {
    /// Instants are ordered by their UTC date-times, whatever their zones.
    fn partial_cmp(&self, other: &DateTime<Other>) -> (r: Option<Ordering>) {
        self.utc_datetime.partial_cmp(&other.utc_datetime)
    }
}

impl<Tz: TimeZone, Other: TimeZone> vstd::std_specs::cmp::PartialOrdSpecImpl<DateTime<Other>> for DateTime<Tz> {
    open spec fn obeys_partial_cmp_spec() -> bool {
        true
    }

    open spec fn partial_cmp_spec(&self, other: &DateTime<Other>) -> Option<Ordering> {
        Some(lex_cmp(self.utc_datetime.key(), other.utc_datetime.key()))
    }
}

/// Relies on the `Hash` that std derives for `NaiveDateTime`: feeds its
/// fields to the hasher.
#[verifier::external_body]
fn hash_naive<H: core::hash::Hasher>(date_time: &NaiveDateTime, state: &mut H) {
    core::hash::Hash::hash(date_time, state)
}

impl<Tz: TimeZone> core::hash::Hash for DateTime<Tz> {
    /// Hashes the UTC date-time alone, so that equal instants hash alike.
    fn hash<H: core::hash::Hasher>(&self, state: &mut H) {
        hash_naive(&self.utc_datetime, state);
    }
}

} // verus!
