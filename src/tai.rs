use vstd::prelude::*;

use std::sync::Arc;

use crate::date::Date;
use crate::datetime::DateTime;
use crate::naive::{NaiveDateTime, UNIX_EPOCH_DAYS};
use crate::timezone::{TimeZone, Utc, UtcOffset};

verus! {

/// The most leap seconds a list holds; it keeps every TAI offset within
/// the range of an `i32`.
pub const MAX_LEAP_SECONDS: usize = 0x7fff_0000;

/// TAI was ahead of UTC by this many seconds before the first leap second.
pub const TAI_BASE_OFFSET: i32 = 10;

/// Whether each instant is later than the one before it.
pub open spec fn strictly_increasing(s: Seq<i64>) -> bool {
    forall|i: int, j: int| 0 <= i < j < s.len() ==> s[i] < s[j]
}

/// The number of instants of `s` that are at or before `t`.
pub open spec fn count_le(s: Seq<i64>, t: int) -> nat
    decreases s.len(),
{
    if s.len() == 0 {
        0
    } else {
        count_le(s.drop_last(), t) + if s.last() <= t {
            1nat
        } else {
            0nat
        }
    }
}

/// `after` is `before` with the instant `t` added: the same list where it
/// holds `t` already or is full, else one longer and holding `t` besides
/// what it held.
pub open spec fn added(before: Seq<i64>, after: Seq<i64>, t: int) -> bool {
    &&& (before.contains(t as i64) || before.len() >= MAX_LEAP_SECONDS) ==> after == before
    &&& (!before.contains(t as i64) && before.len() < MAX_LEAP_SECONDS) ==> {
        &&& after.len() == before.len() + 1
        &&& forall|x: i64| #[trigger] after.contains(x) <==> (before.contains(x) || x == t)
    }
}

/// Adding the same leap second twice leaves the list as adding it once.
pub proof fn lemma_add_idempotent(before: Seq<i64>, once: Seq<i64>, twice: Seq<i64>, t: i64)
    requires
        added(before, once, t as int),
        added(once, twice, t as int),
    ensures
        twice == once,
{
    assert((t as int) as i64 == t);
    if !before.contains(t) && before.len() < MAX_LEAP_SECONDS {
        assert(once.contains(t));
    } else {
        assert(once == before);
    }
}

/// The timestamp, in seconds, of the midnight that starts `day`.
pub open spec fn midnight_seconds(day: Date) -> int {
    (day.day_count() - UNIX_EPOCH_DAYS) * 86_400
}

/// The offset of UTC from TAI after `n` leap seconds.
pub open spec fn tai_offset(n: int) -> int {
    -(TAI_BASE_OFFSET + n)
}

/// Whether `offset` is one that TAI takes after some number of leap
/// seconds.
pub open spec fn is_tai_offset(offset: UtcOffset) -> bool {
    exists|n: nat| offset.offset_seconds == tai_offset(n as int)
}

/// Whether `n` leap seconds are those before the UTC instant at which the
/// TAI date-time `local` is read, that instant being `local` moved back by
/// the offset that `n` gives.
pub open spec fn consistent_count(s: Seq<i64>, local: int, n: int) -> bool {
    n == count_le(s, local - tai_offset(n))
}

/// No more instants are at or before an earlier time.
pub proof fn lemma_count_le_monotone(s: Seq<i64>, t1: int, t2: int)
    requires
        t1 <= t2,
    ensures
        count_le(s, t1) <= count_le(s, t2),
        count_le(s, t2) <= s.len(),
    decreases s.len(),
{
    if s.len() > 0 {
        lemma_count_le_monotone(s.drop_last(), t1, t2);
    }
}

/// Leap seconds, each as the timestamp in seconds of the midnight (UTC) that
/// starts the day on which it is inserted, in increasing order.
#[derive(Debug)]
pub struct LeapSeconds {
    instants: Vec<i64>,
}

impl View for LeapSeconds {
    type V = Seq<i64>;

    closed spec fn view(&self) -> Seq<i64> {
        self.instants@
    }
}

/// A leap second that TAI cannot read: TAI has none.
#[derive(Copy, Clone, PartialEq, Eq, Structural, Hash, Debug)]
pub struct UnexpectedLeapSecond {
    pub given_dt: NaiveDateTime,
}

impl LeapSeconds {
    #[verifier::type_invariant]
    spec fn inv(self) -> bool {
        &&& strictly_increasing(self.instants@)
        &&& self.instants@.len() <= MAX_LEAP_SECONDS
    }

    /// A list with no leap seconds.
    pub fn empty() -> (r: LeapSeconds)
        ensures
            r@ == Seq::<i64>::empty(),
    {
        LeapSeconds { instants: Vec::new() }
    }

    /// Adds the instant `t` where it is not in the list yet, keeping the
    /// order; a full list is left as it is.
    pub fn add_instant(&mut self, t: i64)
        ensures
            strictly_increasing(final(self)@),
            added(old(self)@, final(self)@, t as int),
    {
        proof {
            use_type_invariant(&*self);
        }
        let n = self.instants.len();
        let mut i: usize = 0;
        while i < n && self.instants[i] < t
            invariant
                n == self.instants@.len(),
                i <= n,
                forall|j: int| 0 <= j < i ==> self.instants@[j] < t,
            decreases n - i,
        {
            i = i + 1;
        }
        if i < n && self.instants[i] == t {
            return;
        }
        if n >= MAX_LEAP_SECONDS {
            proof {
                assert(!self.instants@.contains(t)) by {
                    if self.instants@.contains(t) {
                        let k = choose|k: int| 0 <= k < n && self.instants@[k] == t;
                        if k >= i {
                            assert(self.instants@[k] >= self.instants@[i as int]);
                        }
                    }
                }
            }
            return;
        }
        let ghost before = self.instants@;
        proof {
            assert(!before.contains(t)) by {
                if before.contains(t) {
                    let k = choose|k: int| 0 <= k < n && before[k] == t;
                    if k >= i {
                        assert(before[k] >= before[i as int]);
                    }
                }
            }
        }
        let mut instants = Vec::new();
        std::mem::swap(&mut instants, &mut self.instants);
        instants.insert(i, t);
        proof {
            let after = instants@;
            assert(after == before.insert(i as int, t));
            assert forall|a: int, b: int| 0 <= a < b < after.len() implies after[a] < after[b] by {
                if b < i {
                } else if a < i && b == i {
                } else if a < i {
                    assert(before[a] < before[b - 1]);
                } else if a == i {
                    assert(before[b - 1] >= before[i as int]);
                } else {
                }
            }
            assert forall|x: i64| #[trigger] after.contains(x) <==> (before.contains(x) || x == t) by {
                if after.contains(x) {
                    let k = choose|k: int| 0 <= k < after.len() && after[k] == x;
                    if k < i {
                        assert(before[k] == x);
                    } else if k > i {
                        assert(before[k - 1] == x);
                    }
                }
                if before.contains(x) {
                    let k = choose|k: int| 0 <= k < before.len() && before[k] == x;
                    if k < i {
                        assert(after[k] == x);
                    } else {
                        assert(after[k + 1] == x);
                    }
                }
                if x == t {
                    assert(after[i as int] == x);
                }
            }
        }
        self.instants = instants;
    }

    /// Adds a leap second for `day`, stored as the timestamp of the midnight
    /// that starts it, where the list does not hold it yet; the list stays
    /// in increasing order.
    pub fn add_leap_second(&mut self, day: Date)
        ensures
            strictly_increasing(final(self)@),
            added(old(self)@, final(self)@, midnight_seconds(day)),
    {
        let t = midnight_timestamp(day);
        self.add_instant(t);
    }

    /// The number of leap seconds at or before the UTC date-time
    /// `date_time`.
    pub fn leap_seconds_before_inclusive(&self, date_time: NaiveDateTime) -> (r: usize)
        ensures
            r == count_le(self@, date_time.seconds_since_epoch()),
    {
        let t = date_time.timestamp().seconds;
        self.count_at_or_before(t)
    }

    /// The number of leap seconds at or before the timestamp `t`.
    fn count_at_or_before(&self, t: i64) -> (r: usize)
        ensures
            r == count_le(self@, t as int),
            r <= MAX_LEAP_SECONDS,
    {
        proof {
            use_type_invariant(self);
        }
        let n = self.instants.len();
        let mut count: usize = 0;
        let mut i: usize = 0;
        while i < n
            invariant
                n == self.instants@.len(),
                i <= n,
                count == count_le(self.instants@.subrange(0, i as int), t as int),
                count <= i,
            decreases n - i,
        {
            proof {
                let s = self.instants@.subrange(0, i as int + 1);
                assert(s.drop_last() == self.instants@.subrange(0, i as int));
            }
            if self.instants[i] <= t {
                count = count + 1;
            }
            i = i + 1;
        }
        assert(self.instants@.subrange(0, n as int) == self.instants@);
        count
    }

    /// The offset of UTC from TAI at the UTC date-time `date_time`: minus
    /// ten seconds and one more for each leap second up to it.
    pub fn utc_offset(&self, date_time: NaiveDateTime) -> (r: UtcOffset)
        ensures
            r.offset_seconds == tai_offset(count_le(self@, date_time.seconds_since_epoch()) as int),
    {
        let n = self.leap_seconds_before_inclusive(date_time);
        proof {
            use_type_invariant(self);
            lemma_count_le_monotone(self@, date_time.seconds_since_epoch(), date_time.seconds_since_epoch());
        }
        UtcOffset { offset_seconds: -(TAI_BASE_OFFSET + n as i32) }
    }

    /// The offset under which the TAI date-time `date_time` is read: the
    /// least number of leap seconds that is the count of those up to the UTC
    /// instant it gives. A second of 60 is refused, TAI having no leap
    /// seconds.
    pub fn offset_from_local(&self, date_time: NaiveDateTime) -> (r: Result<
        UtcOffset,
        UnexpectedLeapSecond,
    >)
        ensures
            date_time.time.second == 60 ==> r == Err::<UtcOffset, UnexpectedLeapSecond>(
                UnexpectedLeapSecond { given_dt: date_time },
            ),
            date_time.time.second != 60 ==> exists|n: nat|
                {
                    &&& #[trigger] consistent_count(self@, date_time.seconds_since_epoch(), n as int)
                    &&& n <= self@.len()
                    &&& forall|m: nat|
                        m < n ==> !consistent_count(self@, date_time.seconds_since_epoch(), m as int)
                    &&& r == Ok::<UtcOffset, UnexpectedLeapSecond>(
                        UtcOffset { offset_seconds: tai_offset(n as int) as i32 },
                    )
                },
    {
        if date_time.time.second == 60 {
            return Err(UnexpectedLeapSecond { given_dt: date_time });
        }
        proof {
            use_type_invariant(self);
        }
        let local = date_time.timestamp().seconds;
        let ghost l = local as int;
        proof {
            crate::naive::lemma_day_count_bounds(date_time.date);
            assert(-100_000_000_000_000 <= l <= 100_000_000_000_000);
        }
        // Seed with the count that holds where TAI and UTC read alike, then
        // move to the count of the UTC instant that the last count gives,
        // until it no longer changes.
        let mut n = self.count_at_or_before(local);
        proof {
            lemma_count_le_monotone(self@, l, l - tai_offset(n as int));
            assert forall|m: nat| m < n implies !consistent_count(self@, l, m as int) by {
                lemma_count_le_monotone(self@, l, l - tai_offset(m as int));
            }
        }
        loop
            invariant
                n <= self@.len(),
                self@.len() <= MAX_LEAP_SECONDS,
                n <= count_le(self@, l - tai_offset(n as int)),
                forall|m: nat| m < n ==> !consistent_count(self@, l, m as int),
                l == date_time.seconds_since_epoch(),
                l == local,
                date_time.time.second != 60,
                -100_000_000_000_000 <= l <= 100_000_000_000_000,
            decreases self@.len() - n,
        {
            let next = self.count_at_or_before(local + (TAI_BASE_OFFSET as i64 + n as i64));
            if next == n {
                assert(consistent_count(self@, l, n as int));
                return Ok(UtcOffset { offset_seconds: -(TAI_BASE_OFFSET + n as i32) });
            }
            proof {
                lemma_count_le_monotone(self@, l - tai_offset(n as int), l - tai_offset(next as int));
                assert forall|m: nat| m < next implies !consistent_count(self@, l, m as int) by {
                    if m >= n {
                        lemma_count_le_monotone(self@, l - tai_offset(n as int), l - tai_offset(m as int));
                    }
                }
            }
            n = next;
        }
    }
}

/// The timestamp, in seconds, of the midnight that starts `day`.
fn midnight_timestamp(day: Date) -> (r: i64)
    ensures
        r == midnight_seconds(day),
{
    let midnight = NaiveDateTime {
        date: day,
        time: crate::time::Time { hour: 0, minute: 0, second: 0, nanosecond: 0 },
    };
    midnight.timestamp().seconds
}

impl Clone for LeapSeconds {
    fn clone(&self) -> (r: LeapSeconds)
        ensures
            r@ == self@,
    {
        proof {
            use_type_invariant(self);
        }
        let mut instants: Vec<i64> = Vec::new();
        let mut i: usize = 0;
        while i < self.instants.len()
            invariant
                i <= self.instants@.len(),
                instants@ == self.instants@.subrange(0, i as int),
                strictly_increasing(self.instants@),
                self.instants@.len() <= MAX_LEAP_SECONDS,
            decreases self.instants@.len() - i,
        {
            instants.push(self.instants[i]);
            i = i + 1;
        }
        assert(instants@ == self.instants@);
        LeapSeconds { instants }
    }
}

/// The reader-writer lock of parking_lot (lock_api's `RwLock`), held opaque.
#[verifier::external_type_specification]
#[verifier::external_body]
#[verifier::reject_recursive_types(R)]
#[verifier::reject_recursive_types(T)]
pub struct ExRwLock<R, T: ?Sized>(parking_lot::lock_api::RwLock<R, T>);

/// The raw lock under parking_lot's `RwLock`, held opaque.
#[verifier::external_type_specification]
#[verifier::external_body]
pub struct ExRawRwLock(parking_lot::RawRwLock);

/// Relies on parking_lot::RwLock::new: makes a lock that holds the list.
#[verifier::external_body]
fn new_lock(leap_seconds: LeapSeconds) -> parking_lot::RwLock<LeapSeconds> {
    parking_lot::RwLock::new(leap_seconds)
}

/// Relies on parking_lot::RwLock::read: a copy of the list, taken under the
/// shared lock, so as the list stood between two writes.
#[verifier::external_body]
fn read_snapshot(lock: &parking_lot::RwLock<LeapSeconds>) -> LeapSeconds {
    lock.read().clone()
}

/// Relies on parking_lot::RwLock::upgradable_read and
/// RwLockUpgradableReadGuard::with_upgraded: runs `LeapSeconds::add_instant`
/// on the list with the lock held exclusively.
#[verifier::external_body]
fn add_locked(lock: &parking_lot::RwLock<LeapSeconds>, t: i64) {
    let mut guard = lock.upgradable_read();
    guard.with_upgraded(|leap_seconds| leap_seconds.add_instant(t))
}

/// A list of leap seconds that many threads may read and add to.
pub struct LeapSecondRegistry {
    lock: parking_lot::RwLock<LeapSeconds>,
}

impl LeapSecondRegistry {
    /// A registry with no leap seconds.
    pub fn new() -> (r: LeapSecondRegistry) {
        LeapSecondRegistry { lock: new_lock(LeapSeconds::empty()) }
    }

    /// Adds a leap second for `day`, stored as the timestamp of the midnight
    /// that starts it, under the exclusive lock;
    /// adding one that is there already changes nothing.
    pub fn add_leap_second(&self, day: Date) {
        let t = midnight_timestamp(day);
        add_locked(&self.lock, t);
    }

    /// A copy of the list, taken under the shared lock: as it stood before
    /// or after each addition, never in the middle of one, and so in
    /// strictly increasing order.
    pub fn snapshot(&self) -> (r: LeapSeconds)
        ensures
            strictly_increasing(r@),
            r@.len() <= MAX_LEAP_SECONDS,
    {
        let r = read_snapshot(&self.lock);
        proof {
            use_type_invariant(&r);
        }
        r
    }
}

/// The TAI time scale, whose offsets from UTC come from a registry of leap
/// seconds.
#[derive(Clone)]
pub struct Tai {
    pub registry: Arc<LeapSecondRegistry>,
}

impl Tai {
    pub fn new(registry: Arc<LeapSecondRegistry>) -> (r: Tai)
        ensures
            r.registry == registry,
    {
        Tai { registry }
    }
}

impl TimeZone for Tai {
    type Err = UnexpectedLeapSecond;

    /// Minus ten seconds and one more for each leap second up to `at`, as
    /// the registry holds them when it is read.
    open spec fn gives_offset(&self, at: NaiveDateTime, r: UtcOffset) -> bool {
        is_tai_offset(r)
    }

    /// A second of 60 is refused, and nothing else; an offset given is one
    /// of TAI's.
    open spec fn gives_local_offset(
        &self,
        local: NaiveDateTime,
        r: Result<UtcOffset, UnexpectedLeapSecond>,
    ) -> bool {
        &&& local.time.second == 60 <==> r is Err
        &&& r is Err ==> r == Err::<UtcOffset, UnexpectedLeapSecond>(
            UnexpectedLeapSecond { given_dt: local },
        )
        &&& r matches Ok(offset) ==> is_tai_offset(offset)
    }

    /// Minus ten seconds and one more for each leap second up to `date_time`,
    /// as the registry holds them.
    fn utc_offset(&self, date_time: DateTime<Utc>) -> (r: UtcOffset)
        ensures
            exists|n: nat| r.offset_seconds == tai_offset(n as int),
    {
        let leap_seconds = self.registry.snapshot();
        leap_seconds.utc_offset(date_time.utc_datetime)
    }

    /// As `LeapSeconds::offset_from_local`, on the leap seconds that the
    /// registry holds.
    fn offset_from_local_naive(&self, date_time: NaiveDateTime) -> (r: Result<
        UtcOffset,
        UnexpectedLeapSecond,
    >)
        ensures
            date_time.time.second == 60 <==> r is Err,
            r is Err ==> r == Err::<UtcOffset, UnexpectedLeapSecond>(
                UnexpectedLeapSecond { given_dt: date_time },
            ),
            r matches Ok(offset) ==> exists|n: nat| offset.offset_seconds == tai_offset(n as int),
    {
        let leap_seconds = self.registry.snapshot();
        let r = leap_seconds.offset_from_local(date_time);
        proof {
            if date_time.time.second != 60 {
                let n = choose|n: nat|
                    {
                        &&& #[trigger] consistent_count(
                            leap_seconds@,
                            date_time.seconds_since_epoch(),
                            n as int,
                        )
                        &&& n <= leap_seconds@.len()
                        &&& forall|m: nat|
                            m < n ==> !consistent_count(
                                leap_seconds@,
                                date_time.seconds_since_epoch(),
                                m as int,
                            )
                        &&& r == Ok::<UtcOffset, UnexpectedLeapSecond>(
                            UtcOffset { offset_seconds: tai_offset(n as int) as i32 },
                        )
                    };
                assert(r->Ok_0.offset_seconds == tai_offset(n as int));
            }
        }
        r
    }
}

} // verus!
