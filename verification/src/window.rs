//! Frame time bookkeeping of the plugin window: the durations of the last
//! frames are kept in a ring of sixty slots, and each time the ring wraps
//! around the minimum, maximum and average of its slots are reported.
use std::time::Duration;
use std::time::Instant;
use vstd::prelude::*;

verus! {

#[verifier::external_type_specification]
#[verifier::external_body]
pub struct ExInstant(Instant);

/// The number of frame durations that a measurement keeps.
pub const FRAME_SLOTS: usize = 60;

/// The largest number of microseconds that a `Duration` holds: `u64::MAX`
/// seconds and 999 999 999 nanoseconds.
pub open spec fn max_duration_micros() -> int {
    18446744073709551615999999int
}

/// Reads the clock (`std::time::Instant::now`). Nothing is promised of the
/// instant returned: it depends on the time.
#[verifier::external_body]
fn instant_now() -> Instant {
    Instant::now()
}

/// The duration from the instant `earlier` to the instant `later`: what
/// `std::time::Instant::duration_since` returns for them (zero when
/// `earlier` is the later one).
pub uninterp spec fn duration_between(later: Instant, earlier: Instant) -> Duration;

/// The whole microseconds of the duration `d`: what
/// `std::time::Duration::as_micros` returns for it.
pub uninterp spec fn duration_micros(d: Duration) -> u128;

/// The time from `earlier` to `later` (`std::time::Instant::duration_since`,
/// which saturates at zero). Its result depends on the two instants alone
/// and is named `duration_between`.
#[verifier::external_body]
fn instant_duration_since(later: &Instant, earlier: &Instant) -> (d: Duration)
    ensures
        d == duration_between(*later, *earlier),
{
    later.duration_since(*earlier)
}

/// The whole microseconds of `d` (`std::time::Duration::as_micros`), named
/// `duration_micros`. The documentation bounds a `Duration` by `u64::MAX`
/// seconds and 999 999 999 nanoseconds, which bounds the result.
#[verifier::external_body]
fn duration_as_micros(d: &Duration) -> (r: u128)
    ensures
        r == duration_micros(*d),
        r <= max_duration_micros(),
{
    d.as_micros()
}

/// Minimum, maximum and average of the durations of a full ring, in
/// microseconds.
#[derive(Debug, Clone, Copy, PartialEq, Eq, Structural)]
pub struct FrameTimeStats {
    pub min: u128,
    pub max: u128,
    pub avg: u128,
}

/// The minimum of `s` and `start`.
pub open spec fn seq_min_from(s: Seq<u128>, start: u128) -> u128
    decreases s.len(),
{
    if s.len() == 0 {
        start
    } else {
        let m = seq_min_from(s.drop_last(), start);
        if s.last() < m {
            s.last()
        } else {
            m
        }
    }
}

/// The maximum of `s` and `start`.
pub open spec fn seq_max_from(s: Seq<u128>, start: u128) -> u128
    decreases s.len(),
{
    if s.len() == 0 {
        start
    } else {
        let m = seq_max_from(s.drop_last(), start);
        if s.last() > m {
            s.last()
        } else {
            m
        }
    }
}

/// The sum of `s`.
pub open spec fn seq_sum(s: Seq<u128>) -> int
    decreases s.len(),
{
    if s.len() == 0 {
        0
    } else {
        seq_sum(s.drop_last()) + s.last()
    }
}

/// The report of a full ring `buf`: its minimum (never above 99 999 999),
/// its maximum and its average rounded down.
pub open spec fn ring_stats(buf: Seq<u128>) -> FrameTimeStats {
    FrameTimeStats {
        min: seq_min_from(buf, 99999999),
        max: seq_max_from(buf, 0),
        avg: (seq_sum(buf) / 60) as u128,
    }
}

/// The slot that the next duration is written to after `idx`.
pub open spec fn next_slot(idx: usize) -> usize {
    if idx + 1 >= 60 {
        0
    } else {
        (idx + 1) as usize
    }
}

/// Collects frame durations under a label.
pub struct FrameTimeMeasurement {
    buf: [u128; 60],
    idx: usize,
    cur: Option<Instant>,
    lbl: String,
}

impl FrameTimeMeasurement {
    #[verifier::type_invariant]
    spec fn slots_fit(&self) -> bool {
        &&& self.idx < 60
        &&& forall|i: int| 0 <= i < 60 ==> self.buf[i] <= max_duration_micros()
    }

    /// The durations in the ring, in microseconds.
    pub closed spec fn slots(&self) -> Seq<u128> {
        self.buf@
    }

    /// The slot that was written last.
    pub closed spec fn slot(&self) -> usize {
        self.idx
    }

    /// The instant at which the running measurement started, if one runs.
    pub closed spec fn started_at(&self) -> Option<Instant> {
        self.cur
    }

    /// Whether a measurement is running.
    pub open spec fn measuring(&self) -> bool {
        self.started_at() is Some
    }

    /// The label.
    pub closed spec fn label_view(&self) -> Seq<char> {
        self.lbl@
    }

    /// A measurement with all slots zero, labelled `lbl`.
    pub fn new(lbl: &str) -> (m: Self)
        ensures
            m.slots() == Seq::new(60, |i: int| 0u128),
            m.slot() == 0,
            !m.measuring(),
            m.label_view() == lbl@,
    {
        let m = Self { buf: [0; 60], idx: 0, cur: None, lbl: lbl.to_string() };
        assert(m.slots() =~= Seq::new(60, |i: int| 0u128));
        m
    }

    /// The label of the measurement.
    pub fn label(&self) -> (r: &str)
        ensures
            r@ == self.label_view(),
    {
        self.lbl.as_str()
    }

    /// Starts timing a frame now.
    pub fn start_measure(&mut self)
        ensures
            final(self).measuring(),
            final(self).slots() == old(self).slots(),
            final(self).slot() == old(self).slot(),
            final(self).label_view() == old(self).label_view(),
    {
        proof {
            use_type_invariant(&*self);
        }
        self.cur = Some(instant_now());
    }

    /// Records a frame that took `dur` microseconds in the next slot. When
    /// the ring was full before, the report of the full ring is returned
    /// and the slot wraps around to the first one.
    pub fn record_duration(&mut self, dur: u128) -> (r: Option<FrameTimeStats>)
        requires
            dur <= max_duration_micros(),
        ensures
            r == (if old(self).slot() + 1 >= 60 {
                Some(ring_stats(old(self).slots()))
            } else {
                None
            }),
            final(self).slot() == next_slot(old(self).slot()),
            final(self).slots() == old(self).slots().update(next_slot(old(self).slot()) as int, dur),
            final(self).measuring() == old(self).measuring(),
            final(self).label_view() == old(self).label_view(),
    {
        proof {
            use_type_invariant(&*self);
        }
        let mut report = None;
        if self.idx + 1 >= 60 {
            let mut min: u128 = 99999999;
            let mut max: u128 = 0;
            let mut sum: u128 = 0;
            let mut i: usize = 0;
            while i < 60
                invariant
                    i <= 60,
                    forall|j: int| 0 <= j < 60 ==> self.buf[j] <= max_duration_micros(),
                    min == seq_min_from(self.buf@.take(i as int), 99999999),
                    max == seq_max_from(self.buf@.take(i as int), 0),
                    sum == seq_sum(self.buf@.take(i as int)),
                    sum <= i * max_duration_micros(),
                decreases 60 - i,
            {
                let b = self.buf[i];
                assert(self.buf@.take(i + 1).drop_last() =~= self.buf@.take(i as int));
                if b < min {
                    min = b;
                }
                if b > max {
                    max = b;
                }
                sum = sum + b;
                i = i + 1;
            }
            assert(self.buf@.take(60) =~= self.buf@);
            report = Some(FrameTimeStats { min, max, avg: sum / 60 });
            self.idx = 0;
        } else {
            self.idx = self.idx + 1;
        }
        self.buf[self.idx] = dur;
        report
    }

    /// Ends timing the current frame: records, as by [`Self::record_duration`],
    /// the microseconds from the instant the measurement started to the
    /// clock reading taken now. Without a running measurement nothing
    /// changes.
    pub fn end_measure(&mut self) -> (r: Option<FrameTimeStats>)
        ensures
            !old(self).measuring() ==> r is None && *final(self) == *old(self),
            old(self).started_at() matches Some(start) ==> !final(self).measuring() && exists|
                now: Instant,
            |
                {
                    let dur = #[trigger] duration_micros(duration_between(now, start));
                    &&& dur <= max_duration_micros()
                    &&& r == (if old(self).slot() + 1 >= 60 {
                        Some(ring_stats(old(self).slots()))
                    } else {
                        None
                    })
                    &&& final(self).slot() == next_slot(old(self).slot())
                    &&& final(self).slots() == old(self).slots().update(
                        next_slot(old(self).slot()) as int,
                        dur,
                    )
                },
            final(self).label_view() == old(self).label_view(),
    {
        proof {
            use_type_invariant(&*self);
        }
        let start = self.cur;
        if let Some(start) = start {
            let now = instant_now();
            let elapsed = instant_duration_since(&now, &start);
            self.cur = None;
            assert(self.slots() == old(self).slots() && self.slot() == old(self).slot());
            let dur = duration_as_micros(&elapsed);
            let r = self.record_duration(dur);
            assert(dur == duration_micros(duration_between(now, start)));
            r
        } else {
            None
        }
    }
}

} // verus!
