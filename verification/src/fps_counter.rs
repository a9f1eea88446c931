//! The rate estimator: the average time between arrivals.

use std::collections::VecDeque;
use vstd::prelude::*;

verus! {

/// The number of nanoseconds in a second.
pub const NANOS_PER_SEC: u32 = 1_000_000_000;

/// A span of time in seconds and the nanoseconds below the second.
#[derive(Debug, Copy, Clone, PartialEq, Eq, Hash, Structural)]
pub struct TimeSpan {
    pub secs: u64,
    pub nanos: u32,
}

impl TimeSpan {
    /// The span in nanoseconds.
    pub open spec fn total_nanos(self) -> nat {
        (self.secs as nat) * 1_000_000_000 + self.nanos as nat
    }

    /// The span of `secs` seconds and `nanos` nanoseconds. Whole seconds
    /// among the nanoseconds are carried over.
    pub fn new(secs: u64, nanos: u32) -> (span: TimeSpan)
        requires
            secs + nanos / NANOS_PER_SEC <= u64::MAX,
        ensures
            span.nanos < NANOS_PER_SEC,
            span.total_nanos() == (secs as nat) * 1_000_000_000 + nanos as nat,
            nanos < NANOS_PER_SEC ==> span == (TimeSpan { secs, nanos }),
    {
        let carry: u32 = nanos / NANOS_PER_SEC;
        TimeSpan { secs: secs + carry as u64, nanos: nanos % NANOS_PER_SEC }
    }

    /// The span of no time.
    pub fn zero() -> (span: TimeSpan)
        ensures
            span == (TimeSpan { secs: 0, nanos: 0 }),
    {
        TimeSpan { secs: 0, nanos: 0 }
    }

    /// The whole seconds of the span.
    pub fn as_secs(&self) -> (secs: u64)
        ensures
            secs == self.secs,
    {
        self.secs
    }

    /// The nanoseconds below the second.
    pub fn subsec_nanos(&self) -> (nanos: u32)
        ensures
            nanos == self.nanos,
    {
        self.nanos
    }
}

/// The span of a number of nanoseconds.
pub open spec fn span_of_nanos(nanos: nat) -> TimeSpan {
    TimeSpan { secs: (nanos / 1_000_000_000) as u64, nanos: (nanos % 1_000_000_000) as u32 }
}

/// The code of a span: the whole seconds, at most `u32::MAX` of them, in the
/// upper 32 bits and the nanoseconds below the second in the lower 32 bits.
pub open spec fn time_code(span: TimeSpan) -> u64 {
    let secs: nat = if span.secs > 0xFFFF_FFFF {
        0xFFFF_FFFF
    } else {
        span.secs as nat
    };
    (secs * 0x1_0000_0000 + span.nanos as nat) as u64
}

/// The span of a code: its upper 32 bits as seconds and its lower 32 bits
/// as nanoseconds, whole seconds among them carried over.
pub open spec fn coded_time(code: u64) -> TimeSpan {
    let secs = code as nat / 0x1_0000_0000;
    let nanos = code as nat % 0x1_0000_0000;
    TimeSpan {
        secs: (secs + nanos / 1_000_000_000) as u64,
        nanos: (nanos % 1_000_000_000) as u32,
    }
}

/// A span of at most `u32::MAX` seconds survives coding and decoding.
pub proof fn lemma_time_code_round_trip(span: TimeSpan)
    requires
        span.secs <= 0xFFFF_FFFF,
        span.nanos < NANOS_PER_SEC,
    ensures
        coded_time(time_code(span)) == span,
{
}

/// The time from `older` to `newer`; none where the clock went back.
pub open spec fn gap(newer: u64, older: u64) -> nat {
    if newer >= older {
        (newer - older) as nat
    } else {
        0
    }
}

/// The sum of the times between neighbours in a list of arrival times, the
/// latest first.
pub open spec fn total_gap(stamps: Seq<u64>) -> nat
    decreases stamps.len(),
{
    if stamps.len() < 2 {
        0
    } else {
        total_gap(stamps.drop_last()) + gap(
            stamps[stamps.len() - 2],
            stamps[stamps.len() - 1],
        )
    }
}

/// The mean of the times between neighbours in a list of arrival times, in
/// whole nanoseconds; zero where there are fewer than two arrivals.
pub open spec fn average_gap(stamps: Seq<u64>) -> nat {
    if stamps.len() < 2 {
        0
    } else {
        total_gap(stamps) / ((stamps.len() - 1) as nat)
    }
}

/// The list of arrival times after an arrival at `now`: the new time in
/// front, and of the older ones as many as the capacity leaves room for.
pub open spec fn recorded(stamps: Seq<u64>, capacity: nat, now: u64) -> Seq<u64> {
    let all = seq![now] + stamps;
    if all.len() <= capacity {
        all
    } else {
        all.take(capacity as int)
    }
}

/// The sum of the gaps is at most the largest gap times their number.
pub proof fn lemma_total_gap_bound(stamps: Seq<u64>)
    ensures
        stamps.len() >= 1 ==> total_gap(stamps) <= (stamps.len() - 1) * 0xFFFF_FFFF_FFFF_FFFF,
        stamps.len() < 1 ==> total_gap(stamps) == 0,
    decreases stamps.len(),
{
    if stamps.len() >= 2 {
        lemma_total_gap_bound(stamps.drop_last());
    }
}

/// `tokio::time::Instant`, carried through as it is.
#[verifier::external_type_specification]
#[verifier::external_body]
pub struct ExInstant(tokio::time::Instant);

/// `tokio::time::Instant::now`: the time of the call, of which nothing is
/// known beforehand.
#[verifier::external_body]
fn clock_now() -> tokio::time::Instant {
    tokio::time::Instant::now()
}

/// `tokio::time::Instant::elapsed` in whole nanoseconds: the time since
/// `origin`, of which nothing is known beforehand.
#[verifier::external_body]
fn elapsed_nanos(origin: &tokio::time::Instant) -> u64 {
    origin.elapsed().as_nanos() as u64
}

/// What a rate estimator holds: the latest arrival times in nanoseconds, the
/// latest first; how many of them it keeps; and the code of their average
/// distance.
pub struct FpsCounterView {
    pub stamps: Seq<u64>,
    pub capacity: nat,
    pub code: u64,
}

/// The estimator after an arrival at `now`.
pub open spec fn marked(state: FpsCounterView, now: u64) -> FpsCounterView {
    let stamps = recorded(state.stamps, state.capacity, now);
    FpsCounterView {
        stamps,
        capacity: state.capacity,
        code: time_code(span_of_nanos(average_gap(stamps))),
    }
}

/// Estimates the rate of arrivals from the times of the latest arrivals.
#[derive(Debug)]
pub struct FpsCounter {
    origin: tokio::time::Instant,
    capacity: usize,
    buffer: VecDeque<u64>,
    fps: u64,
}

impl View for FpsCounter {
    type V = FpsCounterView;

    closed spec fn view(&self) -> FpsCounterView {
        FpsCounterView { stamps: self.buffer@, capacity: self.capacity as nat, code: self.fps }
    }
}

impl Default for FpsCounter {
    /// An estimator over the latest 100 arrivals.
    fn default() -> (counter: FpsCounter)
        ensures
            counter@ == (FpsCounterView { stamps: Seq::<u64>::empty(), capacity: 100, code: 0 }),
    {
        FpsCounter::new(100)
    }
}

impl FpsCounter {
    /// An estimator over the latest `capacity` arrivals, which has seen none.
    pub fn new(capacity: usize) -> (counter: FpsCounter)
        ensures
            counter@ == (FpsCounterView {
                stamps: Seq::<u64>::empty(),
                capacity: capacity as nat,
                code: 0,
            }),
    {
        FpsCounter { origin: clock_now(), capacity, buffer: VecDeque::new(), fps: 0 }
    }

    /// The time on the estimator's clock, in nanoseconds since the estimator
    /// was made. The clock decides: nothing is known of the time beforehand.
    pub fn now(&self) -> u64 {
        elapsed_nanos(&self.origin)
    }

    /// Records an arrival now. The time is read from the clock: the
    /// estimator is then as after an arrival at some time.
    pub fn increment(&mut self)
        ensures
            exists|now: u64| final(self)@ == marked(old(self)@, now),
    {
        let now = elapsed_nanos(&self.origin);
        self.increment_at(now);
    }

    /// Records an arrival at `now`, a time in nanoseconds on a clock that
    /// does not go back.
    pub fn increment_at(&mut self, now: u64)
        ensures
            final(self)@ == marked(old(self)@, now),
    {
        self.buffer.push_front(now);
        self.buffer.truncate(self.capacity);
        assert(self.buffer@ =~= recorded(old(self).buffer@, self.capacity as nat, now));
        let average = self.average_nanos();
        let span = TimeSpan::new(average / NANOS_PER_SEC as u64, (average % NANOS_PER_SEC as u64) as u32);
        self.fps = FpsCounter::encode(span);
    }

    /// The mean time between neighbouring arrivals, in nanoseconds.
    fn average_nanos(&self) -> (average: u64)
        ensures
            average == average_gap(self.buffer@),
    {
        let len = self.buffer.len();
        if len < 2 {
            return 0;
        }
        let mut total: u128 = 0;
        let mut next: usize = 1;
        while next < len
            invariant
                1 <= next <= len,
                len == self.buffer@.len(),
                total == total_gap(self.buffer@.take(next as int)),
            decreases len - next,
        {
            let newer = self.buffer[next - 1];
            let older = self.buffer[next];
            let between: u64 = if newer >= older {
                newer - older
            } else {
                0
            };
            proof {
                let head = self.buffer@.take(next + 1);
                assert(head.drop_last() =~= self.buffer@.take(next as int));
                lemma_total_gap_bound(self.buffer@.take(next as int));
                assert((next - 1) * 0xFFFF_FFFF_FFFF_FFFF + 0xFFFF_FFFF_FFFF_FFFF
                    <= 0xFFFF_FFFF_FFFF_FFFF * 0xFFFF_FFFF_FFFF_FFFF) by (nonlinear_arith)
                    requires
                        1 <= next <= 0xFFFF_FFFF_FFFF_FFFF,
                ;
            }
            total = total + between as u128;
            next = next + 1;
        }
        assert(self.buffer@.take(len as int) =~= self.buffer@);
        let count: u128 = (len - 1) as u128;
        let average: u128 = total / count;
        proof {
            lemma_total_gap_bound(self.buffer@);
            assert(average <= 0xFFFF_FFFF_FFFF_FFFF) by (nonlinear_arith)
                requires
                    count >= 1,
                    total <= count * 0xFFFF_FFFF_FFFF_FFFF,
                    average == total / count,
            ;
        }
        average as u64
    }

    /// The average time between arrivals; zero before the second arrival.
    pub fn fps(&self) -> (span: TimeSpan)
        ensures
            span == coded_time(self@.code),
    {
        FpsCounter::decode(self.fps)
    }

    /// The arrival times that the estimator holds, the latest first.
    pub fn stamps(&self) -> (stamps: Vec<u64>)
        ensures
            stamps@ == self@.stamps,
    {
        let mut stamps: Vec<u64> = Vec::new();
        let mut next: usize = 0;
        while next < self.buffer.len()
            invariant
                next <= self.buffer@.len(),
                stamps@ == self.buffer@.take(next as int),
            decreases self.buffer@.len() - next,
        {
            stamps.push(self.buffer[next]);
            next = next + 1;
        }
        stamps
    }

    /// Codes a span into one integer: the whole seconds, at most `u32::MAX`
    /// of them, in the upper 32 bits, and the nanoseconds below the second
    /// in the lower 32 bits.
    pub fn encode(duration: TimeSpan) -> (code: u64)
        ensures
            code == time_code(duration),
    {
        let seconds: u64 = if duration.secs > 0xFFFF_FFFF {
            0xFFFF_FFFF
        } else {
            duration.secs
        };
        let sub_nanos: u64 = duration.nanos as u64;
        assert(((seconds << 32) | (sub_nanos & 0xFFFF_FFFF)) == seconds * 0x1_0000_0000 + sub_nanos)
            by (bit_vector)
            requires
                seconds <= 0xFFFF_FFFF,
                sub_nanos <= 0xFFFF_FFFF,
        ;
        (seconds << 32) | (sub_nanos & 0xFFFF_FFFF)
    }

    /// The span that a code stands for.
    pub fn decode(code: u64) -> (duration: TimeSpan)
        ensures
            duration == coded_time(code),
    {
        let seconds: u64 = (code >> 32) & 0xFFFF_FFFF;
        let sub_nanos: u64 = code & 0xFFFF_FFFF;
        assert(((code >> 32) & 0xFFFF_FFFF) == code / 0x1_0000_0000) by (bit_vector);
        assert((code & 0xFFFF_FFFF) == code % 0x1_0000_0000) by (bit_vector);
        TimeSpan::new(seconds, sub_nanos as u32)
    }
}

} // verus!
