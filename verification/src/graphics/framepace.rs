//! Frame timing statistics used to schedule GPU uploads.
use std::time::{Duration, Instant};

use vstd::prelude::*;

verus! {

#[verifier::external_type_specification]
#[verifier::external_body]
pub struct ExInstant(Instant);

/// Number of frames the pacer averages over.
pub const FRAME_WINDOW: usize = 8;

/// Initial frame time of every slot (16 ms) in nanoseconds.
pub const INITIAL_FRAME_NANOS: u128 = 16_000_000;

/// The longest duration std can represent, in nanoseconds.
pub const MAX_DURATION_NANOS: u128 = 18_446_744_073_709_551_615_999_999_999;

/// Calls `Instant::now`. Nothing is promised of the instant it returns, since
/// it reads the system clock.
#[verifier::external_body]
fn instant_now() -> Instant {
    Instant::now()
}

/// Calls `Instant::duration_since`. The result depends on the two clock
/// readings, so nothing is promised of it.
#[verifier::external_body]
fn instant_duration_since(later: &Instant, earlier: &Instant) -> Duration {
    later.duration_since(*earlier)
}

/// Calls `Duration::as_nanos`, the total number of nanoseconds of a duration,
/// which std documents as fitting a `u128`; a duration is at most
/// `u64::MAX` seconds and 999 999 999 nanoseconds, so the total is at most
/// [`MAX_DURATION_NANOS`].
#[verifier::external_body]
fn duration_as_nanos(duration: &Duration) -> (nanos: u128)
    ensures
        nanos <= MAX_DURATION_NANOS,
{
    duration.as_nanos()
}

/// Sum of the first `n` frame times.
pub open spec fn sum_frame_times(times: Seq<u128>, n: int) -> int
    decreases n,
{
    if n <= 0 {
        0
    } else {
        sum_frame_times(times, n - 1) + times[n - 1]
    }
}

/// The average frame time of a window of frame times, rounded down.
pub open spec fn average_of(times: Seq<u128>) -> int {
    sum_frame_times(times, times.len() as int) / (FRAME_WINDOW as int)
}

/// `a - b`, or zero when `b` is not smaller than `a`.
pub open spec fn saturating_difference(a: int, b: int) -> int {
    if a > b {
        a - b
    } else {
        0
    }
}

/// Tracks frame timing and provides pacing information for GPU upload
/// scheduling. Frame times are kept in nanoseconds in a ring of
/// [`FRAME_WINDOW`] slots.
pub struct UploadPacer {
    frame_times: Vec<u128>,
    frame_index: usize,
    last_frame_start: Instant,
}

impl UploadPacer {
    /// The recorded frame times (nanoseconds), slot by slot.
    pub closed spec fn frame_times(&self) -> Seq<u128> {
        self.frame_times@
    }

    /// The number of frames recorded so far.
    pub closed spec fn frame_count(&self) -> nat {
        self.frame_index as nat
    }

    /// The ring always has [`FRAME_WINDOW`] slots.
    pub closed spec fn wf(&self) -> bool {
        self.frame_times@.len() == FRAME_WINDOW
    }

    /// A well-formed pacer has [`FRAME_WINDOW`] slots.
    pub proof fn lemma_wf_len(&self)
        requires
            self.wf(),
        ensures
            self.frame_times().len() == FRAME_WINDOW,
    {
    }

}

impl Default for UploadPacer {
    /// Creates a pacer whose slots all hold 16 ms, starting the current frame
    /// now.
    fn default() -> (pacer: Self)
        ensures
            pacer.wf(),
            pacer.frame_count() == 0,
            pacer.frame_times().len() == FRAME_WINDOW,
            forall|i: int| 0 <= i < FRAME_WINDOW ==> pacer.frame_times()[i] == INITIAL_FRAME_NANOS,
            pacer.frame_times() == ring_after(Seq::empty()),
            sum_frame_times(pacer.frame_times(), FRAME_WINDOW as int) == FRAME_WINDOW
                * INITIAL_FRAME_NANOS,
            average_of(pacer.frame_times()) == INITIAL_FRAME_NANOS,
    {
        let mut frame_times: Vec<u128> = Vec::new();
        let mut i: usize = 0;
        while i < FRAME_WINDOW
            invariant
                i <= FRAME_WINDOW,
                frame_times@.len() == i,
                forall|j: int| 0 <= j < i ==> frame_times@[j] == INITIAL_FRAME_NANOS,
            decreases FRAME_WINDOW - i,
        {
            frame_times.push(INITIAL_FRAME_NANOS);
            i += 1;
        }
        proof {
            assert(frame_times@ =~= ring_after(Seq::empty()));
            law_ring_sum(Seq::empty());
            law_average_of_recent_frames(Seq::empty());
        }
        Self { frame_times, frame_index: 0, last_frame_start: instant_now() }
    }
}

impl UploadPacer {
    /// Records `frame_nanos` as the time of the frame that just ended and
    /// `now` as the start of the next one.
    pub fn record_frame(&mut self, frame_nanos: u128, now: Instant)
        requires
            old(self).wf(),
            old(self).frame_count() < usize::MAX,
        ensures
            final(self).wf(),
            records_frame(*old(self), *final(self), frame_nanos),
    {
        let slot = self.frame_index % FRAME_WINDOW;
        self.frame_times.set(slot, frame_nanos);
        self.frame_index = self.frame_index + 1;
        self.last_frame_start = now;
    }

    /// Record the start of a new frame: the time since the previous frame
    /// started goes into the next slot of the ring.
    pub fn begin_frame(&mut self)
        requires
            old(self).wf(),
            old(self).frame_count() < usize::MAX,
        ensures
            final(self).wf(),
            final(self).frame_count() == old(self).frame_count() + 1,
            final(self).frame_times()[(old(self).frame_count() % (FRAME_WINDOW as nat)) as int]
                <= MAX_DURATION_NANOS,
            forall|i: int|
                0 <= i < FRAME_WINDOW && i != (old(self).frame_count() % (FRAME_WINDOW as nat)) as int
                    ==> #[trigger] final(self).frame_times()[i] == old(self).frame_times()[i],
            records_frame(
                *old(self),
                *final(self),
                final(self).frame_times()[(old(self).frame_count() % (FRAME_WINDOW as nat)) as int],
            ),
    {
        let now = instant_now();
        let frame_time = instant_duration_since(&now, &self.last_frame_start);
        let nanos = duration_as_nanos(&frame_time);
        self.record_frame(nanos, now);
    }

    /// Returns the average frame time over the last [`FRAME_WINDOW`] frames
    /// in nanoseconds, rounded down. Summing the frame times must not exceed
    /// the longest duration std can represent.
    pub fn average_frame_time(&self) -> (nanos: u128)
        requires
            self.wf(),
            sum_frame_times(self.frame_times(), FRAME_WINDOW as int) <= MAX_DURATION_NANOS,
        ensures
            nanos == average_of(self.frame_times()),
    {
        let mut total: u128 = 0;
        let mut i: usize = 0;
        while i < FRAME_WINDOW
            invariant
                i <= FRAME_WINDOW,
                self.frame_times@.len() == FRAME_WINDOW,
                total == sum_frame_times(self.frame_times@, i as int),
                sum_frame_times(self.frame_times@, FRAME_WINDOW as int) <= MAX_DURATION_NANOS,
            decreases FRAME_WINDOW - i,
        {
            proof {
                lemma_sum_frame_times_monotonic(self.frame_times@, i as int + 1, FRAME_WINDOW as int);
            }
            total = total + self.frame_times[i];
            i += 1;
        }
        total / (FRAME_WINDOW as u128)
    }

    /// The average frame time, as [`average_frame_time`](Self::average_frame_time)
    /// gives it, or `None` where the total of the frame times is beyond the
    /// longest duration std can represent (where summing them overflows).
    pub fn checked_average_frame_time(&self) -> (nanos: Option<u128>)
        requires
            self.wf(),
        ensures
            match nanos {
                Some(n) => sum_frame_times(self.frame_times(), FRAME_WINDOW as int) <= MAX_DURATION_NANOS
                    && n == average_of(self.frame_times()),
                None => sum_frame_times(self.frame_times(), FRAME_WINDOW as int) > MAX_DURATION_NANOS,
            },
    {
        let mut total: u128 = 0;
        let mut i: usize = 0;
        while i < FRAME_WINDOW
            invariant
                i <= FRAME_WINDOW,
                self.frame_times@.len() == FRAME_WINDOW,
                total == sum_frame_times(self.frame_times@, i as int),
                total <= MAX_DURATION_NANOS,
            decreases FRAME_WINDOW - i,
        {
            let time = self.frame_times[i];
            if time > MAX_DURATION_NANOS - total {
                proof {
                    lemma_sum_frame_times_monotonic(self.frame_times@, i as int + 1, FRAME_WINDOW as int);
                }
                return None;
            }
            total = total + time;
            i += 1;
        }
        Some(self.average_frame_time())
    }

    /// Returns the time elapsed since the current frame started, in
    /// nanoseconds.
    pub fn elapsed_this_frame(&self) -> (nanos: u128)
        ensures
            nanos <= MAX_DURATION_NANOS,
    {
        let now = instant_now();
        let elapsed = instant_duration_since(&now, &self.last_frame_start);
        duration_as_nanos(&elapsed)
    }

    /// The frame budget left after `elapsed_nanos` of the current frame: the
    /// average frame time minus the elapsed time, or zero once it is used up.
    pub fn remaining_budget_after(&self, elapsed_nanos: u128) -> (nanos: u128)
        requires
            self.wf(),
            sum_frame_times(self.frame_times(), FRAME_WINDOW as int) <= MAX_DURATION_NANOS,
        ensures
            nanos == saturating_difference(average_of(self.frame_times()), elapsed_nanos as int),
    {
        let average = self.average_frame_time();
        if average > elapsed_nanos {
            average - elapsed_nanos
        } else {
            0
        }
    }

    /// Returns how much frame budget remains (based on the average frame
    /// time), in nanoseconds.
    pub fn remaining_budget(&self) -> (nanos: u128)
        requires
            self.wf(),
            sum_frame_times(self.frame_times(), FRAME_WINDOW as int) <= MAX_DURATION_NANOS,
        ensures
            nanos <= average_of(self.frame_times()),
            average_of(self.frame_times()) - nanos <= MAX_DURATION_NANOS,
    {
        let elapsed = self.elapsed_this_frame();
        proof {
            lemma_sum_frame_times_monotonic(self.frame_times@, 0, FRAME_WINDOW as int);
        }
        self.remaining_budget_after(elapsed)
    }
}

/// Partial sums of frame times lie between `n * low` and `n * high` when every
/// frame time lies between `low` and `high`.
pub proof fn lemma_sum_frame_times_bounds(times: Seq<u128>, n: int, low: int, high: int)
    requires
        0 <= n <= times.len(),
        forall|i: int| 0 <= i < times.len() ==> low <= #[trigger] times[i] <= high,
    ensures
        n * low <= sum_frame_times(times, n) <= n * high,
    decreases n,
{
    if n > 0 {
        lemma_sum_frame_times_bounds(times, n - 1, low, high);
        assert(n * low == (n - 1) * low + low) by (nonlinear_arith);
        assert(n * high == (n - 1) * high + high) by (nonlinear_arith);
        assert(low <= times[n - 1] <= high);
    } else {
        assert(n * low == 0 && n * high == 0) by (nonlinear_arith) requires n == 0;
    }
}

/// The average frame time lies between the shortest and the longest frame
/// time in the window; in particular a window of equal frame times averages
/// to exactly that frame time.
pub proof fn law_average_within_frame_times(times: Seq<u128>, low: int, high: int)
    requires
        times.len() == FRAME_WINDOW,
        forall|i: int| 0 <= i < times.len() ==> low <= #[trigger] times[i] <= high,
    ensures
        low <= average_of(times) <= high,
{
    lemma_sum_frame_times_bounds(times, FRAME_WINDOW as int, low, high);
    let total = sum_frame_times(times, FRAME_WINDOW as int);
    assert(8 * low <= total <= 8 * high);
    assert(low <= total / 8 <= high) by (nonlinear_arith)
        requires
            8 * low <= total <= 8 * high,
    ;
}

/// A partial sum never exceeds a longer partial sum.
pub proof fn lemma_sum_frame_times_monotonic(times: Seq<u128>, a: int, b: int)
    requires
        0 <= a <= b <= times.len(),
    ensures
        sum_frame_times(times, a) <= sum_frame_times(times, b),
    decreases b - a,
{
    if a < b {
        lemma_sum_frame_times_monotonic(times, a, b - 1);
    }
}

/// The ring of frame times of a new pacer after the frame times `frames`
/// were recorded into it, in order: the `i`-th goes into slot `i` modulo
/// [`FRAME_WINDOW`], over what the slot held.
pub open spec fn ring_after(frames: Seq<u128>) -> Seq<u128>
    decreases frames.len(),
{
    if frames.len() == 0 {
        Seq::new(FRAME_WINDOW as nat, |i: int| INITIAL_FRAME_NANOS)
    } else {
        ring_after(frames.drop_last()).update(
            (frames.len() - 1) % (FRAME_WINDOW as int),
            frames.last(),
        )
    }
}

/// The total of the last [`FRAME_WINDOW`] of the frame times `frames`,
/// where a frame not yet recorded counts as 16 ms.
pub open spec fn recent_total(frames: Seq<u128>) -> int {
    let n = frames.len() as int;
    if n < FRAME_WINDOW {
        sum_frame_times(frames, n) + (FRAME_WINDOW - n) * INITIAL_FRAME_NANOS
    } else {
        sum_frame_times(frames, n) - sum_frame_times(frames, n - FRAME_WINDOW)
    }
}

/// Recording a frame time puts it into the slot that the number of frames
/// recorded before it names.
pub proof fn law_record_frame_steps_ring(frames: Seq<u128>, frame_nanos: u128)
    ensures
        ring_after(frames.push(frame_nanos)) == ring_after(frames).update(
            (frames.len() as int) % (FRAME_WINDOW as int),
            frame_nanos,
        ),
{
    assert(frames.push(frame_nanos).drop_last() =~= frames);
}

/// The ring always has [`FRAME_WINDOW`] slots.
pub proof fn lemma_ring_len(frames: Seq<u128>)
    ensures
        ring_after(frames).len() == FRAME_WINDOW,
    decreases frames.len(),
{
    if frames.len() > 0 {
        lemma_ring_len(frames.drop_last());
    }
}

/// Changing slot `k` to `v` changes a partial sum that covers it by the
/// difference.
proof fn lemma_sum_update(s: Seq<u128>, k: int, v: u128, n: int)
    requires
        0 <= n <= s.len(),
        0 <= k < s.len(),
    ensures
        sum_frame_times(s.update(k, v), n) == sum_frame_times(s, n) + (if k < n {
            v - s[k]
        } else {
            0
        }),
    decreases n,
{
    if n > 0 {
        lemma_sum_update(s, k, v, n - 1);
    }
}

/// Appending a frame time leaves the partial sums of what was there.
proof fn lemma_sum_push_prefix(s: Seq<u128>, f: u128, m: int)
    requires
        0 <= m <= s.len(),
    ensures
        sum_frame_times(s.push(f), m) == sum_frame_times(s, m),
    decreases m,
{
    if m > 0 {
        lemma_sum_push_prefix(s, f, m - 1);
    }
}

/// The slot that the `i`-th frame time goes into.
spec fn slot_of(i: int) -> int {
    i % (FRAME_WINDOW as int)
}

/// Slot `k` keeps its value while frames whose index does not fall on it
/// are recorded.
proof fn lemma_ring_slot_kept(frames: Seq<u128>, a: int, b: int, k: int)
    requires
        0 <= a <= b <= frames.len(),
        0 <= k < FRAME_WINDOW,
        forall|i: int| a <= i < b ==> #[trigger] slot_of(i) != k,
    ensures
        ring_after(frames.take(b))[k] == ring_after(frames.take(a))[k],
    decreases b - a,
{
    if a < b {
        lemma_ring_slot_kept(frames, a, b - 1, k);
        assert(frames.take(b).drop_last() =~= frames.take(b - 1));
        lemma_ring_len(frames.take(b - 1));
        assert(slot_of(b - 1) != k);
    }
}

/// The slot that the next frame goes into holds the frame recorded
/// [`FRAME_WINDOW`] frames before it, or 16 ms where there was none.
proof fn lemma_ring_replaced(frames: Seq<u128>)
    ensures
        ring_after(frames)[(frames.len() as int) % (FRAME_WINDOW as int)] == (if frames.len()
            < FRAME_WINDOW {
            INITIAL_FRAME_NANOS
        } else {
            frames[frames.len() - FRAME_WINDOW]
        }),
{
    let n = frames.len() as int;
    let k = n % (FRAME_WINDOW as int);
    assert(frames.take(n) =~= frames);
    if n < FRAME_WINDOW {
        assert forall|i: int| 0 <= i < n implies slot_of(i) != k by {}
        lemma_ring_slot_kept(frames, 0, n, k);
        assert(frames.take(0) =~= Seq::<u128>::empty());
    } else {
        let a = n - 7;
        assert forall|i: int| a <= i < n implies slot_of(i) != k by {}
        lemma_ring_slot_kept(frames, a, n, k);
        assert(frames.take(a).drop_last() =~= frames.take(n - 8));
        lemma_ring_len(frames.take(n - 8));
        assert((n - 8) % (FRAME_WINDOW as int) == k);
    }
}

/// The ring holds the last [`FRAME_WINDOW`] frame times recorded (16 ms
/// for each not yet recorded): its total is their total.
pub proof fn law_ring_sum(frames: Seq<u128>)
    ensures
        ring_after(frames).len() == FRAME_WINDOW,
        sum_frame_times(ring_after(frames), FRAME_WINDOW as int) == recent_total(frames),
    decreases frames.len(),
{
    lemma_ring_len(frames);
    if frames.len() == 0 {
        let ring = ring_after(frames);
        lemma_sum_frame_times_bounds(
            ring,
            FRAME_WINDOW as int,
            INITIAL_FRAME_NANOS as int,
            INITIAL_FRAME_NANOS as int,
        );
    } else {
        let prev = frames.drop_last();
        let f = frames.last();
        let m = prev.len() as int;
        assert(prev.push(f) =~= frames);
        law_ring_sum(prev);
        lemma_ring_replaced(prev);
        lemma_sum_update(ring_after(prev), m % (FRAME_WINDOW as int), f, FRAME_WINDOW as int);
        lemma_sum_push_prefix(prev, f, m);
        if m >= 7 {
            lemma_sum_push_prefix(prev, f, m - 7);
        }
    }
}

/// The average frame time is the average of the last [`FRAME_WINDOW`]
/// frame times recorded, a frame not yet recorded counting as 16 ms.
pub proof fn law_average_of_recent_frames(frames: Seq<u128>)
    ensures
        average_of(ring_after(frames)) == recent_total(frames) / (FRAME_WINDOW as int),
{
    law_ring_sum(frames);
}

/// Whether `after` is `before` with the frame time `frame_nanos`
/// recorded: it goes into the slot that the number of frames recorded
/// before names, and one more frame is counted.
pub open spec fn records_frame(before: UploadPacer, after: UploadPacer, frame_nanos: u128) -> bool {
    &&& after.frame_count() == before.frame_count() + 1
    &&& after.frame_times() == before.frame_times().update(
        (before.frame_count() % (FRAME_WINDOW as nat)) as int,
        frame_nanos,
    )
}

/// After the frame times `frames` were recorded, in order, into a new
/// pacer, its ring holds them as [`ring_after`] says, and its average frame
/// time is the average of the last [`FRAME_WINDOW`] of them, a frame not
/// yet recorded counting as 16 ms. `pacers` are the pacer when new and
/// after each frame.
pub proof fn law_average_over_recorded_frames(pacers: Seq<UploadPacer>, frames: Seq<u128>)
    requires
        pacers.len() == frames.len() + 1,
        pacers[0].frame_count() == 0,
        pacers[0].frame_times() == ring_after(Seq::empty()),
        forall|k: int| 0 <= k < frames.len() ==> records_frame(#[trigger] pacers[k], pacers[k + 1], frames[k]),
    ensures
        pacers.last().frame_count() == frames.len(),
        pacers.last().frame_times() == ring_after(frames),
        average_of(pacers.last().frame_times()) == recent_total(frames) / (FRAME_WINDOW as int),
{
    lemma_recorded_prefix(pacers, frames, frames.len() as int);
    assert(frames.take(frames.len() as int) =~= frames);
    assert(pacers.last() == pacers[frames.len() as int]);
    law_average_of_recent_frames(frames);
}

proof fn lemma_recorded_prefix(pacers: Seq<UploadPacer>, frames: Seq<u128>, n: int)
    requires
        pacers.len() == frames.len() + 1,
        0 <= n <= frames.len(),
        pacers[0].frame_count() == 0,
        pacers[0].frame_times() == ring_after(Seq::empty()),
        forall|k: int| 0 <= k < frames.len() ==> records_frame(#[trigger] pacers[k], pacers[k + 1], frames[k]),
    ensures
        pacers[n].frame_count() == n,
        pacers[n].frame_times() == ring_after(frames.take(n)),
    decreases n,
{
    if n == 0 {
        assert(frames.take(0) =~= Seq::<u128>::empty());
    } else {
        lemma_recorded_prefix(pacers, frames, n - 1);
        assert(records_frame(pacers[n - 1], pacers[n], frames[n - 1]));
        law_record_frame_steps_ring(frames.take(n - 1), frames[n - 1]);
        assert(frames.take(n - 1).push(frames[n - 1]) =~= frames.take(n));
    }
}

} // verus!
