//! Frame timing: statistics of render times, periodic reports and pacing.
//!
//! All times are in milliseconds.

use vstd::prelude::*;

verus! {

/// The number of render times that are remembered.
pub const MAX_SAMPLES: usize = 1000;

/// The time between two reports.
pub const LOG_INTERVAL_MS: isize = 30_000;

/// The time that a frame takes, in whole milliseconds.
pub const FRAME_TIME_MS: isize = 16;

/// The order of the integers.
pub open spec fn ascending() -> spec_fn(isize, isize) -> bool {
    |a: isize, b: isize| a <= b
}

/// The samples in ascending order.
pub open spec fn in_order(samples: Seq<isize>) -> Seq<isize> {
    samples.sort_by(ascending())
}

/// The sum of the samples.
pub open spec fn total(samples: Seq<isize>) -> int
    decreases samples.len(),
{
    if samples.len() == 0 {
        0
    } else {
        total(samples.drop_last()) + samples.last()
    }
}

/// The place of the 95th percentile among `count` samples in ascending order.
pub open spec fn percentile_index(count: int) -> int {
    if count * 95 / 100 <= count - 1 {
        count * 95 / 100
    } else {
        count - 1
    }
}

/// What a report says of the samples.
#[derive(Clone, Copy, Debug, PartialEq, Eq, Structural)]
pub struct PerfReport {
    /// The number of samples.
    pub count: usize,
    /// Their sum.
    pub sum: i128,
    /// The shortest time.
    pub min_render: isize,
    /// The longest time.
    pub max_render: isize,
    /// The 95th percentile.
    pub p95_render: isize,
}

/// The last render times, at most [`MAX_SAMPLES`] of them.
pub struct FrameStats {
    frame_times_ms: Vec<isize>,
    sample_index: usize,
    samples_collected: usize,
}

impl View for FrameStats {
    type V = Seq<isize>;

    /// The render times that are remembered, oldest first.
    closed spec fn view(&self) -> Seq<isize> {
        if self.samples_collected < MAX_SAMPLES {
            self.frame_times_ms@.take(self.samples_collected as int)
        } else {
            self.frame_times_ms@.skip(self.sample_index as int) + self.frame_times_ms@.take(
                self.sample_index as int,
            )
        }
    }
}

impl FrameStats {
    /// The ring buffer is in order.
    pub closed spec fn wf(&self) -> bool {
        &&& self.frame_times_ms@.len() == MAX_SAMPLES
        &&& self.samples_collected <= MAX_SAMPLES
        &&& self.sample_index < MAX_SAMPLES
        &&& self.samples_collected < MAX_SAMPLES ==> self.sample_index == self.samples_collected
    }

    /// No samples yet.
    pub fn new() -> (stats: FrameStats)
        ensures
            stats.wf(),
            stats@ == Seq::<isize>::empty(),
    {
        let stats = FrameStats {
            frame_times_ms: vec![0isize; 1000],
            sample_index: 0,
            samples_collected: 0,
        };
        assert(stats@ =~= Seq::<isize>::empty());
        stats
    }

    /// Remembers a render time. Where there are too many, the oldest one is forgotten.
    pub fn record(&mut self, render_time: isize)
        requires
            old(self).wf(),
        ensures
            final(self).wf(),
            final(self)@ == window_after(old(self)@, render_time as int),
    {
        let at: usize = self.sample_index;
        self.frame_times_ms[at] = render_time;
        self.sample_index = (at + 1) % MAX_SAMPLES;
        if self.samples_collected < MAX_SAMPLES {
            self.samples_collected = self.samples_collected + 1;
        }
        assert(self@ =~= window_after(old(self)@, render_time as int));
    }

    /// The number of samples.
    pub fn count(&self) -> (count: usize)
        requires
            self.wf(),
        ensures
            count == self@.len(),
            count <= MAX_SAMPLES,
    {
        self.samples_collected
    }

    /// The samples, oldest first.
    fn recent(&self) -> (samples: Vec<isize>)
        requires
            self.wf(),
        ensures
            samples@ == self@,
    {
        let mut samples: Vec<isize> = Vec::new();
        let full = self.samples_collected == MAX_SAMPLES;
        let mut k: usize = 0;
        while k < self.samples_collected
            invariant
                self.wf(),
                full == (self.samples_collected == MAX_SAMPLES),
                k <= self.samples_collected,
                samples@ == self@.take(k as int),
            decreases self.samples_collected - k,
        {
            let at: usize = if full {
                (self.sample_index + k) % MAX_SAMPLES
            } else {
                k
            };
            samples.push(self.frame_times_ms[at]);
            assert(self@[k as int] == self.frame_times_ms@[at as int]);
            assert(samples@ =~= self@.take(k + 1));
            k = k + 1;
        }
        assert(samples@ =~= self@);
        samples
    }

    /// The sum, the extremes and the 95th percentile of the samples.
    pub fn report(&self) -> (report: PerfReport)
        requires
            self.wf(),
            self@.len() > 0,
        ensures
            report.count == self@.len(),
            report.sum == total(self@),
            report.min_render == in_order(self@)[0],
            report.max_render == in_order(self@).last(),
            report.p95_render == in_order(self@)[percentile_index(self@.len() as int)],
    {
        let samples = self.recent();
        let count: usize = self.count();
        let sum = sum_of(&samples);
        let sorted = sort(&samples);
        let wanted: usize = count * 95 / 100;
        let p95: usize = if wanted <= count - 1 {
            wanted
        } else {
            count - 1
        };
        PerfReport {
            count,
            sum,
            min_render: sorted[0],
            max_render: sorted[count - 1],
            p95_render: sorted[p95],
        }
    }
}

/// The sum of some samples.
fn sum_of(samples: &Vec<isize>) -> (sum: i128)
    requires
        samples@.len() <= MAX_SAMPLES,
    ensures
        sum == total(samples@),
{
    let mut sum: i128 = 0;
    let mut k: usize = 0;
    while k < samples.len()
        invariant
            k <= samples@.len(),
            samples@.len() <= MAX_SAMPLES,
            sum == total(samples@.take(k as int)),
            -0x8000_0000_0000_0000 * k <= sum <= 0x8000_0000_0000_0000 * k,
        decreases samples@.len() - k,
    {
        assert(samples@.take(k + 1).drop_last() =~= samples@.take(k as int));
        sum = sum + samples[k] as i128;
        k = k + 1;
    }
    assert(samples@.take(k as int) =~= samples@);
    sum
}

/// The samples in ascending order.
pub fn sort(samples: &Vec<isize>) -> (sorted: Vec<isize>)
    ensures
        sorted@ == in_order(samples@),
        sorted@.len() == samples@.len(),
{
    let mut sorted: Vec<isize> = Vec::new();
    let mut k: usize = 0;
    assert(sorted@ =~= samples@.take(0));
    while k < samples.len()
        invariant
            k <= samples@.len(),
            sorted@.len() == k,
            vstd::relations::sorted_by(sorted@, ascending()),
            sorted@.to_multiset() == samples@.take(k as int).to_multiset(),
        decreases samples@.len() - k,
    {
        let x: isize = samples[k];
        let mut at: usize = k;
        while at > 0 && sorted[at - 1] > x
            invariant
                at <= sorted@.len(),
                sorted@.len() == k,
                forall|i: int| at <= i < k ==> x <= #[trigger] sorted@[i],
            decreases at,
        {
            at = at - 1;
        }
        let ghost before = sorted@;
        sorted.insert(at, x);
        proof {
            broadcast use vstd::seq_lib::group_to_multiset_ensures;

            assert(samples@.take(k + 1) =~= samples@.take(k as int).push(x));
            assert(sorted@.remove(at as int) =~= before);
            assert(sorted@[at as int] == x);
            assert(sorted@.contains(x));
            assert(sorted@.to_multiset().remove(x) =~= before.to_multiset());
            assert(sorted@.to_multiset() =~= before.to_multiset().insert(x));
            assert forall|i: int, j: int| 0 <= i < j < sorted@.len() implies #[trigger] ascending()(
                sorted@[i],
                sorted@[j],
            ) by {
                if at > 0 {
                    assert(sorted@[at - 1] == before[at - 1]);
                }
                if j < at {
                    assert(ascending()(before[i], before[j]));
                } else if j == at && i < at - 1 {
                    assert(ascending()(before[i], before[at - 1]));
                } else if i > at {
                    assert(ascending()(before[i - 1], before[j - 1]));
                } else if i < at && j > at {
                    assert(ascending()(before[i], before[j - 1]));
                }
            }
        }
        k = k + 1;
    }
    assert(samples@.take(k as int) =~= samples@);
    proof {
        broadcast use vstd::seq_lib::group_to_multiset_ensures;

        assert(vstd::relations::total_ordering(ascending()));
        samples@.lemma_sort_by_ensures(ascending());
        vstd::seq_lib::lemma_sorted_unique(sorted@, in_order(samples@), ascending());
    }
    sorted
}

/// Of all render times the ones that are remembered: the last [`MAX_SAMPLES`].
pub open spec fn remembered(history: Seq<isize>) -> Seq<isize> {
    if history.len() <= MAX_SAMPLES {
        history
    } else {
        history.skip(history.len() - MAX_SAMPLES)
    }
}

/// Recording one more render time keeps the last ones: statistics that remember the last of
/// some times remember the last of those and the new one.
pub proof fn recording_remembers_the_last(history: Seq<isize>, time: isize)
    ensures
        remembered(history.push(time)) == window_after(remembered(history), time as int),
        remembered(Seq::<isize>::empty()) == Seq::<isize>::empty(),
{
    assert(remembered(history.push(time)) =~= window_after(remembered(history), time as int));
}

/// The report comes from the samples alone: the extremes are samples and bound all of
/// them, and so is the percentile.
pub proof fn report_bounds(samples: Seq<isize>)
    requires
        samples.len() > 0,
    ensures
        in_order(samples).len() == samples.len(),
        forall|i: int|
            0 <= i < samples.len() ==> in_order(samples)[0] <= #[trigger] samples[i]
                <= in_order(samples).last(),
        samples.contains(in_order(samples)[0]),
        samples.contains(in_order(samples).last()),
        samples.contains(in_order(samples)[percentile_index(samples.len() as int)]),
{
    broadcast use vstd::seq_lib::group_to_multiset_ensures;

    let sorted = in_order(samples);
    assert(vstd::relations::total_ordering(ascending()));
    samples.lemma_sort_by_ensures(ascending());
    assert(sorted.to_multiset().len() == samples.to_multiset().len());
    let p = percentile_index(samples.len() as int);
    assert forall|i: int| 0 <= i < sorted.len() implies samples.contains(#[trigger] sorted[i]) by {
        assert(sorted.contains(sorted[i]));
    }
    assert(samples.contains(sorted[0]));
    assert(samples.contains(sorted[p]));
    assert forall|i: int| 0 <= i < samples.len() implies sorted[0] <= #[trigger] samples[i]
        <= sorted.last() by {
        assert(samples.contains(samples[i]));
        assert(samples.to_multiset().count(samples[i]) > 0);
        assert(sorted.contains(samples[i]));
        let j = sorted.index_of(samples[i]);
        assert(sorted[j] == samples[i]);
        if j > 0 {
            assert(ascending()(sorted[0], sorted[j]));
        }
        if j < sorted.len() - 1 {
            assert(ascending()(sorted[j], sorted[sorted.len() - 1]));
        }
    }
}

/// The number of samples of a sort.
pub open spec fn number_of(samples: Seq<isize>, sort: spec_fn(isize) -> bool) -> int
    decreases samples.len(),
{
    if samples.len() == 0 {
        0
    } else {
        number_of(samples.drop_last(), sort) + (if sort(samples.last()) {
            1int
        } else {
            0
        })
    }
}

/// The number does not depend on the order of the samples.
proof fn number_is_of_the_multiset(samples: Seq<isize>, sort: spec_fn(isize) -> bool)
    ensures
        number_of(samples, sort) == samples.to_multiset().filter(sort).len(),
    decreases samples.len(),
{
    broadcast use vstd::seq_lib::group_to_multiset_ensures;
    broadcast use vstd::multiset::group_multiset_axioms;

    let all = samples.to_multiset().filter(sort);
    if samples.len() == 0 {
        assert(samples =~= Seq::<isize>::empty());
        assert(all =~= vstd::multiset::Multiset::<isize>::empty());
    } else {
        let rest = samples.drop_last();
        let before = rest.to_multiset().filter(sort);
        number_is_of_the_multiset(rest, sort);
        assert(samples =~= rest.push(samples.last()));
        if sort(samples.last()) {
            assert(all =~= before.insert(samples.last()));
        } else {
            assert(all =~= before);
        }
    }
}

/// Bounds of the number, where all of the first samples are of the sort, or none of the others.
proof fn number_bounds(samples: Seq<isize>, sort: spec_fn(isize) -> bool, count: int)
    requires
        0 <= count <= samples.len(),
    ensures
        (forall|i: int| 0 <= i < count ==> sort(#[trigger] samples[i])) ==> number_of(samples, sort)
            >= count,
        (forall|i: int| count <= i < samples.len() ==> !sort(#[trigger] samples[i])) ==> number_of(
            samples,
            sort,
        ) <= count,
        0 <= number_of(samples, sort) <= samples.len(),
    decreases samples.len(),
{
    if samples.len() > 0 {
        let rest = samples.drop_last();
        assert forall|i: int| 0 <= i < rest.len() implies rest[i] == samples[i] by {}
        number_bounds(
            rest,
            sort,
            if count < samples.len() {
                count
            } else {
                count - 1
            },
        );
    }
}

/// The 95th percentile of a report is a sample of which this holds: at most 95 of 100 samples
/// are less than it, and more than 95 of 100 are not greater.
pub proof fn percentile_splits_the_samples(stats: FrameStats, report: PerfReport)
    requires
        stats@.len() > 0,
        call_ensures(FrameStats::report, (&stats,), report),
    ensures
        ({
            let count = stats@.len() as int;
            let p95 = report.p95_render;
            let less = number_of(stats@, |time: isize| time < p95);
            let not_greater = number_of(stats@, |time: isize| time <= p95);
            let greater = number_of(stats@, |time: isize| time > p95);
            &&& stats@.contains(p95)
            &&& 100 * less <= 95 * count < 100 * not_greater
            &&& less <= count * 95 / 100 < not_greater
            &&& 100 * greater < 5 * count + 100
        }),
{
    window_report_is_on_the_window(stats@);
}

/// The same of any window of render times: the 95th percentile, the extremes and the count are
/// those of the window.
pub proof fn window_report_is_on_the_window(window: Seq<isize>)
    requires
        window.len() > 0,
    ensures
        ({
            let count = window.len() as int;
            let report = report_of(window);
            let p95 = report.p95_render;
            let less = number_of(window, |time: isize| time < p95);
            let not_greater = number_of(window, |time: isize| time <= p95);
            let greater = number_of(window, |time: isize| time > p95);
            &&& count <= usize::MAX ==> report.count == count
            &&& window.contains(p95)
            &&& 100 * less <= 95 * count < 100 * not_greater
            &&& less <= count * 95 / 100 < not_greater
            &&& 100 * greater < 5 * count + 100
            &&& window.contains(report.min_render)
            &&& window.contains(report.max_render)
            &&& forall|i: int|
                0 <= i < count ==> report.min_render <= #[trigger] window[i] <= report.max_render
        }),
{
    let samples = window;
    let sorted = in_order(samples);
    let count = samples.len() as int;
    let k = percentile_index(count);
    let p95 = sorted[k];
    report_bounds(samples);
    assert(vstd::relations::total_ordering(ascending()));
    samples.lemma_sort_by_ensures(ascending());
    assert(k == count * 95 / 100);
    order_splits(sorted, k);
    same_numbers(samples, |time: isize| time < p95);
    same_numbers(samples, |time: isize| time <= p95);
    same_numbers(samples, |time: isize| time > p95);
}

/// The samples in order have the same numbers as the samples.
proof fn same_numbers(samples: Seq<isize>, sort: spec_fn(isize) -> bool)
    ensures
        number_of(samples, sort) == number_of(in_order(samples), sort),
{
    assert(vstd::relations::total_ordering(ascending()));
    samples.lemma_sort_by_ensures(ascending());
    number_is_of_the_multiset(samples, sort);
    number_is_of_the_multiset(in_order(samples), sort);
}

/// The sample at a place of an ascending sequence.
proof fn order_splits(sorted: Seq<isize>, k: int)
    requires
        vstd::relations::sorted_by(sorted, ascending()),
        0 <= k < sorted.len(),
    ensures
        number_of(sorted, |time: isize| time < sorted[k]) <= k,
        number_of(sorted, |time: isize| time <= sorted[k]) >= k + 1,
        number_of(sorted, |time: isize| time > sorted[k]) <= sorted.len() - k - 1,
{
    let less = |time: isize| time < sorted[k];
    let not_greater = |time: isize| time <= sorted[k];
    let greater = |time: isize| time > sorted[k];
    assert forall|i: int| 0 <= i < k + 1 implies not_greater(#[trigger] sorted[i]) by {
        if i < k {
            assert(ascending()(sorted[i], sorted[k]));
        }
    }
    assert forall|i: int| k <= i < sorted.len() implies !less(#[trigger] sorted[i]) by {
        if i > k {
            assert(ascending()(sorted[k], sorted[i]));
        }
    }
    number_bounds(sorted, not_greater, k + 1);
    number_bounds(sorted, less, k);
    complements(sorted, not_greater, greater);
}

/// Two sorts of which each sample has exactly one.
proof fn complements(
    samples: Seq<isize>,
    one: spec_fn(isize) -> bool,
    other: spec_fn(isize) -> bool,
)
    requires
        forall|time: isize| #[trigger] one(time) <==> !other(time),
    ensures
        number_of(samples, one) + number_of(samples, other) == samples.len(),
    decreases samples.len(),
{
    if samples.len() > 0 {
        complements(samples.drop_last(), one, other);
        assert(one(samples.last()) <==> !other(samples.last()));
    }
}

/// The extremes of a report bound all samples and are samples themselves; its sum and its count
/// are those of the samples.
pub proof fn report_is_on_the_samples(stats: FrameStats, report: PerfReport)
    requires
        stats@.len() > 0,
        call_ensures(FrameStats::report, (&stats,), report),
    ensures
        report.count == stats@.len(),
        report.sum == stats@.fold_left(0int, |sum: int, time: isize| sum + time),
        stats@.contains(report.min_render),
        stats@.contains(report.max_render),
        forall|i: int|
            0 <= i < stats@.len() ==> report.min_render <= #[trigger] stats@[i]
                <= report.max_render,
{
    report_bounds(stats@);
    total_is_a_fold(stats@);
}

/// The total adds one sample after the other.
proof fn total_is_a_fold(samples: Seq<isize>)
    ensures
        total(samples) == samples.fold_left(0int, |sum: int, time: isize| sum + time),
    decreases samples.len(),
{
    if samples.len() > 0 {
        total_is_a_fold(samples.drop_last());
    }
}

/// The render times that are remembered after one more: the new one is the last of them, the
/// others are in their order, and only where there were 1000 the oldest is gone.
pub proof fn window_moves_by_one(window: Seq<isize>, time: isize)
    requires
        window.len() <= 1000,
    ensures
        ({
            let after = window_after(window, time as int);
            let gone = if window.len() < 1000 {
                0int
            } else {
                1
            };
            &&& after.len() == window.len() + 1 - gone
            &&& after.last() == time
            &&& forall|i: int|
                0 <= i && i + 1 < after.len() ==> #[trigger] after[i] == window[i + gone]
        }),
{
}

/// A frame that ends in time is slept out to 16 ms; one that does not is not.
pub proof fn sleep_fills_the_frame(frame_start: isize, frame_end: isize, sleep: Option<usize>)
    requires
        call_ensures(sleep_time, (frame_start, frame_end), sleep),
        isize::MIN <= frame_end - frame_start <= isize::MAX,
        16 - (frame_end - frame_start) <= isize::MAX,
    ensures
        sleep is None <==> frame_end - frame_start >= 16,
        sleep matches Some(ms) ==> (frame_end - frame_start) + ms == 16,
{
}

/// A report is due half a minute after the last one, and not before.
pub proof fn report_comes_every_half_minute(last_log_time: isize, now: isize, due: bool)
    requires
        call_ensures(report_due, (last_log_time, now), due),
    ensures
        due <==> now - last_log_time >= 30_000,
{
}

/// Whether it is time for a report.
pub fn report_due(last_log_time: isize, now: isize) -> (due: bool)
    requires
        isize::MIN <= now - last_log_time <= isize::MAX,
    ensures
        due == (now - last_log_time >= LOG_INTERVAL_MS),
{
    now - last_log_time >= LOG_INTERVAL_MS
}

/// How long to sleep after a frame so that frames come at a steady rate; `None` if the
/// frame took its whole time.
pub fn sleep_time(frame_start: isize, frame_end: isize) -> (sleep: Option<usize>)
    requires
        isize::MIN <= frame_end - frame_start <= isize::MAX,
        FRAME_TIME_MS - (frame_end - frame_start) <= isize::MAX,
    ensures
        frame_end - frame_start >= FRAME_TIME_MS ==> sleep is None,
        frame_end - frame_start < FRAME_TIME_MS ==> sleep == Some(
            (FRAME_TIME_MS - (frame_end - frame_start)) as usize,
        ),
{
    let elapsed: isize = frame_end - frame_start;
    if elapsed < FRAME_TIME_MS {
        Some((FRAME_TIME_MS - elapsed) as usize)
    } else {
        None
    }
}

/// A difference of two times can be represented.
pub open spec fn span_representable(start: isize, end: isize) -> bool {
    isize::MIN <= end - start <= isize::MAX
}

/// Whether a number of milliseconds can be represented.
pub(crate) fn fits(span: i128) -> (fitting: bool)
    ensures
        fitting == (isize::MIN <= span <= isize::MAX),
{
    isize::MIN as i128 <= span && span <= isize::MAX as i128
}

/// What a report says of the render times in `window`.
pub open spec fn report_of(window: Seq<isize>) -> PerfReport {
    PerfReport {
        count: window.len() as usize,
        sum: total(window) as i128,
        min_render: in_order(window)[0],
        max_render: in_order(window).last(),
        p95_render: in_order(window)[percentile_index(window.len() as int)],
    }
}

/// The render times, and when they were last reported.
pub struct FrameLog {
    stats: FrameStats,
    last_log_time: isize,
}

/// What a frame log knows.
pub ghost struct FrameLogState {
    /// The render times that are remembered, oldest first.
    pub window: Seq<isize>,
    /// The time of the last report.
    pub last_log_time: isize,
}

/// The render times that are remembered after one more.
pub open spec fn window_after(window: Seq<isize>, time: int) -> Seq<isize> {
    if window.len() < MAX_SAMPLES {
        window.push(time as isize)
    } else {
        window.drop_first().push(time as isize)
    }
}

impl View for FrameLog {
    type V = FrameLogState;

    closed spec fn view(&self) -> FrameLogState {
        FrameLogState { window: self.stats@, last_log_time: self.last_log_time }
    }
}

impl FrameLog {
    /// The log is in order.
    pub closed spec fn wf(&self) -> bool {
        self.stats.wf()
    }

    /// An empty log that starts at `now`.
    pub fn new(now: isize) -> (log: FrameLog)
        ensures
            log.wf(),
            log@ == (FrameLogState { window: Seq::empty(), last_log_time: now }),
    {
        FrameLog { stats: FrameStats::new(), last_log_time: now }
    }

    /// The time of the last report.
    pub fn last_log_time(&self) -> (time: isize)
        ensures
            time == self@.last_log_time,
    {
        self.last_log_time
    }

    /// Notes a frame that was rendered from `render_start` to `render_end`. When it is time
    /// for a report at `now`, reports on the render times that are remembered.
    pub fn frame(&mut self, render_start: isize, render_end: isize, now: isize) -> (report: Option<
        PerfReport,
    >)
        requires
            old(self).wf(),
            isize::MIN <= render_end - render_start <= isize::MAX,
            isize::MIN <= now - old(self)@.last_log_time <= isize::MAX,
        ensures
            final(self).wf(),
            final(self)@.window == window_after(old(self)@.window, render_end - render_start),
            final(self)@.last_log_time == (if now - old(self)@.last_log_time >= LOG_INTERVAL_MS {
                now
            } else {
                old(self)@.last_log_time
            }),
            report is Some <==> now - old(self)@.last_log_time >= LOG_INTERVAL_MS,
            report matches Some(report) ==> {
                let window = final(self)@.window;
                &&& report.count == window.len()
                &&& report.sum == total(window)
                &&& report.min_render == in_order(window)[0]
                &&& report.max_render == in_order(window).last()
                &&& report.p95_render == in_order(window)[percentile_index(window.len() as int)]
            },
    {
        self.stats.record(render_end - render_start);
        if report_due(self.last_log_time, now) {
            self.last_log_time = now;
            Some(self.stats.report())
        } else {
            None
        }
    }
}

/// The frames since the last report.
#[derive(Clone, Copy, Debug, PartialEq, Eq, Structural)]
pub struct FrameCounter {
    pub frame_count: i32,
    pub total_render_time_ms: isize,
    pub last_log_time: isize,
}

/// What a frame counter reports.
#[derive(Clone, Copy, Debug, PartialEq, Eq, Structural)]
pub struct CounterReport {
    /// The number of frames since the last report.
    pub frame_count: i32,
    /// The time that rendering them took.
    pub total_render_time_ms: isize,
    /// The time since the last report.
    pub elapsed_ms: isize,
}

impl FrameCounter {
    /// A counter that starts at `now`.
    pub fn new(now: isize) -> (counter: FrameCounter)
        ensures
            counter == (FrameCounter {
                frame_count: 0,
                total_render_time_ms: 0,
                last_log_time: now,
            }),
    {
        FrameCounter { frame_count: 0, total_render_time_ms: 0, last_log_time: now }
    }

    /// Counts a frame that was rendered from `render_start` to `render_end`. When it is
    /// time for a report at `now`, reports and starts over.
    pub fn frame(&mut self, render_start: isize, render_end: isize, now: isize) -> (report: Option<
        CounterReport,
    >)
        requires
            old(self).frame_count < i32::MAX,
            isize::MIN <= render_end - render_start <= isize::MAX,
            isize::MIN <= old(self).total_render_time_ms + (render_end - render_start)
                <= isize::MAX,
            isize::MIN <= now - old(self).last_log_time <= isize::MAX,
        ensures
            now - old(self).last_log_time >= LOG_INTERVAL_MS ==> {
                &&& report == Some(
                    CounterReport {
                        frame_count: (old(self).frame_count + 1) as i32,
                        total_render_time_ms: (old(self).total_render_time_ms + (render_end
                            - render_start)) as isize,
                        elapsed_ms: (now - old(self).last_log_time) as isize,
                    },
                )
                &&& *final(self) == FrameCounter {
                    frame_count: 0,
                    total_render_time_ms: 0,
                    last_log_time: now,
                }
            },
            now - old(self).last_log_time < LOG_INTERVAL_MS ==> {
                &&& report is None
                &&& *final(self) == FrameCounter {
                    frame_count: (old(self).frame_count + 1) as i32,
                    total_render_time_ms: (old(self).total_render_time_ms + (render_end
                        - render_start)) as isize,
                    last_log_time: old(self).last_log_time,
                }
            },
    {
        self.frame_count = self.frame_count + 1;
        self.total_render_time_ms = self.total_render_time_ms + (render_end - render_start);
        if report_due(self.last_log_time, now) {
            let report = CounterReport {
                frame_count: self.frame_count,
                total_render_time_ms: self.total_render_time_ms,
                elapsed_ms: now - self.last_log_time,
            };
            self.frame_count = 0;
            self.total_render_time_ms = 0;
            self.last_log_time = now;
            Some(report)
        } else {
            None
        }
    }
}

} // verus!
