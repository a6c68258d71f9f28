use super::ButtonState;
use vstd::prelude::*;

verus! {

/// How often you should call the Debouncer's update method, in microseconds.
pub const DEBOUNCER_TIMER_US: u32 = 1_000;

/// After this many consecutive `update` calls with the same value, we commit to
/// the new value.
pub const NUM_CONSECUTIVE_SAMPLES: u8 = 5;

/// Hardware buttons are apparently notorious for "bouncing".
///
/// For more details, see https://www.ganssle.com/debouncing.htm
pub struct Debouncer {
    state: ButtonState,
    count: u8,
}

/// What a debouncer remembers: the state it has committed to, and how many
/// samples in a row have disagreed with it since.
pub struct DebouncerView {
    pub state: ButtonState,
    pub count: nat,
}

impl DebouncerView {
    /// A run of disagreeing samples is committed before it gets as long as
    /// the threshold, so the count stays below it.
    pub open spec fn wf(self) -> bool {
        self.count < NUM_CONSECUTIVE_SAMPLES
    }

    /// Whether `sample` completes a run of disagreeing samples.
    pub open spec fn commits(self, sample: ButtonState) -> bool {
        sample != self.state && self.count + 1 >= NUM_CONSECUTIVE_SAMPLES
    }

    /// The debouncer after it has seen `sample`.
    pub open spec fn step(self, sample: ButtonState) -> DebouncerView {
        if sample == self.state {
            DebouncerView { state: self.state, count: 0 }
        } else if self.commits(sample) {
            DebouncerView { state: sample, count: 0 }
        } else {
            DebouncerView { state: self.state, count: self.count + 1 }
        }
    }

    /// What the debouncer reports on `sample`: the new state where the sample
    /// makes it change its mind, and nothing otherwise.
    pub open spec fn verdict(self, sample: ButtonState) -> Option<ButtonState> {
        if self.commits(sample) {
            Some(sample)
        } else {
            None
        }
    }

    /// The debouncer after it has seen all of `samples`, first to last.
    pub open spec fn run(self, samples: Seq<ButtonState>) -> DebouncerView
        decreases samples.len(),
    {
        if samples.len() == 0 {
            self
        } else {
            self.run(samples.drop_last()).step(samples.last())
        }
    }

    /// The debouncer as it stands when sample number `i` of `samples` arrives.
    pub open spec fn before(self, samples: Seq<ButtonState>, i: int) -> DebouncerView {
        self.run(samples.take(i))
    }

    /// What the debouncer reports on sample number `i` of `samples`.
    pub open spec fn report(self, samples: Seq<ButtonState>, i: int) -> Option<ButtonState> {
        self.before(samples, i).verdict(samples[i])
    }
}

impl View for Debouncer {
    type V = DebouncerView;

    closed spec fn view(&self) -> DebouncerView {
        DebouncerView { state: self.state, count: self.count as nat }
    }
}

impl Debouncer {
    /// A debouncer that is committed to `initial_state` and has counted nothing.
    pub fn new(initial_state: ButtonState) -> (debouncer: Self)
        ensures
            debouncer@ == (DebouncerView { state: initial_state, count: 0 }),
            debouncer@.wf(),
    {
        Self { state: initial_state, count: 0 }
    }

    /// Filter out transient state changes.
    ///
    /// Returns `Some` whenever the state "actually" changes.
    ///
    /// This uses the debouncing approach described in
    /// https://www.ganssle.com/debouncing-pt2.htm
    /// (section: "A Counting Algorithm").
    pub fn update(&mut self, new_state: ButtonState) -> (changed: Option<ButtonState>)
        requires
            old(self)@.wf(),
        ensures
            final(self)@ == old(self)@.step(new_state),
            final(self)@.wf(),
            changed == old(self)@.verdict(new_state),
    {
        let mut changed = false;

        if new_state != self.state {
            self.count += 1;
            if self.count >= NUM_CONSECUTIVE_SAMPLES {
                self.state = new_state;
                self.count = 0;
                changed = true;
            }
        } else {
            self.count = 0;
        }

        if changed {
            Some(self.state)
        } else {
            None
        }
    }
}

/// The committed state changes on a sample exactly when a change is reported,
/// and the state reported is the sample itself.
pub proof fn lemma_state_changes_iff_reported(d: DebouncerView, sample: ButtonState)
    ensures
        d.step(sample).state != d.state <==> d.verdict(sample) is Some,
        d.verdict(sample) is Some ==> d.verdict(sample) == Some(sample) && d.step(sample).state
            == sample,
{
}

/// A sample that agrees with the committed state resets the count, changes
/// nothing else and reports nothing, however many disagreeing samples came
/// before it.
pub proof fn lemma_matching_sample_resets(d: DebouncerView, sample: ButtonState)
    requires
        sample == d.state,
    ensures
        d.step(sample) == (DebouncerView { state: d.state, count: 0 }),
        d.verdict(sample) is None,
{
}

/// Feeding one sample more is one more step.
pub proof fn lemma_before_next(d: DebouncerView, samples: Seq<ButtonState>, i: int)
    requires
        0 <= i < samples.len(),
    ensures
        d.before(samples, i + 1) == d.before(samples, i).step(samples[i]),
{
    assert(samples.take(i + 1).drop_last() =~= samples.take(i));
}

/// The count is the length of the run of disagreeing samples that ends just
/// before sample number `k`: each sample of that run disagreed with the
/// committed state, which has not changed since the run began.
proof fn lemma_pending_run(d: DebouncerView, samples: Seq<ButtonState>, k: int)
    requires
        d.wf(),
        0 <= k <= samples.len(),
    ensures
        d.before(samples, k).wf(),
        d.before(samples, k).count <= k + d.count,
        forall|j: int|
            0 <= j < k && k - d.before(samples, k).count <= j ==> {
                &&& samples[j] != d.before(samples, k).state
                &&& #[trigger] d.before(samples, j).state == d.before(samples, k).state
                &&& d.before(samples, j).count == d.before(samples, k).count - (k - j)
            },
    decreases k,
{
    if k == 0 {
        assert(samples.take(0) =~= Seq::<ButtonState>::empty());
    } else {
        lemma_pending_run(d, samples, k - 1);
        lemma_before_next(d, samples, k - 1);
    }
}

/// The debouncer stays well-formed whatever it is fed.
pub proof fn lemma_run_keeps_wf(d: DebouncerView, samples: Seq<ButtonState>)
    requires
        d.wf(),
    ensures
        d.run(samples).wf(),
{
    lemma_pending_run(d, samples, samples.len() as int);
    assert(samples.take(samples.len() as int) =~= samples);
}

/// A change is reported only at the end of a run of disagreeing samples: where
/// sample number `i` is reported as a change, it and the samples before it, up
/// to five in all, are equal and disagree with the state that was committed
/// all the while. Of those five only the ones counted before the first sample
/// arrived can be missing, so a fresh debouncer reports nothing before its
/// fifth sample.
pub proof fn lemma_change_only_after_run(d: DebouncerView, samples: Seq<ButtonState>, i: int)
    requires
        d.wf(),
        0 <= i < samples.len(),
        d.report(samples, i) is Some,
    ensures
        d.report(samples, i) == Some(samples[i]),
        i + d.count >= NUM_CONSECUTIVE_SAMPLES - 1,
        forall|j: int|
            0 <= j <= i && i - (NUM_CONSECUTIVE_SAMPLES - 1) <= j ==> {
                &&& samples[j] == samples[i]
                &&& #[trigger] d.before(samples, j).state == d.before(samples, i).state
                &&& samples[j] != d.before(samples, j).state
            },
        forall|j: int|
            0 <= j < i && i - (NUM_CONSECUTIVE_SAMPLES - 1) <= j ==> #[trigger] d.report(samples, j)
                is None,
{
    lemma_pending_run(d, samples, i);
    assert forall|j: int| 0 <= j < i && i - (NUM_CONSECUTIVE_SAMPLES - 1) <= j implies #[trigger] d.report(
        samples,
        j,
    ) is None by {
        assert(d.before(samples, j).state == d.before(samples, i).state);
    }
}

/// Five disagreeing samples in a row are enough: where the count is 0 when
/// sample number `k` arrives, and that sample and the four after it all
/// disagree with the committed state, nothing is reported on the first four
/// and the change is reported on the fifth.
pub proof fn lemma_run_of_five_commits(d: DebouncerView, samples: Seq<ButtonState>, k: int)
    requires
        0 <= k,
        k + NUM_CONSECUTIVE_SAMPLES <= samples.len(),
        d.before(samples, k).count == 0,
        forall|j: int|
            k <= j < k + NUM_CONSECUTIVE_SAMPLES ==> #[trigger] samples[j] != d.before(
                samples,
                k,
            ).state,
    ensures
        forall|j: int|
            k <= j < k + NUM_CONSECUTIVE_SAMPLES - 1 ==> #[trigger] d.report(samples, j) is None,
        d.report(samples, k + NUM_CONSECUTIVE_SAMPLES - 1) == Some(
            samples[k + NUM_CONSECUTIVE_SAMPLES - 1],
        ),
        d.before(samples, k + NUM_CONSECUTIVE_SAMPLES).state == samples[k + NUM_CONSECUTIVE_SAMPLES
            - 1],
{
    lemma_before_next(d, samples, k);
    lemma_before_next(d, samples, k + 1);
    lemma_before_next(d, samples, k + 2);
    lemma_before_next(d, samples, k + 3);
    lemma_before_next(d, samples, k + 4);
    assert(samples[k] != d.before(samples, k).state);
    assert(samples[k + 1] != d.before(samples, k).state);
    assert(samples[k + 2] != d.before(samples, k).state);
    assert(samples[k + 3] != d.before(samples, k).state);
    assert(samples[k + 4] != d.before(samples, k).state);
}

} // verus!
