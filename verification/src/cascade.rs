//! The execution model: how one section becomes a filter of order N, and how a
//! filter runs over a buffer.
//!
//! A *step* takes the state of a filter and one input sample to the next state
//! and one output sample. A *section* is the step of a single stage. Both are
//! mathematical functions here; the filters of each family say which ones they
//! compute.
use vstd::prelude::*;
use crate::arithmetic::Sample;

verus! {

/// The state after a buffer, and the outputs, when `step` is applied to the
/// samples of `frame` in order, each call starting from the state that the one
/// before it left.
pub open spec fn run<St>(
    step: spec_fn(St, Sample) -> (St, Sample),
    state: St,
    frame: Seq<Sample>,
) -> (St, Seq<Sample>)
    decreases frame.len(),
{
    if frame.len() == 0 {
        (state, Seq::empty())
    } else {
        let before = run(step, state, frame.drop_last());
        let last = step(before.0, frame.last());
        (last.0, before.1.push(last.1))
    }
}

/// The input of stage `k` when `x` enters a cascade: `x` itself for the first
/// stage, and for every other the output of the stage before it.
pub open spec fn signal_at<St>(
    section: spec_fn(St, Sample) -> (St, Sample),
    stages: Seq<St>,
    x: Sample,
    k: int,
) -> Sample
    decreases k,
{
    if k <= 0 {
        x
    } else {
        section(stages[k - 1], signal_at(section, stages, x, k - 1)).1
    }
}

/// One input sample through a cascade: every stage applies the section to its
/// own state and to the output of the stage before it. The output of the last
/// stage is the output of the cascade.
pub open spec fn cascade<St>(
    section: spec_fn(St, Sample) -> (St, Sample),
    stages: Seq<St>,
    x: Sample,
) -> (Seq<St>, Sample) {
    (
        Seq::new(
            stages.len(),
            |i: int| section(stages[i], signal_at(section, stages, x, i)).0,
        ),
        signal_at(section, stages, x, stages.len() as int),
    )
}

/// The step of a cascade of the given section.
pub open spec fn cascade_step<St>(section: spec_fn(St, Sample) -> (St, Sample)) -> spec_fn(
    Seq<St>,
    Sample,
) -> (Seq<St>, Sample) {
    |stages: Seq<St>, x: Sample| cascade(section, stages, x)
}

/// What single-stage filters give when they are applied one after the other,
/// each to the whole output buffer of the one before it. The filter for stage
/// `i` starts from the state `stages[i]`.
pub open spec fn in_series<St>(
    section: spec_fn(St, Sample) -> (St, Sample),
    stages: Seq<St>,
    frame: Seq<Sample>,
) -> (Seq<St>, Seq<Sample>)
    decreases stages.len(),
{
    if stages.len() == 0 {
        (Seq::empty(), frame)
    } else {
        let front = in_series(section, stages.drop_last(), frame);
        let last = run(cascade_step(section), seq![stages.last()], front.1);
        (front.0 + last.0, last.1)
    }
}

/// A buffer without samples gives no output and leaves the state as it was.
pub proof fn run_of_nothing<St>(step: spec_fn(St, Sample) -> (St, Sample), state: St)
    ensures
        run(step, state, Seq::<Sample>::empty()) == (state, Seq::<Sample>::empty()),
{
}

/// What a filter gives depends on its state, its step and the buffer alone:
/// a filter that was put back to rest gives, on any buffer, what a new filter
/// gives, and leaves the state that a new filter leaves.
pub proof fn cleared_runs_as_new<St>(
    step: spec_fn(St, Sample) -> (St, Sample),
    cleared: St,
    fresh: St,
    frame: Seq<Sample>,
)
    requires
        cleared == fresh,
    ensures
        run(step, cleared, frame) == run(step, fresh, frame),
{
}

/// A buffer gives one output sample for each of its samples.
pub proof fn run_keeps_length<St>(
    step: spec_fn(St, Sample) -> (St, Sample),
    state: St,
    frame: Seq<Sample>,
)
    ensures
        run(step, state, frame).1.len() == frame.len(),
    decreases frame.len(),
{
    if frame.len() > 0 {
        run_keeps_length(step, state, frame.drop_last());
    }
}

/// Filtering a buffer is filtering its first samples and then, from the state
/// they left, the next one.
pub proof fn run_one_more<St>(
    step: spec_fn(St, Sample) -> (St, Sample),
    state: St,
    frame: Seq<Sample>,
    n: int,
)
    requires
        0 <= n < frame.len(),
    ensures
        run(step, state, frame.take(n + 1)) == ({
            let before = run(step, state, frame.take(n));
            let last = step(before.0, frame[n]);
            (last.0, before.1.push(last.1))
        }),
{
    assert(frame.take(n + 1).drop_last() =~= frame.take(n));
}

/// Filtering two buffers in turn is filtering their concatenation.
pub proof fn run_in_two_parts<St>(
    step: spec_fn(St, Sample) -> (St, Sample),
    state: St,
    first: Seq<Sample>,
    second: Seq<Sample>,
)
    ensures
        run(step, state, first + second) == ({
            let a = run(step, state, first);
            let b = run(step, a.0, second);
            (b.0, a.1 + b.1)
        }),
    decreases second.len(),
{
    let a = run(step, state, first);
    if second.len() == 0 {
        assert(first + second =~= first);
        assert(a.1 + Seq::<Sample>::empty() =~= a.1);
    } else {
        run_in_two_parts(step, state, first, second.drop_last());
        assert((first + second).drop_last() =~= first + second.drop_last());
        let b0 = run(step, a.0, second.drop_last());
        let last = step(b0.0, second.last());
        assert((a.1 + b0.1).push(last.1) =~= a.1 + b0.1.push(last.1));
    }
}

/// The stages of a cascade do not see the stages behind them: the signal that
/// reaches stage `k` is the same when stages are appended.
pub proof fn signal_ignores_later_stages<St>(
    section: spec_fn(St, Sample) -> (St, Sample),
    front: Seq<St>,
    back: Seq<St>,
    x: Sample,
    k: int,
)
    requires
        0 <= k <= front.len(),
    ensures
        signal_at(section, front + back, x, k) == signal_at(section, front, x, k),
    decreases k,
{
    if k > 0 {
        signal_ignores_later_stages(section, front, back, x, k - 1);
        assert((front + back)[k - 1] == front[k - 1]);
    }
}

/// Behind the first `front.len()` stages, the cascade goes on as a cascade of
/// the remaining stages that is fed the output of the first ones.
pub proof fn signal_through_later_stages<St>(
    section: spec_fn(St, Sample) -> (St, Sample),
    front: Seq<St>,
    back: Seq<St>,
    x: Sample,
    k: int,
)
    requires
        0 <= k <= back.len(),
    ensures
        signal_at(section, front + back, x, front.len() + k) == signal_at(
            section,
            back,
            signal_at(section, front, x, front.len() as int),
            k,
        ),
    decreases k,
{
    if k == 0 {
        signal_ignores_later_stages(section, front, back, x, front.len() as int);
    } else {
        signal_through_later_stages(section, front, back, x, k - 1);
        assert((front + back)[front.len() + k - 1] == back[k - 1]);
    }
}

/// Stages that have each been replaced by what the section leaves of them, on
/// the signal that reaches them, are the stages after the cascade.
pub proof fn replaced_stages_are_the_cascade<St>(
    section: spec_fn(St, Sample) -> (St, Sample),
    before: Seq<St>,
    x: Sample,
    after: Seq<St>,
)
    requires
        after.len() == before.len(),
        forall|i: int|
            0 <= i < before.len() ==> after[i] == section(
                before[i],
                #[trigger] signal_at(section, before, x, i),
            ).0,
    ensures
        after == cascade(section, before, x).0,
{
    let target = cascade(section, before, x);
    assert forall|i: int| 0 <= i < before.len() implies after[i] == target.0[i] by {
        assert(after[i] == section(before[i], signal_at(section, before, x, i)).0);
    }
    assert(after =~= target.0);
}

/// One sample through a cascade of stages `front + back` is that sample
/// through `front` and then the result through `back`: the stages keep
/// separate state and are joined by the signal alone.
pub proof fn cascade_splits<St>(
    section: spec_fn(St, Sample) -> (St, Sample),
    front: Seq<St>,
    back: Seq<St>,
    x: Sample,
)
    ensures
        cascade(section, front + back, x) == ({
            let a = cascade(section, front, x);
            let b = cascade(section, back, a.1);
            (a.0 + b.0, b.1)
        }),
{
    let a = cascade(section, front, x);
    let b = cascade(section, back, a.1);
    let whole = cascade(section, front + back, x);
    signal_through_later_stages(section, front, back, x, back.len() as int);
    assert(whole.0.len() == (a.0 + b.0).len());
    assert forall|i: int| 0 <= i < whole.0.len() implies whole.0[i] == (a.0 + b.0)[i] by {
        if i < front.len() {
            signal_ignores_later_stages(section, front, back, x, i);
            assert((front + back)[i] == front[i]);
        } else {
            signal_through_later_stages(section, front, back, x, i - front.len());
            assert((front + back)[i] == back[i - front.len()]);
        }
    }
    assert(whole.0 =~= a.0 + b.0);
}

/// A cascade of order N on one sample is N single-stage filters applied in
/// turn, each to the output of the one before it.
pub proof fn cascade_is_stage_by_stage<St>(
    section: spec_fn(St, Sample) -> (St, Sample),
    stages: Seq<St>,
    x: Sample,
)
    requires
        stages.len() > 0,
    ensures
        cascade(section, stages, x) == ({
            let front = cascade(section, stages.drop_last(), x);
            let last = cascade(section, seq![stages.last()], front.1);
            (front.0 + last.0, last.1)
        }),
{
    assert(stages =~= stages.drop_last() + seq![stages.last()]);
    cascade_splits(section, stages.drop_last(), seq![stages.last()], x);
}

/// Over a whole buffer, a cascade of stages `front + back` gives what `front`
/// and `back` give as two filters, the second applied to the output buffer of
/// the first.
pub proof fn run_splits<St>(
    section: spec_fn(St, Sample) -> (St, Sample),
    front: Seq<St>,
    back: Seq<St>,
    frame: Seq<Sample>,
)
    ensures
        run(cascade_step(section), front + back, frame) == ({
            let a = run(cascade_step(section), front, frame);
            let b = run(cascade_step(section), back, a.1);
            (a.0 + b.0, b.1)
        }),
    decreases frame.len(),
{
    let step = cascade_step(section);
    if frame.len() == 0 {
    } else {
        let rest = frame.drop_last();
        let x = frame.last();
        run_splits(section, front, back, rest);
        let a0 = run(step, front, rest);
        let b0 = run(step, back, a0.1);
        let a1 = cascade(section, a0.0, x);
        cascade_splits(section, a0.0, b0.0, x);
        assert(a0.1.push(a1.1).drop_last() =~= a0.1);
    }
}

/// A cascade of order N gives, over any buffer, what N single-stage filters
/// give when they are applied one after the other, each to the whole output of
/// the one before it; and it leaves each stage in the state in which the
/// single-stage filter for it is left.
pub proof fn cascade_is_filters_in_series<St>(
    section: spec_fn(St, Sample) -> (St, Sample),
    stages: Seq<St>,
    frame: Seq<Sample>,
)
    ensures
        run(cascade_step(section), stages, frame) == in_series(section, stages, frame),
    decreases stages.len(), frame.len(),
{
    let step = cascade_step(section);
    if stages.len() == 0 {
        if frame.len() > 0 {
            cascade_is_filters_in_series(section, stages, frame.drop_last());
            let before = run(step, stages, frame.drop_last());
            assert(cascade(section, before.0, frame.last()).0 =~= Seq::<St>::empty());
            assert(frame.drop_last().push(frame.last()) =~= frame);
        }
    } else {
        cascade_is_filters_in_series(section, stages.drop_last(), frame);
        assert(stages =~= stages.drop_last() + seq![stages.last()]);
        run_splits(section, stages.drop_last(), seq![stages.last()], frame);
    }
}

} // verus!
