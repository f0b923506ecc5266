use vstd::prelude::*;

verus! {

// A history is the time series of one quantity of a component (a pressure, a
// consumption, a mass flow, an opening, a speed). Index 0 holds the steady
// value; each committed time step appends one sample.

/// Drops every transient sample and keeps the steady value alone.
pub fn reset_to_steady<T: Copy>(h: &mut Vec<T>)
    requires
        old(h)@.len() >= 1,
    ensures
        final(h)@ == seq![old(h)@[0]],
{
    h.truncate(1);
    assert(h@ =~= seq![old(h)@[0]]);
}

/// Appends one sample that repeats the latest one: the value of a quantity
/// that nothing drives during the step.
pub fn repeat_last<T: Copy>(h: &mut Vec<T>)
    requires
        old(h)@.len() >= 1,
    ensures
        final(h)@ == old(h)@.push(old(h)@.last()),
{
    let last = h[h.len() - 1];
    h.push(last);
}

/// Appends the sample of a committed time step.
pub fn record<T>(h: &mut Vec<T>, value: T)
    ensures
        final(h)@ == old(h)@.push(value),
        final(h)@.len() == old(h)@.len() + 1,
{
    h.push(value);
}

/// Where every history holds `step + 1` samples and each is given one more, as
/// a time step does, every history holds `step + 2` samples, and what it held
/// before is left as it was.
pub proof fn lemma_step_lengths<T>(before: Seq<Seq<T>>, after: Seq<Seq<T>>, samples: Seq<T>, step: nat)
    requires
        before.len() == after.len(),
        samples.len() == before.len(),
        forall|i: int| 0 <= i < before.len() ==> (#[trigger] before[i]).len() == step + 1,
        forall|i: int| 0 <= i < before.len() ==> #[trigger] after[i] == before[i].push(samples[i]),
    ensures
        forall|i: int|
            0 <= i < after.len() ==> {
                &&& (#[trigger] after[i]).len() == step + 2
                &&& after[i].take(step + 1 as int) == before[i]
                &&& after[i][step + 1 as int] == samples[i]
            },
{
    assert forall|i: int| 0 <= i < after.len() implies {
        &&& (#[trigger] after[i]).len() == step + 2
        &&& after[i].take(step + 1 as int) == before[i]
        &&& after[i][step + 1 as int] == samples[i]
    } by {
        assert(after[i] == before[i].push(samples[i]));
        assert(after[i].take(step + 1 as int) =~= before[i]);
    }
}

} // verus!
