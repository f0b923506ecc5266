use vstd::prelude::*;

verus! {

/// How a two-state valve-like component decides, at each time step, whether it
/// is open. The trigger is the pressure condition of the component, read from
/// the latest step: a favourable head difference for a check valve, a pressure
/// difference above the set value for a safety valve or a bursting disk.
#[derive(Clone, Copy, PartialEq, Eq, Debug, Structural)]
pub enum SwitchRule {
    /// Stays open while the head difference is favourable; once shut, stays shut.
    Check,
    /// Open exactly while the pressure difference exceeds the set value.
    Safety,
    /// Opens when the pressure difference exceeds the burst value, and then
    /// stays open.
    Burst,
}

pub open spec fn next_open_spec(rule: SwitchRule, was_open: bool, trigger: bool) -> bool {
    match rule {
        SwitchRule::Check => was_open && trigger,
        SwitchRule::Safety => trigger,
        SwitchRule::Burst => was_open || trigger,
    }
}

/// Whether the component is open at the next step, given whether it was open
/// at the latest step and whether its trigger holds there.
pub fn next_open(rule: SwitchRule, was_open: bool, trigger: bool) -> (r: bool)
    ensures
        r == next_open_spec(rule, was_open, trigger),
{
    match rule {
        SwitchRule::Check => was_open && trigger,
        SwitchRule::Safety => trigger,
        SwitchRule::Burst => was_open || trigger,
    }
}

/// The open states of a component over the steps, starting from its steady
/// state `initial`, when `triggers[k]` is its trigger at step `k`: one state
/// more than there are triggers.
pub open spec fn open_states(rule: SwitchRule, initial: bool, triggers: Seq<bool>) -> Seq<bool>
    decreases triggers.len(),
{
    if triggers.len() == 0 {
        seq![initial]
    } else {
        let prev = open_states(rule, initial, triggers.drop_last());
        prev.push(next_open_spec(rule, prev.last(), triggers.last()))
    }
}

pub proof fn lemma_open_states_len(rule: SwitchRule, initial: bool, triggers: Seq<bool>)
    ensures
        open_states(rule, initial, triggers).len() == triggers.len() + 1,
    decreases triggers.len(),
{
    if triggers.len() > 0 {
        lemma_open_states_len(rule, initial, triggers.drop_last());
    }
}

/// A bursting disk is open at step `k` exactly where it was open in the steady
/// state or its trigger held at some earlier step. So once open, it stays open
/// whatever the pressure does afterwards.
pub proof fn lemma_burst_latches(initial: bool, triggers: Seq<bool>, k: int)
    requires
        0 <= k <= triggers.len(),
    ensures
        open_states(SwitchRule::Burst, initial, triggers)[k] == (initial || exists|i: int|
            0 <= i < k && #[trigger] triggers[i]),
    decreases triggers.len(),
{
    lemma_open_states_len(SwitchRule::Burst, initial, triggers);
    if triggers.len() > 0 {
        let rest = triggers.drop_last();
        lemma_open_states_len(SwitchRule::Burst, initial, rest);
        if k < triggers.len() {
            lemma_burst_latches(initial, rest, k);
            assert forall|i: int| 0 <= i < k implies rest[i] == triggers[i] by {}
            if exists|i: int| 0 <= i < k && #[trigger] rest[i] {
                let i = choose|i: int| 0 <= i < k && #[trigger] rest[i];
                assert(triggers[i]);
            }
        } else {
            let n = rest.len() as int;
            lemma_burst_latches(initial, rest, n);
            if exists|i: int| 0 <= i < n && #[trigger] rest[i] {
                let i = choose|i: int| 0 <= i < n && #[trigger] rest[i];
                assert(triggers[i]);
            }
            if exists|i: int| 0 <= i < k && #[trigger] triggers[i] {
                let i = choose|i: int| 0 <= i < k && #[trigger] triggers[i];
                if i < n {
                    assert(rest[i]);
                }
            }
        }
    }
}

/// Once a bursting disk is open it is open at every later step.
pub proof fn lemma_burst_stays_open(initial: bool, triggers: Seq<bool>, k1: int, k2: int)
    requires
        0 <= k1 <= k2 <= triggers.len(),
        open_states(SwitchRule::Burst, initial, triggers)[k1],
    ensures
        open_states(SwitchRule::Burst, initial, triggers)[k2],
{
    lemma_burst_latches(initial, triggers, k1);
    lemma_burst_latches(initial, triggers, k2);
    if !initial {
        let i = choose|i: int| 0 <= i < k1 && #[trigger] triggers[i];
        assert(0 <= i < k2 && triggers[i]);
    }
}

} // verus!
