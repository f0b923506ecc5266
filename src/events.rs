use vstd::prelude::*;

verus! {

/// The kinds of scheduled transient event, without their parameters.
#[derive(Clone, Copy, PartialEq, Eq, Debug, Structural)]
pub enum EventKind {
    NoEvent,
    InstantaneousChange,
    ValveClosure,
    ValveOpening,
    PumpShutdown,
    PumpStartup,
}

pub open spec fn event_kind_name(k: EventKind) -> Seq<char> {
    match k {
        EventKind::NoEvent => "None"@,
        EventKind::InstantaneousChange => "Instantaneous change"@,
        EventKind::ValveClosure => "Valve closure"@,
        EventKind::ValveOpening => "Valve opening"@,
        EventKind::PumpShutdown => "Linear shutdown"@,
        EventKind::PumpStartup => "Linear startup"@,
    }
}

impl EventKind {
    /// The name under which an event kind is shown.
    pub fn text(&self) -> (r: String)
        ensures
            r@ == event_kind_name(*self),
    {
        match self {
            EventKind::NoEvent => "None".to_owned(),
            EventKind::InstantaneousChange => "Instantaneous change".to_owned(),
            EventKind::ValveClosure => "Valve closure".to_owned(),
            EventKind::ValveOpening => "Valve opening".to_owned(),
            EventKind::PumpShutdown => "Linear shutdown".to_owned(),
            EventKind::PumpStartup => "Linear startup".to_owned(),
        }
    }
}

/// The event that applies when several events of one component are listed:
/// among those that have started (`started[i]`), the one listed last. `None`
/// where none has started.
pub fn last_started(started: &Vec<bool>) -> (r: Option<usize>)
    ensures
        match r {
            Some(i) => {
                &&& i < started@.len()
                &&& started@[i as int]
                &&& forall|j: int| i < j < started@.len() ==> !started@[j]
            },
            None => forall|j: int| 0 <= j < started@.len() ==> !started@[j],
        },
{
    let mut i: usize = started.len();
    while i > 0
        invariant
            i <= started@.len(),
            forall|j: int| i <= j < started@.len() ==> !started@[j],
        decreases i,
    {
        if started[i - 1] {
            return Some(i - 1);
        }
        i = i - 1;
    }
    None
}

} // verus!
