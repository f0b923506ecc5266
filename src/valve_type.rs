use vstd::prelude::*;

verus! {

/// The construction of a valve. It only labels the component: the loss law of a
/// valve is given by its table of openings, whatever its type.
#[derive(Clone, Copy, PartialEq, Eq, Debug, Structural)]
pub enum ValveType {
    AngleGlobe,
    Ball,
    Butterfly,
    Diaphragm,
    Gate,
    Globe,
    Needle,
    Pinch,
    Plug,
    Slide,
}

/// The name under which a valve type is shown.
pub open spec fn valve_type_name(v: ValveType) -> Seq<char> {
    match v {
        ValveType::AngleGlobe => "Angle Globe"@,
        ValveType::Ball => "Ball"@,
        ValveType::Butterfly => "Butterfly"@,
        ValveType::Diaphragm => "Diaphragm"@,
        ValveType::Gate => "Gate"@,
        ValveType::Globe => "Globe"@,
        ValveType::Needle => "Needle"@,
        ValveType::Pinch => "Pinch"@,
        ValveType::Plug => "Plug"@,
        ValveType::Slide => "Slide"@,
    }
}

impl ValveType {
    /// The display name of the valve type.
    pub fn text(&self) -> (r: String)
        ensures
            r@ == valve_type_name(*self),
    {
        match self {
            ValveType::AngleGlobe => "Angle Globe".to_owned(),
            ValveType::Ball => "Ball".to_owned(),
            ValveType::Butterfly => "Butterfly".to_owned(),
            ValveType::Diaphragm => "Diaphragm".to_owned(),
            ValveType::Gate => "Gate".to_owned(),
            ValveType::Globe => "Globe".to_owned(),
            ValveType::Needle => "Needle".to_owned(),
            ValveType::Pinch => "Pinch".to_owned(),
            ValveType::Plug => "Plug".to_owned(),
            ValveType::Slide => "Slide".to_owned(),
        }
    }
}

impl Default for ValveType {
    /// A new valve is a butterfly valve.
    fn default() -> (r: ValveType)
        ensures
            r == ValveType::Butterfly,
    {
        ValveType::Butterfly
    }
}

} // verus!
