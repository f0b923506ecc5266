use vstd::prelude::*;

verus! {

/// The kinds of node of a network.
#[derive(Clone, Copy, PartialEq, Eq, Debug, Structural)]
pub enum NodeKind {
    /// A boundary whose pressure is prescribed.
    Pressure,
    /// A boundary whose consumption is prescribed.
    Flow,
    /// A junction: pressure and consumption are both solved for.
    Connection,
    /// A node kept for drawing only.
    Hidden,
    /// A tank, whose head is prescribed by its fluid level.
    Tank,
}

pub open spec fn node_kind_name(k: NodeKind) -> Seq<char> {
    match k {
        NodeKind::Pressure => "Pressure"@,
        NodeKind::Flow => "Flow"@,
        NodeKind::Connection => "Connection"@,
        NodeKind::Hidden => "Hidden"@,
        NodeKind::Tank => "Tank"@,
    }
}

/// The nodes whose head the solvers pin to a prescribed value: pressure
/// boundaries and tanks.
pub open spec fn fixes_head_spec(k: NodeKind) -> bool {
    k == NodeKind::Pressure || k == NodeKind::Tank
}

impl NodeKind {
    /// The name under which a node kind is shown.
    pub fn text(&self) -> (r: String)
        ensures
            r@ == node_kind_name(*self),
    {
        match self {
            NodeKind::Pressure => "Pressure".to_owned(),
            NodeKind::Flow => "Flow".to_owned(),
            NodeKind::Connection => "Connection".to_owned(),
            NodeKind::Hidden => "Hidden".to_owned(),
            NodeKind::Tank => "Tank".to_owned(),
        }
    }

    /// Whether the solvers replace the continuity row of such a node by the
    /// prescribed head.
    pub fn fixes_head(&self) -> (r: bool)
        ensures
            r == fixes_head_spec(*self),
    {
        match self {
            NodeKind::Pressure | NodeKind::Tank => true,
            _ => false,
        }
    }

    /// Whether the consumption of such a node is prescribed.
    pub fn fixes_consumption(&self) -> (r: bool)
        ensures
            r == (*self == NodeKind::Flow),
    {
        match self {
            NodeKind::Flow => true,
            _ => false,
        }
    }
}

/// The kinds of edge of a network.
#[derive(Clone, Copy, PartialEq, Eq, Debug, Structural)]
pub enum EdgeKind {
    Pipe,
    Valve,
    Pump,
    Bend,
    SizeChange,
    CheckValve,
    SafetyValve,
    ReliefValve,
    BurstingDisk,
    Generic,
    OpenPipe,
}

pub open spec fn edge_kind_name(k: EdgeKind) -> Seq<char> {
    match k {
        EdgeKind::Pipe => "Pipe"@,
        EdgeKind::Valve => "Valve"@,
        EdgeKind::Pump => "Pump"@,
        EdgeKind::Bend => "Bend"@,
        EdgeKind::SizeChange => "Size Change"@,
        EdgeKind::CheckValve => "Check Valve"@,
        EdgeKind::SafetyValve => "Safety Valve"@,
        EdgeKind::ReliefValve => "Relief Valve"@,
        EdgeKind::BurstingDisk => "Bursting Disk"@,
        EdgeKind::Generic => "Generic"@,
        EdgeKind::OpenPipe => "Open Pipe"@,
    }
}

/// The edges that carry a history of openings.
pub open spec fn has_opening_spec(k: EdgeKind) -> bool {
    match k {
        EdgeKind::Valve | EdgeKind::CheckValve | EdgeKind::SafetyValve | EdgeKind::ReliefValve
        | EdgeKind::BurstingDisk => true,
        _ => false,
    }
}

impl EdgeKind {
    /// The name under which an edge kind is shown.
    pub fn text(&self) -> (r: String)
        ensures
            r@ == edge_kind_name(*self),
    {
        match self {
            EdgeKind::Pipe => "Pipe".to_owned(),
            EdgeKind::Valve => "Valve".to_owned(),
            EdgeKind::Pump => "Pump".to_owned(),
            EdgeKind::Bend => "Bend".to_owned(),
            EdgeKind::SizeChange => "Size Change".to_owned(),
            EdgeKind::CheckValve => "Check Valve".to_owned(),
            EdgeKind::SafetyValve => "Safety Valve".to_owned(),
            EdgeKind::ReliefValve => "Relief Valve".to_owned(),
            EdgeKind::BurstingDisk => "Bursting Disk".to_owned(),
            EdgeKind::Generic => "Generic".to_owned(),
            EdgeKind::OpenPipe => "Open Pipe".to_owned(),
        }
    }

    /// Whether an edge of this kind carries a history of openings.
    pub fn has_opening(&self) -> (r: bool)
        ensures
            r == has_opening_spec(*self),
    {
        match self {
            EdgeKind::Valve | EdgeKind::CheckValve | EdgeKind::SafetyValve
            | EdgeKind::ReliefValve | EdgeKind::BurstingDisk => true,
            _ => false,
        }
    }
}

} // verus!
