//! Steady and transient flow in networks of closed conduits.
//!
//! The numerical engine works on floating-point values; this crate holds the
//! parts of it that are about structure: the kinds of components and their
//! names, the id-to-index map and the incidence operators of the network graph,
//! the checks made before a solve, the time-indexed histories, the choice of
//! the scheduled event that applies at a time, and the opening rules of check
//! valves, safety valves and bursting disks.

pub mod events;
pub mod history;
pub mod kinds;
pub mod solver_type;
pub mod switching;
pub mod topology;
pub mod valve_type;

pub use self::events::EventKind;
pub use self::kinds::{EdgeKind, NodeKind};
pub use self::solver_type::SolverType;
pub use self::switching::SwitchRule;
pub use self::topology::NetworkError;
pub use self::valve_type::ValveType;
