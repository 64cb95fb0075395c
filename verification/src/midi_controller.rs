//! Which output port to open, decided from how many there are.

use vstd::prelude::*;

verus! {

/// What to do about the output port.
#[derive(Debug, Clone, Copy, PartialEq, Eq, Structural)]
pub enum PortSelection {
    /// Open the port at this index.
    Use(usize),
    /// There are several ports and none was preferred: ask which.
    Ask,
    /// There is no port.
    NoPort,
}

/// The port to open among `port_count` ports: the preferred one where
/// there is a port at its index; else none of none, the only one of
/// one, and the caller's to ask for among several.
pub open spec fn selected_port(preferred: Option<usize>, port_count: usize) -> PortSelection {
    if preferred is Some && preferred->0 < port_count {
        PortSelection::Use(preferred->0)
    } else if port_count == 0 {
        PortSelection::NoPort
    } else if port_count == 1 {
        PortSelection::Use(0)
    } else {
        PortSelection::Ask
    }
}

/// Decides which of `port_count` output ports to open.
pub fn select_output_port(preferred_output_port_index: Option<usize>, port_count: usize) -> (r:
    PortSelection)
    ensures
        r == selected_port(preferred_output_port_index, port_count),
        r matches PortSelection::Use(index) ==> index < port_count,
{
    if let Some(preferred_index) = preferred_output_port_index {
        if preferred_index < port_count {
            return PortSelection::Use(preferred_index);
        }
    }
    if port_count == 0 {
        PortSelection::NoPort
    } else if port_count == 1 {
        PortSelection::Use(0)
    } else {
        PortSelection::Ask
    }
}

} // verus!
