//! What an acceptor does with one client connection.
//!
//! An acceptor looks at the toggle before it dials the backend, and again
//! once the dial has succeeded: a connection is handed to the byte copy only
//! while the toggle is up. Whenever the backend is down or unreachable, the
//! acceptor asks the controller to activate it and parks until the toggle
//! rises; the controller absorbs repeated requests.
use vstd::prelude::*;

verus! {

/// The acceptor's next move for one client connection.
#[derive(Debug, Clone, Copy, PartialEq, Eq, Structural)]
pub enum ConnAction {
    /// Dial the backend.
    Dial,
    /// Record the contact time and hand both sockets to the byte copy.
    Forward,
    /// Ask the controller to activate the backend, then park until the
    /// toggle rises and look again.
    RequestActivation,
}

/// The move before dialing, given the toggle level.
pub open spec fn before_dial_spec(toggle_up: bool) -> ConnAction {
    if toggle_up {
        ConnAction::Dial
    } else {
        ConnAction::RequestActivation
    }
}

/// The move after a dial, given whether it connected and the toggle level
/// seen after it.
pub open spec fn after_dial_spec(connected: bool, toggle_up: bool) -> ConnAction {
    if connected && toggle_up {
        ConnAction::Forward
    } else {
        ConnAction::RequestActivation
    }
}

/// The move before dialing, given the toggle level.
pub fn before_dial(toggle_up: bool) -> (r: ConnAction)
    ensures
        r == before_dial_spec(toggle_up),
{
    if toggle_up {
        ConnAction::Dial
    } else {
        ConnAction::RequestActivation
    }
}

/// The move after a dial, given whether it connected and the toggle level seen
/// after it. A connection is forwarded only while the toggle is up.
pub fn after_dial(connected: bool, toggle_up: bool) -> (r: ConnAction)
    ensures
        r == after_dial_spec(connected, toggle_up),
        r == ConnAction::Forward ==> toggle_up,
{
    if connected && toggle_up {
        ConnAction::Forward
    } else {
        ConnAction::RequestActivation
    }
}

} // verus!
