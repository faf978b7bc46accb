use vstd::prelude::*;

verus! {

/// The session states of RFC 4271 section 8: a closed set, exactly one of
/// which is current per peer at any instant. `Idle` is the initial state;
/// every other state is reachable only through a defined transition, and any
/// state falls back to `Idle` on a stop command or a fatal session error.
#[derive(Clone, Copy, Debug, PartialEq, Eq, Hash, Structural)]
pub enum State {
    Idle,
    Connect,
    Active,
    OpenSent,
    OpenConfirm,
    Established,
}

} // verus!
