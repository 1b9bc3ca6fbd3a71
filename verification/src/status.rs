//! The operating mode of the node, which gates the prover's work.

use vstd::prelude::*;

verus! {

/// The operating modes of a node.
#[derive(Clone, Copy, Debug, PartialEq, Eq, Structural)]
pub enum State {
    /// The node is idle and may start mining.
    Ready,
    /// A mining job is in flight.
    Mining,
    /// The node is connecting to peers.
    Peering,
    /// The node is catching up with the ledger of its peers.
    Syncing,
    /// The node is shutting down.
    ShuttingDown,
}

/// The status of the node: its current operating mode. No order of
/// transitions is enforced: any mode may follow any other.
#[derive(Clone, Copy, Debug, PartialEq, Eq, Structural)]
pub struct Status {
    pub state: State,
}

impl Status {
    /// Returns a status in the given mode.
    pub fn new(state: State) -> (status: Status)
        ensures
            status.state == state,
    {
        Status { state }
    }

    /// Returns the current mode.
    pub fn get(&self) -> (state: State)
        ensures
            state == self.state,
    {
        self.state
    }

    /// Returns whether the node is `Ready`.
    pub fn is_ready(&self) -> (ready: bool)
        ensures
            ready == (self.state == State::Ready),
    {
        self.state == State::Ready
    }

    /// Returns whether the node is `Mining`.
    pub fn is_mining(&self) -> (mining: bool)
        ensures
            mining == (self.state == State::Mining),
    {
        self.state == State::Mining
    }

    /// Returns whether the node is `Peering`.
    pub fn is_peering(&self) -> (peering: bool)
        ensures
            peering == (self.state == State::Peering),
    {
        self.state == State::Peering
    }

    /// Puts the node into the given mode, whatever mode it was in.
    pub fn update(&mut self, state: State)
        ensures
            final(self).state == state,
    {
        self.state = state;
    }
}

} // verus!
