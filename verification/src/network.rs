//! The connection of this machine to its server.

use vstd::prelude::*;

verus! {

/// How the connection stands.
#[derive(Debug, Clone, Copy, PartialEq, Eq, Structural)]
pub enum NetworkState {
    /// Online and connected to the server.
    Green,
    /// Offline, but the service is running.
    Yellow,
    /// In error or disconnected.
    Red,
}

/// The two editions of the core service. They differ in what a heartbeat tells
/// and in the wording of some entries of the event log.
#[derive(Debug, Clone, Copy, PartialEq, Eq, Structural)]
pub enum Edition {
    /// A heartbeat tells its time only.
    Plain,
    /// A heartbeat tells how the connection to the server stands.
    Networked,
}

impl NetworkState {
    /// The name of the state in a heartbeat.
    pub open spec fn name(self) -> Seq<char> {
        match self {
            NetworkState::Green => "GREEN"@,
            NetworkState::Yellow => "YELLOW"@,
            NetworkState::Red => "RED"@,
        }
    }

    /// The name of the state in a heartbeat.
    pub fn as_text(self) -> (r: &'static str)
        ensures
            r@ == self.name(),
    {
        match self {
            NetworkState::Green => "GREEN",
            NetworkState::Yellow => "YELLOW",
            NetworkState::Red => "RED",
        }
    }
}

/// What is known of the connection.
pub struct NetworkManager {
    state: NetworkState,
    machine_id: String,
}

impl NetworkManager {
    /// How the connection stands.
    pub closed spec fn current(&self) -> NetworkState {
        self.state
    }

    /// The name under which the machine is registered.
    pub closed spec fn id(&self) -> Seq<char> {
        self.machine_id@
    }

    /// Before the first contact: offline, and not registered yet.
    pub fn new() -> (r: NetworkManager)
        ensures
            r.current() == NetworkState::Yellow,
            r.id() == "PENDING_REGISTRATION"@,
    {
        NetworkManager {
            state: NetworkState::Yellow,
            machine_id: "PENDING_REGISTRATION".to_owned(),
        }
    }

    /// How the connection stands.
    pub fn get_state(&self) -> (r: NetworkState)
        ensures
            r == self.current(),
    {
        self.state
    }

    /// Notes how the connection stands.
    pub fn set_state(&mut self, new_state: NetworkState)
        ensures
            final(self).current() == new_state,
            final(self).id() == old(self).id(),
    {
        self.state = new_state;
    }

    /// The name under which the machine is registered.
    pub fn get_machine_id(&self) -> (r: String)
        ensures
            r@ == self.id(),
    {
        self.machine_id.clone()
    }
}

/// The states are told by names of their own.
pub proof fn law_states_are_named(state: NetworkState)
    ensures
        state == NetworkState::Green <==> state.name() == "GREEN"@,
        state == NetworkState::Yellow <==> state.name() == "YELLOW"@,
        state == NetworkState::Red <==> state.name() == "RED"@,
{
    reveal_strlit("GREEN");
    reveal_strlit("YELLOW");
    reveal_strlit("RED");
    assert("GREEN"@.len() == 5 && "YELLOW"@.len() == 6 && "RED"@.len() == 3);
}

} // verus!
