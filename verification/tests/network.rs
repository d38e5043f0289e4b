use oko_monitor::network::{NetworkManager, NetworkState};

#[test]
fn test_network_manager_initial_state() {
    let manager = NetworkManager::new();
    assert_eq!(manager.get_state(), NetworkState::Yellow);
    assert_eq!(manager.get_machine_id(), "PENDING_REGISTRATION");
}

#[test]
fn test_network_state_transitions() {
    let mut manager = NetworkManager::new();

    manager.set_state(NetworkState::Green);
    assert_eq!(manager.get_state(), NetworkState::Green);

    manager.set_state(NetworkState::Red);
    assert_eq!(manager.get_state(), NetworkState::Red);
    assert_eq!(manager.get_machine_id(), "PENDING_REGISTRATION");
}

#[test]
fn network_states_have_names() {
    assert_eq!(NetworkState::Green.as_text(), "GREEN");
    assert_eq!(NetworkState::Yellow.as_text(), "YELLOW");
    assert_eq!(NetworkState::Red.as_text(), "RED");
}
