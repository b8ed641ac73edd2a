use spotipi::lifecycle::{
    entry_group_event, AdvertisementState, BackendLifecycle, DaemonEvent, EntryGroupState,
    LifecycleAction,
};

#[test]
fn registration_path_reaches_established() {
    let mut m = BackendLifecycle::new();
    assert_eq!(m.state, AdvertisementState::DaemonUnavailable);
    assert_eq!(m.step(DaemonEvent::DaemonUp), LifecycleAction::Register);
    assert_eq!(m.state, AdvertisementState::Registering);
    assert_eq!(m.step(DaemonEvent::RegistrationAcked), LifecycleAction::Idle);
    assert_eq!(m.state, AdvertisementState::Established);
}

#[test]
fn collision_is_terminal_and_never_reregisters() {
    let mut m = BackendLifecycle::new();
    m.step(DaemonEvent::DaemonUp);
    m.step(DaemonEvent::NameCollision);
    assert_eq!(m.state, AdvertisementState::Collision);
    // no daemon report brings a collided advertisement back to registering
    for ev in [
        DaemonEvent::DaemonUp,
        DaemonEvent::RegistrationAcked,
        DaemonEvent::DaemonLost,
        DaemonEvent::RegistrationFailure,
    ] {
        assert_eq!(m.step(ev), LifecycleAction::Idle);
        assert_eq!(m.state, AdvertisementState::Collision);
    }
}

#[test]
fn failure_is_terminal_and_never_reregisters() {
    let mut m = BackendLifecycle::new();
    m.step(DaemonEvent::DaemonUp);
    m.step(DaemonEvent::RegistrationAcked);
    m.step(DaemonEvent::RegistrationFailure);
    assert_eq!(m.state, AdvertisementState::Failed);
    for ev in [DaemonEvent::DaemonUp, DaemonEvent::RegistrationAcked, DaemonEvent::DaemonLost] {
        assert_eq!(m.step(ev), LifecycleAction::Idle);
        assert_eq!(m.state, AdvertisementState::Failed);
    }
}

#[test]
fn daemon_loss_from_established_goes_to_unavailable_not_fatal() {
    let mut m = BackendLifecycle::new();
    m.step(DaemonEvent::DaemonUp);
    m.step(DaemonEvent::RegistrationAcked);
    let action = m.step(DaemonEvent::DaemonLost);
    assert_eq!(m.state, AdvertisementState::DaemonUnavailable);
    assert_eq!(action, LifecycleAction::ClearAndProbe);
    assert_ne!(m.state, AdvertisementState::Collision);
    assert_ne!(m.state, AdvertisementState::Failed);
}

#[test]
fn daemon_disappearance_mid_established_recovers_without_collision() {
    // simulate the daemon vanishing while established, then returning
    let mut m = BackendLifecycle::new();
    m.step(DaemonEvent::DaemonUp);
    m.step(DaemonEvent::RegistrationAcked);
    assert_eq!(m.state, AdvertisementState::Established);

    let lost = m.step(DaemonEvent::DaemonLost);
    assert_eq!(m.state, AdvertisementState::DaemonUnavailable);
    assert_ne!(lost, LifecycleAction::ReportFatal);

    let up = m.step(DaemonEvent::DaemonUp);
    assert_eq!(up, LifecycleAction::Register);
    let acked = m.step(DaemonEvent::RegistrationAcked);
    assert_eq!(acked, LifecycleAction::Idle);
    assert_eq!(m.state, AdvertisementState::Established);
}

#[test]
fn shutdown_stops_from_any_state_and_releases_when_holding() {
    let mut fresh = BackendLifecycle::new();
    assert_eq!(fresh.step(DaemonEvent::ShutdownRequested), LifecycleAction::Idle);
    assert_eq!(fresh.state, AdvertisementState::Stopped);

    let mut established = BackendLifecycle::new();
    established.step(DaemonEvent::DaemonUp);
    established.step(DaemonEvent::RegistrationAcked);
    assert_eq!(established.step(DaemonEvent::ShutdownRequested), LifecycleAction::Release);
    assert_eq!(established.state, AdvertisementState::Stopped);

    let mut registering = BackendLifecycle::new();
    registering.step(DaemonEvent::DaemonUp);
    assert_eq!(registering.step(DaemonEvent::ShutdownRequested), LifecycleAction::Release);
    assert_eq!(registering.state, AdvertisementState::Stopped);
}

#[test]
fn stopped_ignores_further_reports() {
    let mut m = BackendLifecycle::new();
    m.step(DaemonEvent::ShutdownRequested);
    for ev in [DaemonEvent::DaemonUp, DaemonEvent::NameCollision, DaemonEvent::DaemonLost] {
        assert_eq!(m.step(ev), LifecycleAction::Idle);
        assert_eq!(m.state, AdvertisementState::Stopped);
    }
}

#[test]
fn entry_group_states_map_to_daemon_reports() {
    assert_eq!(entry_group_event(EntryGroupState::Uncommited), None);
    assert_eq!(entry_group_event(EntryGroupState::Registering), None);
    assert_eq!(
        entry_group_event(EntryGroupState::Established),
        Some(DaemonEvent::RegistrationAcked)
    );
    assert_eq!(entry_group_event(EntryGroupState::Collision), Some(DaemonEvent::NameCollision));
    assert_eq!(
        entry_group_event(EntryGroupState::Failure),
        Some(DaemonEvent::RegistrationFailure)
    );
}
