use vstd::prelude::*;

verus! {

/// The registration lifecycle of one advertisement, as one backend's daemon
/// reports it.
#[derive(Clone, Copy, Debug, PartialEq, Eq, Structural)]
pub enum AdvertisementState {
    /// The daemon is not reachable; probing continues indefinitely.
    DaemonUnavailable,
    /// The daemon accepted the registration request; no acknowledgement yet.
    Registering,
    /// The advertisement is published.
    Established,
    /// The daemon reported the name as already in use. Terminal: the same
    /// device was most likely started twice, so the name is not mutated and
    /// registration is not retried.
    Collision,
    /// The daemon reported an internal registration failure. Terminal.
    Failed,
    /// An explicit shutdown was requested. Terminal.
    Stopped,
}

/// What one backend's daemon or supervisor reports.
#[derive(Clone, Copy, Debug, PartialEq, Eq, Structural)]
pub enum DaemonEvent {
    /// The daemon answered a liveness probe or announced itself.
    DaemonUp,
    /// The daemon acknowledged the registration.
    RegistrationAcked,
    /// The daemon reported the advertised name as already in use.
    NameCollision,
    /// The daemon reported an internal registration failure.
    RegistrationFailure,
    /// The daemon's connection was lost.
    DaemonLost,
    /// The owner asked the backend to stop.
    ShutdownRequested,
}

/// What the supervising task must do after a transition.
#[derive(Clone, Copy, Debug, PartialEq, Eq, Structural)]
pub enum LifecycleAction {
    /// Nothing to do.
    Idle,
    /// Submit a fresh registration to the daemon.
    Register,
    /// Clear local registration state and go back to probing the daemon.
    ClearAndProbe,
    /// Release the native registration resource; the backend is done.
    Release,
    /// Surface a fatal condition; the native resource is already withdrawn.
    ReportFatal,
}

/// The next state after `event` arrives in `state`.
///
/// `Collision`, `Failed` and `Stopped` are terminal but for explicit
/// shutdown: no event leads from them back into registration. A lost daemon
/// is not fatal from any live state; it returns the machine to probing.
pub open spec fn spec_step(state: AdvertisementState, event: DaemonEvent) -> AdvertisementState {
    if event == DaemonEvent::ShutdownRequested {
        AdvertisementState::Stopped
    } else {
        match state {
            AdvertisementState::DaemonUnavailable => match event {
                DaemonEvent::DaemonUp => AdvertisementState::Registering,
                _ => AdvertisementState::DaemonUnavailable,
            },
            AdvertisementState::Registering => match event {
                DaemonEvent::RegistrationAcked => AdvertisementState::Established,
                DaemonEvent::NameCollision => AdvertisementState::Collision,
                DaemonEvent::RegistrationFailure => AdvertisementState::Failed,
                DaemonEvent::DaemonLost => AdvertisementState::DaemonUnavailable,
                _ => AdvertisementState::Registering,
            },
            AdvertisementState::Established => match event {
                DaemonEvent::NameCollision => AdvertisementState::Collision,
                DaemonEvent::RegistrationFailure => AdvertisementState::Failed,
                DaemonEvent::DaemonLost => AdvertisementState::DaemonUnavailable,
                _ => AdvertisementState::Established,
            },
            AdvertisementState::Collision => AdvertisementState::Collision,
            AdvertisementState::Failed => AdvertisementState::Failed,
            AdvertisementState::Stopped => AdvertisementState::Stopped,
        }
    }
}

/// True for the states in which the backend holds a native registration
/// resource at the daemon.
pub open spec fn spec_holds_registration(state: AdvertisementState) -> bool {
    state == AdvertisementState::Registering || state == AdvertisementState::Established
}

/// The action the supervising task owes after `event` arrives in `state`.
pub open spec fn spec_action(state: AdvertisementState, event: DaemonEvent) -> LifecycleAction {
    if event == DaemonEvent::ShutdownRequested {
        if state == AdvertisementState::Stopped {
            LifecycleAction::Idle
        } else if spec_holds_registration(state) {
            LifecycleAction::Release
        } else {
            LifecycleAction::Idle
        }
    } else {
        match state {
            AdvertisementState::DaemonUnavailable => {
                if event == DaemonEvent::DaemonUp {
                    LifecycleAction::Register
                } else {
                    LifecycleAction::Idle
                }
            },
            AdvertisementState::Registering | AdvertisementState::Established => match event {
                DaemonEvent::NameCollision => LifecycleAction::ReportFatal,
                DaemonEvent::RegistrationFailure => LifecycleAction::ReportFatal,
                DaemonEvent::DaemonLost => LifecycleAction::ClearAndProbe,
                _ => LifecycleAction::Idle,
            },
            _ => LifecycleAction::Idle,
        }
    }
}

/// One backend's registration state machine. The owning task feeds it every
/// daemon report and performs the action it returns; the machine itself
/// never touches the daemon.
pub struct BackendLifecycle {
    pub state: AdvertisementState,
}

impl BackendLifecycle {
    /// A fresh machine: the daemon has not been seen yet.
    pub fn new() -> (r: BackendLifecycle)
        ensures
            r.state == AdvertisementState::DaemonUnavailable,
    {
        BackendLifecycle { state: AdvertisementState::DaemonUnavailable }
    }

    /// Applies one daemon report and returns what the supervising task must
    /// do next.
    pub fn step(&mut self, event: DaemonEvent) -> (action: LifecycleAction)
        ensures
            final(self).state == spec_step(old(self).state, event),
            action == spec_action(old(self).state, event),
    {
        let state = self.state;
        if matches!(event, DaemonEvent::ShutdownRequested) {
            self.state = AdvertisementState::Stopped;
            return if matches!(state, AdvertisementState::Stopped) {
                LifecycleAction::Idle
            } else if matches!(state, AdvertisementState::Registering)
                || matches!(state, AdvertisementState::Established) {
                LifecycleAction::Release
            } else {
                LifecycleAction::Idle
            };
        }
        match state {
            AdvertisementState::DaemonUnavailable => {
                if matches!(event, DaemonEvent::DaemonUp) {
                    self.state = AdvertisementState::Registering;
                    LifecycleAction::Register
                } else {
                    LifecycleAction::Idle
                }
            },
            AdvertisementState::Registering => match event {
                DaemonEvent::RegistrationAcked => {
                    self.state = AdvertisementState::Established;
                    LifecycleAction::Idle
                },
                DaemonEvent::NameCollision => {
                    self.state = AdvertisementState::Collision;
                    LifecycleAction::ReportFatal
                },
                DaemonEvent::RegistrationFailure => {
                    self.state = AdvertisementState::Failed;
                    LifecycleAction::ReportFatal
                },
                DaemonEvent::DaemonLost => {
                    self.state = AdvertisementState::DaemonUnavailable;
                    LifecycleAction::ClearAndProbe
                },
                _ => LifecycleAction::Idle,
            },
            AdvertisementState::Established => match event {
                DaemonEvent::NameCollision => {
                    self.state = AdvertisementState::Collision;
                    LifecycleAction::ReportFatal
                },
                DaemonEvent::RegistrationFailure => {
                    self.state = AdvertisementState::Failed;
                    LifecycleAction::ReportFatal
                },
                DaemonEvent::DaemonLost => {
                    self.state = AdvertisementState::DaemonUnavailable;
                    LifecycleAction::ClearAndProbe
                },
                _ => LifecycleAction::Idle,
            },
            _ => LifecycleAction::Idle,
        }
    }
}

/// The state after a whole sequence of daemon reports.
pub open spec fn spec_run(state: AdvertisementState, events: Seq<DaemonEvent>) -> AdvertisementState
    decreases events.len(),
{
    if events.len() == 0 {
        state
    } else {
        spec_run(spec_step(state, events[0]), events.skip(1))
    }
}

/// A `Collision` or `Failed` report is terminal: within the same
/// advertisement lifetime no sequence of daemon reports brings the machine
/// back to `Registering` (nor to `Established`); it can only stay where it
/// is or be stopped.
pub proof fn lemma_terminal_never_reregisters(
    state: AdvertisementState,
    events: Seq<DaemonEvent>,
)
    requires
        state == AdvertisementState::Collision || state == AdvertisementState::Failed || state
            == AdvertisementState::Stopped,
    ensures
        spec_run(state, events) == state || spec_run(state, events) == AdvertisementState::Stopped,
    decreases events.len(),
{
    if events.len() > 0 {
        lemma_terminal_never_reregisters(spec_step(state, events[0]), events.skip(1));
    }
}

/// A daemon-absence report from `Established` always returns the machine to
/// `DaemonUnavailable` — never to `Collision` or `Failed` — and asks the
/// task to clear local state and probe again.
pub proof fn lemma_daemon_loss_not_fatal()
    ensures
        spec_step(AdvertisementState::Established, DaemonEvent::DaemonLost)
            == AdvertisementState::DaemonUnavailable,
        spec_action(AdvertisementState::Established, DaemonEvent::DaemonLost)
            == LifecycleAction::ClearAndProbe,
{
}

/// After recovery the machine re-registers cleanly: losing the daemon in
/// `Established`, seeing it return, and having the registration acknowledged
/// ends in `Established` again, with no fatal report on the way.
pub proof fn lemma_reregistration_after_daemon_return()
    ensures
        spec_run(
            AdvertisementState::Established,
            seq![
                DaemonEvent::DaemonLost,
                DaemonEvent::DaemonUp,
                DaemonEvent::RegistrationAcked,
            ],
        ) == AdvertisementState::Established,
        spec_action(AdvertisementState::Established, DaemonEvent::DaemonLost)
            != LifecycleAction::ReportFatal,
        spec_action(AdvertisementState::DaemonUnavailable, DaemonEvent::DaemonUp)
            != LifecycleAction::ReportFatal,
        spec_action(AdvertisementState::Registering, DaemonEvent::RegistrationAcked)
            != LifecycleAction::ReportFatal,
{
    let events = seq![
        DaemonEvent::DaemonLost,
        DaemonEvent::DaemonUp,
        DaemonEvent::RegistrationAcked,
    ];
    let e1 = events.skip(1);
    let e2 = e1.skip(1);
    let e3 = e2.skip(1);
    assert(events[0] == DaemonEvent::DaemonLost);
    assert(e1[0] == DaemonEvent::DaemonUp && e1.len() == 2);
    assert(e2[0] == DaemonEvent::RegistrationAcked && e2.len() == 1);
    assert(e3.len() == 0);
    assert(spec_run(AdvertisementState::Established, events) == spec_run(
        AdvertisementState::DaemonUnavailable,
        e1,
    ));
    assert(spec_run(AdvertisementState::DaemonUnavailable, e1) == spec_run(
        AdvertisementState::Registering,
        e2,
    ));
    assert(spec_run(AdvertisementState::Registering, e2) == spec_run(
        AdvertisementState::Established,
        e3,
    ));
}

/// Shutdown always stops the machine, from any state.
pub proof fn lemma_shutdown_stops(state: AdvertisementState)
    ensures
        spec_step(state, DaemonEvent::ShutdownRequested) == AdvertisementState::Stopped,
        spec_holds_registration(state) ==> spec_action(state, DaemonEvent::ShutdownRequested)
            == LifecycleAction::Release,
{
}

/// The entry-group states an asynchronous daemon reports for one
/// advertisement, by their wire values: not yet committed, registering,
/// established, name collision, failure.
#[derive(Clone, Copy, Debug, PartialEq, Eq, Structural)]
pub enum EntryGroupState {
    Uncommited,
    Registering,
    Established,
    Collision,
    Failure,
}

/// The daemon report an entry-group state change amounts to: the two
/// not-yet-registered states carry no news, the other three map to their
/// events.
pub open spec fn spec_entry_group_event(state: EntryGroupState) -> Option<DaemonEvent> {
    match state {
        EntryGroupState::Uncommited => None,
        EntryGroupState::Registering => None,
        EntryGroupState::Established => Some(DaemonEvent::RegistrationAcked),
        EntryGroupState::Collision => Some(DaemonEvent::NameCollision),
        EntryGroupState::Failure => Some(DaemonEvent::RegistrationFailure),
    }
}

/// Maps an entry-group state change to the daemon report to feed the state
/// machine, if it carries one.
pub fn entry_group_event(state: EntryGroupState) -> (r: Option<DaemonEvent>)
    ensures
        r == spec_entry_group_event(state),
{
    match state {
        EntryGroupState::Uncommited => None,
        EntryGroupState::Registering => None,
        EntryGroupState::Established => Some(DaemonEvent::RegistrationAcked),
        EntryGroupState::Collision => Some(DaemonEvent::NameCollision),
        EntryGroupState::Failure => Some(DaemonEvent::RegistrationFailure),
    }
}

} // verus!
