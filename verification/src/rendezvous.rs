use vstd::prelude::*;

verus! {

/// The uniform stop protocol every backend handle follows: the owner sends
/// one stop signal, the backend task releases its native advertisement
/// resource and exits, and only then does the owner's wait return. The
/// model tracks the protocol's obligations; the task and signal themselves
/// live with the runtime.
pub struct ShutdownRendezvous {
    /// The one-shot stop signal has been sent.
    pub stop_requested: bool,
    /// The backend task has released its native registration resource.
    pub resource_released: bool,
    /// The owner's wait on the task has returned.
    pub completed: bool,
}

impl ShutdownRendezvous {
    /// The protocol's invariant: the wait returns only after the resource
    /// is released, and the resource is released only after the stop signal.
    pub open spec fn wf(&self) -> bool {
        &&& self.completed ==> self.resource_released
        &&& self.resource_released ==> self.stop_requested
    }

    /// A fresh handle: nothing signalled, nothing released.
    pub fn new() -> (r: ShutdownRendezvous)
        ensures
            r.wf(),
            !r.stop_requested,
            !r.resource_released,
            !r.completed,
    {
        ShutdownRendezvous { stop_requested: false, resource_released: false, completed: false }
    }

    /// Sends the stop signal. Sending it twice is a caller bug, so a second
    /// send is ruled out rather than handled.
    pub fn request_stop(&mut self)
        requires
            old(self).wf(),
            !old(self).stop_requested,
        ensures
            final(self).wf(),
            final(self).stop_requested,
            !final(self).completed,
    {
        self.stop_requested = true;
    }

    /// Records that the backend task has released its native resource; only
    /// the stop signal makes it do so.
    pub fn mark_released(&mut self)
        requires
            old(self).wf(),
            old(self).stop_requested,
        ensures
            final(self).wf(),
            final(self).resource_released,
            final(self).completed == old(self).completed,
    {
        self.resource_released = true;
    }

    /// Records that the owner's wait has returned. It cannot return before
    /// the native resource is released: that is the guarantee that makes
    /// "dropped means no longer discoverable" hold without a race.
    pub fn complete(&mut self)
        requires
            old(self).wf(),
            old(self).resource_released,
        ensures
            final(self).wf(),
            final(self).completed,
            final(self).resource_released,
    {
        self.completed = true;
    }
}

/// Once the owner's wait has returned, the native advertisement resource has
/// been released: a fresh advertisement under the same name can be
/// registered at once.
pub proof fn lemma_completed_implies_released(r: ShutdownRendezvous)
    requires
        r.wf(),
        r.completed,
    ensures
        r.resource_released,
{
}

} // verus!
