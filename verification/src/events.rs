use vstd::prelude::*;

use crate::error::DiscoveryError;
use crate::handshake::Credentials;

verus! {

/// What the discovery facade's merged stream carries: pairing results from
/// the handshake listener and fatal conditions from either sub-component.
pub enum DiscoveryEvent {
    /// A pairing succeeded; the peer's credentials.
    Credentials(Credentials),
    /// The handshake listener failed fatally.
    ServerError(DiscoveryError),
    /// The zeroconf backend failed fatally.
    ZeroconfError(DiscoveryError),
}

/// Whether the merged stream is still live after `event` arrives while the
/// stream's liveness is `live`: any error event ends it for good.
pub open spec fn spec_merge_live_after(live: bool, event: DiscoveryEvent) -> bool {
    live && (event matches DiscoveryEvent::Credentials(_))
}

/// What the merged stream delivers for `event`: credentials while live,
/// nothing once ended.
pub open spec fn spec_merge_output(live: bool, event: DiscoveryEvent) -> Option<Credentials> {
    if live {
        match event {
            DiscoveryEvent::Credentials(c) => Some(c),
            _ => None,
        }
    } else {
        None
    }
}

/// The credentials inside a `Credentials` event.
pub open spec fn spec_credentials_payload(event: DiscoveryEvent) -> Credentials
    recommends
        event matches DiscoveryEvent::Credentials(_),
{
    match event {
        DiscoveryEvent::Credentials(c) => c,
        DiscoveryEvent::ServerError(_) => arbitrary(),
        DiscoveryEvent::ZeroconfError(_) => arbitrary(),
    }
}

/// Everything the merged stream delivers for a whole sequence of events.
pub open spec fn spec_merge_outputs(live: bool, events: Seq<DiscoveryEvent>) -> Seq<Credentials>
    decreases events.len(),
{
    if events.len() == 0 {
        Seq::empty()
    } else {
        let rest = spec_merge_outputs(spec_merge_live_after(live, events[0]), events.skip(1));
        match spec_merge_output(live, events[0]) {
            Some(c) => seq![c] + rest,
            None => rest,
        }
    }
}

/// The facade's merge point: a single-consumer view over both sub-components'
/// events. It delivers each pairing success in arrival order and ends
/// permanently the first time either sub-component reports a fatal error or
/// the owner shuts it down.
pub struct EventMerge {
    pub live: bool,
}

impl EventMerge {
    /// A fresh, live stream.
    pub fn new() -> (r: EventMerge)
        ensures
            r.live,
    {
        EventMerge { live: true }
    }

    /// Feeds one event into the stream; returns the credentials to deliver,
    /// if any. An error event ends the stream permanently.
    pub fn on_event(&mut self, event: DiscoveryEvent) -> (r: Option<Credentials>)
        ensures
            final(self).live == spec_merge_live_after(old(self).live, event),
            r == spec_merge_output(old(self).live, event),
    {
        if !self.live {
            return None;
        }
        match event {
            DiscoveryEvent::Credentials(c) => Some(c),
            DiscoveryEvent::ServerError(_) => {
                self.live = false;
                None
            },
            DiscoveryEvent::ZeroconfError(_) => {
                self.live = false;
                None
            },
        }
    }

    /// Ends the stream: the owner has requested shutdown.
    pub fn shutdown(&mut self)
        ensures
            !final(self).live,
    {
        self.live = false;
    }
}

/// An ended stream delivers nothing, whatever events still arrive: after a
/// fatal error or an explicit shutdown, no further credentials are ever
/// delivered.
pub proof fn lemma_ended_stream_delivers_nothing(events: Seq<DiscoveryEvent>)
    ensures
        spec_merge_outputs(false, events) == Seq::<Credentials>::empty(),
    decreases events.len(),
{
    if events.len() > 0 {
        lemma_ended_stream_delivers_nothing(events.skip(1));
    }
}

/// Fail-fast: once any fatal error event arrives, the stream delivers
/// nothing afterwards, whatever else still arrives.
pub proof fn lemma_fail_fast(live: bool, err: DiscoveryEvent, events: Seq<DiscoveryEvent>)
    requires
        !(err matches DiscoveryEvent::Credentials(_)),
    ensures
        spec_merge_outputs(live, seq![err] + events) == Seq::<Credentials>::empty(),
{
    let all = seq![err] + events;
    assert(all[0] == err);
    assert(all.skip(1) =~= events);
    assert(spec_merge_output(live, err) is None);
    assert(!spec_merge_live_after(live, err));
    lemma_ended_stream_delivers_nothing(events);
}

/// Order is kept: while the stream is live, a run of pairing successes is
/// delivered exactly in its arrival order.
pub proof fn lemma_live_stream_keeps_order(events: Seq<DiscoveryEvent>)
    requires
        forall|i: int| 0 <= i < events.len() ==> (#[trigger] events[i]) matches
            DiscoveryEvent::Credentials(_),
    ensures
        spec_merge_outputs(true, events) == Seq::new(
            events.len(),
            |i: int| spec_credentials_payload(events[i]),
        ),
    decreases events.len(),
{
    if events.len() == 0 {
        assert(spec_merge_outputs(true, events) =~= Seq::new(
            events.len(),
            |i: int| spec_credentials_payload(events[i]),
        ));
    } else {
        let rest = events.skip(1);
        assert(forall|i: int| 0 <= i < rest.len() ==> (#[trigger] rest[i]) matches
            DiscoveryEvent::Credentials(_));
        lemma_live_stream_keeps_order(rest);
        assert(spec_merge_outputs(true, events) =~= Seq::new(
            events.len(),
            |i: int| spec_credentials_payload(events[i]),
        ));
    }
}

} // verus!
