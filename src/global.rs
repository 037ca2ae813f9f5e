//! Manager globals: the identity of an advertised global, and the per-client
//! binding state that decides whether manager requests are dispatched.
use vstd::prelude::*;
use wayland_server::backend::GlobalId;

verus! {

/// The runtime's identity of an advertised global.
#[verifier::external_type_specification]
#[verifier::external_body]
pub struct ExGlobalId(GlobalId);

/// Relies on the derived `Clone` of `wayland_backend::server::GlobalId`: the
/// copy carries the same id and serial, so it names the same global.
pub assume_specification[ <GlobalId as Clone>::clone ](g: &GlobalId) -> (r: GlobalId)
    ensures
        r == *g,
;

/// What one client has done with a manager global: whether a bind of it has
/// gone through. Manager requests are dispatched only once one has.
pub struct ManagerSession {
    bound: bool,
}

/// One step of a client's dealings with a manager global.
pub enum ClientEvent {
    /// The client tries to bind the global; `visible` is what the global's
    /// visibility filter said of this client.
    Bind { visible: bool },
    /// The client sends a manager request (create, unset).
    Request,
}

impl ManagerSession {
    /// Whether a bind has gone through.
    pub closed spec fn is_bound(&self) -> bool {
        self.bound
    }

    /// The session after one event.
    pub closed spec fn after_event(self, event: ClientEvent) -> Self {
        match event {
            ClientEvent::Bind { visible } => ManagerSession { bound: self.bound || visible },
            ClientEvent::Request => self,
        }
    }

    /// Whether an event goes through: a bind that the filter allows, or a
    /// request on a bound manager.
    pub open spec fn event_succeeds(self, event: ClientEvent) -> bool {
        match event {
            ClientEvent::Bind { visible } => visible,
            ClientEvent::Request => self.is_bound(),
        }
    }

    /// For each event of a sequence, whether it goes through.
    pub open spec fn outcomes(self, events: Seq<ClientEvent>) -> Seq<bool>
        decreases events.len(),
    {
        if events.len() == 0 {
            Seq::empty()
        } else {
            seq![self.event_succeeds(events[0])] + self.after_event(events[0]).outcomes(
                events.drop_first(),
            )
        }
    }

    /// A client that has not bound the global yet.
    pub fn new() -> (r: Self)
        ensures
            !r.is_bound(),
    {
        ManagerSession { bound: false }
    }

    /// A bind attempt; `visible` is the filter's verdict on the client.
    /// Returns whether the bind goes through.
    pub fn bind(&mut self, visible: bool) -> (r: bool)
        ensures
            r == old(self).event_succeeds(ClientEvent::Bind { visible }),
            r == visible,
            *final(self) == old(self).after_event(ClientEvent::Bind { visible }),
            final(self).is_bound() == (old(self).is_bound() || visible),
    {
        if visible {
            self.bound = true;
        }
        visible
    }

    /// Whether a manager request from this client is dispatched.
    pub fn dispatches(&self) -> (r: bool)
        ensures
            r == self.event_succeeds(ClientEvent::Request),
            r == self.is_bound(),
    {
        self.bound
    }
}

/// A client that the visibility filter turns away never binds the manager
/// global, and none of its manager requests is dispatched.
pub proof fn law_hidden_client_is_never_served(session: ManagerSession, events: Seq<ClientEvent>)
    requires
        !session.is_bound(),
        forall|i: int|
            0 <= i < events.len() ==> match #[trigger] events[i] {
                ClientEvent::Bind { visible } => !visible,
                ClientEvent::Request => true,
            },
    ensures
        session.outcomes(events).len() == events.len(),
        forall|i: int| 0 <= i < events.len() ==> !(#[trigger] session.outcomes(events)[i]),
    decreases events.len(),
{
    if events.len() > 0 {
        let rest = events.drop_first();
        let next = session.after_event(events[0]);
        assert forall|i: int| 0 <= i < rest.len() implies match #[trigger] rest[i] {
            ClientEvent::Bind { visible } => !visible,
            ClientEvent::Request => true,
        } by {
            assert(rest[i] == events[i + 1]);
        }
        assert(!next.is_bound()) by {
            assert(match events[0] {
                ClientEvent::Bind { visible } => !visible,
                ClientEvent::Request => true,
            });
        }
        law_hidden_client_is_never_served(next, rest);
        assert(session.outcomes(events) == seq![session.event_succeeds(events[0])] + next.outcomes(rest));
        assert forall|i: int| 0 <= i < events.len() implies !(#[trigger] session.outcomes(events)[i]) by {
            if i > 0 {
                assert(session.outcomes(events)[i] == next.outcomes(rest)[i - 1]);
            } else {
                assert(match events[0] {
                    ClientEvent::Bind { visible } => !visible,
                    ClientEvent::Request => true,
                });
            }
        }
    }
}

/// A client's manager requests are served only after a bind of it that the
/// visibility filter allowed: whatever a bind hands the client (such as the
/// default decoration mode) reaches it before any request is served.
pub proof fn law_requests_wait_for_bind(session: ManagerSession, events: Seq<ClientEvent>)
    requires
        !session.is_bound(),
    ensures
        session.outcomes(events).len() == events.len(),
        forall|i: int|
            0 <= i < events.len() && #[trigger] session.outcomes(events)[i] && events[i] is Request
                ==> exists|j: int| 0 <= j < i && #[trigger] events[j] == (ClientEvent::Bind { visible: true }),
    decreases events.len(),
{
    if events.len() > 0 {
        let rest = events.drop_first();
        let next = session.after_event(events[0]);
        assert(session.outcomes(events) == seq![session.event_succeeds(events[0])] + next.outcomes(rest));
        if events[0] == (ClientEvent::Bind { visible: true }) {
            lemma_outcomes_len(next, rest);
            assert forall|i: int|
                0 <= i < events.len() && #[trigger] session.outcomes(events)[i] && events[i] is Request
                implies exists|j: int| 0 <= j < i && #[trigger] events[j] == (ClientEvent::Bind { visible: true }) by {
                assert(events[0] == (ClientEvent::Bind { visible: true }));
            }
        } else {
            assert(!next.is_bound());
            law_requests_wait_for_bind(next, rest);
            assert forall|i: int|
                0 <= i < events.len() && #[trigger] session.outcomes(events)[i] && events[i] is Request
                implies exists|j: int| 0 <= j < i && #[trigger] events[j] == (ClientEvent::Bind { visible: true }) by {
                if i > 0 {
                    assert(session.outcomes(events)[i] == next.outcomes(rest)[i - 1]);
                    assert(events[i] == rest[i - 1]);
                    let k = choose|k: int| 0 <= k < i - 1 && #[trigger] rest[k] == (ClientEvent::Bind { visible: true });
                    assert(events[k + 1] == rest[k]);
                }
            }
        }
    }
}

/// Each event of a sequence has one outcome.
pub proof fn lemma_outcomes_len(session: ManagerSession, events: Seq<ClientEvent>)
    ensures
        session.outcomes(events).len() == events.len(),
    decreases events.len(),
{
    if events.len() > 0 {
        lemma_outcomes_len(session.after_event(events[0]), events.drop_first());
    }
}

} // verus!
