//! A per-surface protocol object: bound to one surface for its whole
//! lifetime, live from creation until its release request.
use vstd::prelude::*;

verus! {

/// A protocol object created against one surface.
///
/// The surface is fixed at creation and no method changes it; the object is
/// live until a release request has been handled.
pub struct SurfaceObject<S> {
    surface: S,
    live: bool,
}

impl<S> SurfaceObject<S> {
    /// The surface the object was created against.
    pub closed spec fn surface_of(&self) -> S {
        self.surface
    }

    /// Whether the object still accepts requests.
    pub closed spec fn is_live(&self) -> bool {
        self.live
    }

    /// A live object bound to `surface`.
    pub closed spec fn created(surface: S) -> Self {
        SurfaceObject { surface, live: true }
    }

    /// The object once one more request has been taken in.
    pub closed spec fn after_request(self, releases: bool) -> Self {
        SurfaceObject { surface: self.surface, live: self.live && !releases }
    }

    /// The object once a sequence of requests has been taken in.
    pub open spec fn after_requests<Q: ObjectRequest>(self, reqs: Seq<Q>) -> Self
        decreases reqs.len(),
    {
        if reqs.len() == 0 {
            self
        } else {
            self.after_request(reqs[0].releases_spec()).after_requests(reqs.drop_first())
        }
    }

    /// Creates a live object bound to `surface`.
    pub fn new(surface: S) -> (r: Self)
        ensures
            r == Self::created(surface),
            r.surface_of() == surface,
            r.is_live(),
    {
        SurfaceObject { surface, live: true }
    }

    /// The surface the object was created against.
    pub fn surface(&self) -> (r: &S)
        ensures
            *r == self.surface_of(),
    {
        &self.surface
    }

    /// Whether a release request has already been handled.
    pub fn is_released(&self) -> (r: bool)
        ensures
            r == !self.is_live(),
    {
        !self.live
    }

    /// Takes in one incoming request: returns whether the object was live to
    /// receive it. A release request ends the object's life.
    pub fn accept(&mut self, releases: bool) -> (r: bool)
        ensures
            r == old(self).is_live(),
            *final(self) == old(self).after_request(releases),
            final(self).surface_of() == old(self).surface_of(),
            final(self).is_live() == (old(self).is_live() && !releases),
    {
        let was_live = self.live;
        if releases {
            self.live = false;
        }
        was_live
    }
}

/// A request on a per-surface object, with the host call it stands for.
pub trait ObjectRequest: Sized {
    /// The host call a request maps to.
    type Call;

    /// Whether this request ends the object's life.
    spec fn releases_spec(&self) -> bool;

    /// The host call that this request maps to.
    spec fn call_spec(self) -> Self::Call;
}

/// The host calls that a sequence of requests produces on an object that
/// starts out live (`live`) or released.
pub open spec fn trace<Q: ObjectRequest>(live: bool, reqs: Seq<Q>) -> Seq<Q::Call>
    decreases reqs.len(),
{
    if reqs.len() == 0 {
        Seq::empty()
    } else {
        let first: Seq<Q::Call> = if live {
            seq![reqs[0].call_spec()]
        } else {
            Seq::empty()
        };
        first + trace(live && !reqs[0].releases_spec(), reqs.drop_first())
    }
}

/// A released object produces no host call, whatever requests follow.
pub proof fn lemma_released_is_silent<Q: ObjectRequest>(reqs: Seq<Q>)
    ensures
        trace(false, reqs) == Seq::<Q::Call>::empty(),
    decreases reqs.len(),
{
    if reqs.len() > 0 {
        lemma_released_is_silent(reqs.drop_first());
        assert(trace(false, reqs) =~= Seq::<Q::Call>::empty());
    }
}

/// Requests never change an object's surface.
proof fn lemma_surface_kept<S, Q: ObjectRequest>(obj: SurfaceObject<S>, reqs: Seq<Q>)
    ensures
        obj.after_requests(reqs).surface_of() == obj.surface_of(),
    decreases reqs.len(),
{
    if reqs.len() > 0 {
        lemma_surface_kept(obj.after_request(reqs[0].releases_spec()), reqs.drop_first());
    }
}

/// An object created for a surface is live and bound to that surface, and
/// stays bound to it whatever requests it receives during its lifetime.
pub proof fn law_surface_is_fixed<S, Q: ObjectRequest>(surface: S, reqs: Seq<Q>)
    ensures
        SurfaceObject::created(surface).surface_of() == surface,
        SurfaceObject::created(surface).is_live(),
        SurfaceObject::created(surface).after_requests(reqs).surface_of() == surface,
{
    lemma_surface_kept(SurfaceObject::created(surface), reqs);
}

/// Release is terminal: after a release request, none of the requests that
/// follow reaches the host.
pub proof fn law_release_is_terminal<Q: ObjectRequest>(live: bool, release: Q, rest: Seq<Q>)
    requires
        release.releases_spec(),
    ensures
        trace(live, seq![release] + rest) == trace(live, seq![release]),
{
    let all = seq![release] + rest;
    assert(all.drop_first() =~= rest);
    assert(seq![release].drop_first() =~= Seq::<Q>::empty());
    lemma_released_is_silent(rest);
    lemma_released_is_silent(Seq::<Q>::empty());
}

/// Host calls follow the requests one for one and in order, on a live object
/// that receives no release before the last request.
pub proof fn law_calls_follow_requests<Q: ObjectRequest>(reqs: Seq<Q>)
    requires
        forall|i: int| 0 <= i < reqs.len() - 1 ==> !(#[trigger] reqs[i]).releases_spec(),
    ensures
        trace(true, reqs) == reqs.map_values(|q: Q| q.call_spec()),
    decreases reqs.len(),
{
    if reqs.len() > 0 {
        let rest = reqs.drop_first();
        assert forall|i: int| 0 <= i < rest.len() - 1 implies !(#[trigger] rest[i]).releases_spec() by {
            assert(rest[i] == reqs[i + 1]);
        }
        law_calls_follow_requests(rest);
        if reqs.len() > 1 {
            assert(!reqs[0].releases_spec());
        } else {
            lemma_released_is_silent(rest);
        }
        assert(trace(true, reqs) =~= reqs.map_values(|q: Q| q.call_spec()));
    }
}

} // verus!
