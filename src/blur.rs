//! Surface blur: a client asks the compositor to blur what lies behind a
//! region of one of its surfaces.
use vstd::prelude::*;
use wayland_server::backend::GlobalId;

use crate::global::ManagerSession;
use crate::surface_object::{ObjectRequest, SurfaceObject};

verus! {

/// Protocol version at which the blur manager global is advertised.
pub const BLUR_MANAGER_VERSION: u32 = 1;

/// State of the blur extension: the identity of its manager global.
pub struct KdeBlurState {
    kde_blur_manager: GlobalId,
}

/// A request on the blur manager, as decoded from the wire.
pub enum BlurManagerRequest<S> {
    /// Creates a blur object for `surface`.
    Create { surface: S },
    /// Clears the blur of `surface`, with no blur object involved.
    Unset { surface: S },
}

/// The host callback that a blur manager request leads to.
pub enum BlurManagerCall<S> {
    /// `new_blur(surface, object)`, with the new object bound to the surface.
    NewBlur { object: SurfaceObject<S> },
    /// `unset(surface)`.
    Unset { surface: S },
}

/// A request on a blur object, as decoded from the wire; `R` is the
/// runtime's handle of a region.
pub enum BlurRequest<R> {
    /// Applies the pending blur state.
    Commit,
    /// Sets the blurred region; `None` clears it.
    SetRegion { region: Option<R> },
    /// Destroys the blur object.
    Release,
}

/// The host callback that a blur request leads to. The surface and the
/// object are those the request arrived on.
pub enum BlurCall<R> {
    /// `commit(surface, object)`.
    Commit,
    /// `set_region(surface, object, region)`.
    SetRegion { region: Option<R> },
    /// `release(object, surface)`.
    Release,
}

impl<R> ObjectRequest for BlurRequest<R> {
    type Call = BlurCall<R>;

    open spec fn releases_spec(&self) -> bool {
        self is Release
    }

    open spec fn call_spec(self) -> BlurCall<R> {
        match self {
            BlurRequest::Commit => BlurCall::Commit,
            BlurRequest::SetRegion { region } => BlurCall::SetRegion { region },
            BlurRequest::Release => BlurCall::Release,
        }
    }
}

/// The host callback that a manager request leads to on a bound manager.
pub open spec fn manager_call_spec<S>(request: BlurManagerRequest<S>) -> BlurManagerCall<S> {
    match request {
        BlurManagerRequest::Create { surface } => BlurManagerCall::NewBlur {
            object: SurfaceObject::created(surface),
        },
        BlurManagerRequest::Unset { surface } => BlurManagerCall::Unset { surface },
    }
}

impl KdeBlurState {
    /// The manager global this state stands for.
    pub closed spec fn global_id(&self) -> GlobalId {
        self.kde_blur_manager
    }

    /// The state of a blur extension whose manager global the runtime has
    /// advertised under `global`.
    pub fn with_global(global: GlobalId) -> (r: Self)
        ensures
            r.global_id() == global,
    {
        KdeBlurState { kde_blur_manager: global }
    }

    /// Returns the id of the blur manager global.
    pub fn global(&self) -> (r: GlobalId)
        ensures
            r == self.global_id(),
    {
        self.kde_blur_manager.clone()
    }

    /// Handles a request on the blur manager: the host callback to run, or
    /// `None` where the client has not bound the manager.
    pub fn manager_request<S>(session: &ManagerSession, request: BlurManagerRequest<S>) -> (r:
        Option<BlurManagerCall<S>>)
        ensures
            r == (if session.is_bound() {
                Some(manager_call_spec(request))
            } else {
                None
            }),
    {
        if !session.dispatches() {
            return None;
        }
        match request {
            BlurManagerRequest::Create { surface } => Some(
                BlurManagerCall::NewBlur { object: SurfaceObject::new(surface) },
            ),
            BlurManagerRequest::Unset { surface } => Some(BlurManagerCall::Unset { surface }),
        }
    }

    /// Handles a request on a blur object: the host callback to run, or
    /// `None` on an object that has been released.
    pub fn request<S, R>(object: &mut SurfaceObject<S>, request: BlurRequest<R>) -> (r: Option<
        BlurCall<R>,
    >)
        ensures
            r == (if old(object).is_live() {
                Some(request.call_spec())
            } else {
                None
            }),
            *final(object) == old(object).after_request(request.releases_spec()),
            final(object).surface_of() == old(object).surface_of(),
            final(object).is_live() == (old(object).is_live() && !request.releases_spec()),
    {
        let releases = match &request {
            BlurRequest::Release => true,
            _ => false,
        };
        if !object.accept(releases) {
            return None;
        }
        match request {
            BlurRequest::Commit => Some(BlurCall::Commit),
            BlurRequest::SetRegion { region } => Some(BlurCall::SetRegion { region }),
            BlurRequest::Release => Some(BlurCall::Release),
        }
    }
}

} // verus!
