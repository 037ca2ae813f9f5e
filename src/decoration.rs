//! Server-side decoration negotiation: on bind the compositor announces its
//! default decoration mode, and a client may then ask for a mode per surface.
use vstd::prelude::*;
use wayland_server::backend::GlobalId;

use crate::global::{ClientEvent, ManagerSession};
use crate::surface_object::{ObjectRequest, SurfaceObject};

verus! {

/// Protocol version at which the decoration manager global is advertised.
pub const DECORATION_MANAGER_VERSION: u32 = 1;

/// A decoration mode of the protocol.
#[derive(Clone, Copy, Debug, PartialEq, Eq, Structural)]
pub enum DecorationMode {
    /// The surface is not decorated at all.
    Undecorated,
    /// The client draws its own decoration.
    Client,
    /// The compositor draws the decoration around the surface.
    Server,
}

/// A mode as a client sent it: one the protocol defines, or a value it does
/// not. Either is passed on; accepting it is the host's decision.
#[derive(Clone, Copy, Debug, PartialEq, Eq, Structural)]
pub enum RequestedMode {
    /// A mode the protocol defines.
    Known(DecorationMode),
    /// A value outside the protocol's modes.
    Unknown(u32),
}

/// State of the decoration extension: the identity of its manager global and
/// the default mode announced to every client that binds it.
pub struct KdeDecorationState {
    kde_decoration_manager: GlobalId,
    default_mode: DecorationMode,
}

/// A request on a decoration object, as decoded from the wire.
pub enum DecorationRequest {
    /// Asks for a decoration mode for the surface.
    RequestMode { mode: RequestedMode },
    /// Destroys the decoration object.
    Release,
}

/// The host callback that a decoration request leads to. The surface and the
/// object are those the request arrived on.
#[derive(Clone, Copy, Debug, PartialEq, Eq, Structural)]
pub enum DecorationCall {
    /// `request_mode(surface, object, mode)`.
    RequestMode { mode: RequestedMode },
    /// `release(object, surface)`.
    Release,
}

impl ObjectRequest for DecorationRequest {
    type Call = DecorationCall;

    open spec fn releases_spec(&self) -> bool {
        self is Release
    }

    open spec fn call_spec(self) -> DecorationCall {
        match self {
            DecorationRequest::RequestMode { mode } => DecorationCall::RequestMode { mode },
            DecorationRequest::Release => DecorationCall::Release,
        }
    }
}

impl KdeDecorationState {
    /// The manager global this state stands for.
    pub closed spec fn global_id(&self) -> GlobalId {
        self.kde_decoration_manager
    }

    /// The mode announced to clients as they bind.
    pub closed spec fn default_mode_spec(&self) -> DecorationMode {
        self.default_mode
    }

    /// The state of a decoration extension whose manager global the runtime
    /// has advertised under `global`, announcing `default_mode`.
    pub fn with_global(global: GlobalId, default_mode: DecorationMode) -> (r: Self)
        ensures
            r.global_id() == global,
            r.default_mode_spec() == default_mode,
    {
        KdeDecorationState { kde_decoration_manager: global, default_mode }
    }

    /// Returns the id of the decoration manager global.
    pub fn global(&self) -> (r: GlobalId)
        ensures
            r == self.global_id(),
    {
        self.kde_decoration_manager.clone()
    }

    /// The mode announced to clients as they bind.
    pub fn default_mode(&self) -> (r: DecorationMode)
        ensures
            r == self.default_mode_spec(),
    {
        self.default_mode
    }

    /// Changes the mode announced to clients that bind from now on.
    pub fn set_default_mode(&mut self, mode: DecorationMode)
        ensures
            final(self).default_mode_spec() == mode,
            final(self).global_id() == old(self).global_id(),
    {
        self.default_mode = mode;
    }

    /// A client's attempt to bind the decoration manager; `visible` is the
    /// visibility filter's verdict on it. On success, the default-mode event
    /// to send the client before the bind completes; `None` where the client
    /// is turned away.
    pub fn bind(&self, session: &mut ManagerSession, visible: bool) -> (r: Option<DecorationMode>)
        ensures
            r == (if visible {
                Some(self.default_mode_spec())
            } else {
                None
            }),
            *final(session) == old(session).after_event(ClientEvent::Bind { visible }),
            final(session).is_bound() == (old(session).is_bound() || visible),
    {
        if session.bind(visible) {
            Some(self.default_mode)
        } else {
            None
        }
    }

    /// Handles the manager's create request for `surface`: on a bound
    /// manager, the new decoration object, bound to `surface`, which the
    /// host's `new_decoration` then receives.
    pub fn create<S>(session: &ManagerSession, surface: S) -> (r: Option<SurfaceObject<S>>)
        ensures
            r == (if session.is_bound() {
                Some(SurfaceObject::created(surface))
            } else {
                None
            }),
    {
        if session.dispatches() {
            Some(SurfaceObject::new(surface))
        } else {
            None
        }
    }

    /// Handles a request on a decoration object: the host callback to run,
    /// or `None` on an object that has been released.
    pub fn request<S>(object: &mut SurfaceObject<S>, request: DecorationRequest) -> (r: Option<
        DecorationCall,
    >)
        ensures
            r == (if old(object).is_live() {
                Some(request.call_spec())
            } else {
                None
            }),
            *final(object) == old(object).after_request(request.releases_spec()),
            final(object).surface_of() == old(object).surface_of(),
            final(object).is_live() == (old(object).is_live() && !request.releases_spec()),
    {
        let releases = match &request {
            DecorationRequest::Release => true,
            DecorationRequest::RequestMode { .. } => false,
        };
        if !object.accept(releases) {
            return None;
        }
        match request {
            DecorationRequest::RequestMode { mode } => Some(DecorationCall::RequestMode { mode }),
            DecorationRequest::Release => Some(DecorationCall::Release),
        }
    }
}

} // verus!
