//! Application menu linkage: a client ties one of its surfaces to the
//! address of a menu it publishes on the session bus.
use vstd::prelude::*;
use wayland_server::backend::GlobalId;

use crate::global::ManagerSession;
use crate::surface_object::{ObjectRequest, SurfaceObject};

verus! {

/// Protocol version at which the menu manager global is advertised.
pub const APPMENU_MANAGER_VERSION: u32 = 2;

/// State of the menu extension: the identity of its manager global.
pub struct KdeAppMenuState {
    kde_appmenu_manager: GlobalId,
}

/// A request on a menu object, as decoded from the wire.
pub enum AppMenuRequest {
    /// Sets the bus service name and object path of the surface's menu.
    SetAddress { service_name: String, object_path: String },
    /// Destroys the menu object.
    Release,
}

/// The host callback that a menu request leads to. The surface and the
/// object are those the request arrived on.
pub enum AppMenuCall {
    /// `set_address(surface, object, service_name, object_path)`.
    SetAddress { service_name: String, object_path: String },
    /// `release(object, surface)`.
    Release,
}

impl ObjectRequest for AppMenuRequest {
    type Call = AppMenuCall;

    open spec fn releases_spec(&self) -> bool {
        self is Release
    }

    open spec fn call_spec(self) -> AppMenuCall {
        match self {
            AppMenuRequest::SetAddress { service_name, object_path } => AppMenuCall::SetAddress {
                service_name,
                object_path,
            },
            AppMenuRequest::Release => AppMenuCall::Release,
        }
    }
}

impl KdeAppMenuState {
    /// The manager global this state stands for.
    pub closed spec fn global_id(&self) -> GlobalId {
        self.kde_appmenu_manager
    }

    /// The state of a menu extension whose manager global the runtime has
    /// advertised under `global`.
    pub fn with_global(global: GlobalId) -> (r: Self)
        ensures
            r.global_id() == global,
    {
        KdeAppMenuState { kde_appmenu_manager: global }
    }

    /// Returns the id of the menu manager global.
    pub fn global(&self) -> (r: GlobalId)
        ensures
            r == self.global_id(),
    {
        self.kde_appmenu_manager.clone()
    }

    /// Handles the manager's create request for `surface`: on a bound
    /// manager, the new menu object, bound to `surface`, which the host's
    /// `new_appmenu` then receives.
    pub fn create<S>(session: &ManagerSession, surface: S) -> (r: Option<SurfaceObject<S>>)
        ensures
            r == (if session.is_bound() {
                Some(SurfaceObject::created(surface))
            } else {
                None
            }),
    {
        if session.dispatches() {
            Some(SurfaceObject::new(surface))
        } else {
            None
        }
    }

    /// Handles a request on a menu object: the host callback to run, or
    /// `None` on an object that has been released.
    pub fn request<S>(object: &mut SurfaceObject<S>, request: AppMenuRequest) -> (r: Option<AppMenuCall>)
        ensures
            r == (if old(object).is_live() {
                Some(request.call_spec())
            } else {
                None
            }),
            *final(object) == old(object).after_request(request.releases_spec()),
            final(object).surface_of() == old(object).surface_of(),
            final(object).is_live() == (old(object).is_live() && !request.releases_spec()),
    {
        let releases = match &request {
            AppMenuRequest::Release => true,
            AppMenuRequest::SetAddress { .. } => false,
        };
        if !object.accept(releases) {
            return None;
        }
        match request {
            AppMenuRequest::SetAddress { service_name, object_path } => Some(
                AppMenuCall::SetAddress { service_name, object_path },
            ),
            AppMenuRequest::Release => Some(AppMenuCall::Release),
        }
    }
}

} // verus!
