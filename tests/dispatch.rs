use kde_shell::appmenu::{AppMenuCall, AppMenuRequest, KdeAppMenuState, APPMENU_MANAGER_VERSION};
use kde_shell::blur::{
    BlurCall, BlurManagerCall, BlurManagerRequest, BlurRequest, KdeBlurState, BLUR_MANAGER_VERSION,
};
use kde_shell::decoration::{
    DecorationCall, DecorationMode, DecorationRequest, KdeDecorationState, RequestedMode,
    DECORATION_MANAGER_VERSION,
};
use kde_shell::global::ManagerSession;
use kde_shell::surface_object::SurfaceObject;
use wayland_protocols_misc::server_decoration::server::org_kde_kwin_server_decoration_manager::{
    OrgKdeKwinServerDecorationManager, Request as ManagerRequest,
};
use wayland_server::{Client, DataInit, Dispatch, Display, DisplayHandle, GlobalDispatch, New};

fn bound_session() -> ManagerSession {
    let mut session = ManagerSession::new();
    assert!(session.bind(true));
    session
}

fn set_address(service: &str, path: &str) -> AppMenuRequest {
    AppMenuRequest::SetAddress {
        service_name: service.to_string(),
        object_path: path.to_string(),
    }
}

fn expect_set_address(call: Option<AppMenuCall>, service: &str, path: &str) {
    match call {
        Some(AppMenuCall::SetAddress {
            service_name,
            object_path,
        }) => {
            assert_eq!(service_name, service);
            assert_eq!(object_path, path);
        }
        _ => panic!("expected a set_address call"),
    }
}

#[test]
fn versions_match_the_protocols() {
    assert_eq!(APPMENU_MANAGER_VERSION, 2);
    assert_eq!(BLUR_MANAGER_VERSION, 1);
    assert_eq!(DECORATION_MANAGER_VERSION, 1);
}

#[test]
fn menu_scenario_set_address_then_release() {
    let session = bound_session();
    let surface: u32 = 7;
    let mut menu = KdeAppMenuState::create(&session, surface).expect("object created");
    assert_eq!(*menu.surface(), 7);

    let first = KdeAppMenuState::request(&mut menu, set_address("org.example.App", "/MenuBar"));
    expect_set_address(first, "org.example.App", "/MenuBar");
    assert_eq!(*menu.surface(), 7);

    let second = KdeAppMenuState::request(&mut menu, AppMenuRequest::Release);
    assert!(matches!(second, Some(AppMenuCall::Release)));
    assert_eq!(*menu.surface(), 7);
    assert!(menu.is_released());
}

#[test]
fn menu_address_strings_pass_through_verbatim() {
    let session = bound_session();
    let mut menu = KdeAppMenuState::create(&session, 1u32).unwrap();
    let call = KdeAppMenuState::request(&mut menu, set_address("", "not a path"));
    expect_set_address(call, "", "not a path");
}

#[test]
fn blur_unset_without_object() {
    let session = bound_session();
    let call = KdeBlurState::manager_request(&session, BlurManagerRequest::Unset { surface: 42u32 });
    match call {
        Some(BlurManagerCall::Unset { surface }) => assert_eq!(surface, 42),
        _ => panic!("expected an unset call"),
    }
}

#[test]
fn blur_create_binds_the_given_surface() {
    let session = bound_session();
    let call = KdeBlurState::manager_request(&session, BlurManagerRequest::Create { surface: 5u32 });
    match call {
        Some(BlurManagerCall::NewBlur { object }) => {
            assert_eq!(*object.surface(), 5);
            assert!(!object.is_released());
        }
        _ => panic!("expected a new_blur call"),
    }
}

#[test]
fn blur_requests_map_one_to_one_in_order() {
    let mut blur = SurfaceObject::new(3u32);
    let requests = vec![
        BlurRequest::SetRegion { region: Some(11u32) },
        BlurRequest::Commit,
        BlurRequest::SetRegion { region: None },
        BlurRequest::Commit,
        BlurRequest::Release,
    ];
    let mut calls = Vec::new();
    for request in requests {
        calls.push(KdeBlurState::request(&mut blur, request));
    }
    assert_eq!(calls.len(), 5);
    assert!(matches!(calls[0], Some(BlurCall::SetRegion { region: Some(11) })));
    assert!(matches!(calls[1], Some(BlurCall::Commit)));
    assert!(matches!(calls[2], Some(BlurCall::SetRegion { region: None })));
    assert!(matches!(calls[3], Some(BlurCall::Commit)));
    assert!(matches!(calls[4], Some(BlurCall::Release)));
    assert_eq!(*blur.surface(), 3);
}

#[test]
fn nothing_reaches_the_host_after_release() {
    let mut blur = SurfaceObject::new(9u32);
    assert!(matches!(
        KdeBlurState::request(&mut blur, BlurRequest::<u32>::Release),
        Some(BlurCall::Release)
    ));
    assert!(KdeBlurState::request(&mut blur, BlurRequest::<u32>::Commit).is_none());
    assert!(KdeBlurState::request(&mut blur, BlurRequest::SetRegion { region: Some(1u32) }).is_none());
    assert!(KdeBlurState::request(&mut blur, BlurRequest::<u32>::Release).is_none());
    assert_eq!(*blur.surface(), 9);

    let mut menu = SurfaceObject::new(2u32);
    assert!(KdeAppMenuState::request(&mut menu, AppMenuRequest::Release).is_some());
    assert!(KdeAppMenuState::request(&mut menu, set_address("a", "/b")).is_none());

    let mut deco = SurfaceObject::new(4u32);
    assert_eq!(
        KdeDecorationState::request(&mut deco, DecorationRequest::Release),
        Some(DecorationCall::Release)
    );
    let mode = RequestedMode::Known(DecorationMode::Client);
    assert_eq!(KdeDecorationState::request(&mut deco, DecorationRequest::RequestMode { mode }), None);
}

#[test]
fn hidden_client_is_never_served() {
    let mut session = ManagerSession::new();
    assert!(!session.bind(false));
    assert!(!session.bind(false));
    assert!(!session.dispatches());
    assert!(KdeAppMenuState::create(&session, 1u32).is_none());
    assert!(KdeDecorationState::create(&session, 1u32).is_none());
    assert!(KdeBlurState::manager_request(&session, BlurManagerRequest::Create { surface: 1u32 }).is_none());
    assert!(KdeBlurState::manager_request(&session, BlurManagerRequest::Unset { surface: 1u32 }).is_none());
}

#[test]
fn visible_client_binds_and_is_served() {
    let mut session = ManagerSession::new();
    assert!(!session.dispatches());
    assert!(session.bind(true));
    assert!(session.dispatches());
    // a later refused bind does not undo the earlier one
    assert!(!session.bind(false));
    assert!(session.dispatches());
}

#[test]
fn decoration_bind_sends_server_side_default_first() {
    let mut session = ManagerSession::new();
    let state = decoration_state(DecorationMode::Server);
    assert!(!session.dispatches());
    assert_eq!(state.bind(&mut session, true), Some(DecorationMode::Server));
    assert!(session.dispatches());
    let mut deco = KdeDecorationState::create(&session, 8u32).expect("object created");
    let mode = RequestedMode::Known(DecorationMode::Client);
    assert_eq!(
        KdeDecorationState::request(&mut deco, DecorationRequest::RequestMode { mode }),
        Some(DecorationCall::RequestMode { mode })
    );
}

#[test]
fn decoration_bind_refused_sends_nothing() {
    let mut session = ManagerSession::new();
    let state = decoration_state(DecorationMode::Server);
    assert_eq!(state.bind(&mut session, false), None);
    assert!(!session.dispatches());
}

#[test]
fn decoration_unknown_mode_is_passed_on() {
    let mut deco = SurfaceObject::new(1u32);
    let mode = RequestedMode::Unknown(77);
    assert_eq!(
        KdeDecorationState::request(&mut deco, DecorationRequest::RequestMode { mode }),
        Some(DecorationCall::RequestMode { mode: RequestedMode::Unknown(77) })
    );
}

#[test]
fn decoration_default_mode_can_change() {
    let mut state = decoration_state(DecorationMode::Server);
    assert_eq!(state.default_mode(), DecorationMode::Server);
    state.set_default_mode(DecorationMode::Undecorated);
    assert_eq!(state.default_mode(), DecorationMode::Undecorated);
    let mut session = ManagerSession::new();
    assert_eq!(state.bind(&mut session, true), Some(DecorationMode::Undecorated));
}

#[test]
fn two_objects_on_one_surface_are_independent() {
    let session = bound_session();
    let mut a = KdeAppMenuState::create(&session, 1u32).unwrap();
    let mut b = KdeAppMenuState::create(&session, 1u32).unwrap();
    assert!(KdeAppMenuState::request(&mut a, AppMenuRequest::Release).is_some());
    expect_set_address(KdeAppMenuState::request(&mut b, set_address("x", "/y")), "x", "/y");
    assert!(KdeAppMenuState::request(&mut a, set_address("x", "/y")).is_none());
}

struct Host;

impl GlobalDispatch<OrgKdeKwinServerDecorationManager, ()> for Host {
    fn bind(
        _state: &mut Host,
        _dh: &DisplayHandle,
        _client: &Client,
        resource: New<OrgKdeKwinServerDecorationManager>,
        _global_data: &(),
        data_init: &mut DataInit<'_, Host>,
    ) {
        data_init.init(resource, ());
    }
}

impl Dispatch<OrgKdeKwinServerDecorationManager, ()> for Host {
    fn request(
        _state: &mut Host,
        _client: &Client,
        _resource: &OrgKdeKwinServerDecorationManager,
        _request: ManagerRequest,
        _data: &(),
        _dh: &DisplayHandle,
        _data_init: &mut DataInit<'_, Host>,
    ) {
    }
}

fn decoration_state(mode: DecorationMode) -> KdeDecorationState {
    let display = Display::<Host>::new().expect("display");
    let global = display
        .handle()
        .create_global::<Host, OrgKdeKwinServerDecorationManager, ()>(DECORATION_MANAGER_VERSION, ());
    KdeDecorationState::with_global(global, mode)
}

#[test]
fn global_returns_the_advertised_id() {
    let display = Display::<Host>::new().expect("display");
    let handle = display.handle();
    let first = handle.create_global::<Host, OrgKdeKwinServerDecorationManager, ()>(1, ());
    let second = handle.create_global::<Host, OrgKdeKwinServerDecorationManager, ()>(1, ());
    assert!(first != second);
    let state = KdeDecorationState::with_global(second.clone(), DecorationMode::Client);
    assert!(state.global() == second);
    assert!(state.global() != first);
    let blur = KdeBlurState::with_global(first.clone());
    assert!(blur.global() == first);
    let menu = KdeAppMenuState::with_global(first.clone());
    assert!(menu.global() == first);
}
