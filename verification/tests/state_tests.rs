use companion_wayland::global::Global;
use companion_wayland::state::{
    AppInfo, AppInfoInit, GlobalRemoval, Handles, LayerSurfaceEvent, LayerSurfaceReaction,
    SeatEvent, State,
};

struct Fake;

impl Handles for Fake {
    type Compositor = &'static str;
    type Subcompositor = &'static str;
    type LayerShell = &'static str;
    type Shm = &'static str;
    type Seat = u32;
    type Capabilities = u32;
    type ParentSurface = &'static str;
    type ChildSurface = &'static str;
    type Connection = ();
}

fn setup_state() -> State<Fake> {
    State::Init(AppInfoInit::new())
}

fn complete_init() -> AppInfoInit<Fake> {
    let mut info = AppInfoInit::<Fake>::new();
    info.compositor = Some(Global::new("compositor", 1));
    info.subcompositor = Some(Global::new("subcompositor", 2));
    info.layer_shell = Some(Global::new("layer_shell", 3));
    info.shm = Some(Global::new("shm", 4));
    info.parent = Some("parent");
    info.parent_width = Some(1920);
    info.parent_height = Some(1080);
    info
}

fn running_state() -> State<Fake> {
    State::Running(AppInfo::from_init(complete_init(), "child").unwrap())
}

#[test]
fn new_setup_state_is_empty() {
    let info = AppInfoInit::<Fake>::new();
    assert!(info.compositor.is_none());
    assert!(info.subcompositor.is_none());
    assert!(info.layer_shell.is_none());
    assert!(info.shm.is_none());
    assert!(info.seats.is_empty());
    assert!(info.parent_height.is_none());
    assert!(info.parent_width.is_none());
    assert!(info.parent.is_none());
}

#[test]
fn globals_are_stored_during_setup() {
    let mut state = setup_state();
    state.store_compositor(Global::new("c", 10));
    state.store_subcompositor(Global::new("s", 11));
    state.store_layer_shell(Global::new("l", 12));
    state.store_shm(Global::new("m", 13));
    let info = state.app_info_init();
    assert_eq!(info.compositor.as_ref().map(|g| (g.global, g.name)), Some(("c", 10)));
    assert_eq!(info.subcompositor.as_ref().map(|g| (g.global, g.name)), Some(("s", 11)));
    assert_eq!(info.layer_shell.as_ref().map(|g| (g.global, g.name)), Some(("l", 12)));
    assert_eq!(info.shm.as_ref().map(|g| (g.global, g.name)), Some(("m", 13)));
}

#[test]
fn globals_are_replaced_while_running() {
    let mut state = running_state();
    state.store_compositor(Global::new("c2", 20));
    state.store_shm(Global::new("m2", 21));
    let app = state.app_info();
    assert_eq!((app.globals.compositor.global, app.globals.compositor.name), ("c2", 20));
    assert_eq!((app.globals.shm.global, app.globals.shm.name), ("m2", 21));
    assert_eq!(app.globals.subcompositor.name, 2);
    assert!(!app.exit);
}

#[test]
fn seats_are_added_in_either_phase() {
    let mut state = setup_state();
    state.add_seat(7, 70);
    let seat = state.app_info_init().seats.get(&7).unwrap();
    assert_eq!((seat.wl_seat, seat.capabilities, seat.name.clone()), (70, None, None));

    let mut state = running_state();
    state.add_seat(8, 80);
    assert_eq!(state.app_info().globals.seats.get(&8).unwrap().wl_seat, 80);
}

#[test]
fn seat_events_fill_in_the_seat() {
    let mut state = setup_state();
    state.add_seat(7, 70);
    assert!(state.on_seat_event(7, SeatEvent::Capabilities(3)));
    assert!(state.on_seat_event(7, SeatEvent::Name("seat0".to_string())));
    assert!(state.on_seat_event(7, SeatEvent::Other));
    let seat = state.app_info_init().seats.get(&7).unwrap();
    assert_eq!(seat.capabilities, Some(3));
    assert_eq!(seat.name.as_deref(), Some("seat0"));
    assert_eq!(seat.wl_seat, 70);
}

#[test]
fn seat_event_for_unknown_seat_is_reported() {
    let mut state = running_state();
    state.add_seat(7, 70);
    assert!(!state.on_seat_event(8, SeatEvent::Capabilities(1)));
    assert!(!state.on_seat_event(8, SeatEvent::Other));
    let seat = state.app_info().globals.seats.get(&7).unwrap();
    assert_eq!(seat.capabilities, None);
    assert_eq!(state.app_info().globals.seats.len(), 1);
}

#[test]
fn removing_a_seat_hands_it_back() {
    let mut state = setup_state();
    state.add_seat(7, 70);
    state.add_seat(9, 90);
    match state.on_global_remove(7) {
        GlobalRemoval::SeatReleased(seat) => assert_eq!(seat.wl_seat, 70),
        _ => panic!("seat was not released"),
    }
    let seats = &state.app_info_init().seats;
    assert!(seats.get(&7).is_none());
    assert!(seats.get(&9).is_some());
}

#[test]
fn removing_a_core_global_during_setup_is_fatal() {
    let mut state = setup_state();
    state.add_seat(7, 70);
    assert!(matches!(state.on_global_remove(1), GlobalRemoval::CoreGlobalRemovedDuringInit));
    assert!(state.is_init());
    assert_eq!(state.app_info_init().seats.len(), 1);
}

#[test]
fn removing_a_core_global_while_running_exits() {
    let mut state = running_state();
    assert!(!state.app_info().exit);
    assert!(matches!(state.on_global_remove(1), GlobalRemoval::CoreGlobalRemoved));
    assert!(state.app_info().exit);
}

#[test]
fn configure_during_setup_records_parent_size() {
    let mut state = setup_state();
    let r = state.on_layer_surface_event(LayerSurfaceEvent::Configure { serial: 5, width: 1920, height: 1080 });
    assert_eq!(r, LayerSurfaceReaction::AckConfigure(5));
    assert_eq!(state.app_info_init().parent_width, Some(1920));
    assert_eq!(state.app_info_init().parent_height, Some(1080));
}

#[test]
fn close_during_setup_is_fatal() {
    let mut state = setup_state();
    assert_eq!(state.on_layer_surface_event(LayerSurfaceEvent::Closed), LayerSurfaceReaction::ClosedDuringInit);
    assert!(state.is_init());
}

#[test]
fn configure_while_running_is_only_acknowledged() {
    let mut state = running_state();
    let r = state.on_layer_surface_event(LayerSurfaceEvent::Configure { serial: 9, width: 10, height: 20 });
    assert_eq!(r, LayerSurfaceReaction::AckConfigure(9));
    assert_eq!(state.app_info().globals.screen_width, 1920);
    assert_eq!(state.app_info().globals.screen_height, 1080);
    assert!(!state.app_info().exit);
}

#[test]
fn close_while_running_exits() {
    let mut state = running_state();
    assert_eq!(state.on_layer_surface_event(LayerSurfaceEvent::Closed), LayerSurfaceReaction::Exit);
    assert!(state.app_info().exit);
}

#[test]
fn other_surface_events_are_ignored() {
    let mut state = setup_state();
    assert_eq!(state.on_layer_surface_event(LayerSurfaceEvent::Other), LayerSurfaceReaction::Ignore);
    assert_eq!(state.app_info_init().parent_width, None);
    let mut state = running_state();
    assert_eq!(state.on_layer_surface_event(LayerSurfaceEvent::Other), LayerSurfaceReaction::Ignore);
    assert!(!state.app_info().exit);
}

#[test]
fn complete_setup_becomes_running() {
    let mut info = complete_init();
    info.seats.insert(4, companion_wayland::global::Seat::new(40));
    let app = AppInfo::from_init(info, "child").unwrap();
    assert_eq!(app.globals.screen_width, 1920);
    assert_eq!(app.globals.screen_height, 1080);
    assert_eq!(app.globals.compositor.name, 1);
    assert_eq!(app.globals.subcompositor.name, 2);
    assert_eq!(app.globals.layer_shell.name, 3);
    assert_eq!(app.globals.shm.name, 4);
    assert_eq!(app.globals.seats.get(&4).unwrap().wl_seat, 40);
    assert_eq!(app.parent, "parent");
    assert_eq!(app.child, "child");
    assert!(!app.exit);
}

#[test]
fn incomplete_setup_cannot_run() {
    let mut info = complete_init();
    info.shm = None;
    assert!(AppInfo::from_init(info, "child").is_none());
    let mut info = complete_init();
    info.parent_height = None;
    assert!(AppInfo::from_init(info, "child").is_none());
    let mut info = complete_init();
    info.parent = None;
    assert!(AppInfo::from_init(info, "child").is_none());
    assert!(AppInfo::from_init(AppInfoInit::<Fake>::new(), "child").is_none());
}

#[test]
fn phase_accessors() {
    let mut state = setup_state();
    assert!(state.is_init());
    state.app_info_init_mut().parent = Some("p");
    assert_eq!(state.app_info_init().parent, Some("p"));
    let info = state.app_info_init_own();
    assert_eq!(info.parent, Some("p"));

    let mut state = running_state();
    assert!(!state.is_init());
    state.app_info_mut().exit = true;
    assert!(state.app_info().exit);
}

#[test]
fn seat_added_then_removed_restores_state() {
    let mut state = running_state();
    state.add_seat(3, 30);
    state.add_seat(11, 110);
    match state.on_global_remove(11) {
        GlobalRemoval::SeatReleased(seat) => {
            assert_eq!((seat.wl_seat, seat.capabilities, seat.name), (110, None, None))
        }
        _ => panic!("seat was not released"),
    }
    let seats = &state.app_info().globals.seats;
    assert_eq!(seats.len(), 1);
    assert_eq!(seats.get(&3).unwrap().wl_seat, 30);
    assert!(!state.app_info().exit);
}

#[test]
fn exit_once_decided_stays() {
    let mut state = running_state();
    state.on_layer_surface_event(LayerSurfaceEvent::Closed);
    state.add_seat(2, 20);
    state.on_seat_event(2, SeatEvent::Name("x".to_string()));
    state.on_global_remove(2);
    state.on_layer_surface_event(LayerSurfaceEvent::Configure { serial: 1, width: 1, height: 1 });
    state.on_global_remove(99);
    assert!(state.app_info().exit);
}

#[test]
fn configured_size_becomes_screen_size() {
    let mut state = setup_state();
    state.store_compositor(Global::new("c", 1));
    state.store_subcompositor(Global::new("s", 2));
    state.store_layer_shell(Global::new("l", 3));
    state.store_shm(Global::new("m", 4));
    state.app_info_init_mut().parent = Some("parent");
    state.on_layer_surface_event(LayerSurfaceEvent::Configure { serial: 1, width: 2560, height: 1440 });
    let app = AppInfo::from_init(state.app_info_init_own(), "child").unwrap();
    assert_eq!((app.globals.screen_width, app.globals.screen_height), (2560, 1440));
}
