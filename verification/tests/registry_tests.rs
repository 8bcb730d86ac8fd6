use companion_wayland::global::{Global, Seat};
use companion_wayland::registry::{
    bind_request, bind_version, interface_kind, supported_version, BindRequest, Interface,
    MIN_WL_COMPOSITOR_VER, MIN_WL_SEAT_VER, MIN_WL_SHM_VER, MIN_WL_SUBCOMPOSITOR_VER,
    MIN_ZWLR_LAYER_SHELL_VER,
};

#[test]
fn global_new_keeps_proxy_and_name() {
    let g = Global::new("compositor-proxy", 17);
    assert_eq!(g.global, "compositor-proxy");
    assert_eq!(g.name, 17);
}

#[test]
fn seat_new_knows_nothing_yet() {
    let seat: Seat<u8, u32> = Seat::new(3);
    assert_eq!(seat.wl_seat, 3);
    assert_eq!(seat.capabilities, None);
    assert_eq!(seat.name, None);
}

#[test]
fn interface_names_are_recognised() {
    assert_eq!(interface_kind("wl_compositor"), Some(Interface::Compositor));
    assert_eq!(interface_kind("wl_seat"), Some(Interface::Seat));
    assert_eq!(interface_kind("wl_shm"), Some(Interface::Shm));
    assert_eq!(interface_kind("zwlr_layer_shell_v1"), Some(Interface::LayerShell));
    assert_eq!(interface_kind("wl_subcompositor"), Some(Interface::Subcompositor));
}

#[test]
fn other_interface_names_are_ignored() {
    assert_eq!(interface_kind("wl_output"), None);
    assert_eq!(interface_kind("xdg_wm_base"), None);
    assert_eq!(interface_kind(""), None);
    assert_eq!(interface_kind("wl_seat "), None);
    assert_eq!(interface_kind("WL_SEAT"), None);
}

#[test]
fn supported_versions() {
    assert_eq!(supported_version(Interface::Compositor), 6);
    assert_eq!(supported_version(Interface::Seat), 9);
    assert_eq!(supported_version(Interface::Subcompositor), 1);
    assert_eq!(supported_version(Interface::LayerShell), 4);
    assert_eq!(supported_version(Interface::Shm), 2);
    assert_eq!(MIN_WL_COMPOSITOR_VER, 6);
    assert_eq!(MIN_WL_SEAT_VER, 9);
    assert_eq!(MIN_WL_SUBCOMPOSITOR_VER, 1);
    assert_eq!(MIN_ZWLR_LAYER_SHELL_VER, 4);
    assert_eq!(MIN_WL_SHM_VER, 2);
}

#[test]
fn bind_version_is_capped_at_what_we_implement() {
    assert_eq!(bind_version(Interface::Compositor, 6), 6);
    assert_eq!(bind_version(Interface::Compositor, 4), 4);
    assert_eq!(bind_version(Interface::Compositor, 7), 6);
    assert_eq!(bind_version(Interface::Seat, 10), 9);
    assert_eq!(bind_version(Interface::Seat, 7), 7);
    assert_eq!(bind_version(Interface::Shm, 2), 2);
    assert_eq!(bind_version(Interface::Shm, 1), 1);
    assert_eq!(bind_version(Interface::LayerShell, 5), 4);
    assert_eq!(bind_version(Interface::Subcompositor, 1), 1);
    assert_eq!(bind_version(Interface::Subcompositor, u32::MAX), 1);
    assert_eq!(bind_version(Interface::Compositor, 0), 0);
}

#[test]
fn bind_request_for_known_interface() {
    assert_eq!(
        bind_request(42, "wl_seat", 10),
        Some(BindRequest { interface: Interface::Seat, name: 42, version: 9 })
    );
    assert_eq!(
        bind_request(1, "wl_compositor", 5),
        Some(BindRequest { interface: Interface::Compositor, name: 1, version: 5 })
    );
    assert_eq!(
        bind_request(9, "wl_shm", 2),
        Some(BindRequest { interface: Interface::Shm, name: 9, version: 2 })
    );
}

#[test]
fn bind_request_for_unknown_interface() {
    assert_eq!(bind_request(3, "wl_output", 4), None);
    assert_eq!(bind_request(3, "zxdg_output_manager_v1", 3), None);
}
