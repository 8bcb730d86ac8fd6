use vstd::prelude::*;

verus! {

broadcast use vstd::string::group_string_axioms;

/// Highest `wl_compositor` version this client speaks.
pub const MIN_WL_COMPOSITOR_VER: u32 = 6;

/// Highest `wl_seat` version this client speaks.
pub const MIN_WL_SEAT_VER: u32 = 9;

/// Highest `wl_subcompositor` version this client speaks.
pub const MIN_WL_SUBCOMPOSITOR_VER: u32 = 1;

/// Highest `zwlr_layer_shell_v1` version this client speaks.
pub const MIN_ZWLR_LAYER_SHELL_VER: u32 = 4;

/// Highest `wl_shm` version this client speaks.
pub const MIN_WL_SHM_VER: u32 = 2;

/// The registry interfaces this client binds; every other interface is ignored.
#[derive(PartialEq, Eq, Structural, Clone, Copy, Debug)]
pub enum Interface {
    Compositor,
    Seat,
    Shm,
    LayerShell,
    Subcompositor,
}

/// Which interface an advertised interface name denotes, if it is one we bind.
pub open spec fn spec_interface(name: Seq<char>) -> Option<Interface> {
    if name == "wl_compositor"@ {
        Some(Interface::Compositor)
    } else if name == "wl_seat"@ {
        Some(Interface::Seat)
    } else if name == "wl_shm"@ {
        Some(Interface::Shm)
    } else if name == "zwlr_layer_shell_v1"@ {
        Some(Interface::LayerShell)
    } else if name == "wl_subcompositor"@ {
        Some(Interface::Subcompositor)
    } else {
        None
    }
}

/// The highest version of `interface` that this client implements.
pub open spec fn spec_supported_version(interface: Interface) -> u32 {
    match interface {
        Interface::Compositor => MIN_WL_COMPOSITOR_VER,
        Interface::Seat => MIN_WL_SEAT_VER,
        Interface::Shm => MIN_WL_SHM_VER,
        Interface::LayerShell => MIN_ZWLR_LAYER_SHELL_VER,
        Interface::Subcompositor => MIN_WL_SUBCOMPOSITOR_VER,
    }
}

/// The version to bind at: the advertised one, capped at what we implement.
pub open spec fn spec_bind_version(interface: Interface, advertised: u32) -> u32 {
    let supported = spec_supported_version(interface);
    if advertised <= supported {
        advertised
    } else {
        supported
    }
}

/// Recognises the interface name carried by a `wl_registry.global` event.
pub fn interface_kind(name: &str) -> (kind: Option<Interface>)
    ensures
        kind == spec_interface(name@),
        kind == Some(Interface::Compositor) <==> name@ == "wl_compositor"@,
        kind == Some(Interface::Seat) <==> name@ == "wl_seat"@,
        kind == Some(Interface::Shm) <==> name@ == "wl_shm"@,
        kind == Some(Interface::LayerShell) <==> name@ == "zwlr_layer_shell_v1"@,
        kind == Some(Interface::Subcompositor) <==> name@ == "wl_subcompositor"@,
        kind is None <==> (name@ != "wl_compositor"@ && name@ != "wl_seat"@ && name@ != "wl_shm"@
            && name@ != "zwlr_layer_shell_v1"@ && name@ != "wl_subcompositor"@),
{
    proof {
        lemma_interface_names(name@);
    }
    let name = name.to_owned();
    if name == "wl_compositor".to_owned() {
        Some(Interface::Compositor)
    } else if name == "wl_seat".to_owned() {
        Some(Interface::Seat)
    } else if name == "wl_shm".to_owned() {
        Some(Interface::Shm)
    } else if name == "zwlr_layer_shell_v1".to_owned() {
        Some(Interface::LayerShell)
    } else if name == "wl_subcompositor".to_owned() {
        Some(Interface::Subcompositor)
    } else {
        None
    }
}

/// The highest version of `interface` that this client implements.
pub fn supported_version(interface: Interface) -> (v: u32)
    ensures
        v == spec_supported_version(interface),
        interface == Interface::Compositor ==> v == 6,
        interface == Interface::Seat ==> v == 9,
        interface == Interface::Shm ==> v == 2,
        interface == Interface::LayerShell ==> v == 4,
        interface == Interface::Subcompositor ==> v == 1,
{
    match interface {
        Interface::Compositor => MIN_WL_COMPOSITOR_VER,
        Interface::Seat => MIN_WL_SEAT_VER,
        Interface::Shm => MIN_WL_SHM_VER,
        Interface::LayerShell => MIN_ZWLR_LAYER_SHELL_VER,
        Interface::Subcompositor => MIN_WL_SUBCOMPOSITOR_VER,
    }
}

/// The version at which a global advertised at `advertised` is bound.
pub fn bind_version(interface: Interface, advertised: u32) -> (v: u32)
    ensures
        v == spec_bind_version(interface, advertised),
        v <= advertised,
        v <= spec_supported_version(interface),
        v == advertised || v == spec_supported_version(interface),
{
    let supported = supported_version(interface);
    if advertised <= supported {
        advertised
    } else {
        supported
    }
}

/// What to bind in answer to a `wl_registry.global` event.
#[derive(PartialEq, Eq, Structural, Clone, Copy, Debug)]
pub struct BindRequest {
    pub interface: Interface,
    pub name: u32,
    pub version: u32,
}

/// The bind request that answers a `wl_registry.global` event, once the
/// version each interface is bound at has been chosen by `version_of`.
pub open spec fn spec_request(
    name: u32,
    interface: Seq<char>,
    version: u32,
    version_of: spec_fn(Interface, u32) -> u32,
) -> Option<BindRequest> {
    match spec_interface(interface) {
        Some(i) => Some(BindRequest { interface: i, name, version: version_of(i, version) }),
        None => None,
    }
}

/// Answers a `wl_registry.global` event: the globals we use are bound at
/// the advertised version capped at the one we implement; the rest are ignored.
pub fn bind_request(name: u32, interface: &str, version: u32) -> (req: Option<BindRequest>)
    ensures
        req == spec_request(name, interface@, version, |i: Interface, v: u32| spec_bind_version(i, v)),
        req is None <==> (interface@ != "wl_compositor"@ && interface@ != "wl_seat"@
            && interface@ != "wl_shm"@ && interface@ != "zwlr_layer_shell_v1"@
            && interface@ != "wl_subcompositor"@),
        req matches Some(r) ==> {
            &&& r.name == name
            &&& Some(r.interface) == spec_interface(interface@)
            &&& r.version <= version
            &&& r.version <= spec_supported_version(r.interface)
            &&& (r.version == version || r.version == spec_supported_version(r.interface))
        },
{
    proof {
        lemma_interface_names(interface@);
    }
    match interface_kind(interface) {
        Some(i) => Some(BindRequest { interface: i, name, version: bind_version(i, version) }),
        None => None,
    }
}

/// Exactly the five interface names the client binds are recognised, each
/// as its own interface; every other name is ignored.
pub proof fn lemma_interface_names(name: Seq<char>)
    ensures
        spec_interface(name) == Some(Interface::Compositor) <==> name == "wl_compositor"@,
        spec_interface(name) == Some(Interface::Seat) <==> name == "wl_seat"@,
        spec_interface(name) == Some(Interface::Shm) <==> name == "wl_shm"@,
        spec_interface(name) == Some(Interface::LayerShell) <==> name == "zwlr_layer_shell_v1"@,
        spec_interface(name) == Some(Interface::Subcompositor) <==> name == "wl_subcompositor"@,
        spec_interface(name) is None <==> (name != "wl_compositor"@ && name != "wl_seat"@
            && name != "wl_shm"@ && name != "zwlr_layer_shell_v1"@ && name != "wl_subcompositor"@),
{
    reveal_strlit("wl_compositor");
    reveal_strlit("wl_seat");
    reveal_strlit("wl_shm");
    reveal_strlit("zwlr_layer_shell_v1");
    reveal_strlit("wl_subcompositor");
    assert("wl_compositor"@.len() == 13);
    assert("wl_seat"@.len() == 7);
    assert("wl_shm"@.len() == 6);
    assert("zwlr_layer_shell_v1"@.len() == 19);
    assert("wl_subcompositor"@.len() == 16);
}

/// The versions this client implements: compositor 6, seat 9, shared
/// memory 2, layer shell 4, subcompositor 1.
pub proof fn lemma_supported_versions()
    ensures
        spec_supported_version(Interface::Compositor) == 6,
        spec_supported_version(Interface::Seat) == 9,
        spec_supported_version(Interface::Shm) == 2,
        spec_supported_version(Interface::LayerShell) == 4,
        spec_supported_version(Interface::Subcompositor) == 1,
{
}

/// A global is bound at the smaller of the advertised version and the one
/// we implement.
pub proof fn lemma_bind_version_is_min(interface: Interface, advertised: u32)
    ensures
        spec_bind_version(interface, advertised) <= advertised,
        spec_bind_version(interface, advertised) <= spec_supported_version(interface),
        spec_bind_version(interface, advertised) == advertised
            || spec_bind_version(interface, advertised) == spec_supported_version(interface),
{
}

/// A `wl_registry.global` event is answered by a bind request exactly when
/// its interface is one we use; the request binds that global, under the
/// advertised name, at the smaller of the advertised and implemented versions.
pub proof fn lemma_bind_request(name: u32, interface: Seq<char>, version: u32)
    ensures
        spec_request(name, interface, version, |i: Interface, v: u32| spec_bind_version(i, v)) is Some
            <==> spec_interface(interface) is Some,
        spec_request(name, interface, version, |i: Interface, v: u32| spec_bind_version(i, v))
            matches Some(r) ==> {
            &&& r.name == name
            &&& Some(r.interface) == spec_interface(interface)
            &&& r.version <= version
            &&& r.version <= spec_supported_version(r.interface)
            &&& (r.version == version || r.version == spec_supported_version(r.interface))
        },
{
}

} // verus!
