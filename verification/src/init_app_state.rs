use vstd::prelude::*;
use std::collections::HashMap;
use crate::global::{Global, Seat};
use crate::registry::{
    BindRequest, Interface, bind_version, interface_kind, lemma_interface_names, spec_bind_version,
    spec_interface, spec_request, spec_supported_version,
};
use crate::state::{
    Handles, LayerSurfaceEvent, LayerSurfaceReaction, SeatEvent, SeatOf, seat_after, take_seat,
    update_seat,
};

verus! {

broadcast use vstd::std_specs::hash::group_hash_axioms;

/// A single-phase client state: the globals bound so far, the seats, the
/// size the compositor asked for, and whether the surface was closed.
pub struct InitAppState<H: Handles> {
    pub connection: Option<H::Connection>,
    pub compositor: Option<Global<H::Compositor>>,
    pub subcompositor: Option<Global<H::Subcompositor>>,
    pub layer_shell: Option<Global<H::LayerShell>>,
    pub seats: HashMap<u32, SeatOf<H>>,
    pub shm: Option<Global<H::Shm>>,
    pub height: Option<u32>,
    pub width: Option<u32>,
    pub exit: bool,
}

/// [`InitAppState`] with its seat table seen as a map.
pub struct InitAppStateView<H: Handles> {
    pub connection: Option<H::Connection>,
    pub compositor: Option<Global<H::Compositor>>,
    pub subcompositor: Option<Global<H::Subcompositor>>,
    pub layer_shell: Option<Global<H::LayerShell>>,
    pub seats: Map<u32, SeatOf<H>>,
    pub shm: Option<Global<H::Shm>>,
    pub height: Option<u32>,
    pub width: Option<u32>,
    pub exit: bool,
}

impl<H: Handles> View for InitAppState<H> {
    type V = InitAppStateView<H>;

    open spec fn view(&self) -> InitAppStateView<H> {
        InitAppStateView {
            connection: self.connection,
            compositor: self.compositor,
            subcompositor: self.subcompositor,
            layer_shell: self.layer_shell,
            seats: self.seats@,
            shm: self.shm,
            height: self.height,
            width: self.width,
            exit: self.exit,
        }
    }
}

/// What happened when the compositor withdrew a global.
pub enum InitRemoval<S> {
    /// It was the compositor, which is no longer held.
    CompositorRemoved,
    /// It was a seat: it is no longer tracked, and is handed back for release.
    SeatReleased(S),
    /// It was something else, which is not tracked.
    Ignored,
}

/// The version this state binds at: shared memory at whatever the
/// compositor offers, every other interface capped at what we implement.
pub open spec fn spec_init_bind_version(interface: Interface, advertised: u32) -> u32 {
    match interface {
        Interface::Shm => advertised,
        _ => spec_bind_version(interface, advertised),
    }
}

impl<H: Handles> InitAppStateView<H> {
    /// The state after the seat `wl_seat` was bound under `name`.
    pub open spec fn after_seat_added(self, name: u32, wl_seat: H::Seat) -> InitAppStateView<H> {
        InitAppStateView {
            seats: self.seats.insert(name, Seat { wl_seat, capabilities: None, name: None }),
            ..self
        }
    }

    /// The state after an event about the seat called `name`; an event about
    /// a seat that is not known changes nothing.
    pub open spec fn after_seat_event(self, name: u32, event: SeatEvent<H::Capabilities>) -> InitAppStateView<H> {
        if self.seats.contains_key(name) {
            InitAppStateView { seats: self.seats.insert(name, seat_after(self.seats[name], event)), ..self }
        } else {
            self
        }
    }

    /// The state after the compositor withdrew the global called `name`.
    pub open spec fn after_global_remove(self, name: u32) -> InitAppStateView<H> {
        if self.compositor matches Some(c) && c.name == name {
            InitAppStateView { compositor: None, ..self }
        } else if self.seats.contains_key(name) {
            InitAppStateView { seats: self.seats.remove(name), ..self }
        } else {
            self
        }
    }

    /// The state after an event on the layer surface.
    pub open spec fn after_layer_surface_event(self, event: LayerSurfaceEvent) -> InitAppStateView<H> {
        match event {
            LayerSurfaceEvent::Configure { serial, width, height } =>
                InitAppStateView { width: Some(width), height: Some(height), ..self },
            LayerSurfaceEvent::Closed => InitAppStateView { exit: true, ..self },
            LayerSurfaceEvent::Other => self,
        }
    }
}

/// The version an [`InitAppState`] binds `interface` at.
pub fn init_bind_version(interface: Interface, advertised: u32) -> (v: u32)
    ensures
        v == spec_init_bind_version(interface, advertised),
        interface == Interface::Shm ==> v == advertised,
        interface != Interface::Shm ==> {
            &&& v <= advertised
            &&& v <= spec_supported_version(interface)
            &&& (v == advertised || v == spec_supported_version(interface))
        },
{
    match interface {
        Interface::Shm => advertised,
        _ => bind_version(interface, advertised),
    }
}

impl<H: Handles> Default for InitAppState<H> {
    fn default() -> (state: Self)
        ensures
            state@ == (InitAppStateView::<H> {
                connection: None,
                compositor: None,
                subcompositor: None,
                layer_shell: None,
                seats: Map::empty(),
                shm: None,
                height: None,
                width: None,
                exit: false,
            }),
    {
        InitAppState {
            connection: None,
            compositor: None,
            subcompositor: None,
            layer_shell: None,
            seats: HashMap::new(),
            shm: None,
            height: None,
            width: None,
            exit: false,
        }
    }
}

impl<H: Handles> InitAppState<H> {
    /// Answers a `wl_registry.global` event: the globals we use are bound,
    /// shared memory at the advertised version and the others capped at the
    /// version we implement; the rest are ignored.
    pub fn bind_request(name: u32, interface: &str, version: u32) -> (req: Option<BindRequest>)
        ensures
            req == spec_request(name, interface@, version, |i: Interface, v: u32| spec_init_bind_version(i, v)),
            req is None <==> (interface@ != "wl_compositor"@ && interface@ != "wl_seat"@
                && interface@ != "wl_shm"@ && interface@ != "zwlr_layer_shell_v1"@
                && interface@ != "wl_subcompositor"@),
            req matches Some(r) ==> {
                &&& r.name == name
                &&& Some(r.interface) == spec_interface(interface@)
                &&& (r.interface == Interface::Shm ==> r.version == version)
                &&& (r.interface != Interface::Shm ==> {
                    &&& r.version <= version
                    &&& r.version <= spec_supported_version(r.interface)
                    &&& (r.version == version || r.version == spec_supported_version(r.interface))
                })
            },
    {
        proof {
            lemma_interface_names(interface@);
        }
        match interface_kind(interface) {
            Some(i) => Some(BindRequest { interface: i, name, version: init_bind_version(i, version) }),
            None => None,
        }
    }

    /// Starts tracking the seat just bound under `name`.
    pub fn add_seat(&mut self, name: u32, wl_seat: H::Seat)
        ensures
            final(self)@ == old(self)@.after_seat_added(name, wl_seat),
            final(self)@ == (InitAppStateView {
                seats: old(self)@.seats.insert(name, Seat { wl_seat, capabilities: None, name: None }),
                ..old(self)@
            }),
    {
        self.seats.insert(name, Seat::new(wl_seat));
    }

    /// Handles `wl_registry.global_remove`: the compositor is forgotten, a
    /// seat is dropped from the table and handed back, anything else is ignored.
    pub fn on_global_remove(&mut self, name: u32) -> (removal: InitRemoval<SeatOf<H>>)
        ensures
            final(self)@ == old(self)@.after_global_remove(name),
            match removal {
                InitRemoval::CompositorRemoved => old(self)@.compositor matches Some(c) && c.name == name,
                InitRemoval::SeatReleased(seat) => !(old(self)@.compositor matches Some(c) && c.name == name)
                    && old(self)@.seats.contains_key(name) && seat == old(self)@.seats[name],
                InitRemoval::Ignored => !(old(self)@.compositor matches Some(c) && c.name == name)
                    && !old(self)@.seats.contains_key(name),
            },
            removal is CompositorRemoved ==> final(self)@ == (InitAppStateView { compositor: None, ..old(self)@ }),
            removal is SeatReleased ==> final(self)@ == (InitAppStateView {
                seats: old(self)@.seats.remove(name),
                ..old(self)@
            }),
            removal is Ignored ==> final(self)@ == old(self)@,
    {
        let is_compositor = match &self.compositor {
            Some(c) => c.name == name,
            None => false,
        };
        if is_compositor {
            self.compositor = None;
            InitRemoval::CompositorRemoved
        } else {
            match take_seat(&mut self.seats, name) {
                Some(seat) => InitRemoval::SeatReleased(seat),
                None => InitRemoval::Ignored,
            }
        }
    }

    /// Handles an event about the seat bound under `name`. Returns whether
    /// such a seat is known; an event about an unknown seat changes nothing.
    pub fn on_seat_event(&mut self, name: u32, event: SeatEvent<H::Capabilities>) -> (known: bool)
        ensures
            known == old(self)@.seats.contains_key(name),
            final(self)@ == old(self)@.after_seat_event(name, event),
            !known ==> final(self)@ == old(self)@,
            known ==> {
                let before = old(self)@.seats[name];
                let after = final(self)@.seats[name];
                &&& final(self)@ == (InitAppStateView { seats: old(self)@.seats.insert(name, after), ..old(self)@ })
                &&& after.wl_seat == before.wl_seat
                &&& match event {
                    SeatEvent::Capabilities(c) => after.capabilities == Some(c) && after.name == before.name,
                    SeatEvent::Name(n) => after.name == Some(n) && after.capabilities == before.capabilities,
                    SeatEvent::Other => after == before,
                }
            },
    {
        update_seat(&mut self.seats, name, event)
    }

    /// Handles an event on the layer surface: a configure records the size
    /// and is acknowledged, a close asks the client to exit.
    pub fn on_layer_surface_event(&mut self, event: LayerSurfaceEvent) -> (reaction: LayerSurfaceReaction)
        ensures
            final(self)@ == old(self)@.after_layer_surface_event(event),
            reaction == match event {
                LayerSurfaceEvent::Configure { serial, .. } => LayerSurfaceReaction::AckConfigure(serial),
                LayerSurfaceEvent::Closed => LayerSurfaceReaction::Exit,
                LayerSurfaceEvent::Other => LayerSurfaceReaction::Ignore,
            },
            match event {
                LayerSurfaceEvent::Configure { serial, width, height } => final(self)@ == (InitAppStateView {
                    width: Some(width),
                    height: Some(height),
                    ..old(self)@
                }),
                LayerSurfaceEvent::Closed => final(self)@ == (InitAppStateView { exit: true, ..old(self)@ }),
                LayerSurfaceEvent::Other => final(self)@ == old(self)@,
            },
    {
        match event {
            LayerSurfaceEvent::Configure { serial, width, height } => {
                self.width = Some(width);
                self.height = Some(height);
                LayerSurfaceReaction::AckConfigure(serial)
            },
            LayerSurfaceEvent::Closed => {
                self.exit = true;
                LayerSurfaceReaction::Exit
            },
            LayerSurfaceEvent::Other => LayerSurfaceReaction::Ignore,
        }
    }
}

/// A seat that is bound and then withdrawn leaves the state as it was
/// before, provided no seat was known under that name and the compositor
/// was not advertised under it either.
pub proof fn lemma_init_seat_added_then_removed<H: Handles>(
    state: InitAppStateView<H>,
    name: u32,
    wl_seat: H::Seat,
)
    requires
        !state.seats.contains_key(name),
        !(state.compositor matches Some(c) && c.name == name),
    ensures
        state.after_seat_added(name, wl_seat).after_global_remove(name) == state,
{
    let seat = Seat::<H::Seat, H::Capabilities> { wl_seat, capabilities: None, name: None };
    assert(state.seats.insert(name, seat).remove(name) =~= state.seats);
}

/// Once the surface has been closed, no event reopens it.
pub proof fn lemma_init_exit_is_final<H: Handles>(
    state: InitAppStateView<H>,
    name: u32,
    wl_seat: H::Seat,
    seat_event: SeatEvent<H::Capabilities>,
    surface_event: LayerSurfaceEvent,
)
    requires
        state.exit,
    ensures
        state.after_seat_added(name, wl_seat).exit,
        state.after_seat_event(name, seat_event).exit,
        state.after_global_remove(name).exit,
        state.after_layer_surface_event(surface_event).exit,
{
}

/// Shared memory is bound at whatever version the compositor offers; every
/// other interface at the smaller of the advertised version and the one we
/// implement, exactly as the two-phase client binds it.
pub proof fn lemma_init_bind_version(interface: Interface, advertised: u32)
    ensures
        interface == Interface::Shm ==> spec_init_bind_version(interface, advertised) == advertised,
        interface != Interface::Shm ==> {
            let v = spec_init_bind_version(interface, advertised);
            &&& v <= advertised
            &&& v <= spec_supported_version(interface)
            &&& (v == advertised || v == spec_supported_version(interface))
            &&& v == spec_bind_version(interface, advertised)
        },
{
}

/// Withdrawing the compositor forgets it and nothing else; withdrawing a
/// known seat drops just that seat; withdrawing anything else changes nothing.
pub proof fn lemma_init_global_remove<H: Handles>(state: InitAppStateView<H>, name: u32)
    ensures
        (state.compositor matches Some(c) && c.name == name) ==> {
            let after = state.after_global_remove(name);
            &&& after.compositor is None
            &&& after.seats == state.seats
            &&& after.exit == state.exit
            &&& after == (InitAppStateView { compositor: None, ..state })
        },
        !(state.compositor matches Some(c) && c.name == name) && state.seats.contains_key(name) ==> {
            let after = state.after_global_remove(name);
            &&& after.seats == state.seats.remove(name)
            &&& after.compositor == state.compositor
            &&& after.exit == state.exit
            &&& after == (InitAppStateView { seats: state.seats.remove(name), ..state })
        },
        !(state.compositor matches Some(c) && c.name == name) && !state.seats.contains_key(name)
            ==> state.after_global_remove(name) == state,
{
}

/// An event about a known seat changes that seat's reported property and
/// nothing else; one about an unknown seat changes nothing.
pub proof fn lemma_init_seat_event<H: Handles>(
    state: InitAppStateView<H>,
    name: u32,
    event: SeatEvent<H::Capabilities>,
)
    ensures
        !state.seats.contains_key(name) ==> state.after_seat_event(name, event) == state,
        state.seats.contains_key(name) ==> {
            let after = state.after_seat_event(name, event);
            &&& after.seats.contains_key(name)
            &&& after.seats.remove(name) == state.seats.remove(name)
            &&& after == (InitAppStateView { seats: state.seats.insert(name, after.seats[name]), ..state })
            &&& after.seats[name].wl_seat == state.seats[name].wl_seat
            &&& (event matches SeatEvent::Capabilities(c) ==> after.seats[name].capabilities == Some(c))
            &&& (event matches SeatEvent::Name(n) ==> after.seats[name].name == Some(n))
            &&& (event is Other ==> after.seats[name] == state.seats[name])
        },
{
    if state.seats.contains_key(name) {
        let after = state.after_seat_event(name, event);
        assert(after.seats.remove(name) =~= state.seats.remove(name));
    }
}

/// A configure records its size and nothing else; a close sets the exit
/// flag and nothing else; other events change nothing.
pub proof fn lemma_init_layer_surface_event<H: Handles>(
    state: InitAppStateView<H>,
    event: LayerSurfaceEvent,
)
    ensures
        event matches LayerSurfaceEvent::Configure { serial, width, height } ==> {
            let after = state.after_layer_surface_event(event);
            &&& after.width == Some(width)
            &&& after.height == Some(height)
            &&& after.exit == state.exit
            &&& after.seats == state.seats
            &&& after == (InitAppStateView { width: Some(width), height: Some(height), ..state })
        },
        event is Closed ==> state.after_layer_surface_event(event) == (InitAppStateView { exit: true, ..state }),
        event is Other ==> state.after_layer_surface_event(event) == state,
{
}

} // verus!
