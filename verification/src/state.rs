use vstd::prelude::*;
use std::collections::HashMap;
use crate::global::{Global, Seat};

verus! {

broadcast use vstd::std_specs::hash::group_hash_axioms;

/// The protocol objects the client state holds. The state never looks
/// inside them: it stores what was bound and hands it back.
pub trait Handles {
    type Compositor;
    type Subcompositor;
    type LayerShell;
    type Shm;
    type Seat;
    type Capabilities;
    type ParentSurface;
    type ChildSurface;
    type Connection;
}

/// A seat as the state keeps it.
pub type SeatOf<H> = Seat<<H as Handles>::Seat, <H as Handles>::Capabilities>;

/// What has been learnt while setting up: the globals bound so far, the
/// seats, and the size the compositor gave the full-screen parent layer.
pub struct AppInfoInit<H: Handles> {
    pub compositor: Option<Global<H::Compositor>>,
    pub subcompositor: Option<Global<H::Subcompositor>>,
    pub layer_shell: Option<Global<H::LayerShell>>,
    pub seats: HashMap<u32, SeatOf<H>>,
    pub shm: Option<Global<H::Shm>>,
    pub parent_height: Option<u32>,
    pub parent_width: Option<u32>,
    pub parent: Option<H::ParentSurface>,
}

/// The globals of a running client: all of them bound, and the screen size.
pub struct Globals<H: Handles> {
    pub compositor: Global<H::Compositor>,
    pub subcompositor: Global<H::Subcompositor>,
    pub layer_shell: Global<H::LayerShell>,
    pub seats: HashMap<u32, SeatOf<H>>,
    pub shm: Global<H::Shm>,
    pub screen_height: u32,
    pub screen_width: u32,
}

/// A running client: its globals, its two surfaces and whether it should stop.
pub struct AppInfo<H: Handles> {
    pub globals: Globals<H>,
    pub parent: H::ParentSurface,
    pub child: H::ChildSurface,
    pub exit: bool,
}

/// The client is either still setting up or running.
pub enum State<H: Handles> {
    Init(AppInfoInit<H>),
    Running(AppInfo<H>),
}

/// [`AppInfoInit`] with its seat table seen as a map.
pub struct InitView<H: Handles> {
    pub compositor: Option<Global<H::Compositor>>,
    pub subcompositor: Option<Global<H::Subcompositor>>,
    pub layer_shell: Option<Global<H::LayerShell>>,
    pub seats: Map<u32, SeatOf<H>>,
    pub shm: Option<Global<H::Shm>>,
    pub parent_height: Option<u32>,
    pub parent_width: Option<u32>,
    pub parent: Option<H::ParentSurface>,
}

/// [`Globals`] with its seat table seen as a map.
pub struct GlobalsView<H: Handles> {
    pub compositor: Global<H::Compositor>,
    pub subcompositor: Global<H::Subcompositor>,
    pub layer_shell: Global<H::LayerShell>,
    pub seats: Map<u32, SeatOf<H>>,
    pub shm: Global<H::Shm>,
    pub screen_height: u32,
    pub screen_width: u32,
}

/// [`AppInfo`] with its seat table seen as a map.
pub struct AppInfoView<H: Handles> {
    pub globals: GlobalsView<H>,
    pub parent: H::ParentSurface,
    pub child: H::ChildSurface,
    pub exit: bool,
}

/// [`State`] with its seat tables seen as maps.
pub enum StateView<H: Handles> {
    Init(InitView<H>),
    Running(AppInfoView<H>),
}

impl<H: Handles> View for AppInfoInit<H> {
    type V = InitView<H>;

    open spec fn view(&self) -> InitView<H> {
        InitView {
            compositor: self.compositor,
            subcompositor: self.subcompositor,
            layer_shell: self.layer_shell,
            seats: self.seats@,
            shm: self.shm,
            parent_height: self.parent_height,
            parent_width: self.parent_width,
            parent: self.parent,
        }
    }
}

impl<H: Handles> View for Globals<H> {
    type V = GlobalsView<H>;

    open spec fn view(&self) -> GlobalsView<H> {
        GlobalsView {
            compositor: self.compositor,
            subcompositor: self.subcompositor,
            layer_shell: self.layer_shell,
            seats: self.seats@,
            shm: self.shm,
            screen_height: self.screen_height,
            screen_width: self.screen_width,
        }
    }
}

impl<H: Handles> View for AppInfo<H> {
    type V = AppInfoView<H>;

    open spec fn view(&self) -> AppInfoView<H> {
        AppInfoView {
            globals: self.globals@,
            parent: self.parent,
            child: self.child,
            exit: self.exit,
        }
    }
}

impl<H: Handles> View for State<H> {
    type V = StateView<H>;

    open spec fn view(&self) -> StateView<H> {
        match self {
            State::Init(info) => StateView::Init(info@),
            State::Running(app) => StateView::Running(app@),
        }
    }
}

impl<H: Handles> StateView<H> {
    /// The seat table of either phase.
    pub open spec fn seats(self) -> Map<u32, SeatOf<H>> {
        match self {
            StateView::Init(info) => info.seats,
            StateView::Running(app) => app.globals.seats,
        }
    }

    /// The same state with its seat table replaced.
    pub open spec fn with_seats(self, seats: Map<u32, SeatOf<H>>) -> StateView<H> {
        match self {
            StateView::Init(info) => StateView::Init(InitView { seats, ..info }),
            StateView::Running(app) => StateView::Running(
                AppInfoView { globals: GlobalsView { seats, ..app.globals }, ..app },
            ),
        }
    }
}

impl<H: Handles> InitView<H> {
    /// Everything the running phase needs has been obtained.
    pub open spec fn is_complete(self) -> bool {
        &&& self.compositor is Some
        &&& self.subcompositor is Some
        &&& self.layer_shell is Some
        &&& self.shm is Some
        &&& self.parent_height is Some
        &&& self.parent_width is Some
        &&& self.parent is Some
    }

    /// The running phase that a complete setup turns into, with `child` as
    /// the moving surface. The screen is the size the parent layer was given.
    pub open spec fn running(self, child: H::ChildSurface) -> AppInfoView<H>
        recommends
            self.is_complete(),
    {
        AppInfoView {
            globals: GlobalsView {
                compositor: self.compositor.unwrap(),
                subcompositor: self.subcompositor.unwrap(),
                layer_shell: self.layer_shell.unwrap(),
                seats: self.seats,
                shm: self.shm.unwrap(),
                screen_height: self.parent_height.unwrap(),
                screen_width: self.parent_width.unwrap(),
            },
            parent: self.parent.unwrap(),
            child,
            exit: false,
        }
    }
}

impl<H: Handles> AppInfo<H> {
    /// Ends setup: builds the running phase out of everything gathered during
    /// setup, or gives `None` when something it needs never arrived.
    pub fn from_init(info: AppInfoInit<H>, child: H::ChildSurface) -> (app: Option<AppInfo<H>>)
        ensures
            app is Some <==> info@.is_complete(),
            app matches Some(a) ==> a@ == info@.running(child),
            app is Some <==> (info.compositor is Some && info.subcompositor is Some
                && info.layer_shell is Some && info.shm is Some && info.parent_height is Some
                && info.parent_width is Some && info.parent is Some),
            app matches Some(a) ==> {
                &&& Some(a.globals.compositor) == info.compositor
                &&& Some(a.globals.subcompositor) == info.subcompositor
                &&& Some(a.globals.layer_shell) == info.layer_shell
                &&& Some(a.globals.shm) == info.shm
                &&& a.globals.seats@ == info.seats@
                &&& Some(a.globals.screen_height) == info.parent_height
                &&& Some(a.globals.screen_width) == info.parent_width
                &&& Some(a.parent) == info.parent
                &&& a.child == child
                &&& !a.exit
            },
    {
        let AppInfoInit {
            compositor,
            subcompositor,
            layer_shell,
            seats,
            shm,
            parent_height,
            parent_width,
            parent,
        } = info;
        match (compositor, subcompositor, layer_shell, shm, parent_height, parent_width, parent) {
            (
                Some(compositor),
                Some(subcompositor),
                Some(layer_shell),
                Some(shm),
                Some(screen_height),
                Some(screen_width),
                Some(parent),
            ) => Some(AppInfo {
                globals: Globals {
                    compositor,
                    subcompositor,
                    layer_shell,
                    seats,
                    shm,
                    screen_height,
                    screen_width,
                },
                parent,
                child,
                exit: false,
            }),
            _ => None,
        }
    }
}

impl<H: Handles> AsMut<Globals<H>> for AppInfo<H> {
    fn as_mut(&mut self) -> (globals: &mut Globals<H>)
        ensures
            *globals == old(self).globals,
            final(self).globals == *final(globals),
            final(self).parent == old(self).parent,
            final(self).child == old(self).child,
            final(self).exit == old(self).exit,
    {
        &mut self.globals
    }
}

impl<H: Handles> AppInfoInit<H> {
    /// Nothing bound, nothing known.
    pub fn new() -> (info: Self)
        ensures
            info@ == (InitView::<H> {
                compositor: None,
                subcompositor: None,
                layer_shell: None,
                seats: Map::empty(),
                shm: None,
                parent_height: None,
                parent_width: None,
                parent: None,
            }),
    {
        AppInfoInit {
            compositor: None,
            subcompositor: None,
            layer_shell: None,
            seats: HashMap::new(),
            shm: None,
            parent_height: None,
            parent_width: None,
            parent: None,
        }
    }
}

/// What an event on the parent layer surface asks of the caller.
#[derive(PartialEq, Eq, Structural, Clone, Copy, Debug)]
pub enum LayerSurfaceEvent {
    Configure { serial: u32, width: u32, height: u32 },
    Closed,
    Other,
}

/// What the caller must do after an event on the parent layer surface.
#[derive(PartialEq, Eq, Structural, Clone, Copy, Debug)]
pub enum LayerSurfaceReaction {
    /// Acknowledge the configure event with this serial.
    AckConfigure(u32),
    /// The surface went away while the client was running: it is now exiting.
    Exit,
    /// The surface went away before setup finished; the client cannot go on.
    ClosedDuringInit,
    /// Nothing to do.
    Ignore,
}

/// An event about a seat.
pub enum SeatEvent<C> {
    Capabilities(C),
    Name(String),
    Other,
}

/// What happened when the compositor withdrew a global.
pub enum GlobalRemoval<S> {
    /// It was a seat: it is no longer tracked, and is handed back for release.
    SeatReleased(S),
    /// A global other than a seat went away while the client was running:
    /// the client is now exiting.
    CoreGlobalRemoved,
    /// A global other than a seat went away during setup; the client cannot go on.
    CoreGlobalRemovedDuringInit,
}

/// A seat after one event about it.
pub open spec fn seat_after<S, C>(seat: Seat<S, C>, event: SeatEvent<C>) -> Seat<S, C> {
    match event {
        SeatEvent::Capabilities(c) => Seat { capabilities: Some(c), ..seat },
        SeatEvent::Name(n) => Seat { name: Some(n), ..seat },
        SeatEvent::Other => seat,
    }
}

impl<H: Handles> StateView<H> {
    /// The state after the seat `wl_seat` was bound under `name`.
    pub open spec fn after_seat_added(self, name: u32, wl_seat: H::Seat) -> StateView<H> {
        self.with_seats(self.seats().insert(name, Seat { wl_seat, capabilities: None, name: None }))
    }

    /// The state after an event about the seat called `name`; an event about
    /// a seat that is not known changes nothing.
    pub open spec fn after_seat_event(self, name: u32, event: SeatEvent<H::Capabilities>) -> StateView<H> {
        if self.seats().contains_key(name) {
            self.with_seats(self.seats().insert(name, seat_after(self.seats()[name], event)))
        } else {
            self
        }
    }

    /// The state after the compositor withdrew the global called `name`.
    pub open spec fn after_global_remove(self, name: u32) -> StateView<H> {
        if self.seats().contains_key(name) {
            self.with_seats(self.seats().remove(name))
        } else {
            match self {
                StateView::Init(info) => self,
                StateView::Running(app) => StateView::Running(AppInfoView { exit: true, ..app }),
            }
        }
    }

    /// The state after an event on the parent layer surface.
    pub open spec fn after_layer_surface_event(self, event: LayerSurfaceEvent) -> StateView<H> {
        match (self, event) {
            (StateView::Init(info), LayerSurfaceEvent::Configure { serial, width, height }) =>
                StateView::Init(InitView {
                    parent_height: Some(height),
                    parent_width: Some(width),
                    ..info
                }),
            (StateView::Running(app), LayerSurfaceEvent::Closed) =>
                StateView::Running(AppInfoView { exit: true, ..app }),
            _ => self,
        }
    }
}

/// What the caller must do after an event on the parent layer surface in `state`.
pub open spec fn spec_layer_surface_reaction<H: Handles>(
    state: StateView<H>,
    event: LayerSurfaceEvent,
) -> LayerSurfaceReaction {
    match event {
        LayerSurfaceEvent::Configure { serial, .. } => LayerSurfaceReaction::AckConfigure(serial),
        LayerSurfaceEvent::Closed => match state {
            StateView::Init(_) => LayerSurfaceReaction::ClosedDuringInit,
            StateView::Running(_) => LayerSurfaceReaction::Exit,
        },
        LayerSurfaceEvent::Other => LayerSurfaceReaction::Ignore,
    }
}

/// Takes the seat called `name` out of `seats`, if there is one.
pub(crate) fn take_seat<S, C>(seats: &mut HashMap<u32, Seat<S, C>>, name: u32) -> (seat: Option<Seat<S, C>>)
    ensures
        match seat {
            Some(s) => old(seats)@.contains_key(name) && s == old(seats)@[name]
                && final(seats)@ == old(seats)@.remove(name),
            None => !old(seats)@.contains_key(name) && final(seats)@ == old(seats)@,
        },
{
    let seat = seats.remove(&name);
    proof {
        if seat is None {
            assert(old(seats)@.remove(name) =~= old(seats)@);
        }
    }
    seat
}

/// Applies an event to the seat called `name` in `seats`, if there is one.
pub(crate) fn update_seat<S, C>(seats: &mut HashMap<u32, Seat<S, C>>, name: u32, event: SeatEvent<C>) -> (known: bool)
    ensures
        known == old(seats)@.contains_key(name),
        final(seats)@ == if known {
            old(seats)@.insert(name, seat_after(old(seats)@[name], event))
        } else {
            old(seats)@
        },
{
    match seats.remove(&name) {
        Some(mut seat) => {
            match event {
                SeatEvent::Capabilities(c) => seat.capabilities = Some(c),
                SeatEvent::Name(n) => seat.name = Some(n),
                SeatEvent::Other => {},
            }
            seats.insert(name, seat);
            proof {
                assert(old(seats)@.remove(name).insert(name, seat) =~= old(seats)@.insert(name, seat));
            }
            true
        },
        None => false,
    }
}

impl<H: Handles> State<H> {
    /// The setup-phase data. Only meaningful during setup.
    pub fn app_info_init(&self) -> (info: &AppInfoInit<H>)
        requires
            self is Init,
        ensures
            *self == State::Init(*info),
    {
        match self {
            State::Init(info) => info,
            State::Running(_) => vstd::pervasive::unreached(),
        }
    }

    /// The setup-phase data, for changing. Only meaningful during setup.
    pub fn app_info_init_mut(&mut self) -> (info: &mut AppInfoInit<H>)
        requires
            *old(self) is Init,
        ensures
            *old(self) == State::Init(*info),
            *final(self) == State::Init(*final(info)),
    {
        match self {
            State::Init(info) => info,
            State::Running(_) => vstd::pervasive::unreached(),
        }
    }

    /// Gives up the setup-phase data. Only meaningful during setup.
    pub fn app_info_init_own(self) -> (info: AppInfoInit<H>)
        requires
            self is Init,
        ensures
            self == State::Init(info),
    {
        match self {
            State::Init(info) => info,
            State::Running(_) => vstd::pervasive::unreached(),
        }
    }

    /// The running-phase data. Only meaningful once setup is complete.
    pub fn app_info(&self) -> (app: &AppInfo<H>)
        requires
            self is Running,
        ensures
            *self == State::Running(*app),
    {
        match self {
            State::Running(app) => app,
            State::Init(_) => vstd::pervasive::unreached(),
        }
    }

    /// The running-phase data, for changing. Only meaningful once setup is complete.
    pub fn app_info_mut(&mut self) -> (app: &mut AppInfo<H>)
        requires
            *old(self) is Running,
        ensures
            *old(self) == State::Running(*app),
            *final(self) == State::Running(*final(app)),
    {
        match self {
            State::Running(app) => app,
            State::Init(_) => vstd::pervasive::unreached(),
        }
    }

    /// Whether setup is still under way.
    pub fn is_init(&self) -> (b: bool)
        ensures
            b == (self is Init),
    {
        match self {
            State::Init(_) => true,
            State::Running(_) => false,
        }
    }

    /// Records a freshly bound compositor in whichever phase the client is in.
    pub fn store_compositor(&mut self, global: Global<H::Compositor>)
        ensures
            final(self)@ == (match old(self)@ {
                StateView::Init(info) => StateView::Init(InitView { compositor: Some(global), ..info }),
                StateView::Running(app) => StateView::Running(
                    AppInfoView { globals: GlobalsView { compositor: global, ..app.globals }, ..app },
                ),
            }),
    {
        match self {
            State::Init(info) => info.compositor = Some(global),
            State::Running(app) => app.globals.compositor = global,
        }
    }

    /// Records a freshly bound subcompositor in whichever phase the client is in.
    pub fn store_subcompositor(&mut self, global: Global<H::Subcompositor>)
        ensures
            final(self)@ == (match old(self)@ {
                StateView::Init(info) => StateView::Init(InitView { subcompositor: Some(global), ..info }),
                StateView::Running(app) => StateView::Running(
                    AppInfoView { globals: GlobalsView { subcompositor: global, ..app.globals }, ..app },
                ),
            }),
    {
        match self {
            State::Init(info) => info.subcompositor = Some(global),
            State::Running(app) => app.globals.subcompositor = global,
        }
    }

    /// Records a freshly bound layer shell in whichever phase the client is in.
    pub fn store_layer_shell(&mut self, global: Global<H::LayerShell>)
        ensures
            final(self)@ == (match old(self)@ {
                StateView::Init(info) => StateView::Init(InitView { layer_shell: Some(global), ..info }),
                StateView::Running(app) => StateView::Running(
                    AppInfoView { globals: GlobalsView { layer_shell: global, ..app.globals }, ..app },
                ),
            }),
    {
        match self {
            State::Init(info) => info.layer_shell = Some(global),
            State::Running(app) => app.globals.layer_shell = global,
        }
    }

    /// Records a freshly bound shared-memory global in whichever phase the client is in.
    pub fn store_shm(&mut self, global: Global<H::Shm>)
        ensures
            final(self)@ == (match old(self)@ {
                StateView::Init(info) => StateView::Init(InitView { shm: Some(global), ..info }),
                StateView::Running(app) => StateView::Running(
                    AppInfoView { globals: GlobalsView { shm: global, ..app.globals }, ..app },
                ),
            }),
    {
        match self {
            State::Init(info) => info.shm = Some(global),
            State::Running(app) => app.globals.shm = global,
        }
    }

    /// Handles `wl_registry.global_remove`: a seat is dropped from the table
    /// and handed back; any other global is one the client cannot do without.
    pub fn on_global_remove(&mut self, name: u32) -> (removal: GlobalRemoval<SeatOf<H>>)
        ensures
            final(self)@ == old(self)@.after_global_remove(name),
            match removal {
                GlobalRemoval::SeatReleased(seat) => old(self)@.seats().contains_key(name)
                    && seat == old(self)@.seats()[name],
                GlobalRemoval::CoreGlobalRemoved => !old(self)@.seats().contains_key(name)
                    && *old(self) is Running,
                GlobalRemoval::CoreGlobalRemovedDuringInit => !old(self)@.seats().contains_key(name)
                    && *old(self) is Init,
            },
            old(self)@.seats().contains_key(name) ==> {
                &&& removal is SeatReleased
                &&& final(self)@ == old(self)@.with_seats(old(self)@.seats().remove(name))
            },
            !old(self)@.seats().contains_key(name) ==> match old(self)@ {
                StateView::Init(_) => final(self)@ == old(self)@,
                StateView::Running(app) => final(self)@ == StateView::Running(
                    AppInfoView { exit: true, ..app },
                ),
            },
    {
        match self {
            State::Init(info) => match take_seat(&mut info.seats, name) {
                Some(seat) => GlobalRemoval::SeatReleased(seat),
                None => GlobalRemoval::CoreGlobalRemovedDuringInit,
            },
            State::Running(app) => match take_seat(&mut app.globals.seats, name) {
                Some(seat) => GlobalRemoval::SeatReleased(seat),
                None => {
                    app.exit = true;
                    GlobalRemoval::CoreGlobalRemoved
                },
            },
        }
    }

    /// Handles an event about the seat bound under `name`. Returns whether
    /// such a seat is known; an event about an unknown seat changes nothing.
    pub fn on_seat_event(&mut self, name: u32, event: SeatEvent<H::Capabilities>) -> (known: bool)
        ensures
            known == old(self)@.seats().contains_key(name),
            final(self)@ == old(self)@.after_seat_event(name, event),
            !known ==> final(self)@ == old(self)@,
            known ==> {
                let before = old(self)@.seats()[name];
                let after = final(self)@.seats()[name];
                &&& final(self)@ == old(self)@.with_seats(old(self)@.seats().insert(name, after))
                &&& after.wl_seat == before.wl_seat
                &&& match event {
                    SeatEvent::Capabilities(c) => after.capabilities == Some(c) && after.name == before.name,
                    SeatEvent::Name(n) => after.name == Some(n) && after.capabilities == before.capabilities,
                    SeatEvent::Other => after == before,
                }
            },
    {
        match self {
            State::Init(info) => update_seat(&mut info.seats, name, event),
            State::Running(app) => update_seat(&mut app.globals.seats, name, event),
        }
    }

    /// Handles an event on the parent layer surface.
    pub fn on_layer_surface_event(&mut self, event: LayerSurfaceEvent) -> (reaction: LayerSurfaceReaction)
        ensures
            final(self)@ == old(self)@.after_layer_surface_event(event),
            reaction == spec_layer_surface_reaction(old(self)@, event),
            match event {
                LayerSurfaceEvent::Configure { serial, width, height } => {
                    &&& reaction == LayerSurfaceReaction::AckConfigure(serial)
                    &&& match old(self)@ {
                        StateView::Init(info) => final(self)@ == StateView::Init(
                            InitView { parent_width: Some(width), parent_height: Some(height), ..info },
                        ),
                        StateView::Running(_) => final(self)@ == old(self)@,
                    }
                },
                LayerSurfaceEvent::Closed => match old(self)@ {
                    StateView::Init(_) => reaction == LayerSurfaceReaction::ClosedDuringInit
                        && final(self)@ == old(self)@,
                    StateView::Running(app) => reaction == LayerSurfaceReaction::Exit
                        && final(self)@ == StateView::Running(AppInfoView { exit: true, ..app }),
                },
                LayerSurfaceEvent::Other => reaction == LayerSurfaceReaction::Ignore
                    && final(self)@ == old(self)@,
            },
    {
        match self {
            State::Init(info) => match event {
                LayerSurfaceEvent::Configure { serial, width, height } => {
                    info.parent_height = Some(height);
                    info.parent_width = Some(width);
                    LayerSurfaceReaction::AckConfigure(serial)
                },
                LayerSurfaceEvent::Closed => LayerSurfaceReaction::ClosedDuringInit,
                LayerSurfaceEvent::Other => LayerSurfaceReaction::Ignore,
            },
            State::Running(app) => match event {
                LayerSurfaceEvent::Configure { serial, .. } => LayerSurfaceReaction::AckConfigure(serial),
                LayerSurfaceEvent::Closed => {
                    app.exit = true;
                    LayerSurfaceReaction::Exit
                },
                LayerSurfaceEvent::Other => LayerSurfaceReaction::Ignore,
            },
        }
    }

    pub fn add_seat(&mut self, name: u32, wl_seat: H::Seat)
        ensures
            final(self)@ == old(self)@.after_seat_added(name, wl_seat),
            final(self)@ == old(self)@.with_seats(
                old(self)@.seats().insert(name, Seat { wl_seat, capabilities: None, name: None }),
            ),
    {
        let seat = Seat::new(wl_seat);
        match self {
            State::Init(info) => {
                info.seats.insert(name, seat);
            },
            State::Running(app) => {
                app.globals.seats.insert(name, seat);
            },
        }
    }
}

/// A seat that is bound and then withdrawn is handed back as it was bound,
/// and leaves the state as it was before, provided no seat was known under
/// that name.
pub proof fn lemma_seat_added_then_removed<H: Handles>(
    state: StateView<H>,
    name: u32,
    wl_seat: H::Seat,
)
    requires
        !state.seats().contains_key(name),
    ensures
        state.after_seat_added(name, wl_seat).seats().contains_key(name),
        state.after_seat_added(name, wl_seat).seats()[name] == (Seat::<H::Seat, H::Capabilities> {
            wl_seat,
            capabilities: None,
            name: None,
        }),
        state.after_seat_added(name, wl_seat).after_global_remove(name) == state,
{
    let seat = Seat::<H::Seat, H::Capabilities> { wl_seat, capabilities: None, name: None };
    assert(state.seats().insert(name, seat).remove(name) =~= state.seats());
}

/// No event moves the client from one phase to the other: only the end of
/// setup does.
pub proof fn lemma_events_keep_phase<H: Handles>(
    state: StateView<H>,
    name: u32,
    wl_seat: H::Seat,
    seat_event: SeatEvent<H::Capabilities>,
    surface_event: LayerSurfaceEvent,
)
    ensures
        (state.after_seat_added(name, wl_seat) is Init) == (state is Init),
        (state.after_seat_event(name, seat_event) is Init) == (state is Init),
        (state.after_global_remove(name) is Init) == (state is Init),
        (state.after_layer_surface_event(surface_event) is Init) == (state is Init),
{
}

/// Once a running client has decided to exit, no event makes it change
/// its mind.
pub proof fn lemma_exit_is_final<H: Handles>(
    app: AppInfoView<H>,
    name: u32,
    wl_seat: H::Seat,
    seat_event: SeatEvent<H::Capabilities>,
    surface_event: LayerSurfaceEvent,
)
    requires
        app.exit,
    ensures
        StateView::Running(app).after_seat_added(name, wl_seat)->Running_0.exit,
        StateView::Running(app).after_seat_event(name, seat_event)->Running_0.exit,
        StateView::Running(app).after_global_remove(name)->Running_0.exit,
        StateView::Running(app).after_layer_surface_event(surface_event)->Running_0.exit,
{
}

/// The size the compositor configures the parent layer with during setup
/// becomes the screen size of the running client.
pub proof fn lemma_configured_size_is_screen_size<H: Handles>(
    info: InitView<H>,
    serial: u32,
    width: u32,
    height: u32,
    child: H::ChildSurface,
)
    requires
        info.compositor is Some,
        info.subcompositor is Some,
        info.layer_shell is Some,
        info.shm is Some,
        info.parent is Some,
    ensures
        ({
            let configured = StateView::Init(info).after_layer_surface_event(
                LayerSurfaceEvent::Configure { serial, width, height },
            )->Init_0;
            &&& configured.is_complete()
            &&& configured.running(child).globals.screen_width == width
            &&& configured.running(child).globals.screen_height == height
            &&& configured.running(child).globals.seats == info.seats
            &&& !configured.running(child).exit
        }),
{
}

/// Replacing the seat table changes nothing else: not the phase, not the
/// globals, not the surfaces, not the exit flag.
pub proof fn lemma_with_seats_changes_only_seats<H: Handles>(
    state: StateView<H>,
    seats: Map<u32, SeatOf<H>>,
)
    ensures
        state.with_seats(seats).seats() == seats,
        (state.with_seats(seats) is Init) == (state is Init),
        state matches StateView::Init(info) ==> {
            let after = state.with_seats(seats)->Init_0;
            &&& after.compositor == info.compositor
            &&& after.subcompositor == info.subcompositor
            &&& after.layer_shell == info.layer_shell
            &&& after.shm == info.shm
            &&& after.parent_height == info.parent_height
            &&& after.parent_width == info.parent_width
            &&& after.parent == info.parent
        },
        state matches StateView::Running(app) ==> {
            let after = state.with_seats(seats)->Running_0;
            &&& after.globals.compositor == app.globals.compositor
            &&& after.globals.subcompositor == app.globals.subcompositor
            &&& after.globals.layer_shell == app.globals.layer_shell
            &&& after.globals.shm == app.globals.shm
            &&& after.globals.screen_height == app.globals.screen_height
            &&& after.globals.screen_width == app.globals.screen_width
            &&& after.parent == app.parent
            &&& after.child == app.child
            &&& after.exit == app.exit
        },
        state.with_seats(state.seats()) == state,
{
}

/// A seat event sets exactly the property it reports, and keeps the
/// seat's protocol object.
pub proof fn lemma_seat_after_event<S, C>(seat: Seat<S, C>, event: SeatEvent<C>)
    ensures
        seat_after(seat, event).wl_seat == seat.wl_seat,
        event matches SeatEvent::Capabilities(c) ==> seat_after(seat, event).capabilities == Some(c)
            && seat_after(seat, event).name == seat.name,
        event matches SeatEvent::Name(n) ==> seat_after(seat, event).name == Some(n)
            && seat_after(seat, event).capabilities == seat.capabilities,
        event is Other ==> seat_after(seat, event) == seat,
{
}

/// An event about a known seat, in either phase, changes that seat and
/// nothing else; one about an unknown seat changes nothing.
pub proof fn lemma_seat_event_updates_only_that_seat<H: Handles>(
    state: StateView<H>,
    name: u32,
    event: SeatEvent<H::Capabilities>,
)
    ensures
        !state.seats().contains_key(name) ==> state.after_seat_event(name, event) == state,
        state.seats().contains_key(name) ==> {
            let after = state.after_seat_event(name, event);
            &&& after.seats().contains_key(name)
            &&& after.seats().remove(name) == state.seats().remove(name)
            &&& after == state.with_seats(state.seats().insert(name, after.seats()[name]))
            &&& after.seats()[name].wl_seat == state.seats()[name].wl_seat
            &&& (event matches SeatEvent::Capabilities(c) ==> after.seats()[name].capabilities == Some(c))
            &&& (event matches SeatEvent::Name(n) ==> after.seats()[name].name == Some(n))
            &&& (event is Other ==> after.seats()[name] == state.seats()[name])
        },
{
    if state.seats().contains_key(name) {
        let after = state.after_seat_event(name, event);
        assert(after.seats().remove(name) =~= state.seats().remove(name));
    }
}

/// Withdrawing a known seat drops it from the table and changes nothing
/// else, in particular not the exit flag; withdrawing anything else ends a
/// running client and leaves a client in setup as it was.
pub proof fn lemma_global_remove<H: Handles>(state: StateView<H>, name: u32)
    ensures
        state.seats().contains_key(name) ==> {
            let after = state.after_global_remove(name);
            &&& !after.seats().contains_key(name)
            &&& after.seats() == state.seats().remove(name)
            &&& after == state.with_seats(state.seats().remove(name))
        },
        state.seats().contains_key(name) && state is Running ==>
            state.after_global_remove(name)->Running_0.exit == state->Running_0.exit,
        !state.seats().contains_key(name) && state is Init ==> state.after_global_remove(name) == state,
        !state.seats().contains_key(name) && state is Running ==> {
            let after = state.after_global_remove(name);
            &&& after is Running
            &&& after->Running_0.exit
            &&& after->Running_0.globals == state->Running_0.globals
            &&& after->Running_0.parent == state->Running_0.parent
            &&& after->Running_0.child == state->Running_0.child
        },
{
}

/// Every configure is acknowledged with its own serial, in either phase and
/// whatever size it carries; during setup it records that size and changes
/// nothing else, while running it changes nothing. A close ends a running
/// client and is fatal during setup; other events are ignored.
pub proof fn lemma_layer_surface_event<H: Handles>(state: StateView<H>, event: LayerSurfaceEvent)
    ensures
        event matches LayerSurfaceEvent::Configure { serial, .. } ==>
            spec_layer_surface_reaction(state, event) == LayerSurfaceReaction::AckConfigure(serial),
        event matches LayerSurfaceEvent::Configure { serial, width, height } ==> state is Init ==> {
            let after = state.after_layer_surface_event(event)->Init_0;
            let before = state->Init_0;
            &&& state.after_layer_surface_event(event) is Init
            &&& after.parent_width == Some(width)
            &&& after.parent_height == Some(height)
            &&& after.compositor == before.compositor
            &&& after.subcompositor == before.subcompositor
            &&& after.layer_shell == before.layer_shell
            &&& after.shm == before.shm
            &&& after.seats == before.seats
            &&& after.parent == before.parent
        },
        event is Configure && state is Running ==> state.after_layer_surface_event(event) == state,
        event is Closed && state is Init ==> spec_layer_surface_reaction(state, event)
            == LayerSurfaceReaction::ClosedDuringInit && state.after_layer_surface_event(event) == state,
        event is Closed && state is Running ==> {
            let after = state.after_layer_surface_event(event);
            &&& spec_layer_surface_reaction(state, event) == LayerSurfaceReaction::Exit
            &&& after is Running
            &&& after->Running_0.exit
            &&& after->Running_0.globals == state->Running_0.globals
            &&& after->Running_0.parent == state->Running_0.parent
            &&& after->Running_0.child == state->Running_0.child
        },
        event is Other ==> spec_layer_surface_reaction(state, event) == LayerSurfaceReaction::Ignore
            && state.after_layer_surface_event(event) == state,
{
}

/// Setup can end exactly when every global, the parent surface and its size
/// are known; the running client then holds exactly those, with the parent's
/// size as the screen size and no exit pending.
pub proof fn lemma_setup_completion<H: Handles>(info: InitView<H>, child: H::ChildSurface)
    ensures
        info.is_complete() <==> (info.compositor is Some && info.subcompositor is Some
            && info.layer_shell is Some && info.shm is Some && info.parent_height is Some
            && info.parent_width is Some && info.parent is Some),
        info.is_complete() ==> {
            let app = info.running(child);
            &&& Some(app.globals.compositor) == info.compositor
            &&& Some(app.globals.subcompositor) == info.subcompositor
            &&& Some(app.globals.layer_shell) == info.layer_shell
            &&& Some(app.globals.shm) == info.shm
            &&& app.globals.seats == info.seats
            &&& Some(app.globals.screen_height) == info.parent_height
            &&& Some(app.globals.screen_width) == info.parent_width
            &&& Some(app.parent) == info.parent
            &&& app.child == child
            &&& !app.exit
        },
{
}

} // verus!
