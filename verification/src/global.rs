use vstd::prelude::*;

verus! {

/// A bound registry global together with the numeric name the compositor
/// advertised it under.
pub struct Global<T> {
    pub global: T,
    pub name: u32,
}

impl<T> Global<T> {
    pub fn new(global: T, name: u32) -> (g: Self)
        ensures
            g.global == global,
            g.name == name,
    {
        Self { global, name }
    }
}

/// A seat announced by the compositor, with what it has told us about it so far.
pub struct Seat<S, C> {
    pub wl_seat: S,
    pub capabilities: Option<C>,
    pub name: Option<String>,
}

impl<S, C> Seat<S, C> {
    /// A freshly bound seat: nothing is known about it yet.
    pub fn new(wl_seat: S) -> (seat: Self)
        ensures
            seat.wl_seat == wl_seat,
            seat.capabilities is None,
            seat.name is None,
    {
        Seat { wl_seat, capabilities: None, name: None }
    }
}

} // verus!
