//! A plane whose state is a value: the legal transitions are preconditions,
//! so a caller that would take off twice does not verify.

use vstd::prelude::*;

verus! {

/// Where a plane is.
#[derive(Debug, Clone, Copy, PartialEq, Eq, Structural)]
pub enum PlaneState {
    OnGround,
    InFlight,
}

/// A plane with a number of seats.
pub struct Plane {
    state: PlaneState,
    seats_count: u16,
}

impl Plane {
    /// Where the plane is.
    pub closed spec fn spec_state(&self) -> PlaneState {
        self.state
    }

    /// How many seats it has.
    pub closed spec fn seats(&self) -> u16 {
        self.seats_count
    }

    /// A plane on the ground.
    pub fn new(seats: u16) -> (plane: Self)
        ensures
            plane.spec_state() == PlaneState::OnGround,
            plane.seats() == seats,
    {
        Self { state: PlaneState::OnGround, seats_count: seats }
    }

    /// Where the plane is.
    pub fn state(&self) -> (s: PlaneState)
        ensures
            s == self.spec_state(),
    {
        self.state
    }

    /// Takes off. Only a plane on the ground can.
    pub fn take_off(&mut self)
        requires
            old(self).spec_state() == PlaneState::OnGround,
        ensures
            final(self).spec_state() == PlaneState::InFlight,
            final(self).seats() == old(self).seats(),
    {
        self.state = PlaneState::InFlight;
    }

    /// Lands. Only a plane in flight can.
    pub fn land(&mut self)
        requires
            old(self).spec_state() == PlaneState::InFlight,
        ensures
            final(self).spec_state() == PlaneState::OnGround,
            final(self).seats() == old(self).seats(),
    {
        self.state = PlaneState::OnGround;
    }

    /// How many seats the plane has.
    pub fn get_seats_count(&self) -> (n: u16)
        ensures
            n == self.seats(),
    {
        self.seats_count
    }
}

} // verus!
