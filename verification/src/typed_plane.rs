//! A plane whose state is a type: the illegal transitions do not exist.

use std::marker::PhantomData;
use vstd::prelude::*;

verus! {

/// Marks a plane that is on the ground.
pub struct OnGround;

/// Marks a plane that is in flight.
pub struct InFlight;

/// A plane in state `T`, with a number of seats.
pub struct Plane<T> {
    state: PhantomData<T>,
    seats_count: u16,
}

impl<T> Plane<T> {
    /// How many seats it has.
    pub closed spec fn seats(&self) -> u16 {
        self.seats_count
    }

    /// How many seats the plane has, whatever its state.
    pub fn get_seats_count(&self) -> (n: u16)
        ensures
            n == self.seats(),
    {
        self.seats_count
    }
}

impl Plane<OnGround> {
    /// A plane on the ground.
    pub fn new(seats: u16) -> (plane: Plane<OnGround>)
        ensures
            plane.seats() == seats,
    {
        Plane { state: PhantomData, seats_count: seats }
    }

    /// Takes off: the plane on the ground is used up, a plane in flight
    /// with the same seats comes back.
    #[must_use]
    pub fn take_off(self) -> (plane: Plane<InFlight>)
        ensures
            plane.seats() == self.seats(),
    {
        Plane { state: PhantomData, seats_count: self.seats_count }
    }
}

impl Plane<InFlight> {
    /// Lands: the plane in flight is used up, a plane on the ground with
    /// the same seats comes back.
    #[must_use]
    pub fn land(self) -> (plane: Plane<OnGround>)
        ensures
            plane.seats() == self.seats(),
    {
        Plane { state: PhantomData, seats_count: self.seats_count }
    }
}

} // verus!
