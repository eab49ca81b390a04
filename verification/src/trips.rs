//! Trip legs and the trip-management collaborator, modeled at its
//! interface: a person registry, and trips registered in order.

use vstd::prelude::*;

use crate::ids::{BuildingID, BusRouteID, BusStopID, CarID, IntersectionID, PedestrianID, PersonID,
    TripID};
use crate::spots::{DrivingGoal, SidewalkSpot};
use crate::vehicles::Vehicle;

verus! {

/// Where a trip begins, for bookkeeping by the trip manager.
#[derive(Clone, Copy, Debug, PartialEq, Eq, Structural)]
pub enum TripEndpoint {
    Bldg(BuildingID),
    Border(IntersectionID),
}

/// One atomic movement unit of a trip.
#[derive(Clone, Copy, Debug, PartialEq, Eq)]
pub enum TripLeg {
    /// Walk at the given speed to the given spot.
    Walk(PedestrianID, u64, SidewalkSpot),
    /// Drive (or ride) the vehicle to the goal.
    Drive(Vehicle, DrivingGoal),
    /// Ride the route and alight at the stop.
    RideBus(PedestrianID, BusRouteID, BusStopID),
}

/// A person's durable identities, as the trip manager records them. A
/// vehicle instance must exist before a drive leg can reference it.
#[derive(Clone, Copy, Debug, PartialEq, Eq)]
pub struct Person {
    pub id: PersonID,
    pub ped: PedestrianID,
    pub car: Option<CarID>,
    pub bike: Option<CarID>,
}

/// A registered trip: who travels, when it starts, where it begins, and the
/// full intended itinerary at spawn time.
#[derive(Debug, PartialEq, Eq)]
pub struct Trip {
    pub person: PersonID,
    pub start_time: u64,
    pub start: TripEndpoint,
    pub legs: Vec<TripLeg>,
}

/// The trip-management collaborator: the person registry, and the trips
/// registered so far, in registration order.
pub struct TripManager {
    pub persons: Vec<Person>,
    pub trips: Vec<Trip>,
}

impl TripManager {
    pub fn new() -> (r: TripManager)
        ensures
            r.persons@.len() == 0,
            r.trips@.len() == 0,
    {
        TripManager { persons: Vec::new(), trips: Vec::new() }
    }

    /// A person's record, if the registry knows the id.
    pub open spec fn person_spec(&self, p: PersonID) -> Option<Person> {
        if p.0 < self.persons@.len() {
            Some(self.persons@[p.0 as int])
        } else {
            None
        }
    }

    pub fn get_person(&self, p: PersonID) -> (r: Option<Person>)
        ensures
            r == self.person_spec(p),
    {
        if p.0 < self.persons.len() {
            Some(self.persons[p.0])
        } else {
            None
        }
    }

    /// Registers a trip and returns its id: trips are numbered in
    /// registration order.
    pub fn new_trip(
        &mut self,
        person: PersonID,
        start_time: u64,
        start: TripEndpoint,
        legs: Vec<TripLeg>,
    ) -> (t: TripID)
        ensures
            final(self).persons@ == old(self).persons@,
            final(self).trips@ == old(self).trips@.push(
                (Trip { person, start_time, start, legs }),
            ),
            t == (TripID(old(self).trips@.len() as usize)),
    {
        let t = TripID(self.trips.len());
        self.trips.push(Trip { person, start_time, start, legs });
        t
    }
}

} // verus!
