//! Identifiers of network and simulation entities.
//!
//! Each id indexes a table owned by the network or by the trip manager; the
//! functions that look an id up require it to be in range of its table.

use vstd::prelude::*;

verus! {

/// A lane of the road network.
#[derive(Clone, Copy, Debug, PartialEq, Eq, Structural)]
pub struct LaneID(pub usize);

/// An intersection of the road network.
#[derive(Clone, Copy, Debug, PartialEq, Eq, Structural)]
pub struct IntersectionID(pub usize);

/// A building of the road network.
#[derive(Clone, Copy, Debug, PartialEq, Eq, Structural)]
pub struct BuildingID(pub usize);

/// A bus stop of the transit network.
#[derive(Clone, Copy, Debug, PartialEq, Eq, Structural)]
pub struct BusStopID(pub usize);

/// A fixed transit route.
#[derive(Clone, Copy, Debug, PartialEq, Eq, Structural)]
pub struct BusRouteID(pub usize);

/// A person known to the trip manager.
#[derive(Clone, Copy, Debug, PartialEq, Eq, Structural)]
pub struct PersonID(pub usize);

/// A person's durable pedestrian identity.
#[derive(Clone, Copy, Debug, PartialEq, Eq, Structural)]
pub struct PedestrianID(pub usize);

/// A vehicle instance (car or bike) owned by the simulation.
#[derive(Clone, Copy, Debug, PartialEq, Eq, Structural)]
pub struct CarID(pub usize);

/// A registered trip; assigned by the trip manager in registration order.
#[derive(Clone, Copy, Debug, PartialEq, Eq, Structural)]
pub struct TripID(pub usize);

} // verus!
