//! Vehicle classes and instances.
//!
//! Lengths are in the same fixed distance unit as the network (hundredths
//! of a meter).

use vstd::prelude::*;

use crate::ids::{CarID, PersonID};
use crate::network::PathConstraints;

verus! {

/// The longest car the simulation spawns.
pub const MAX_CAR_LENGTH: u64 = 650;

/// The length of every bike.
pub const BIKE_LENGTH: u64 = 180;

/// The smallest distance the network tells apart.
pub const EPSILON_DIST: u64 = 1;

/// The class of a vehicle.
#[derive(Clone, Copy, Debug, PartialEq, Eq, Structural)]
pub enum VehicleType {
    Car,
    Bike,
    Bus,
}

impl VehicleType {
    /// The mode constraint routes for this vehicle class must satisfy.
    pub open spec fn to_constraints_spec(self) -> PathConstraints {
        match self {
            VehicleType::Car => PathConstraints::Car,
            VehicleType::Bike => PathConstraints::Bike,
            VehicleType::Bus => PathConstraints::Bus,
        }
    }

    pub fn to_constraints(self) -> (r: PathConstraints)
        ensures
            r == self.to_constraints_spec(),
    {
        match self {
            VehicleType::Car => PathConstraints::Car,
            VehicleType::Bike => PathConstraints::Bike,
            VehicleType::Bus => PathConstraints::Bus,
        }
    }
}

/// What a vehicle to be instantiated looks like, before it has an identity.
#[derive(Clone, Copy, Debug, PartialEq, Eq, Structural)]
pub struct VehicleSpec {
    pub vehicle_type: VehicleType,
    pub length: u64,
}

/// A concrete vehicle instance.
#[derive(Clone, Copy, Debug, PartialEq, Eq)]
pub struct Vehicle {
    pub id: CarID,
    /// The person owning the vehicle, where ownership matters (bikes made
    /// on demand have no owner).
    pub owner: Option<PersonID>,
    pub vehicle_type: VehicleType,
    pub length: u64,
}

impl VehicleSpec {
    /// The instance this description makes for the given identity.
    pub open spec fn make_spec(self, id: CarID, owner: Option<PersonID>) -> Vehicle {
        Vehicle { id, owner, vehicle_type: self.vehicle_type, length: self.length }
    }

    pub fn make(self, id: CarID, owner: Option<PersonID>) -> (r: Vehicle)
        ensures
            r == self.make_spec(id, owner),
    {
        Vehicle { id, owner, vehicle_type: self.vehicle_type, length: self.length }
    }
}

} // verus!
