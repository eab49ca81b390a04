//! Pedestrian-reachable locations and vehicular destinations, and how the
//! network resolves them.

use vstd::prelude::*;

use crate::ids::{BuildingID, BusStopID, IntersectionID, LaneID};
use crate::network::{Network, PathConstraints, Position};

verus! {

/// A vehicular destination: leave the network at a border, or park near a
/// building (resolved lazily against the network at expansion time).
#[derive(Clone, Copy, Debug, PartialEq, Eq, Structural)]
pub enum DrivingGoal {
    /// Exit at this border intersection, reached over this lane.
    Border(IntersectionID, LaneID),
    /// Find parking near this building.
    ParkNear(BuildingID),
}

/// Why a sidewalk location is pedestrian-reachable.
#[derive(Clone, Copy, Debug, PartialEq, Eq, Structural)]
pub enum SidewalkPOI {
    /// The entrance of this building.
    Building(BuildingID),
    /// This border intersection.
    Border(IntersectionID),
    /// This bus stop.
    BusStop(BusStopID),
    /// An origin with no real-world anchor (synthetic spawn).
    SuddenlyAppear,
    /// A bike-access point; carries the position where the ride starts.
    BikeRack(Position),
    /// A parking spot near the building, resolved only once the walk to it
    /// is done; carries the driving goal so the trip can be expanded later.
    DeferredParkingSpot(BuildingID, DrivingGoal),
}

/// A pedestrian-reachable location: a position on a sidewalk lane, tagged
/// with why it is reachable.
#[derive(Clone, Copy, Debug, PartialEq, Eq, Structural)]
pub struct SidewalkSpot {
    pub sidewalk_pos: Position,
    pub connection: SidewalkPOI,
}

impl DrivingGoal {
    /// The ids this goal needs the network to know.
    pub open spec fn valid_on(self, net: &Network) -> bool {
        match self {
            DrivingGoal::Border(_, l) => net.contains_lane(l),
            DrivingGoal::ParkNear(b) => net.contains_building(b),
        }
    }

    /// Where the network resolves this goal to, for the given mode: the end
    /// of the border lane, or the parking position near the building.
    pub open spec fn goal_pos_spec(self, constraints: PathConstraints, net: &Network) -> Position
        recommends
            self.valid_on(net),
            self matches DrivingGoal::ParkNear(_) ==> (constraints is Car || constraints is Bike),
    {
        match self {
            DrivingGoal::Border(_, l) => Position { lane: l, dist_along: net.lane_at(l).length },
            DrivingGoal::ParkNear(b) => if constraints is Car {
                net.building_at(b).driving_goal
            } else {
                net.building_at(b).biking_goal
            },
        }
    }

    /// Resolves this goal to the position where the vehicular leg ends.
    /// Parking is only resolved for car and bike modes.
    pub fn goal_pos(&self, constraints: PathConstraints, net: &Network) -> (r: Position)
        requires
            self.valid_on(net),
            self matches DrivingGoal::ParkNear(_) ==> (constraints is Car || constraints is Bike),
        ensures
            r == self.goal_pos_spec(constraints, net),
    {
        match self {
            DrivingGoal::Border(_, l) => Position { lane: *l, dist_along: net.get_l(*l).length },
            DrivingGoal::ParkNear(b) => {
                let bldg = net.get_b(*b);
                match constraints {
                    PathConstraints::Car => bldg.driving_goal,
                    _ => bldg.biking_goal,
                }
            },
        }
    }
}

impl SidewalkSpot {
    /// The spot at the building's entrance on its sidewalk.
    pub open spec fn building_spec(b: BuildingID, net: &Network) -> SidewalkSpot
        recommends
            net.contains_building(b),
    {
        SidewalkSpot {
            sidewalk_pos: net.building_at(b).sidewalk_pos,
            connection: SidewalkPOI::Building(b),
        }
    }

    pub fn building(b: BuildingID, net: &Network) -> (r: SidewalkSpot)
        requires
            net.contains_building(b),
        ensures
            r == Self::building_spec(b, net),
    {
        SidewalkSpot {
            sidewalk_pos: net.get_b(b).sidewalk_pos,
            connection: SidewalkPOI::Building(b),
        }
    }

    /// The spot at a bus stop.
    pub open spec fn bus_stop_spec(stop: BusStopID, net: &Network) -> SidewalkSpot
        recommends
            net.contains_stop(stop),
    {
        SidewalkSpot {
            sidewalk_pos: net.stop_at(stop).sidewalk_pos,
            connection: SidewalkPOI::BusStop(stop),
        }
    }

    pub fn bus_stop(stop: BusStopID, net: &Network) -> (r: SidewalkSpot)
        requires
            net.contains_stop(stop),
        ensures
            r == Self::bus_stop_spec(stop, net),
    {
        SidewalkSpot {
            sidewalk_pos: net.get_stop(stop).sidewalk_pos,
            connection: SidewalkPOI::BusStop(stop),
        }
    }

    /// The nearest bike-access point reachable from this sidewalk lane, if
    /// biking or driving infrastructure is nearby at all.
    pub open spec fn bike_from_bike_rack_spec(sidewalk: LaneID, net: &Network) -> Option<
        SidewalkSpot,
    >
        recommends
            net.contains_lane(sidewalk),
    {
        net.lane_at(sidewalk).bike_rack
    }

    pub fn bike_from_bike_rack(sidewalk: LaneID, net: &Network) -> (r: Option<SidewalkSpot>)
        requires
            net.contains_lane(sidewalk),
        ensures
            r == Self::bike_from_bike_rack_spec(sidewalk, net),
    {
        net.get_l(sidewalk).bike_rack
    }

    /// A walking destination standing for a parking spot not yet known: the
    /// walk ends at the start building's sidewalk, and the spot carries the
    /// driving goal so the parked vehicle can be resolved later.
    pub open spec fn deferred_parking_spot_spec(
        b: BuildingID,
        goal: DrivingGoal,
        net: &Network,
    ) -> SidewalkSpot
        recommends
            net.contains_building(b),
    {
        SidewalkSpot {
            sidewalk_pos: net.building_at(b).sidewalk_pos,
            connection: SidewalkPOI::DeferredParkingSpot(b, goal),
        }
    }

    pub fn deferred_parking_spot(b: BuildingID, goal: DrivingGoal, net: &Network) -> (r:
        SidewalkSpot)
        requires
            net.contains_building(b),
        ensures
            r == Self::deferred_parking_spot_spec(b, goal, net),
    {
        SidewalkSpot {
            sidewalk_pos: net.get_b(b).sidewalk_pos,
            connection: SidewalkPOI::DeferredParkingSpot(b, goal),
        }
    }
}

} // verus!
