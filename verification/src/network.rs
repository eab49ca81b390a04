//! A plain-value model of the road network collaborator, holding exactly
//! what trip spawning reads of it: lane lengths and endpoints, the sidewalk
//! spots of buildings and bus stops, bike access near sidewalks, parking
//! positions near buildings, and the routes its pathfinder has resolved.
//!
//! Distances are in a fixed small unit (hundredths of a meter), so lengths
//! and positions compare exactly.

use vstd::prelude::*;

use crate::ids::{BuildingID, BusStopID, IntersectionID, LaneID};
use crate::spots::SidewalkSpot;

verus! {

/// A location on the network: a lane and a distance along it.
/// Invariant (see [`Network::valid_pos`]): `dist_along` is at most the
/// lane's length.
#[derive(Clone, Copy, Debug, PartialEq, Eq, Structural)]
pub struct Position {
    pub lane: LaneID,
    pub dist_along: u64,
}

impl Position {
    pub fn new(lane: LaneID, dist_along: u64) -> (r: Position)
        ensures
            r == (Position { lane, dist_along }),
    {
        Position { lane, dist_along }
    }
}

/// The mode a route must be valid for.
#[derive(Clone, Copy, Debug, PartialEq, Eq, Structural)]
pub enum PathConstraints {
    Pedestrian,
    Car,
    Bike,
    Bus,
}

/// A routing query: a route from `start` to `end` under a mode constraint.
#[derive(Clone, Copy, Debug, PartialEq, Eq, Structural)]
pub struct PathRequest {
    pub start: Position,
    pub end: Position,
    pub constraints: PathConstraints,
}

/// A resolved route, as the ordered lanes it crosses. This subsystem never
/// reads a route's steps; it only carries the route into the scheduler
/// command.
#[derive(Debug, PartialEq, Eq)]
pub struct Path {
    pub steps: Vec<LaneID>,
}

/// One lane, with what trip spawning reads of it.
#[derive(Clone, Copy, Debug, PartialEq, Eq)]
pub struct Lane {
    /// The lane's length.
    pub length: u64,
    /// The intersection the lane leads out of.
    pub src_i: IntersectionID,
    /// The nearest bike-access point reachable from this sidewalk lane, if
    /// a ride can start near it at all.
    pub bike_rack: Option<SidewalkSpot>,
    /// The sidewalk adjacent to this driving or biking lane on its road,
    /// if there is one.
    pub nearby_sidewalk: Option<LaneID>,
}

/// One building, with the positions the network resolves around it.
#[derive(Clone, Copy, Debug, PartialEq, Eq)]
pub struct Building {
    /// Where the building's front path meets its sidewalk.
    pub sidewalk_pos: Position,
    /// Where a car parking near this building ends its drive.
    pub driving_goal: Position,
    /// Where a bike parking near this building ends its ride.
    pub biking_goal: Position,
}

/// One bus stop's spot on its sidewalk.
#[derive(Clone, Copy, Debug, PartialEq, Eq)]
pub struct BusStop {
    pub sidewalk_pos: Position,
}

/// The road network, read-only during spawning. Ids index these tables.
pub struct Network {
    pub lanes: Vec<Lane>,
    pub buildings: Vec<Building>,
    pub bus_stops: Vec<BusStop>,
    /// What the network's pathfinder answers: a query is resolved to the
    /// first entry whose request matches it, or to no route at all.
    pub routes: Vec<(PathRequest, Path)>,
}

impl Network {
    pub open spec fn contains_lane(&self, l: LaneID) -> bool {
        l.0 < self.lanes@.len()
    }

    pub open spec fn lane_at(&self, l: LaneID) -> Lane
        recommends
            self.contains_lane(l),
    {
        self.lanes@[l.0 as int]
    }

    pub open spec fn contains_building(&self, b: BuildingID) -> bool {
        b.0 < self.buildings@.len()
    }

    pub open spec fn building_at(&self, b: BuildingID) -> Building
        recommends
            self.contains_building(b),
    {
        self.buildings@[b.0 as int]
    }

    pub open spec fn contains_stop(&self, s: BusStopID) -> bool {
        s.0 < self.bus_stops@.len()
    }

    pub open spec fn stop_at(&self, s: BusStopID) -> BusStop
        recommends
            self.contains_stop(s),
    {
        self.bus_stops@[s.0 as int]
    }

    /// The position invariant: the lane exists and the distance along it
    /// does not pass the lane's end.
    pub open spec fn valid_pos(&self, p: Position) -> bool {
        &&& self.contains_lane(p.lane)
        &&& p.dist_along <= self.lane_at(p.lane).length
    }

    /// A building's resolved positions all lie on the network.
    pub open spec fn building_wf(&self, b: Building) -> bool {
        &&& self.valid_pos(b.sidewalk_pos)
        &&& self.valid_pos(b.driving_goal)
        &&& self.valid_pos(b.biking_goal)
    }

    /// A lane's bike-access point, where it has one, lies on the network.
    pub open spec fn lane_wf(&self, l: Lane) -> bool {
        l.bike_rack matches Some(s) ==> self.valid_pos(s.sidewalk_pos)
    }

    /// Well-formedness: every position the network hands out is valid.
    pub open spec fn wf(&self) -> bool {
        &&& forall|i: int|
            0 <= i < self.buildings@.len() ==> self.building_wf(#[trigger] self.buildings@[i])
        &&& forall|i: int|
            0 <= i < self.bus_stops@.len() ==> self.valid_pos(
                (#[trigger] self.bus_stops@[i]).sidewalk_pos,
            )
        &&& forall|i: int| 0 <= i < self.lanes@.len() ==> self.lane_wf(#[trigger] self.lanes@[i])
    }

    pub fn get_l(&self, l: LaneID) -> (r: &Lane)
        requires
            self.contains_lane(l),
        ensures
            *r == self.lane_at(l),
    {
        &self.lanes[l.0]
    }

    pub fn get_b(&self, b: BuildingID) -> (r: &Building)
        requires
            self.contains_building(b),
        ensures
            *r == self.building_at(b),
    {
        &self.buildings[b.0]
    }

    pub fn get_stop(&self, s: BusStopID) -> (r: &BusStop)
        requires
            self.contains_stop(s),
        ensures
            *r == self.stop_at(s),
    {
        &self.bus_stops[s.0]
    }

    /// Resolves a routing query: the first stored route whose request
    /// matches, or no route.
    pub fn pathfind(&self, req: PathRequest) -> (r: Option<Path>)
        ensures
            match r {
                Some(p) => route_lookup(self.routes@, req) == Some(p.steps@),
                None => route_lookup(self.routes@, req) is None,
            },
    {
        proof {
            assert(self.routes@.skip(0) =~= self.routes@);
        }
        let mut i: usize = 0;
        while i < self.routes.len()
            invariant
                i <= self.routes@.len(),
                route_lookup(self.routes@, req) == route_lookup(
                    self.routes@.skip(i as int),
                    req,
                ),
            decreases self.routes@.len() - i,
        {
            let entry = &self.routes[i];
            proof {
                assert(self.routes@.skip(i as int)[0] == self.routes@[i as int]);
            }
            if entry.0 == req {
                let steps = copy_lane_ids(&entry.1.steps);
                return Some(Path { steps });
            }
            proof {
                assert(self.routes@.skip(i as int).drop_first() =~= self.routes@.skip(
                    i as int + 1,
                ));
            }
            i = i + 1;
        }
        None
    }
}

/// The route the network resolves a query to: the first matching entry's
/// steps, or nothing.
pub open spec fn route_lookup(routes: Seq<(PathRequest, Path)>, req: PathRequest) -> Option<
    Seq<LaneID>,
>
    decreases routes.len(),
{
    if routes.len() == 0 {
        None
    } else if routes[0].0 == req {
        Some(routes[0].1.steps@)
    } else {
        route_lookup(routes.drop_first(), req)
    }
}

/// Copies a route's steps, so a resolved route can be handed out by value.
fn copy_lane_ids(v: &Vec<LaneID>) -> (r: Vec<LaneID>)
    ensures
        r@ == v@,
{
    let mut r: Vec<LaneID> = Vec::new();
    let mut i: usize = 0;
    while i < v.len()
        invariant
            i <= v@.len(),
            r@ == v@.subrange(0, i as int),
        decreases v@.len() - i,
    {
        r.push(v[i]);
        proof {
            assert(r@ =~= v@.subrange(0, i as int + 1));
        }
        i = i + 1;
    }
    proof {
        assert(r@ =~= v@);
    }
    r
}

} // verus!
