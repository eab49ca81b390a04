//! The trip spawner: buffers travel intents as they are submitted and
//! validated, then a one-shot finalize pass resolves every routing query,
//! expands each intent into its movement legs, registers the trips and
//! schedules one start command per trip, in submission order.

use vstd::prelude::*;

use crate::ids::{BuildingID, BusRouteID, BusStopID, LaneID, PersonID, TripID};
use crate::network::{Network, Path, PathConstraints, PathRequest, Position, route_lookup};
use crate::scheduler::{Command, Scheduler};
use crate::spots::{DrivingGoal, SidewalkPOI, SidewalkSpot};
use crate::trips::{Person, Trip, TripEndpoint, TripLeg, TripManager};
use crate::vehicles::{BIKE_LENGTH, EPSILON_DIST, MAX_CAR_LENGTH, VehicleSpec, VehicleType};

verus! {

/// A declarative travel intent, before routes or concrete vehicles are
/// resolved.
#[derive(Clone, Copy, Debug, PartialEq, Eq, Structural)]
pub enum TripSpec {
    /// A vehicle instantiated directly on the network: spawns from a border
    /// or anywhere, for interactive debugging.
    CarAppearing {
        start_pos: Position,
        goal: DrivingGoal,
        vehicle_spec: VehicleSpec,
        ped_speed: u64,
    },
    /// Walk to a car parked near the start building; the vehicle identity
    /// is unknown until simulation time.
    UsingParkedCar { start_bldg: BuildingID, goal: DrivingGoal, ped_speed: u64 },
    /// A pure pedestrian trip between two sidewalk spots.
    JustWalking { start: SidewalkSpot, goal: SidewalkSpot, ped_speed: u64 },
    /// Walk to a bike-access point, ride, and possibly walk again.
    UsingBike { start: SidewalkSpot, goal: DrivingGoal, vehicle: VehicleSpec, ped_speed: u64 },
    /// Walk to the boarding stop, ride the route to the alighting stop,
    /// walk to the goal.
    UsingTransit {
        start: SidewalkSpot,
        goal: SidewalkSpot,
        route: BusRouteID,
        stop1: BusStopID,
        stop2: BusStopID,
        ped_speed: u64,
    },
}

/// Why a submission or the finalize pass aborts the run. Each variant
/// carries the offending intent's data; every one indicates an upstream
/// data-generation bug, not a recoverable condition.
#[derive(Clone, Copy, Debug, PartialEq, Eq)]
pub enum SpawnError {
    /// A direct spawn too close to the lane start: the vehicle would not
    /// fit behind its own spawn point.
    VehicleTooCloseToStart { vehicle_type: VehicleType, dist_along: u64 },
    /// A direct spawn at or past the end of its lane.
    SpawnBeyondLaneEnd { vehicle_type: VehicleType, dist_along: u64, lane: LaneID },
    /// A direct spawn already standing at the border it is bound for.
    AlreadyAtBorder { vehicle_type: VehicleType },
    /// A walking trip whose start and goal are the same spot.
    DegenerateWalkingTrip { start: SidewalkSpot, goal: SidewalkSpot },
    /// A buffered intent names a person the trip manager does not know.
    UnknownPerson { person: PersonID },
    /// The person has no vehicle of the kind the intent needs.
    MissingVehicle { person: PersonID, vehicle_type: VehicleType },
    /// A trip would start at a spot whose connection kind cannot anchor a
    /// trip; only buildings, borders and synthetic appearances can.
    UnexpectedSpotKind { connection: SidewalkPOI },
    /// A buffered bike intent's start lane has no bike access on the
    /// network the finalize pass was handed.
    NoBikeAccess { lane: LaneID },
}

impl TripSpec {
    /// The ids the intent names are in range of the network's tables: what
    /// every lookup made on the intent's behalf needs. Parking near a
    /// building is only resolvable for car and bike vehicles.
    pub open spec fn valid_on(self, net: &Network) -> bool {
        match self {
            TripSpec::CarAppearing { start_pos, goal, vehicle_spec, .. } => {
                &&& net.contains_lane(start_pos.lane)
                &&& goal.valid_on(net)
                &&& (goal matches DrivingGoal::ParkNear(_) ==> vehicle_spec.vehicle_type
                    != VehicleType::Bus)
            },
            TripSpec::UsingParkedCar { start_bldg, goal, .. } => {
                &&& net.contains_building(start_bldg)
                &&& goal.valid_on(net)
            },
            TripSpec::JustWalking { start, .. } => net.contains_lane(start.sidewalk_pos.lane),
            TripSpec::UsingBike { start, goal, .. } => {
                &&& net.contains_lane(start.sidewalk_pos.lane)
                &&& goal.valid_on(net)
            },
            TripSpec::UsingTransit { start, stop1, .. } => {
                &&& net.contains_lane(start.sidewalk_pos.lane)
                &&& net.contains_stop(stop1)
            },
        }
    }
}

/// The error a submission aborts with, if any; the checks come in the order
/// the validator makes them.
pub open spec fn submit_error(intent: TripSpec, net: &Network) -> Option<SpawnError>
    recommends
        intent.valid_on(net),
{
    match intent {
        TripSpec::CarAppearing { start_pos, goal, vehicle_spec, .. } => {
            if start_pos.dist_along < vehicle_spec.length {
                Some(
                    SpawnError::VehicleTooCloseToStart {
                        vehicle_type: vehicle_spec.vehicle_type,
                        dist_along: start_pos.dist_along,
                    },
                )
            } else if start_pos.dist_along >= net.lane_at(start_pos.lane).length {
                Some(
                    SpawnError::SpawnBeyondLaneEnd {
                        vehicle_type: vehicle_spec.vehicle_type,
                        dist_along: start_pos.dist_along,
                        lane: start_pos.lane,
                    },
                )
            } else if goal matches DrivingGoal::Border(_, end_lane) && start_pos.lane == end_lane
                && start_pos.dist_along == net.lane_at(end_lane).length {
                Some(SpawnError::AlreadyAtBorder { vehicle_type: vehicle_spec.vehicle_type })
            } else {
                None
            }
        },
        TripSpec::JustWalking { start, goal, .. } => {
            if start == goal {
                Some(SpawnError::DegenerateWalkingTrip { start, goal })
            } else {
                None
            }
        },
        _ => None,
    }
}

/// A bike intent that must be discarded: no bike access reachable from the
/// start sidewalk, or — for a parking goal — no sidewalk near the lane the
/// ride would end on.
pub open spec fn submit_drops(intent: TripSpec, net: &Network) -> bool
    recommends
        intent.valid_on(net),
        net.wf(),
{
    intent matches TripSpec::UsingBike { start, goal, .. } && {
        ||| net.lane_at(start.sidewalk_pos.lane).bike_rack is None
        ||| (goal matches DrivingGoal::ParkNear(_) && net.lane_at(
            goal.goal_pos_spec(PathConstraints::Bike, net).lane,
        ).nearby_sidewalk is None)
    }
}

/// A degenerate bike intent: its start sidewalk and its goal building's
/// sidewalk coincide, so the trip is rewritten to walk instead.
pub open spec fn submit_rewrites(intent: TripSpec, net: &Network) -> bool
    recommends
        intent.valid_on(net),
        net.wf(),
{
    &&& intent matches TripSpec::UsingBike { start, goal, .. }
    &&& !submit_drops(intent, net)
    &&& goal matches DrivingGoal::ParkNear(b)
    &&& start.sidewalk_pos.lane == net.building_at(b).sidewalk_pos.lane
}

/// What one accepted submission buffers: the intent itself, or — for a
/// degenerate bike intent — the walking intent it is rewritten to.
pub open spec fn buffered_intent(intent: TripSpec, net: &Network) -> TripSpec
    recommends
        intent.valid_on(net),
        net.wf(),
{
    if submit_rewrites(intent, net) {
        match intent {
            TripSpec::UsingBike { start, goal, ped_speed, .. } => match goal {
                DrivingGoal::ParkNear(b) => TripSpec::JustWalking {
                    start,
                    goal: SidewalkSpot::building_spec(b, net),
                    ped_speed,
                },
                DrivingGoal::Border(..) => intent,
            },
            _ => intent,
        }
    } else {
        intent
    }
}

/// The vehicle length a spawn-position adjustment leaves room for: the
/// longest vehicle of the class.
pub open spec fn adjust_len(is_bike: bool) -> u64 {
    if is_bike {
        BIKE_LENGTH
    } else {
        MAX_CAR_LENGTH
    }
}

/// The adjustment `spawn_vehicle_at` makes: none if the lane cannot fit the
/// vehicle class at all; else move up to leave room behind, back off a hair
/// from the lane end, or keep the position.
pub open spec fn spawn_vehicle_at_spec(pos: Position, is_bike: bool, net: &Network) -> Option<
    Position,
>
    recommends
        net.valid_pos(pos),
{
    let lane_len = net.lane_at(pos.lane).length;
    let vehicle_len = adjust_len(is_bike);
    if lane_len <= vehicle_len {
        None
    } else if pos.dist_along < vehicle_len {
        Some(Position { lane: pos.lane, dist_along: vehicle_len })
    } else if pos.dist_along == lane_len {
        Some(Position { lane: pos.lane, dist_along: (lane_len - EPSILON_DIST) as u64 })
    } else {
        Some(pos)
    }
}

/// A bike intent's start lane has a reachable bike-access point; what the
/// walking sub-leg's destination needs to exist.
pub open spec fn bike_access_ok(intent: TripSpec, net: &Network) -> bool
    recommends
        intent.valid_on(net),
{
    intent matches TripSpec::UsingBike { start, .. } ==> net.lane_at(
        start.sidewalk_pos.lane,
    ).bike_rack is Some
}

/// The routing query the intent needs resolved before expansion (none when
/// the destination depends on state not yet known): the whole trip for a
/// direct spawn, the walking sub-leg for bike and transit trips.
pub open spec fn request_spec(intent: TripSpec, net: &Network) -> Option<PathRequest>
    recommends
        intent.valid_on(net),
        bike_access_ok(intent, net),
{
    match intent {
        TripSpec::CarAppearing { start_pos, goal, vehicle_spec, .. } => {
            let constraints = vehicle_spec.vehicle_type.to_constraints_spec();
            Some(
                PathRequest {
                    start: start_pos,
                    end: goal.goal_pos_spec(constraints, net),
                    constraints,
                },
            )
        },
        TripSpec::UsingParkedCar { .. } => None,
        TripSpec::JustWalking { start, goal, .. } => Some(
            PathRequest {
                start: start.sidewalk_pos,
                end: goal.sidewalk_pos,
                constraints: PathConstraints::Pedestrian,
            },
        ),
        TripSpec::UsingBike { start, .. } => Some(
            PathRequest {
                start: start.sidewalk_pos,
                end: net.lane_at(start.sidewalk_pos.lane).bike_rack->Some_0.sidewalk_pos,
                constraints: PathConstraints::Pedestrian,
            },
        ),
        TripSpec::UsingTransit { start, stop1, .. } => Some(
            PathRequest {
                start: start.sidewalk_pos,
                end: net.stop_at(stop1).sidewalk_pos,
                constraints: PathConstraints::Pedestrian,
            },
        ),
    }
}

impl TripSpec {
    /// If possible, fixes the problems `schedule_trip` would abort a direct
    /// spawn on: returns a position that leaves room for the longest
    /// vehicle of the class and lies strictly inside the lane, or nothing
    /// if the lane is too short for the class under any adjustment.
    pub fn spawn_vehicle_at(pos: Position, is_bike: bool, net: &Network) -> (r: Option<Position>)
        requires
            net.valid_pos(pos),
        ensures
            r == spawn_vehicle_at_spec(pos, is_bike, net),
            r is None <==> net.lane_at(pos.lane).length <= adjust_len(is_bike),
            r matches Some(p) ==> p.lane == pos.lane && adjust_len(is_bike) <= p.dist_along
                < net.lane_at(pos.lane).length,
    {
        let lane_len = net.get_l(pos.lane).length;
        let vehicle_len = if is_bike {
            BIKE_LENGTH
        } else {
            MAX_CAR_LENGTH
        };
        if lane_len <= vehicle_len {
            return None;
        }
        if pos.dist_along < vehicle_len {
            Some(Position::new(pos.lane, vehicle_len))
        } else if pos.dist_along == lane_len {
            Some(Position::new(pos.lane, pos.dist_along - EPSILON_DIST))
        } else {
            Some(pos)
        }
    }

    /// Derives the routing query to resolve before expansion. The walking
    /// sub-leg of a bike trip needs the bike-access point to exist; the
    /// validator only buffers such intents.
    pub fn get_pathfinding_request(&self, net: &Network) -> (r: Option<PathRequest>)
        requires
            net.wf(),
            self.valid_on(net),
            bike_access_ok(*self, net),
        ensures
            r == request_spec(*self, net),
    {
        match self {
            TripSpec::CarAppearing { start_pos, goal, vehicle_spec, .. } => {
                let constraints = vehicle_spec.vehicle_type.to_constraints();
                Some(
                    PathRequest {
                        start: *start_pos,
                        end: goal.goal_pos(constraints, net),
                        constraints,
                    },
                )
            },
            TripSpec::UsingParkedCar { .. } => None,
            TripSpec::JustWalking { start, goal, .. } => Some(
                PathRequest {
                    start: start.sidewalk_pos,
                    end: goal.sidewalk_pos,
                    constraints: PathConstraints::Pedestrian,
                },
            ),
            TripSpec::UsingBike { start, .. } => {
                match SidewalkSpot::bike_from_bike_rack(start.sidewalk_pos.lane, net) {
                    Some(rack) => Some(
                        PathRequest {
                            start: start.sidewalk_pos,
                            end: rack.sidewalk_pos,
                            constraints: PathConstraints::Pedestrian,
                        },
                    ),
                    None => None,
                }
            },
            TripSpec::UsingTransit { start, stop1, .. } => Some(
                PathRequest {
                    start: start.sidewalk_pos,
                    end: SidewalkSpot::bus_stop(*stop1, net).sidewalk_pos,
                    constraints: PathConstraints::Pedestrian,
                },
            ),
        }
    }
}

/// Buffers intents as they are submitted and validated; consumed whole by
/// `finalize`, after which the spawner is gone.
pub struct TripSpawner {
    trips: Vec<(PersonID, u64, TripSpec)>,
    dropped: Vec<(PersonID, u64, TripSpec)>,
}

impl TripSpawner {
    /// The buffered submissions, in submission order.
    pub closed spec fn queued(&self) -> Seq<(PersonID, u64, TripSpec)> {
        self.trips@
    }

    /// The infeasible submissions discarded so far, in submission order.
    /// A dropped intent never surfaces as a failed trip downstream; this
    /// list is the explicit report channel for that known gap.
    pub closed spec fn dropped_log(&self) -> Seq<(PersonID, u64, TripSpec)> {
        self.dropped@
    }

    pub fn new() -> (r: TripSpawner)
        ensures
            r.queued().len() == 0,
            r.dropped_log().len() == 0,
    {
        TripSpawner { trips: Vec::new(), dropped: Vec::new() }
    }

    /// The buffered submissions, for callers that must inspect them (for
    /// instance to establish `finalize`'s precondition).
    pub fn queued_entries(&self) -> (r: &Vec<(PersonID, u64, TripSpec)>)
        ensures
            r@ == self.queued(),
    {
        &self.trips
    }

    /// The infeasible submissions discarded with a warning so far.
    pub fn dropped_intents(&self) -> (r: &Vec<(PersonID, u64, TripSpec)>)
        ensures
            r@ == self.dropped_log(),
    {
        &self.dropped
    }

    /// Validates the intent and buffers it — or a rewritten form of it —
    /// for the finalize pass; discards an infeasible bike intent into the
    /// dropped log. An error reports an intent the run must abort on, and
    /// changes nothing.
    pub fn schedule_trip(
        &mut self,
        person: PersonID,
        start_time: u64,
        intent: TripSpec,
        net: &Network,
    ) -> (r: Result<(), SpawnError>)
        requires
            net.wf(),
            intent.valid_on(net),
        ensures
            match r {
                Ok(()) => submit_error(intent, net) is None,
                Err(e) => submit_error(intent, net) == Some(e),
            },
            r is Err ==> final(self).queued() == old(self).queued() && final(self).dropped_log()
                == old(self).dropped_log(),
            (r is Ok && submit_drops(intent, net)) ==> final(self).queued() == old(self).queued()
                && final(self).dropped_log() == old(self).dropped_log().push(
                (person, start_time, intent),
            ),
            (r is Ok && !submit_drops(intent, net)) ==> final(self).queued() == old(self).queued()
                .push((person, start_time, buffered_intent(intent, net))) && final(self)
                .dropped_log() == old(self).dropped_log(),
            intent matches TripSpec::CarAppearing { start_pos, vehicle_spec, .. } ==> (r is Ok
                ==> vehicle_spec.length <= start_pos.dist_along < net.lane_at(
                start_pos.lane,
            ).length),
            intent matches TripSpec::JustWalking { start, goal, .. } ==> (r is Err <==> start
                == goal),
    {
        match &intent {
            TripSpec::CarAppearing { start_pos, vehicle_spec, goal, .. } => {
                if start_pos.dist_along < vehicle_spec.length {
                    return Err(
                        SpawnError::VehicleTooCloseToStart {
                            vehicle_type: vehicle_spec.vehicle_type,
                            dist_along: start_pos.dist_along,
                        },
                    );
                }
                if start_pos.dist_along >= net.get_l(start_pos.lane).length {
                    return Err(
                        SpawnError::SpawnBeyondLaneEnd {
                            vehicle_type: vehicle_spec.vehicle_type,
                            dist_along: start_pos.dist_along,
                            lane: start_pos.lane,
                        },
                    );
                }
                match goal {
                    DrivingGoal::Border(_, end_lane) => {
                        if start_pos.lane == *end_lane && start_pos.dist_along == net.get_l(
                            *end_lane,
                        ).length {
                            return Err(
                                SpawnError::AlreadyAtBorder {
                                    vehicle_type: vehicle_spec.vehicle_type,
                                },
                            );
                        }
                    },
                    DrivingGoal::ParkNear(_) => {},
                }
            },
            TripSpec::UsingParkedCar { .. } => {},
            TripSpec::JustWalking { start, goal, .. } => {
                if *start == *goal {
                    return Err(
                        SpawnError::DegenerateWalkingTrip { start: *start, goal: *goal },
                    );
                }
            },
            TripSpec::UsingBike { start, goal, ped_speed, .. } => {
                if SidewalkSpot::bike_from_bike_rack(start.sidewalk_pos.lane, net).is_none() {
                    self.dropped.push((person, start_time, intent));
                    return Ok(());
                }
                if let DrivingGoal::ParkNear(b) = goal {
                    let last_lane = goal.goal_pos(PathConstraints::Bike, net).lane;
                    proof {
                        assert(net.building_wf(net.building_at(*b)));
                    }
                    if net.get_l(last_lane).nearby_sidewalk.is_none() {
                        self.dropped.push((person, start_time, intent));
                        return Ok(());
                    }
                    // A bike trip from a sidewalk back to the same sidewalk
                    // should just walk.
                    if start.sidewalk_pos.lane == net.get_b(*b).sidewalk_pos.lane {
                        self.trips.push(
                            (
                                person,
                                start_time,
                                TripSpec::JustWalking {
                                    start: *start,
                                    goal: SidewalkSpot::building(*b, net),
                                    ped_speed: *ped_speed,
                                },
                            ),
                        );
                        return Ok(());
                    }
                }
            },
            TripSpec::UsingTransit { .. } => {},
        }
        self.trips.push((person, start_time, intent));
        Ok(())
    }
}

/// The trip origin a walking spot anchors: its building, its border, or —
/// for a synthetic appearance — the border its sidewalk lane leads out of.
/// Other connection kinds cannot anchor a trip.
pub open spec fn spot_origin(start: SidewalkSpot, net: &Network) -> Option<TripEndpoint>
    recommends
        net.contains_lane(start.sidewalk_pos.lane),
{
    match start.connection {
        SidewalkPOI::Building(b) => Some(TripEndpoint::Bldg(b)),
        SidewalkPOI::SuddenlyAppear => Some(
            TripEndpoint::Border(net.lane_at(start.sidewalk_pos.lane).src_i),
        ),
        SidewalkPOI::Border(i) => Some(TripEndpoint::Border(i)),
        _ => None,
    }
}

/// The origin endpoint of an expanded trip.
pub open spec fn trip_origin(intent: TripSpec, net: &Network) -> Option<TripEndpoint>
    recommends
        intent.valid_on(net),
{
    match intent {
        TripSpec::CarAppearing { start_pos, .. } => Some(
            TripEndpoint::Border(net.lane_at(start_pos.lane).src_i),
        ),
        TripSpec::UsingParkedCar { start_bldg, .. } => Some(TripEndpoint::Bldg(start_bldg)),
        TripSpec::JustWalking { start, .. } => spot_origin(start, net),
        TripSpec::UsingBike { start, .. } => spot_origin(start, net),
        TripSpec::UsingTransit { start, .. } => spot_origin(start, net),
    }
}

/// The concrete leg sequence an intent expands to, given the person's
/// durable identities: a drive (plus a final walk for a parking goal) for a
/// direct spawn, a walk to a deferred parking spot, a plain walk, a walk
/// then a ride (then a walk) for a bike, or walk, bus and walk for transit.
pub open spec fn trip_legs(intent: TripSpec, person: Person, net: &Network) -> Seq<TripLeg>
    recommends
        intent.valid_on(net),
        bike_access_ok(intent, net),
{
    match intent {
        TripSpec::CarAppearing { goal, vehicle_spec, ped_speed, .. } => {
            let id = if vehicle_spec.vehicle_type is Car {
                person.car->Some_0
            } else {
                person.bike->Some_0
            };
            let vehicle = vehicle_spec.make_spec(id, Some(person.id));
            match goal {
                DrivingGoal::ParkNear(b) => seq![
                    TripLeg::Drive(vehicle, goal),
                    TripLeg::Walk(person.ped, ped_speed, SidewalkSpot::building_spec(b, net)),
                ],
                DrivingGoal::Border(..) => seq![TripLeg::Drive(vehicle, goal)],
            }
        },
        TripSpec::UsingParkedCar { start_bldg, goal, ped_speed } => seq![
            TripLeg::Walk(
                person.ped,
                ped_speed,
                SidewalkSpot::deferred_parking_spot_spec(start_bldg, goal, net),
            ),
        ],
        TripSpec::JustWalking { goal, ped_speed, .. } => seq![
            TripLeg::Walk(person.ped, ped_speed, goal),
        ],
        TripSpec::UsingBike { start, goal, vehicle, ped_speed } => {
            let walk_to = net.lane_at(start.sidewalk_pos.lane).bike_rack->Some_0;
            let bike = vehicle.make_spec(person.bike->Some_0, None);
            match goal {
                DrivingGoal::ParkNear(b) => seq![
                    TripLeg::Walk(person.ped, ped_speed, walk_to),
                    TripLeg::Drive(bike, goal),
                    TripLeg::Walk(person.ped, ped_speed, SidewalkSpot::building_spec(b, net)),
                ],
                DrivingGoal::Border(..) => seq![
                    TripLeg::Walk(person.ped, ped_speed, walk_to),
                    TripLeg::Drive(bike, goal),
                ],
            }
        },
        TripSpec::UsingTransit { goal, route, stop1, stop2, ped_speed, .. } => seq![
            TripLeg::Walk(person.ped, ped_speed, SidewalkSpot::bus_stop_spec(stop1, net)),
            TripLeg::RideBus(person.ped, route, stop2),
            TripLeg::Walk(person.ped, ped_speed, goal),
        ],
    }
}

/// Why the expansion of one buffered entry aborts the run, if it does; the
/// checks come in the order the finalize pass makes them: the routing
/// phase's bike-access lookup, then the person lookup, then the vehicle
/// lookup and the origin derivation of the expansion itself.
pub open spec fn expand_error(
    entry: (PersonID, u64, TripSpec),
    net: &Network,
    tm: TripManager,
) -> Option<SpawnError>
    recommends
        entry.2.valid_on(net),
{
    match entry.2 {
        TripSpec::UsingBike { start, .. } => {
            if net.lane_at(start.sidewalk_pos.lane).bike_rack is None {
                Some(SpawnError::NoBikeAccess { lane: start.sidewalk_pos.lane })
            } else if tm.person_spec(entry.0) is None {
                Some(SpawnError::UnknownPerson { person: entry.0 })
            } else if tm.person_spec(entry.0)->Some_0.bike is None {
                Some(
                    SpawnError::MissingVehicle { person: entry.0, vehicle_type: VehicleType::Bike },
                )
            } else if spot_origin(start, net) is None {
                Some(SpawnError::UnexpectedSpotKind { connection: start.connection })
            } else {
                None
            }
        },
        TripSpec::CarAppearing { vehicle_spec, .. } => {
            if tm.person_spec(entry.0) is None {
                Some(SpawnError::UnknownPerson { person: entry.0 })
            } else {
                let person = tm.person_spec(entry.0)->Some_0;
                if vehicle_spec.vehicle_type is Car && person.car is None {
                    Some(
                        SpawnError::MissingVehicle {
                            person: entry.0,
                            vehicle_type: VehicleType::Car,
                        },
                    )
                } else if !(vehicle_spec.vehicle_type is Car) && person.bike is None {
                    Some(
                        SpawnError::MissingVehicle {
                            person: entry.0,
                            vehicle_type: vehicle_spec.vehicle_type,
                        },
                    )
                } else {
                    None
                }
            }
        },
        TripSpec::UsingParkedCar { .. } => {
            if tm.person_spec(entry.0) is None {
                Some(SpawnError::UnknownPerson { person: entry.0 })
            } else {
                None
            }
        },
        TripSpec::JustWalking { start, .. } => {
            if tm.person_spec(entry.0) is None {
                Some(SpawnError::UnknownPerson { person: entry.0 })
            } else if spot_origin(start, net) is None {
                Some(SpawnError::UnexpectedSpotKind { connection: start.connection })
            } else {
                None
            }
        },
        TripSpec::UsingTransit { start, .. } => {
            if tm.person_spec(entry.0) is None {
                Some(SpawnError::UnknownPerson { person: entry.0 })
            } else if spot_origin(start, net) is None {
                Some(SpawnError::UnexpectedSpotKind { connection: start.connection })
            } else {
                None
            }
        },
    }
}

/// The first abort among the buffered entries, in submission order, if any.
pub open spec fn first_expand_error(
    entries: Seq<(PersonID, u64, TripSpec)>,
    net: &Network,
    tm: TripManager,
) -> Option<SpawnError>
    decreases entries.len(),
{
    if entries.len() == 0 {
        None
    } else if expand_error(entries[0], net, tm) is Some {
        expand_error(entries[0], net, tm)
    } else {
        first_expand_error(entries.drop_first(), net, tm)
    }
}

/// The lanes of a carried route, or nothing where there is none.
pub open spec fn path_steps(p: Option<Path>) -> Option<Seq<LaneID>> {
    match p {
        Some(path) => Some(path.steps@),
        None => None,
    }
}

/// The route the network resolves the intent's query to: nothing when the
/// intent has no query, or when the pathfinder finds no route.
pub open spec fn route_for(intent: TripSpec, net: &Network) -> Option<Seq<LaneID>>
    recommends
        intent.valid_on(net),
        bike_access_ok(intent, net),
{
    match request_spec(intent, net) {
        Some(req) => route_lookup(net.routes@, req),
        None => None,
    }
}

/// The command finalize emits for one buffered entry: at the entry's start
/// time, carrying the trip id, the intent, its query and its resolved
/// route.
pub open spec fn command_matches(
    entry: (PersonID, u64, TripSpec),
    trip: TripID,
    item: (u64, Command),
    net: &Network,
) -> bool {
    &&& item.0 == entry.1
    &&& item.1 matches Command::StartTrip(t, intent, req, path)
    &&& t == trip
    &&& intent == entry.2
    &&& req == request_spec(entry.2, net)
    &&& path_steps(path) == route_for(entry.2, net)
}

/// The trip finalize registers for one buffered entry.
pub open spec fn trip_matches(
    entry: (PersonID, u64, TripSpec),
    trip: Trip,
    person: Person,
    net: &Network,
) -> bool {
    &&& trip.person == entry.0
    &&& trip.start_time == entry.1
    &&& Some(trip.start) == trip_origin(entry.2, net)
    &&& trip.legs@ == trip_legs(entry.2, person, net)
}

/// Everything a successful finalize leaves behind: the person registry
/// untouched, and the trip registry and the scheduler each grown by one
/// record per buffered entry, in submission order.
pub open spec fn finalize_effect(
    entries: Seq<(PersonID, u64, TripSpec)>,
    net: &Network,
    tm0: TripManager,
    tm1: TripManager,
    s0: Scheduler,
    s1: Scheduler,
) -> bool {
    let base = tm0.trips@.len() as int;
    let sbase = s0.commands@.len() as int;
    &&& tm1.persons@ == tm0.persons@
    &&& tm1.trips@.len() == base + entries.len()
    &&& forall|i: int| 0 <= i < base ==> #[trigger] tm1.trips@[i] == tm0.trips@[i]
    &&& s1.commands@.len() == sbase + entries.len()
    &&& forall|i: int| 0 <= i < sbase ==> #[trigger] s1.commands@[i] == s0.commands@[i]
    &&& forall|i: int|
        0 <= i < entries.len() ==> trip_matches(
            #[trigger] entries[i],
            tm1.trips@[base + i],
            tm0.person_spec(entries[i].0)->Some_0,
            net,
        )
    &&& forall|i: int|
        0 <= i < entries.len() ==> command_matches(
            #[trigger] entries[i],
            TripID((base + i) as usize),
            s1.commands@[sbase + i],
            net,
        )
}

/// `first_expand_error` reports the error of the first offending entry.
proof fn lemma_first_error_at(
    entries: Seq<(PersonID, u64, TripSpec)>,
    net: &Network,
    tm: TripManager,
    i: int,
)
    requires
        0 <= i < entries.len(),
        forall|j: int| 0 <= j < i ==> expand_error(#[trigger] entries[j], net, tm) is None,
        expand_error(entries[i], net, tm) is Some,
    ensures
        first_expand_error(entries, net, tm) == expand_error(entries[i], net, tm),
    decreases i,
{
    if i > 0 {
        assert forall|j: int|
            0 <= j < i - 1 implies expand_error(
            #[trigger] entries.drop_first()[j],
            net,
            tm,
        ) is None by {
            assert(entries.drop_first()[j] == entries[j + 1]);
        }
        assert(entries.drop_first()[i - 1] == entries[i]);
        lemma_first_error_at(entries.drop_first(), net, tm, i - 1);
    }
}

/// With no offending entry there is no first error.
proof fn lemma_first_error_none(
    entries: Seq<(PersonID, u64, TripSpec)>,
    net: &Network,
    tm: TripManager,
)
    requires
        forall|j: int|
            0 <= j < entries.len() ==> expand_error(#[trigger] entries[j], net, tm) is None,
    ensures
        first_expand_error(entries, net, tm) is None,
    decreases entries.len(),
{
    if entries.len() > 0 {
        assert forall|j: int|
            0 <= j < entries.drop_first().len() implies expand_error(
            #[trigger] entries.drop_first()[j],
            net,
            tm,
        ) is None by {
            assert(entries.drop_first()[j] == entries[j + 1]);
        }
        lemma_first_error_none(entries.drop_first(), net, tm);
    }
}

/// One buffered entry fully expanded, before anything is committed.
struct ExpandedTrip {
    person: PersonID,
    start_time: u64,
    intent: TripSpec,
    origin: TripEndpoint,
    legs: Vec<TripLeg>,
    req: Option<PathRequest>,
    path: Option<Path>,
}

/// The expansion of one entry agrees with every per-entry specification.
spec fn expanded_matches(
    ex: ExpandedTrip,
    entry: (PersonID, u64, TripSpec),
    net: &Network,
    tm: TripManager,
) -> bool {
    &&& ex.person == entry.0
    &&& ex.start_time == entry.1
    &&& ex.intent == entry.2
    &&& Some(ex.origin) == trip_origin(entry.2, net)
    &&& ex.legs@ == trip_legs(entry.2, tm.person_spec(entry.0)->Some_0, net)
    &&& ex.req == request_spec(entry.2, net)
    &&& path_steps(ex.path) == route_for(entry.2, net)
}

/// Derives the trip's origin from the start spot's connection, aborting on
/// a connection kind no trip can start at.
fn origin_of(start: &SidewalkSpot, net: &Network) -> (r: Result<TripEndpoint, SpawnError>)
    requires
        net.contains_lane(start.sidewalk_pos.lane),
    ensures
        match r {
            Ok(o) => spot_origin(*start, net) == Some(o),
            Err(e) => spot_origin(*start, net) is None && e == (SpawnError::UnexpectedSpotKind {
                connection: start.connection,
            }),
        },
{
    match start.connection {
        SidewalkPOI::Building(b) => Ok(TripEndpoint::Bldg(b)),
        SidewalkPOI::SuddenlyAppear => Ok(
            TripEndpoint::Border(net.get_l(start.sidewalk_pos.lane).src_i),
        ),
        SidewalkPOI::Border(i) => Ok(TripEndpoint::Border(i)),
        _ => Err(SpawnError::UnexpectedSpotKind { connection: start.connection }),
    }
}

/// Expands one buffered entry: resolves its routing query, looks up the
/// person's identities and derives the trip's origin and legs — or reports
/// why the run must abort on it.
fn expand_one(entry: (PersonID, u64, TripSpec), net: &Network, tm: &TripManager) -> (r: Result<
    ExpandedTrip,
    SpawnError,
>)
    requires
        net.wf(),
        entry.2.valid_on(net),
    ensures
        match r {
            Ok(ex) => expand_error(entry, net, *tm) is None && expanded_matches(
                ex,
                entry,
                net,
                *tm,
            ),
            Err(e) => expand_error(entry, net, *tm) == Some(e),
        },
{
    let (p, start_time, intent) = entry;
    // The routing phase makes the bike-access lookup first.
    if let TripSpec::UsingBike { start, .. } = &intent {
        if SidewalkSpot::bike_from_bike_rack(start.sidewalk_pos.lane, net).is_none() {
            return Err(SpawnError::NoBikeAccess { lane: start.sidewalk_pos.lane });
        }
    }
    let req = intent.get_pathfinding_request(net);
    let path = match req {
        Some(rq) => net.pathfind(rq),
        None => None,
    };
    let person = match tm.get_person(p) {
        Some(person) => person,
        None => {
            return Err(SpawnError::UnknownPerson { person: p });
        },
    };
    match intent {
        TripSpec::CarAppearing { start_pos, goal, vehicle_spec, ped_speed } => {
            let id = if vehicle_spec.vehicle_type == VehicleType::Car {
                match person.car {
                    Some(c) => c,
                    None => {
                        return Err(
                            SpawnError::MissingVehicle {
                                person: p,
                                vehicle_type: VehicleType::Car,
                            },
                        );
                    },
                }
            } else {
                match person.bike {
                    Some(c) => c,
                    None => {
                        return Err(
                            SpawnError::MissingVehicle {
                                person: p,
                                vehicle_type: vehicle_spec.vehicle_type,
                            },
                        );
                    },
                }
            };
            let vehicle = vehicle_spec.make(id, Some(person.id));
            let mut legs: Vec<TripLeg> = Vec::new();
            legs.push(TripLeg::Drive(vehicle, goal));
            if let DrivingGoal::ParkNear(b) = goal {
                legs.push(TripLeg::Walk(person.ped, ped_speed, SidewalkSpot::building(b, net)));
            }
            let origin = TripEndpoint::Border(net.get_l(start_pos.lane).src_i);
            proof {
                assert(legs@ =~= trip_legs(intent, person, net));
            }
            Ok(ExpandedTrip { person: p, start_time, intent, origin, legs, req, path })
        },
        TripSpec::UsingParkedCar { start_bldg, goal, ped_speed } => {
            let walk_to = SidewalkSpot::deferred_parking_spot(start_bldg, goal, net);
            let mut legs: Vec<TripLeg> = Vec::new();
            legs.push(TripLeg::Walk(person.ped, ped_speed, walk_to));
            proof {
                assert(legs@ =~= trip_legs(intent, person, net));
            }
            Ok(
                ExpandedTrip {
                    person: p,
                    start_time,
                    intent,
                    origin: TripEndpoint::Bldg(start_bldg),
                    legs,
                    req,
                    path,
                },
            )
        },
        TripSpec::JustWalking { start, goal, ped_speed } => {
            let origin = match origin_of(&start, net) {
                Ok(o) => o,
                Err(e) => {
                    return Err(e);
                },
            };
            let mut legs: Vec<TripLeg> = Vec::new();
            legs.push(TripLeg::Walk(person.ped, ped_speed, goal));
            proof {
                assert(legs@ =~= trip_legs(intent, person, net));
            }
            Ok(ExpandedTrip { person: p, start_time, intent, origin, legs, req, path })
        },
        TripSpec::UsingBike { start, goal, vehicle, ped_speed } => {
            let walk_to = match SidewalkSpot::bike_from_bike_rack(start.sidewalk_pos.lane, net) {
                Some(s) => s,
                None => {
                    return Err(SpawnError::NoBikeAccess { lane: start.sidewalk_pos.lane });
                },
            };
            let bike_id = match person.bike {
                Some(c) => c,
                None => {
                    return Err(
                        SpawnError::MissingVehicle { person: p, vehicle_type: VehicleType::Bike },
                    );
                },
            };
            let origin = match origin_of(&start, net) {
                Ok(o) => o,
                Err(e) => {
                    return Err(e);
                },
            };
            let mut legs: Vec<TripLeg> = Vec::new();
            legs.push(TripLeg::Walk(person.ped, ped_speed, walk_to));
            legs.push(TripLeg::Drive(vehicle.make(bike_id, None), goal));
            if let DrivingGoal::ParkNear(b) = goal {
                legs.push(TripLeg::Walk(person.ped, ped_speed, SidewalkSpot::building(b, net)));
            }
            proof {
                assert(legs@ =~= trip_legs(intent, person, net));
            }
            Ok(ExpandedTrip { person: p, start_time, intent, origin, legs, req, path })
        },
        TripSpec::UsingTransit { start, goal, route, stop1, stop2, ped_speed } => {
            let origin = match origin_of(&start, net) {
                Ok(o) => o,
                Err(e) => {
                    return Err(e);
                },
            };
            let walk_to = SidewalkSpot::bus_stop(stop1, net);
            let mut legs: Vec<TripLeg> = Vec::new();
            legs.push(TripLeg::Walk(person.ped, ped_speed, walk_to));
            legs.push(TripLeg::RideBus(person.ped, route, stop2));
            legs.push(TripLeg::Walk(person.ped, ped_speed, goal));
            proof {
                assert(legs@ =~= trip_legs(intent, person, net));
            }
            Ok(ExpandedTrip { person: p, start_time, intent, origin, legs, req, path })
        },
    }
}

impl TripSpawner {
    /// Consumes the spawner: resolves every buffered intent's routing
    /// query, expands it into its legs, registers one trip per entry with
    /// the trip manager and pushes one start command per entry onto the
    /// scheduler — all in submission order. When any buffered entry cannot
    /// be expanded, the first offending one is reported and nothing is
    /// changed.
    pub fn finalize(
        self,
        net: &Network,
        trips: &mut TripManager,
        scheduler: &mut Scheduler,
        _retry_if_no_room: bool,
    ) -> (r: Result<(), SpawnError>)
        requires
            net.wf(),
            forall|i: int|
                0 <= i < self.queued().len() ==> (#[trigger] self.queued()[i]).2.valid_on(net),
        ensures
            match r {
                Ok(()) => first_expand_error(self.queued(), net, *old(trips)) is None,
                Err(e) => first_expand_error(self.queued(), net, *old(trips)) == Some(e),
            },
            r is Ok ==> finalize_effect(
                self.queued(),
                net,
                *old(trips),
                *final(trips),
                *old(scheduler),
                *final(scheduler),
            ),
            r is Err ==> *final(trips) == *old(trips) && *final(scheduler) == *old(scheduler),
    {
        let ghost entries = self.queued();
        let n = self.trips.len();
        // Resolve and expand every entry first, so an abort changes
        // nothing. Route resolution is independent per entry and reads the
        // network only; the host may spread it over workers as long as the
        // results are recombined in this submission order.
        let mut expanded: Vec<ExpandedTrip> = Vec::new();
        let mut idx: usize = 0;
        while idx < n
            invariant
                net.wf(),
                forall|i: int| 0 <= i < entries.len() ==> (#[trigger] entries[i]).2.valid_on(net),
                n == entries.len(),
                self.trips@ == entries,
                idx <= n,
                expanded@.len() == idx,
                forall|i: int|
                    0 <= i < idx ==> expand_error(#[trigger] entries[i], net, *trips) is None,
                forall|i: int|
                    0 <= i < idx ==> expanded_matches(
                        #[trigger] expanded@[i],
                        entries[i],
                        net,
                        *trips,
                    ),
            decreases n - idx,
        {
            let entry = self.trips[idx];
            match expand_one(entry, net, trips) {
                Ok(ex) => {
                    expanded.push(ex);
                },
                Err(e) => {
                    proof {
                        lemma_first_error_at(entries, net, *trips, idx as int);
                    }
                    return Err(e);
                },
            }
            idx = idx + 1;
        }
        proof {
            lemma_first_error_none(entries, net, *trips);
        }
        // Commit: register the trips and schedule their start commands, in
        // submission order.
        let ghost tm0 = *trips;
        let ghost s0 = *scheduler;
        let ghost exps = expanded@;
        let mut k: usize = 0;
        while expanded.len() > 0
            invariant
                net.wf(),
                k + expanded@.len() == exps.len(),
                exps.len() == entries.len(),
                exps.len() <= usize::MAX,
                expanded@ == exps.skip(k as int),
                forall|i: int|
                    0 <= i < exps.len() ==> expanded_matches(
                        #[trigger] exps[i],
                        entries[i],
                        net,
                        tm0,
                    ),
                trips.persons@ == tm0.persons@,
                trips.trips@.len() == tm0.trips@.len() + k,
                forall|i: int|
                    0 <= i < tm0.trips@.len() ==> #[trigger] trips.trips@[i] == tm0.trips@[i],
                forall|i: int|
                    0 <= i < k ==> trip_matches(
                        #[trigger] entries[i],
                        trips.trips@[tm0.trips@.len() + i],
                        tm0.person_spec(entries[i].0)->Some_0,
                        net,
                    ),
                scheduler.commands@.len() == s0.commands@.len() + k,
                forall|i: int|
                    0 <= i < s0.commands@.len() ==> #[trigger] scheduler.commands@[i]
                        == s0.commands@[i],
                forall|i: int|
                    0 <= i < k ==> command_matches(
                        #[trigger] entries[i],
                        TripID((tm0.trips@.len() + i) as usize),
                        scheduler.commands@[s0.commands@.len() + i],
                        net,
                    ),
            decreases expanded@.len(),
        {
            proof {
                assert(exps.skip(k as int)[0] == exps[k as int]);
                assert(exps.skip(k as int).remove(0) =~= exps.skip(k as int + 1));
            }
            let ex = expanded.remove(0);
            let t = trips.new_trip(ex.person, ex.start_time, ex.origin, ex.legs);
            scheduler.push(ex.start_time, Command::StartTrip(t, ex.intent, ex.req, ex.path));
            k = k + 1;
        }
        Ok(())
    }
}

/// Finalize preserves submission order: of two intents submitted in order,
/// the earlier one's scheduler command is pushed earlier, whatever order
/// their routes were resolved in.
pub proof fn lemma_finalize_preserves_order(
    entries: Seq<(PersonID, u64, TripSpec)>,
    net: &Network,
    tm0: TripManager,
    tm1: TripManager,
    s0: Scheduler,
    s1: Scheduler,
    i: int,
    j: int,
)
    requires
        finalize_effect(entries, net, tm0, tm1, s0, s1),
        0 <= i < j < entries.len(),
    ensures
        s0.commands@.len() + i < s0.commands@.len() + j < s1.commands@.len(),
        command_matches(
            entries[i],
            TripID((tm0.trips@.len() + i) as usize),
            s1.commands@[s0.commands@.len() + i],
            net,
        ),
        command_matches(
            entries[j],
            TripID((tm0.trips@.len() + j) as usize),
            s1.commands@[s0.commands@.len() + j],
            net,
        ),
{
}

/// A failed route does not lose the trip: a buffered entry whose routing
/// query resolved to no route still has its scheduler command, with the
/// absent route carried as an explicit nothing.
pub proof fn lemma_no_route_still_scheduled(
    entries: Seq<(PersonID, u64, TripSpec)>,
    net: &Network,
    tm0: TripManager,
    tm1: TripManager,
    s0: Scheduler,
    s1: Scheduler,
    i: int,
)
    requires
        finalize_effect(entries, net, tm0, tm1, s0, s1),
        0 <= i < entries.len(),
        request_spec(entries[i].2, net) is Some,
        route_for(entries[i].2, net) is None,
    ensures
        s1.commands@[s0.commands@.len() + i].1 matches Command::StartTrip(t, intent, req, path)
            && intent == entries[i].2 && req == request_spec(entries[i].2, net) && path is None,
{
    assert(command_matches(
        entries[i],
        TripID((tm0.trips@.len() + i) as usize),
        s1.commands@[s0.commands@.len() + i],
        net,
    ));
}

/// An adjusted spawn position always passes the direct-spawn validation: a
/// `CarAppearing` intent standing on it, with a vehicle no longer than the
/// class the adjustment assumed, is never aborted at submission, whatever
/// its goal.
pub proof fn lemma_adjusted_spawn_is_feasible(
    pos: Position,
    is_bike: bool,
    net: &Network,
    adjusted: Position,
    goal: DrivingGoal,
    vehicle_spec: VehicleSpec,
    ped_speed: u64,
)
    requires
        net.valid_pos(pos),
        spawn_vehicle_at_spec(pos, is_bike, net) == Some(adjusted),
        vehicle_spec.length <= adjust_len(is_bike),
    ensures
        submit_error(
            TripSpec::CarAppearing { start_pos: adjusted, goal, vehicle_spec, ped_speed },
            net,
        ) is None,
{
}

} // verus!

