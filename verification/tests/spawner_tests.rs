use trip_spawner::ids::{BuildingID, BusRouteID, BusStopID, CarID, IntersectionID, LaneID,
    PedestrianID, PersonID, TripID};
use trip_spawner::network::{Building, BusStop, Lane, Network, Path, PathConstraints, PathRequest,
    Position};
use trip_spawner::scheduler::{Command, Scheduler};
use trip_spawner::spawner::{SpawnError, TripSpawner, TripSpec};
use trip_spawner::spots::{DrivingGoal, SidewalkPOI, SidewalkSpot};
use trip_spawner::trips::{Person, TripEndpoint, TripLeg, TripManager};
use trip_spawner::vehicles::{VehicleSpec, VehicleType};

// Lane 0: a sidewalk with bike access; lane 1: the driving lane beside it;
// lane 2: a sidewalk without bike access; lane 3: a driving lane with no
// sidewalk nearby; lane 4: far too short for any vehicle.
fn rack_spot() -> SidewalkSpot {
    SidewalkSpot {
        sidewalk_pos: Position { lane: LaneID(0), dist_along: 300 },
        connection: SidewalkPOI::BikeRack(Position { lane: LaneID(1), dist_along: 300 }),
    }
}

fn test_net(routes: Vec<(PathRequest, Path)>) -> Network {
    Network {
        lanes: vec![
            Lane {
                length: 1000,
                src_i: IntersectionID(0),
                bike_rack: Some(rack_spot()),
                nearby_sidewalk: None,
            },
            Lane {
                length: 2000,
                src_i: IntersectionID(1),
                bike_rack: None,
                nearby_sidewalk: Some(LaneID(0)),
            },
            Lane { length: 800, src_i: IntersectionID(2), bike_rack: None, nearby_sidewalk: None },
            Lane { length: 1500, src_i: IntersectionID(3), bike_rack: None, nearby_sidewalk: None },
            Lane { length: 100, src_i: IntersectionID(4), bike_rack: None, nearby_sidewalk: None },
        ],
        buildings: vec![
            Building {
                sidewalk_pos: Position { lane: LaneID(0), dist_along: 500 },
                driving_goal: Position { lane: LaneID(1), dist_along: 800 },
                biking_goal: Position { lane: LaneID(1), dist_along: 700 },
            },
            Building {
                sidewalk_pos: Position { lane: LaneID(2), dist_along: 400 },
                driving_goal: Position { lane: LaneID(3), dist_along: 600 },
                biking_goal: Position { lane: LaneID(3), dist_along: 500 },
            },
        ],
        bus_stops: vec![
            BusStop { sidewalk_pos: Position { lane: LaneID(0), dist_along: 200 } },
            BusStop { sidewalk_pos: Position { lane: LaneID(0), dist_along: 900 } },
        ],
        routes,
    }
}

fn one_person() -> TripManager {
    TripManager {
        persons: vec![Person {
            id: PersonID(0),
            ped: PedestrianID(0),
            car: Some(CarID(10)),
            bike: Some(CarID(11)),
        }],
        trips: Vec::new(),
    }
}

fn walk_spot(lane: usize, dist: u64, connection: SidewalkPOI) -> SidewalkSpot {
    SidewalkSpot { sidewalk_pos: Position { lane: LaneID(lane), dist_along: dist }, connection }
}

fn car_spec() -> VehicleSpec {
    VehicleSpec { vehicle_type: VehicleType::Car, length: 450 }
}

fn bike_spec() -> VehicleSpec {
    VehicleSpec { vehicle_type: VehicleType::Bike, length: 180 }
}

#[test]
fn car_appearing_too_close_aborts() {
    let net = test_net(Vec::new());
    let mut spawner = TripSpawner::new();
    let intent = TripSpec::CarAppearing {
        start_pos: Position { lane: LaneID(1), dist_along: 100 },
        goal: DrivingGoal::Border(IntersectionID(9), LaneID(1)),
        vehicle_spec: car_spec(),
        ped_speed: 13,
    };
    let r = spawner.schedule_trip(PersonID(0), 0, intent, &net);
    assert_eq!(
        r,
        Err(SpawnError::VehicleTooCloseToStart {
            vehicle_type: VehicleType::Car,
            dist_along: 100,
        })
    );
    assert!(spawner.queued_entries().is_empty());
}

#[test]
fn car_appearing_beyond_lane_end_aborts() {
    let net = test_net(Vec::new());
    let mut spawner = TripSpawner::new();
    let intent = TripSpec::CarAppearing {
        start_pos: Position { lane: LaneID(1), dist_along: 2000 },
        goal: DrivingGoal::Border(IntersectionID(9), LaneID(1)),
        vehicle_spec: car_spec(),
        ped_speed: 13,
    };
    let r = spawner.schedule_trip(PersonID(0), 0, intent, &net);
    assert_eq!(
        r,
        Err(SpawnError::SpawnBeyondLaneEnd {
            vehicle_type: VehicleType::Car,
            dist_along: 2000,
            lane: LaneID(1),
        })
    );
    assert!(spawner.queued_entries().is_empty());
}

#[test]
fn car_appearing_feasible_buffers() {
    let net = test_net(Vec::new());
    let mut spawner = TripSpawner::new();
    let intent = TripSpec::CarAppearing {
        start_pos: Position { lane: LaneID(1), dist_along: 700 },
        goal: DrivingGoal::Border(IntersectionID(9), LaneID(1)),
        vehicle_spec: car_spec(),
        ped_speed: 13,
    };
    assert_eq!(spawner.schedule_trip(PersonID(0), 5, intent, &net), Ok(()));
    assert_eq!(spawner.queued_entries().len(), 1);
    assert_eq!(spawner.queued_entries()[0], (PersonID(0), 5, intent));
    assert!(spawner.dropped_intents().is_empty());
}

#[test]
fn just_walking_same_spot_aborts() {
    let net = test_net(Vec::new());
    let mut spawner = TripSpawner::new();
    let spot = walk_spot(0, 100, SidewalkPOI::Building(BuildingID(0)));
    let r = spawner.schedule_trip(
        PersonID(0),
        0,
        TripSpec::JustWalking { start: spot, goal: spot, ped_speed: 13 },
        &net,
    );
    assert_eq!(r, Err(SpawnError::DegenerateWalkingTrip { start: spot, goal: spot }));
    assert!(spawner.queued_entries().is_empty());
}

#[test]
fn just_walking_distinct_spots_buffer() {
    let net = test_net(Vec::new());
    let mut spawner = TripSpawner::new();
    let start = walk_spot(0, 100, SidewalkPOI::Building(BuildingID(0)));
    let goal = walk_spot(0, 900, SidewalkPOI::Border(IntersectionID(0)));
    let intent = TripSpec::JustWalking { start, goal, ped_speed: 13 };
    assert_eq!(spawner.schedule_trip(PersonID(0), 0, intent, &net), Ok(()));
    assert_eq!(spawner.queued_entries().len(), 1);
}

#[test]
fn bike_without_access_dropped() {
    let net = test_net(Vec::new());
    let mut spawner = TripSpawner::new();
    let intent = TripSpec::UsingBike {
        start: walk_spot(2, 100, SidewalkPOI::Building(BuildingID(1))),
        goal: DrivingGoal::Border(IntersectionID(9), LaneID(3)),
        vehicle: bike_spec(),
        ped_speed: 13,
    };
    assert_eq!(spawner.schedule_trip(PersonID(0), 0, intent, &net), Ok(()));
    assert!(spawner.queued_entries().is_empty());
    assert_eq!(spawner.dropped_intents().len(), 1);
    assert_eq!(spawner.dropped_intents()[0], (PersonID(0), 0, intent));
}

#[test]
fn bike_goal_without_sidewalk_dropped() {
    let net = test_net(Vec::new());
    let mut spawner = TripSpawner::new();
    // Bike access exists at the start, but building 1's biking goal ends on
    // lane 3, which has no sidewalk nearby.
    let intent = TripSpec::UsingBike {
        start: walk_spot(0, 100, SidewalkPOI::SuddenlyAppear),
        goal: DrivingGoal::ParkNear(BuildingID(1)),
        vehicle: bike_spec(),
        ped_speed: 13,
    };
    assert_eq!(spawner.schedule_trip(PersonID(0), 0, intent, &net), Ok(()));
    assert!(spawner.queued_entries().is_empty());
    assert_eq!(spawner.dropped_intents().len(), 1);
}

#[test]
fn bike_same_sidewalk_rewritten_to_walk() {
    let net = test_net(Vec::new());
    let mut spawner = TripSpawner::new();
    let start = walk_spot(0, 100, SidewalkPOI::SuddenlyAppear);
    let intent = TripSpec::UsingBike {
        start,
        goal: DrivingGoal::ParkNear(BuildingID(0)),
        vehicle: bike_spec(),
        ped_speed: 13,
    };
    assert_eq!(spawner.schedule_trip(PersonID(0), 4, intent, &net), Ok(()));
    assert!(spawner.dropped_intents().is_empty());
    assert_eq!(spawner.queued_entries().len(), 1);
    let rewritten = TripSpec::JustWalking {
        start,
        goal: SidewalkSpot {
            sidewalk_pos: Position { lane: LaneID(0), dist_along: 500 },
            connection: SidewalkPOI::Building(BuildingID(0)),
        },
        ped_speed: 13,
    };
    assert_eq!(spawner.queued_entries()[0], (PersonID(0), 4, rewritten));
}

#[test]
fn spawn_adjustment_hopeless_lane() {
    let net = test_net(Vec::new());
    let pos = Position { lane: LaneID(4), dist_along: 50 };
    assert_eq!(TripSpec::spawn_vehicle_at(pos, false, &net), None);
    assert_eq!(TripSpec::spawn_vehicle_at(pos, true, &net), None);
}

#[test]
fn spawn_adjustment_moves_up() {
    let net = test_net(Vec::new());
    let pos = Position { lane: LaneID(1), dist_along: 100 };
    assert_eq!(
        TripSpec::spawn_vehicle_at(pos, false, &net),
        Some(Position { lane: LaneID(1), dist_along: 650 })
    );
    assert_eq!(
        TripSpec::spawn_vehicle_at(pos, true, &net),
        Some(Position { lane: LaneID(1), dist_along: 180 })
    );
}

#[test]
fn spawn_adjustment_backs_off_lane_end() {
    let net = test_net(Vec::new());
    let pos = Position { lane: LaneID(1), dist_along: 2000 };
    assert_eq!(
        TripSpec::spawn_vehicle_at(pos, false, &net),
        Some(Position { lane: LaneID(1), dist_along: 1999 })
    );
}

#[test]
fn spawn_adjustment_keeps_good_position() {
    let net = test_net(Vec::new());
    let pos = Position { lane: LaneID(1), dist_along: 700 };
    assert_eq!(TripSpec::spawn_vehicle_at(pos, false, &net), Some(pos));
}

#[test]
fn adjusted_spawn_passes_validation() {
    let net = test_net(Vec::new());
    let adjusted =
        TripSpec::spawn_vehicle_at(Position { lane: LaneID(1), dist_along: 10 }, false, &net)
            .unwrap();
    let mut spawner = TripSpawner::new();
    let r = spawner.schedule_trip(
        PersonID(0),
        0,
        TripSpec::CarAppearing {
            start_pos: adjusted,
            goal: DrivingGoal::Border(IntersectionID(9), LaneID(1)),
            vehicle_spec: car_spec(),
            ped_speed: 13,
        },
        &net,
    );
    assert_eq!(r, Ok(()));
}

#[test]
fn request_derivation_per_variant() {
    let net = test_net(Vec::new());
    let car = TripSpec::CarAppearing {
        start_pos: Position { lane: LaneID(1), dist_along: 700 },
        goal: DrivingGoal::Border(IntersectionID(9), LaneID(1)),
        vehicle_spec: car_spec(),
        ped_speed: 13,
    };
    assert_eq!(
        car.get_pathfinding_request(&net),
        Some(PathRequest {
            start: Position { lane: LaneID(1), dist_along: 700 },
            end: Position { lane: LaneID(1), dist_along: 2000 },
            constraints: PathConstraints::Car,
        })
    );

    let parked = TripSpec::UsingParkedCar {
        start_bldg: BuildingID(0),
        goal: DrivingGoal::Border(IntersectionID(9), LaneID(1)),
        ped_speed: 13,
    };
    assert_eq!(parked.get_pathfinding_request(&net), None);

    let start = walk_spot(0, 100, SidewalkPOI::SuddenlyAppear);
    let goal = walk_spot(0, 900, SidewalkPOI::Building(BuildingID(0)));
    let walking = TripSpec::JustWalking { start, goal, ped_speed: 13 };
    assert_eq!(
        walking.get_pathfinding_request(&net),
        Some(PathRequest {
            start: Position { lane: LaneID(0), dist_along: 100 },
            end: Position { lane: LaneID(0), dist_along: 900 },
            constraints: PathConstraints::Pedestrian,
        })
    );

    let bike = TripSpec::UsingBike {
        start,
        goal: DrivingGoal::Border(IntersectionID(9), LaneID(1)),
        vehicle: bike_spec(),
        ped_speed: 13,
    };
    assert_eq!(
        bike.get_pathfinding_request(&net),
        Some(PathRequest {
            start: Position { lane: LaneID(0), dist_along: 100 },
            end: Position { lane: LaneID(0), dist_along: 300 },
            constraints: PathConstraints::Pedestrian,
        })
    );

    let transit = TripSpec::UsingTransit {
        start,
        goal,
        route: BusRouteID(7),
        stop1: BusStopID(0),
        stop2: BusStopID(1),
        ped_speed: 13,
    };
    assert_eq!(
        transit.get_pathfinding_request(&net),
        Some(PathRequest {
            start: Position { lane: LaneID(0), dist_along: 100 },
            end: Position { lane: LaneID(0), dist_along: 200 },
            constraints: PathConstraints::Pedestrian,
        })
    );
}

#[test]
fn pathfind_returns_first_match() {
    let req = PathRequest {
        start: Position { lane: LaneID(0), dist_along: 100 },
        end: Position { lane: LaneID(0), dist_along: 900 },
        constraints: PathConstraints::Pedestrian,
    };
    let other = PathRequest {
        start: Position { lane: LaneID(0), dist_along: 1 },
        end: Position { lane: LaneID(0), dist_along: 2 },
        constraints: PathConstraints::Pedestrian,
    };
    let net = test_net(vec![
        (other, Path { steps: vec![LaneID(2)] }),
        (req, Path { steps: vec![LaneID(0)] }),
        (req, Path { steps: vec![LaneID(3)] }),
    ]);
    assert_eq!(net.pathfind(req), Some(Path { steps: vec![LaneID(0)] }));
    assert_eq!(
        net.pathfind(PathRequest { constraints: PathConstraints::Bike, ..req }),
        None
    );
}

#[test]
fn finalize_preserves_submission_order() {
    let net = test_net(Vec::new());
    let mut spawner = TripSpawner::new();
    let a = TripSpec::JustWalking {
        start: walk_spot(0, 100, SidewalkPOI::Building(BuildingID(0))),
        goal: walk_spot(0, 900, SidewalkPOI::Border(IntersectionID(0))),
        ped_speed: 13,
    };
    let b = TripSpec::JustWalking {
        start: walk_spot(0, 900, SidewalkPOI::Border(IntersectionID(0))),
        goal: walk_spot(0, 100, SidewalkPOI::Building(BuildingID(0))),
        ped_speed: 14,
    };
    // B has the earlier start time; submission order must still win.
    assert_eq!(spawner.schedule_trip(PersonID(0), 5, a, &net), Ok(()));
    assert_eq!(spawner.schedule_trip(PersonID(0), 3, b, &net), Ok(()));
    let mut trips = one_person();
    let mut scheduler = Scheduler::new();
    assert_eq!(spawner.finalize(&net, &mut trips, &mut scheduler, false), Ok(()));
    assert_eq!(scheduler.commands.len(), 2);
    assert_eq!(scheduler.commands[0].0, 5);
    assert_eq!(scheduler.commands[1].0, 3);
    match &scheduler.commands[0].1 {
        Command::StartTrip(t, intent, _, _) => {
            assert_eq!(*t, TripID(0));
            assert_eq!(*intent, a);
        }
    }
    match &scheduler.commands[1].1 {
        Command::StartTrip(t, intent, _, _) => {
            assert_eq!(*t, TripID(1));
            assert_eq!(*intent, b);
        }
    }
}

#[test]
fn finalize_no_route_still_scheduled() {
    let net = test_net(Vec::new());
    let mut spawner = TripSpawner::new();
    let intent = TripSpec::JustWalking {
        start: walk_spot(0, 100, SidewalkPOI::Building(BuildingID(0))),
        goal: walk_spot(0, 900, SidewalkPOI::Border(IntersectionID(0))),
        ped_speed: 13,
    };
    assert_eq!(spawner.schedule_trip(PersonID(0), 0, intent, &net), Ok(()));
    let mut trips = one_person();
    let mut scheduler = Scheduler::new();
    assert_eq!(spawner.finalize(&net, &mut trips, &mut scheduler, false), Ok(()));
    assert_eq!(scheduler.commands.len(), 1);
    match &scheduler.commands[0].1 {
        Command::StartTrip(_, _, req, path) => {
            assert!(req.is_some());
            assert!(path.is_none());
        }
    }
}

#[test]
fn scenario_car_appearing_border_goal() {
    let start_pos = Position { lane: LaneID(1), dist_along: 700 };
    let req = PathRequest {
        start: start_pos,
        end: Position { lane: LaneID(1), dist_along: 2000 },
        constraints: PathConstraints::Car,
    };
    let net = test_net(vec![(req, Path { steps: vec![LaneID(1)] })]);
    let mut spawner = TripSpawner::new();
    let intent = TripSpec::CarAppearing {
        start_pos,
        goal: DrivingGoal::Border(IntersectionID(9), LaneID(1)),
        vehicle_spec: car_spec(),
        ped_speed: 13,
    };
    assert_eq!(spawner.schedule_trip(PersonID(0), 0, intent, &net), Ok(()));
    let mut trips = one_person();
    let mut scheduler = Scheduler::new();
    assert_eq!(spawner.finalize(&net, &mut trips, &mut scheduler, false), Ok(()));
    assert_eq!(scheduler.commands.len(), 1);
    let expected_vehicle = car_spec().make(CarID(10), Some(PersonID(0)));
    assert_eq!(trips.trips.len(), 1);
    assert_eq!(trips.trips[0].person, PersonID(0));
    assert_eq!(trips.trips[0].start, TripEndpoint::Border(IntersectionID(1)));
    assert_eq!(
        trips.trips[0].legs,
        vec![TripLeg::Drive(expected_vehicle, DrivingGoal::Border(IntersectionID(9), LaneID(1)))]
    );
    assert_eq!(
        scheduler.commands[0],
        (
            0,
            Command::StartTrip(
                TripID(0),
                intent,
                Some(req),
                Some(Path { steps: vec![LaneID(1)] })
            )
        )
    );
}

#[test]
fn scenario_bike_without_access_never_scheduled() {
    let net = test_net(Vec::new());
    let mut spawner = TripSpawner::new();
    let intent = TripSpec::UsingBike {
        start: walk_spot(2, 100, SidewalkPOI::Building(BuildingID(1))),
        goal: DrivingGoal::Border(IntersectionID(9), LaneID(3)),
        vehicle: bike_spec(),
        ped_speed: 13,
    };
    assert_eq!(spawner.schedule_trip(PersonID(0), 0, intent, &net), Ok(()));
    assert_eq!(spawner.dropped_intents().len(), 1);
    let mut trips = one_person();
    let mut scheduler = Scheduler::new();
    assert_eq!(spawner.finalize(&net, &mut trips, &mut scheduler, false), Ok(()));
    assert!(scheduler.commands.is_empty());
    assert!(trips.trips.is_empty());
}

#[test]
fn scenario_transit_three_legs() {
    let net = test_net(Vec::new());
    let mut spawner = TripSpawner::new();
    let start = walk_spot(0, 100, SidewalkPOI::Building(BuildingID(0)));
    let goal = walk_spot(0, 950, SidewalkPOI::Border(IntersectionID(0)));
    let intent = TripSpec::UsingTransit {
        start,
        goal,
        route: BusRouteID(7),
        stop1: BusStopID(0),
        stop2: BusStopID(1),
        ped_speed: 13,
    };
    assert_eq!(spawner.schedule_trip(PersonID(0), 0, intent, &net), Ok(()));
    let mut trips = one_person();
    let mut scheduler = Scheduler::new();
    assert_eq!(spawner.finalize(&net, &mut trips, &mut scheduler, false), Ok(()));
    assert_eq!(scheduler.commands.len(), 1);
    assert_eq!(trips.trips.len(), 1);
    let boarding = SidewalkSpot {
        sidewalk_pos: Position { lane: LaneID(0), dist_along: 200 },
        connection: SidewalkPOI::BusStop(BusStopID(0)),
    };
    assert_eq!(
        trips.trips[0].legs,
        vec![
            TripLeg::Walk(PedestrianID(0), 13, boarding),
            TripLeg::RideBus(PedestrianID(0), BusRouteID(7), BusStopID(1)),
            TripLeg::Walk(PedestrianID(0), 13, goal),
        ]
    );
}

#[test]
fn car_appearing_parking_goal_appends_walk() {
    let net = test_net(Vec::new());
    let mut spawner = TripSpawner::new();
    let intent = TripSpec::CarAppearing {
        start_pos: Position { lane: LaneID(1), dist_along: 700 },
        goal: DrivingGoal::ParkNear(BuildingID(0)),
        vehicle_spec: car_spec(),
        ped_speed: 13,
    };
    assert_eq!(spawner.schedule_trip(PersonID(0), 0, intent, &net), Ok(()));
    let mut trips = one_person();
    let mut scheduler = Scheduler::new();
    assert_eq!(spawner.finalize(&net, &mut trips, &mut scheduler, false), Ok(()));
    let building_spot = SidewalkSpot {
        sidewalk_pos: Position { lane: LaneID(0), dist_along: 500 },
        connection: SidewalkPOI::Building(BuildingID(0)),
    };
    let expected_vehicle = car_spec().make(CarID(10), Some(PersonID(0)));
    assert_eq!(
        trips.trips[0].legs,
        vec![
            TripLeg::Drive(expected_vehicle, DrivingGoal::ParkNear(BuildingID(0))),
            TripLeg::Walk(PedestrianID(0), 13, building_spot),
        ]
    );
}

#[test]
fn using_parked_car_defers_the_vehicle() {
    let net = test_net(Vec::new());
    let mut spawner = TripSpawner::new();
    let goal = DrivingGoal::Border(IntersectionID(9), LaneID(1));
    let intent = TripSpec::UsingParkedCar { start_bldg: BuildingID(0), goal, ped_speed: 13 };
    assert_eq!(spawner.schedule_trip(PersonID(0), 2, intent, &net), Ok(()));
    let mut trips = one_person();
    let mut scheduler = Scheduler::new();
    assert_eq!(spawner.finalize(&net, &mut trips, &mut scheduler, false), Ok(()));
    assert_eq!(trips.trips[0].start, TripEndpoint::Bldg(BuildingID(0)));
    let deferred = SidewalkSpot {
        sidewalk_pos: Position { lane: LaneID(0), dist_along: 500 },
        connection: SidewalkPOI::DeferredParkingSpot(BuildingID(0), goal),
    };
    // No drive leg yet: the parked vehicle is unknown until the walk ends.
    assert_eq!(trips.trips[0].legs, vec![TripLeg::Walk(PedestrianID(0), 13, deferred)]);
    match &scheduler.commands[0].1 {
        Command::StartTrip(_, _, req, path) => {
            assert!(req.is_none());
            assert!(path.is_none());
        }
    }
}

#[test]
fn bike_trip_full_expansion() {
    let net = test_net(Vec::new());
    let mut spawner = TripSpawner::new();
    let start = walk_spot(0, 100, SidewalkPOI::SuddenlyAppear);
    let goal = DrivingGoal::Border(IntersectionID(9), LaneID(1));
    let intent = TripSpec::UsingBike { start, goal, vehicle: bike_spec(), ped_speed: 13 };
    assert_eq!(spawner.schedule_trip(PersonID(0), 0, intent, &net), Ok(()));
    let mut trips = one_person();
    let mut scheduler = Scheduler::new();
    assert_eq!(spawner.finalize(&net, &mut trips, &mut scheduler, false), Ok(()));
    // A fresh bike instance, owned by nobody.
    let bike = bike_spec().make(CarID(11), None);
    assert_eq!(
        trips.trips[0].legs,
        vec![TripLeg::Walk(PedestrianID(0), 13, rack_spot()), TripLeg::Drive(bike, goal)]
    );
    assert_eq!(trips.trips[0].start, TripEndpoint::Border(IntersectionID(0)));
}

#[test]
fn finalize_unknown_person_aborts() {
    let net = test_net(Vec::new());
    let mut spawner = TripSpawner::new();
    let intent = TripSpec::JustWalking {
        start: walk_spot(0, 100, SidewalkPOI::Building(BuildingID(0))),
        goal: walk_spot(0, 900, SidewalkPOI::Border(IntersectionID(0))),
        ped_speed: 13,
    };
    assert_eq!(spawner.schedule_trip(PersonID(3), 0, intent, &net), Ok(()));
    let mut trips = one_person();
    let mut scheduler = Scheduler::new();
    assert_eq!(
        spawner.finalize(&net, &mut trips, &mut scheduler, false),
        Err(SpawnError::UnknownPerson { person: PersonID(3) })
    );
    assert!(scheduler.commands.is_empty());
    assert!(trips.trips.is_empty());
}

#[test]
fn finalize_missing_vehicle_aborts() {
    let net = test_net(Vec::new());
    let mut spawner = TripSpawner::new();
    let intent = TripSpec::CarAppearing {
        start_pos: Position { lane: LaneID(1), dist_along: 700 },
        goal: DrivingGoal::Border(IntersectionID(9), LaneID(1)),
        vehicle_spec: car_spec(),
        ped_speed: 13,
    };
    assert_eq!(spawner.schedule_trip(PersonID(0), 0, intent, &net), Ok(()));
    let mut trips = TripManager {
        persons: vec![Person {
            id: PersonID(0),
            ped: PedestrianID(0),
            car: None,
            bike: Some(CarID(11)),
        }],
        trips: Vec::new(),
    };
    let mut scheduler = Scheduler::new();
    assert_eq!(
        spawner.finalize(&net, &mut trips, &mut scheduler, false),
        Err(SpawnError::MissingVehicle { person: PersonID(0), vehicle_type: VehicleType::Car })
    );
    assert!(scheduler.commands.is_empty());
}

#[test]
fn finalize_unexpected_spot_kind_aborts() {
    let net = test_net(Vec::new());
    let mut spawner = TripSpawner::new();
    // A walking trip cannot start "at a bus stop": no trip anchor exists.
    let start = walk_spot(0, 200, SidewalkPOI::BusStop(BusStopID(0)));
    let goal = walk_spot(0, 900, SidewalkPOI::Border(IntersectionID(0)));
    let intent = TripSpec::JustWalking { start, goal, ped_speed: 13 };
    assert_eq!(spawner.schedule_trip(PersonID(0), 0, intent, &net), Ok(()));
    let mut trips = one_person();
    let mut scheduler = Scheduler::new();
    assert_eq!(
        spawner.finalize(&net, &mut trips, &mut scheduler, false),
        Err(SpawnError::UnexpectedSpotKind { connection: SidewalkPOI::BusStop(BusStopID(0)) })
    );
    assert!(scheduler.commands.is_empty());
}

#[test]
fn finalize_bike_access_gone_aborts() {
    let net = test_net(Vec::new());
    let mut spawner = TripSpawner::new();
    let intent = TripSpec::UsingBike {
        start: walk_spot(0, 100, SidewalkPOI::SuddenlyAppear),
        goal: DrivingGoal::Border(IntersectionID(9), LaneID(1)),
        vehicle: bike_spec(),
        ped_speed: 13,
    };
    assert_eq!(spawner.schedule_trip(PersonID(0), 0, intent, &net), Ok(()));
    // The same submission finalized against a network whose bike access is
    // gone must abort, not panic.
    let mut bare = test_net(Vec::new());
    bare.lanes[0].bike_rack = None;
    let mut trips = one_person();
    let mut scheduler = Scheduler::new();
    assert_eq!(
        spawner.finalize(&bare, &mut trips, &mut scheduler, false),
        Err(SpawnError::NoBikeAccess { lane: LaneID(0) })
    );
    assert!(scheduler.commands.is_empty());
}

#[test]
fn finalize_consumes_everything_in_order() {
    let net = test_net(Vec::new());
    let mut spawner = TripSpawner::new();
    let walk = TripSpec::JustWalking {
        start: walk_spot(0, 100, SidewalkPOI::Building(BuildingID(0))),
        goal: walk_spot(0, 900, SidewalkPOI::Border(IntersectionID(0))),
        ped_speed: 13,
    };
    let parked = TripSpec::UsingParkedCar {
        start_bldg: BuildingID(0),
        goal: DrivingGoal::Border(IntersectionID(9), LaneID(1)),
        ped_speed: 13,
    };
    let transit = TripSpec::UsingTransit {
        start: walk_spot(0, 100, SidewalkPOI::SuddenlyAppear),
        goal: walk_spot(0, 950, SidewalkPOI::Border(IntersectionID(0))),
        route: BusRouteID(7),
        stop1: BusStopID(0),
        stop2: BusStopID(1),
        ped_speed: 13,
    };
    assert_eq!(spawner.schedule_trip(PersonID(0), 8, walk, &net), Ok(()));
    assert_eq!(spawner.schedule_trip(PersonID(0), 6, parked, &net), Ok(()));
    assert_eq!(spawner.schedule_trip(PersonID(0), 7, transit, &net), Ok(()));
    let mut trips = one_person();
    let mut scheduler = Scheduler::new();
    assert_eq!(spawner.finalize(&net, &mut trips, &mut scheduler, false), Ok(()));
    assert_eq!(scheduler.commands.len(), 3);
    assert_eq!(trips.trips.len(), 3);
    let expected = [(8, walk), (6, parked), (7, transit)];
    for (i, (at, intent)) in expected.iter().enumerate() {
        assert_eq!(scheduler.commands[i].0, *at);
        match &scheduler.commands[i].1 {
            Command::StartTrip(t, got, _, _) => {
                assert_eq!(*t, TripID(i));
                assert_eq!(got, intent);
            }
        }
    }
}

#[test]
fn finalize_empty_buffer_schedules_nothing() {
    let net = test_net(Vec::new());
    let spawner = TripSpawner::new();
    let mut trips = TripManager::new();
    let mut scheduler = Scheduler::new();
    assert_eq!(spawner.finalize(&net, &mut trips, &mut scheduler, false), Ok(()));
    assert!(scheduler.commands.is_empty());
    assert!(trips.trips.is_empty());
}
