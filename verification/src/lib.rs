//! Trip spawning and path resolution for a multi-modal traffic
//! microsimulation.
//!
//! Callers submit declarative travel intents (drive, walk, bike or ride
//! transit from A to B at time T) to a [`spawner::TripSpawner`], which
//! validates each intent against the road network, sometimes rewriting a
//! degenerate one or dropping an infeasible one. A one-shot finalize pass
//! then resolves every routing query, expands each intent into an ordered
//! sequence of movement legs, registers the trips, and hands one scheduler
//! command per trip to the event scheduler, in submission order.
//!
//! The road network, the trip manager and the scheduler are collaborators of
//! the surrounding simulation; they appear here as plain-value models that
//! state exactly what this subsystem reads of them (lane lengths, sidewalk
//! spots, resolved routes) and what it appends to them.

pub mod ids;
pub mod importer;
pub mod network;
pub mod scheduler;
pub mod spawner;
pub mod spots;
pub mod trips;
pub mod vehicles;
