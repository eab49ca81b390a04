//! The event-scheduler collaborator, modeled at its interface: commands are
//! appended with their start times in insertion order, and the scheduler
//! keeps that order among equal timestamps.

use vstd::prelude::*;

use crate::ids::TripID;
use crate::network::{Path, PathRequest};
use crate::spawner::TripSpec;

verus! {

/// A command the rest of the simulation executes at its timestamp.
#[derive(Debug, PartialEq, Eq)]
pub enum Command {
    /// Start this trip: the intent it came from, the routing query derived
    /// from it (if any), and the resolved route ("no route" is carried
    /// through as an explicit `None`, never dropped).
    StartTrip(TripID, TripSpec, Option<PathRequest>, Option<Path>),
}

/// The shared, time-ordered event scheduler.
pub struct Scheduler {
    pub commands: Vec<(u64, Command)>,
}

impl Scheduler {
    pub fn new() -> (r: Scheduler)
        ensures
            r.commands@.len() == 0,
    {
        Scheduler { commands: Vec::new() }
    }

    /// Appends a command at the given start time.
    pub fn push(&mut self, at: u64, cmd: Command)
        ensures
            final(self).commands@ == old(self).commands@.push((at, cmd)),
    {
        self.commands.push((at, cmd));
    }
}

} // verus!
