//! The front door: the codes it reports to its owner, the worker entry
//! points it is configured with, and the decisions of its accept loop.

use vstd::prelude::*;

verus! {

/// What the server reports on its callback channel.
#[derive(PartialEq, Eq, Structural, Clone, Copy, Debug)]
pub enum ServerCodes {
    Listening,
    Failure,
}

/// Optional entry points of the main and the events worker.
pub struct WorkerEntrypoints {
    pub main: Option<String>,
    pub events: Option<String>,
}

/// What the accept loop woke up to.
#[derive(PartialEq, Eq, Structural, Clone, Copy, Debug)]
pub enum FrontDoorEvent {
    /// A socket was accepted.
    Accepted,
    /// Accepting failed.
    AcceptFailed,
    /// An interrupt signal arrived.
    Interrupt,
}

/// What the accept loop does next.
#[derive(PartialEq, Eq, Structural, Clone, Copy, Debug)]
pub enum FrontDoorAction {
    /// Spawn a connection service for the socket and keep accepting.
    Serve,
    /// Log the failure and keep accepting.
    LogAndContinue,
    /// Leave the loop; connections in flight drain on their own.
    Stop,
}

/// The accept loop stops on an interrupt only while the signal handler is on.
pub open spec fn front_door_next(event: FrontDoorEvent, signal_handler: bool) -> FrontDoorAction {
    match event {
        FrontDoorEvent::Accepted => FrontDoorAction::Serve,
        FrontDoorEvent::AcceptFailed => FrontDoorAction::LogAndContinue,
        FrontDoorEvent::Interrupt => if signal_handler {
            FrontDoorAction::Stop
        } else {
            FrontDoorAction::LogAndContinue
        },
    }
}

pub fn next_action(event: FrontDoorEvent, signal_handler: bool) -> (r: FrontDoorAction)
    ensures
        r == front_door_next(event, signal_handler),
{
    match event {
        FrontDoorEvent::Accepted => FrontDoorAction::Serve,
        FrontDoorEvent::AcceptFailed => FrontDoorAction::LogAndContinue,
        FrontDoorEvent::Interrupt => if signal_handler {
            FrontDoorAction::Stop
        } else {
            FrontDoorAction::LogAndContinue
        },
    }
}

} // verus!
