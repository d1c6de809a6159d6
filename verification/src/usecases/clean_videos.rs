use std::sync::Arc;
use vstd::prelude::*;

use crate::common::error::Error;
use crate::usecases::gateways::Video;

verus! {

/// How old a scratch file must be to be removed, and how long the sweeper
/// rests between passes: two minutes.
pub const STALE_SECONDS: u64 = 2 * 60;

/// The retention sweep: reclaims the scratch space of the video backend.
pub struct CleanVideos<V: Video> {
    video: Arc<V>,
}

/// Builds the sweep over the video gateway.
pub fn new<V: Video>(video: Arc<V>) -> (sweep: CleanVideos<V>)
    ensures
        *sweep.video() == *video,
{
    CleanVideos { video }
}

/// What the sweeper's loop has just seen.
#[derive(Debug, PartialEq, Eq)]
pub enum SweeperEvent {
    /// The loop has been started.
    Started,
    /// A pass has ended, well or not.
    PassFinished(Result<(), Error>),
    /// The rest between two passes is over.
    Rested,
    /// The process is shutting down.
    Shutdown,
}

/// What the sweeper's loop is to do next.
#[derive(Debug, Clone, PartialEq, Eq)]
pub enum SweeperAction {
    /// Run one pass.
    RunPass,
    /// Rest for `seconds`; `report` is the failure of the pass that just
    /// ended, to be logged.
    Rest { seconds: u64, report: Option<Error> },
    /// Leave the loop.
    Stop,
}

/// The loop's rule. Only a shutdown ends it; a failed pass is reported and
/// followed by the same rest as a good one.
pub open spec fn next_action(event: SweeperEvent) -> SweeperAction {
    match event {
        SweeperEvent::Shutdown => SweeperAction::Stop,
        SweeperEvent::Started => SweeperAction::RunPass,
        SweeperEvent::Rested => SweeperAction::RunPass,
        SweeperEvent::PassFinished(Ok(_)) => SweeperAction::Rest {
            seconds: STALE_SECONDS,
            report: None,
        },
        SweeperEvent::PassFinished(Err(e)) => SweeperAction::Rest {
            seconds: STALE_SECONDS,
            report: Some(e),
        },
    }
}

impl<V: Video> CleanVideos<V> {
    /// The video gateway this sweep goes through.
    pub closed spec fn video(&self) -> &V {
        &*self.video
    }

    /// Runs one pass: asks the video gateway to remove the scratch files
    /// that are older than `STALE_SECONDS`, and hands its answer on. The
    /// rest that follows a pass is the caller's to take.
    pub fn execute(&self) -> (res: Result<(), Error>)
        ensures
            call_ensures(V::clean, (self.video(), STALE_SECONDS), res),
    {
        self.video.clean(STALE_SECONDS)
    }
}

/// Decides what the sweeper's loop does after `event`.
pub fn next(event: SweeperEvent) -> (action: SweeperAction)
    ensures
        action == next_action(event),
{
    match event {
        SweeperEvent::Shutdown => SweeperAction::Stop,
        SweeperEvent::Started => SweeperAction::RunPass,
        SweeperEvent::Rested => SweeperAction::RunPass,
        SweeperEvent::PassFinished(Ok(_)) => SweeperAction::Rest {
            seconds: STALE_SECONDS,
            report: None,
        },
        SweeperEvent::PassFinished(Err(e)) => SweeperAction::Rest {
            seconds: STALE_SECONDS,
            report: Some(e),
        },
    }
}

} // verus!
