//! The decisions of the two activities that keep the service alive: the
//! watch on the configuration files, and the timer that ends an idle
//! service. The activities themselves wait for the file system and for the
//! bus; what they do with what they see is decided here.

use vstd::prelude::*;
use crate::errors::{with_context, Collaborator, DCtx, DErrorType, DResult};

verus! {

/// The name of the configuration file in its directory.
pub const CONFIG_FILE_NAME: &'static str = "grub";

/// The name of the environment file in its directory.
pub const ENV_FILE_NAME: &'static str = "grubenv";

/// The time between two looks at the bus, in milliseconds.
pub const IDLE_POLL_INTERVAL: u64 = 100;

/// The time after which the watch reads again when nothing was there to be
/// read, in milliseconds. Shutdown is noticed no later than that.
pub const WATCH_RETRY_INTERVAL: u64 = 100;

/// The context of errors with which an activity ends the service.
pub const EVENTS_CONTEXT: &'static str = "listening for events";

/// A change that the watch reported.
#[derive(Debug)]
pub struct FileEvent {
    /// Whether the content of a file was modified.
    pub modified: bool,
    /// The name of the file in the watched directory, where the watch gave
    /// one.
    pub name: Option<String>,
}

impl FileEvent {
    /// Whether the event says that the configuration file or the
    /// environment file was modified.
    pub open spec fn is_config_change(self) -> bool {
        self.modified && (self.name matches Some(name) && (name@ == CONFIG_FILE_NAME@ || name@
            == ENV_FILE_NAME@))
    }

    /// Whether the event says that the configuration file or the
    /// environment file was modified.
    pub fn concerns_config(&self) -> (b: bool)
        ensures
            b == self.is_config_change(),
    {
        if !self.modified {
            return false;
        }
        match &self.name {
            Some(name) => {
                let config = CONFIG_FILE_NAME.to_owned();
                let env = ENV_FILE_NAME.to_owned();
                *name == config || *name == env
            },
            None => false,
        }
    }
}

/// The position of the first event of a batch that calls for a
/// notification.
pub open spec fn first_config_change(events: Seq<FileEvent>) -> Option<int>
    decreases events.len(),
{
    if events.len() == 0 {
        None
    } else {
        match first_config_change(events.drop_last()) {
            Some(at) => Some(at),
            None => if events.last().is_config_change() {
                Some(events.len() - 1)
            } else {
                None
            },
        }
    }
}

/// The number of notifications that a batch of events calls for: one if
/// any of its events is a change of the configuration, whatever their
/// number, and none otherwise.
pub open spec fn notifications(events: Seq<FileEvent>) -> nat {
    if first_config_change(events) is Some {
        1
    } else {
        0
    }
}

/// `first_config_change` finds the first event that is a change of the
/// configuration.
pub proof fn lemma_first_config_change(events: Seq<FileEvent>)
    ensures
        match first_config_change(events) {
            Some(at) => {
                &&& 0 <= at < events.len()
                &&& events[at].is_config_change()
                &&& forall|j: int| 0 <= j < at ==> !(#[trigger] events[j]).is_config_change()
            },
            None => forall|j: int| 0 <= j < events.len() ==> !(#[trigger] events[j]).is_config_change(),
        },
    decreases events.len(),
{
    if events.len() > 0 {
        let front = events.drop_last();
        lemma_first_config_change(front);
        assert forall|j: int| 0 <= j < front.len() implies front[j] == events[j] by {}
    }
}

/// A batch calls for one notification, however many of its events are
/// changes of the configuration, and for none if none is.
pub proof fn lemma_one_notification_per_batch(events: Seq<FileEvent>)
    ensures
        notifications(events) <= 1,
        notifications(events) == 1 <==> exists|i: int|
            0 <= i < events.len() && (#[trigger] events[i]).is_config_change(),
{
    lemma_first_config_change(events);
}

/// The event of a batch for which the one notification of that batch is
/// sent: the first that is a change of the configuration.
pub fn batch_trigger(events: &Vec<FileEvent>) -> (trigger: Option<usize>)
    ensures
        match first_config_change(events@) {
            Some(at) => trigger == Some(at as usize),
            None => trigger is None,
        },
{
    let mut i: usize = 0;
    while i < events.len()
        invariant
            i <= events.len(),
            first_config_change(events@.take(i as int)) is None,
        decreases events.len() - i,
    {
        proof {
            assert(events@.take(i + 1).drop_last() =~= events@.take(i as int));
        }
        if events[i].concerns_config() {
            proof {
                lemma_first_found_stays(events@, i + 1, i as int);
            }
            return Some(i);
        }
        i += 1;
    }
    proof {
        assert(events@.take(i as int) =~= events@);
    }
    None
}

/// What is first in a leading part of a batch is first in the batch.
proof fn lemma_first_found_stays(events: Seq<FileEvent>, n: int, at: int)
    requires
        0 <= n <= events.len(),
        first_config_change(events.take(n)) == Some(at),
    ensures
        first_config_change(events) == Some(at),
    decreases events.len() - n,
{
    if n == events.len() {
        assert(events.take(n) =~= events);
    } else {
        assert(events.take(n + 1).drop_last() =~= events.take(n));
        lemma_first_found_stays(events, n + 1, at);
    }
}

/// What a read of the watch gave.
#[derive(Debug)]
pub enum ReadOutcome {
    /// A batch of events that were read together.
    Events(Vec<FileEvent>),
    /// Nothing was there to be read.
    WouldBlock,
    /// The read failed.
    Failed,
}

/// What the watch does next.
#[derive(Debug, Clone, Copy, PartialEq, Eq, Structural)]
pub enum WatchAction {
    /// End the activity.
    Stop,
    /// Read from the watch.
    Read,
}

/// What the watch does with what it read.
#[derive(Debug, Clone, Copy, PartialEq, Eq, Structural)]
pub enum ReadReaction {
    /// Send one notification, for the event at this position of the batch.
    Notify(usize),
    /// Go on without a notification.
    Proceed,
    /// Give up: the watch cannot be read.
    Abort,
}

/// What the watch does before each read: it ends once shutdown was asked
/// for, whatever the file system did in the meantime, and reads otherwise.
pub fn next_watch_action(shutdown_requested: bool) -> (action: WatchAction)
    ensures
        action == if shutdown_requested {
            WatchAction::Stop
        } else {
            WatchAction::Read
        },
{
    if shutdown_requested {
        WatchAction::Stop
    } else {
        WatchAction::Read
    }
}

/// What the watch does with what it read: one notification for a batch
/// that holds a change of the configuration, nothing for any other batch
/// and for a read that found nothing, and no further read after one that
/// failed.
pub fn react_to_read(outcome: &ReadOutcome) -> (reaction: ReadReaction)
    ensures
        reaction == match outcome {
            ReadOutcome::Events(events) => match first_config_change(events@) {
                Some(at) => ReadReaction::Notify(at as usize),
                None => ReadReaction::Proceed,
            },
            ReadOutcome::WouldBlock => ReadReaction::Proceed,
            ReadOutcome::Failed => ReadReaction::Abort,
        },
{
    match outcome {
        ReadOutcome::Events(events) => match batch_trigger(events) {
            Some(at) => ReadReaction::Notify(at),
            None => ReadReaction::Proceed,
        },
        ReadOutcome::WouldBlock => ReadReaction::Proceed,
        ReadOutcome::Failed => ReadReaction::Abort,
    }
}

/// The time for which the bus has been idle, measured against the time it
/// may be.
#[derive(Debug, Clone, Copy)]
pub struct IdleTimer {
    elapsed: u64,
    timeout: Option<u64>,
}

/// The idle time after one more interval: none if there was activity, and
/// one interval more if there was none.
pub open spec fn idle_after(elapsed: u64, activity: bool) -> u64 {
    if activity {
        0
    } else if elapsed + IDLE_POLL_INTERVAL > u64::MAX {
        u64::MAX
    } else {
        (elapsed + IDLE_POLL_INTERVAL) as u64
    }
}

impl IdleTimer {
    /// The idle time so far, in milliseconds.
    pub closed spec fn idle(self) -> u64 {
        self.elapsed
    }

    /// The idle time after which the service ends, if there is one.
    pub closed spec fn limit(self) -> Option<u64> {
        self.timeout
    }

    /// Whether the timer goes on waiting: it has a limit that the idle time
    /// has not reached, and shutdown was not asked for.
    pub open spec fn waits(self, shutdown_requested: bool) -> bool {
        self.limit() matches Some(limit) && self.idle() < limit && !shutdown_requested
    }

    /// A timer for a bus that has not been idle yet.
    pub fn new(timeout: Option<u64>) -> (timer: Self)
        ensures
            timer.idle() == 0,
            timer.limit() == timeout,
    {
        Self { elapsed: 0, timeout }
    }

    /// Whether the timer goes on waiting. A timer without a limit never
    /// waits.
    pub fn is_waiting(&self, shutdown_requested: bool) -> (waiting: bool)
        ensures
            waiting == self.waits(shutdown_requested),
    {
        match self.timeout {
            Some(limit) => self.elapsed < limit && !shutdown_requested,
            None => false,
        }
    }

    /// Takes in what one more interval showed.
    pub fn record(&mut self, activity: bool)
        ensures
            final(self).idle() == idle_after(old(self).idle(), activity),
            final(self).limit() == old(self).limit(),
    {
        if activity {
            self.elapsed = 0;
        } else {
            self.elapsed = self.elapsed.saturating_add(IDLE_POLL_INTERVAL);
        }
    }

    /// The idle time so far, in milliseconds.
    pub fn elapsed(&self) -> (millis: u64)
        ensures
            millis == self.idle(),
    {
        self.elapsed
    }
}

/// One of the two activities.
#[derive(Debug, Clone, Copy, PartialEq, Eq, Structural)]
pub enum Activity {
    /// The watch on the configuration files.
    FileWatch,
    /// The timer that ends an idle service.
    IdleTimeout,
}

/// The message for an activity that did not come to an end of its own.
pub open spec fn broken_message(activity: Activity) -> Seq<char> {
    match activity {
        Activity::FileWatch => "File change detection panicked"@,
        Activity::IdleTimeout => "Idle detection panicked"@,
    }
}

/// Whether the timer takes part in the race of the two activities: only if
/// the service was given a time that it may stay idle.
pub fn idle_timeout_enabled(timeout: Option<u64>) -> (enabled: bool)
    ensures
        enabled == timeout is Some,
{
    timeout.is_some()
}

/// How the service ends, given the activity that was first to end and how
/// it ended: with the result of that activity, or, where the activity broke
/// off for the reason `Err(cause)`, with an error that says which one did.
pub fn conclude(first: Activity, ended: Result<DResult<()>, String>) -> (r: DResult<()>)
    ensures
        match ended {
            Ok(result) => r == result,
            Err(cause) => r matches Err(e) && e.context()@ == EVENTS_CONTEXT@ && (e.kind() matches DErrorType::Io(
                msg,
                why,
            ) && msg@ == broken_message(first) && why == cause),
        },
{
    match ended {
        Ok(result) => result,
        Err(cause) => {
            let message = match first {
                Activity::FileWatch => "File change detection panicked".to_owned(),
                Activity::IdleTimeout => "Idle detection panicked".to_owned(),
            };
            with_context(Err(cause), Collaborator::Files, DCtx::new(EVENTS_CONTEXT.to_owned()), message)
        },
    }
}

} // verus!
