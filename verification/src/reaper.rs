//! The sweep of expired share links, as a task that recurs: compute the next
//! fire, sleep until then, sweep, and repeat, until told to stop.
//!
//! The decisions are made here, one step at a time; to sleep and to sweep is
//! for the caller, who reports back what happened. A sweep is asked for only
//! after a sleep and never while another one runs, so sweeps do not overlap.

use std::str::FromStr;
use vstd::prelude::*;

verus! {

/// The schedule of the sweep: once a day, at midnight of universal time.
pub const DAILY: &'static str = "0 0 0 * * *";

/// The error of `cron`, carried through and never looked into.
#[verifier::external_type_specification]
#[verifier::external_body]
pub struct ExCronError(cron::error::Error);

/// The first instant after `after` at which a schedule expression fires in
/// universal time, in seconds since the Unix epoch: `None` where the
/// expression is none, where `after` is no instant of the calendar, or where
/// the schedule never fires again.
pub uninterp spec fn cron_next(expression: Seq<char>, after: i64) -> Option<i64>;

/// The farthest instant from the Unix epoch, in seconds to either side, for
/// which the next fire is asked. It lies well within the calendar, so that the
/// second after an instant in range is an instant too.
pub const FARTHEST: i64 = 8_000_000_000_000;

/// Whether the next fire is asked for the instant `t`.
pub open spec fn in_range(t: i64) -> bool {
    -FARTHEST <= t <= FARTHEST
}

/// `Schedule::from_str`, `Schedule::after` on the instant that
/// `DateTime::from_timestamp` makes of `after`, and the first item of the
/// iterator, as its `timestamp`. All of it is reckoned in universal time, so
/// the result is the function of expression and instant that `cron_next`
/// names. The instant is held in range, since the search for the next fire
/// starts at the second after it.
#[verifier::external_body]
fn next_fire(expression: &str, after: i64) -> (r: Result<Option<i64>, cron::error::Error>)
    requires
        in_range(after),
    ensures
        match r {
            Ok(t) => cron_next(expression@, after) == t,
            Err(_) => cron_next(expression@, after) is None,
        },
{
    let schedule = cron::Schedule::from_str(expression)?;
    Ok(
        match chrono::DateTime::from_timestamp(after, 0) {
            Some(start) => schedule.after(&start).next().map(|t| t.timestamp()),
            None => None,
        },
    )
}

/// Where the task stands.
#[derive(Clone, Copy, Debug, PartialEq, Eq, Structural)]
pub enum ReaperState {
    /// Not started yet.
    Idle,
    /// Asleep until the fire at `until`.
    Sleeping { until: i64 },
    /// A sweep was asked for and has not reported back.
    Sweeping,
    /// Stopped for good.
    Stopped,
}

/// What the caller reports.
#[derive(Clone, Copy, Debug, PartialEq, Eq, Structural)]
pub enum ReaperEvent {
    /// The task is started at `now`.
    Started { now: i64 },
    /// A sleep ended at `now`.
    Woke { now: i64 },
    /// A sweep ended at `now`, whether or not it succeeded.
    Swept { now: i64 },
    /// The process is shutting down.
    Shutdown,
}

/// What the caller is to do next.
#[derive(Clone, Copy, Debug, PartialEq, Eq, Structural)]
pub enum ReaperAction {
    /// Sleep for so many seconds, then report `Woke`.
    Sleep { seconds: u64 },
    /// Sweep the store, then report `Swept`.
    Sweep,
    /// End the task.
    Stop,
}

/// The step that plans the next fire after `now`: a sleep until then, or the
/// end of the task where `now` is out of range or the schedule has no fire
/// after `now`.
pub open spec fn plan_spec(expression: Seq<char>, now: i64) -> (ReaperState, ReaperAction) {
    if !in_range(now) {
        (ReaperState::Stopped, ReaperAction::Stop)
    } else {
        match cron_next(expression, now) {
            Some(t) => if t > now {
                (
                    ReaperState::Sleeping { until: t },
                    ReaperAction::Sleep { seconds: (t - now) as u64 },
                )
            } else {
                (ReaperState::Stopped, ReaperAction::Stop)
            },
            None => (ReaperState::Stopped, ReaperAction::Stop),
        }
    }
}

/// The next state and the action for a state and an event. A shutdown stops
/// the task from every state, and a stopped task stays stopped. A started
/// task, and one whose sweep has ended, plans its next fire. A task that wakes
/// at or after its fire sweeps; one that wakes before it sleeps on. An event
/// that a state does not wait for changes nothing about what the task waits
/// for: the action is repeated.
pub open spec fn step_spec(expression: Seq<char>, state: ReaperState, event: ReaperEvent) -> (
    ReaperState,
    ReaperAction,
) {
    match (state, event) {
        (_, ReaperEvent::Shutdown) => (ReaperState::Stopped, ReaperAction::Stop),
        (ReaperState::Stopped, _) => (ReaperState::Stopped, ReaperAction::Stop),
        (ReaperState::Idle, ReaperEvent::Started { now }) => plan_spec(expression, now),
        (ReaperState::Idle, ReaperEvent::Woke { now }) => plan_spec(expression, now),
        (ReaperState::Idle, ReaperEvent::Swept { now }) => plan_spec(expression, now),
        (ReaperState::Sweeping, ReaperEvent::Swept { now }) => plan_spec(expression, now),
        (ReaperState::Sweeping, _) => (ReaperState::Sweeping, ReaperAction::Sweep),
        (ReaperState::Sleeping { until }, ReaperEvent::Woke { now }) => if now >= until {
            (ReaperState::Sweeping, ReaperAction::Sweep)
        } else {
            (ReaperState::Sleeping { until }, ReaperAction::Sleep { seconds: (until - now) as u64 })
        },
        (ReaperState::Sleeping { until }, ReaperEvent::Started { now }) => sleep_on(until, now),
        (ReaperState::Sleeping { until }, ReaperEvent::Swept { now }) => sleep_on(until, now),
    }
}

/// The sleep that is left at `now` of a sleep until `until`; none where the
/// fire has passed.
pub open spec fn sleep_on(until: i64, now: i64) -> (ReaperState, ReaperAction) {
    (
        ReaperState::Sleeping { until },
        ReaperAction::Sleep {
            seconds: if until > now {
                (until - now) as u64
            } else {
                0
            },
        },
    )
}

fn seconds_between(from: i64, to: i64) -> (r: u64)
    requires
        from <= to,
    ensures
        r == to - from,
{
    let span: i128 = (to as i128) - (from as i128);
    span as u64
}

fn plan(expression: &str, now: i64) -> (r: (ReaperState, ReaperAction))
    ensures
        r == plan_spec(expression@, now),
{
    if now < -FARTHEST || now > FARTHEST {
        return (ReaperState::Stopped, ReaperAction::Stop);
    }
    match next_fire(expression, now) {
        Ok(Some(t)) => {
            if t > now {
                (
                    ReaperState::Sleeping { until: t },
                    ReaperAction::Sleep { seconds: seconds_between(now, t) },
                )
            } else {
                (ReaperState::Stopped, ReaperAction::Stop)
            }
        },
        _ => (ReaperState::Stopped, ReaperAction::Stop),
    }
}

/// Makes one step of the task under the schedule `expression`. A sweep is
/// asked for from the state `Sleeping` only, and leaves the state `Sweeping`,
/// from which no second sweep is started before `Swept` was reported.
pub fn step(expression: &str, state: ReaperState, event: ReaperEvent) -> (r: (
    ReaperState,
    ReaperAction,
))
    ensures
        r == step_spec(expression@, state, event),
        r.1 == ReaperAction::Sweep ==> r.0 == ReaperState::Sweeping && (state
            == ReaperState::Sweeping || state is Sleeping),
        r.0 == ReaperState::Sweeping <==> r.1 == ReaperAction::Sweep,
        r.0 == ReaperState::Stopped <==> r.1 == ReaperAction::Stop,
{
    match (state, event) {
        (_, ReaperEvent::Shutdown) => (ReaperState::Stopped, ReaperAction::Stop),
        (ReaperState::Stopped, _) => (ReaperState::Stopped, ReaperAction::Stop),
        (ReaperState::Idle, ReaperEvent::Started { now }) => plan(expression, now),
        (ReaperState::Idle, ReaperEvent::Woke { now }) => plan(expression, now),
        (ReaperState::Idle, ReaperEvent::Swept { now }) => plan(expression, now),
        (ReaperState::Sweeping, ReaperEvent::Swept { now }) => plan(expression, now),
        (ReaperState::Sweeping, _) => (ReaperState::Sweeping, ReaperAction::Sweep),
        (ReaperState::Sleeping { until }, ReaperEvent::Woke { now }) => {
            if now >= until {
                (ReaperState::Sweeping, ReaperAction::Sweep)
            } else {
                (
                    ReaperState::Sleeping { until },
                    ReaperAction::Sleep { seconds: seconds_between(now, until) },
                )
            }
        },
        (ReaperState::Sleeping { until }, ReaperEvent::Started { now }) => rest(until, now),
        (ReaperState::Sleeping { until }, ReaperEvent::Swept { now }) => rest(until, now),
    }
}

fn rest(until: i64, now: i64) -> (r: (ReaperState, ReaperAction))
    ensures
        r == sleep_on(until, now),
{
    let seconds = if until > now {
        seconds_between(now, until)
    } else {
        0
    };
    (ReaperState::Sleeping { until }, ReaperAction::Sleep { seconds })
}

} // verus!
