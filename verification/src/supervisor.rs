//! The reconnect supervisor: the connect → dispatch → backoff cycle.
//!
//! The runtime spawns one supervisor task per accepted `connect` call. Each
//! cycle it reads the current URL, dials with the per-attempt deadline (and
//! runs the handshake hook when one is installed), and hands the outcome of
//! the attempt to [`attempt_step`]. The effects tell it what to do: fire the
//! first-connect one-shot, run the dispatcher, sleep the retry interval, or
//! stop. When the dispatcher returns it calls [`dispatcher_returned`] and
//! loops again exactly when that says so.

use vstd::prelude::*;

use crate::error::Error;
use crate::interface::WebSocketInterface;
use crate::options::ConnectStrategy;

verus! {

/// The state a supervisor task carries across attempts: the per-connect
/// policy and whether the caller's first-connect one-shot is still armed.
#[derive(Clone, Copy, Debug, PartialEq, Eq, Structural)]
pub struct SupervisorTask {
    /// The retry or fallback policy of this connect call.
    pub strategy: ConnectStrategy,
    /// Whether the connect call blocks on the first outcome.
    pub block_async_connect: bool,
    /// Whether the first-connect one-shot has not been fired yet.
    pub trigger_armed: bool,
}

/// How one dial attempt ended.
#[derive(Clone, Copy, Debug, PartialEq, Eq, Structural)]
pub enum AttemptOutcome {
    /// The transport is connected and the handshake (if any) succeeded.
    Connected,
    /// The dial failed with this error.
    DialFailed(Error),
    /// The dial exceeded the per-attempt deadline.
    DialTimeout,
    /// The transport connected but the handshake hook failed.
    HandshakeFailed,
}

/// What is fired into the caller's first-connect one-shot.
#[derive(Clone, Copy, Debug, PartialEq, Eq, Structural)]
pub enum TriggerSignal {
    /// The first connection is up.
    Success,
    /// The first attempt failed terminally with this error.
    Failure(Error),
}

/// Everything one attempt step asks the runtime to do.
#[derive(Clone, Copy, Debug, PartialEq, Eq, Structural)]
pub struct AttemptEffects {
    /// Fire this into the first-connect one-shot, if anything.
    pub fire: Option<TriggerSignal>,
    /// Run the dispatcher over the connected transport.
    pub run_dispatcher: bool,
    /// Sleep the retry interval, then dial again.
    pub sleep: bool,
    /// The supervisor ends now.
    pub stopped: bool,
}

/// The error a failed attempt reports: the dial error itself, the distinct
/// `ConnectionTimeout` kind for a missed deadline, and `NegotiationFailure`
/// for a failed handshake.
pub open spec fn outcome_error(outcome: AttemptOutcome) -> Error
    recommends
        !(outcome is Connected),
{
    match outcome {
        AttemptOutcome::Connected => Error::ConnectionTimeout,
        AttemptOutcome::DialFailed(e) => e,
        AttemptOutcome::DialTimeout => Error::ConnectionTimeout,
        AttemptOutcome::HandshakeFailed => Error::NegotiationFailure,
    }
}

/// The task state after one attempt: connecting disarms the one-shot (it is
/// fired with success); a failure under `Fallback` disarms it exactly when
/// it fires the failure (armed and blocking); a failure under `Retry` leaves
/// it armed.
pub open spec fn attempt_task(task: SupervisorTask, outcome: AttemptOutcome) -> SupervisorTask {
    match outcome {
        AttemptOutcome::Connected => SupervisorTask { trigger_armed: false, ..task },
        _ => if task.strategy is Fallback && task.trigger_armed && task.block_async_connect {
            SupervisorTask { trigger_armed: false, ..task }
        } else {
            task
        },
    }
}

/// The effects of one attempt, per the reconnect policy.
pub open spec fn attempt_effects(task: SupervisorTask, outcome: AttemptOutcome) -> AttemptEffects {
    match outcome {
        AttemptOutcome::Connected => AttemptEffects {
            fire: if task.trigger_armed {
                Some(TriggerSignal::Success)
            } else {
                None
            },
            run_dispatcher: true,
            sleep: false,
            stopped: false,
        },
        _ => if task.strategy is Fallback {
            AttemptEffects {
                fire: if task.trigger_armed && task.block_async_connect {
                    Some(TriggerSignal::Failure(outcome_error(outcome)))
                } else {
                    None
                },
                run_dispatcher: false,
                sleep: false,
                stopped: true,
            }
        } else {
            AttemptEffects { fire: None, run_dispatcher: false, sleep: true, stopped: false }
        },
    }
}

/// Processes the outcome of one dial attempt.
///
/// Connected: `is_open` rises, the one-shot (if still armed) is fired with
/// success, and the dispatcher runs. Any failure: under `Fallback` the
/// one-shot — if still armed and the connect call blocks — is fired with the
/// failure, and the supervisor stops; under `Retry` the supervisor sleeps
/// the retry interval and dials again. Only a successful attempt changes
/// `is_open`.
pub fn attempt_step(
    iface: &mut WebSocketInterface,
    task: &mut SupervisorTask,
    outcome: AttemptOutcome,
) -> (effects: AttemptEffects)
    requires
        !old(iface).is_open,
    ensures
        final (iface).is_open == (outcome is Connected),
        final (iface).url == old(iface).url,
        final (iface).reconnect == old(iface).reconnect,
        final (iface).handshake == old(iface).handshake,
        final (iface).inner_active == old(iface).inner_active,
        *final (task) == attempt_task(*old(task), outcome),
        effects == attempt_effects(*old(task), outcome),
{
    match outcome {
        AttemptOutcome::Connected => {
            iface.is_open = true;
            let fire = if task.trigger_armed {
                Some(TriggerSignal::Success)
            } else {
                None
            };
            task.trigger_armed = false;
            AttemptEffects { fire, run_dispatcher: true, sleep: false, stopped: false }
        },
        _ => {
            if task.strategy.is_fallback() {
                let fire = if task.trigger_armed && task.block_async_connect {
                    task.trigger_armed = false;
                    let e = match outcome {
                        AttemptOutcome::DialFailed(e) => e,
                        AttemptOutcome::DialTimeout => Error::ConnectionTimeout,
                        _ => Error::NegotiationFailure,
                    };
                    Some(TriggerSignal::Failure(e))
                } else {
                    None
                };
                AttemptEffects { fire, run_dispatcher: false, sleep: false, stopped: true }
            } else {
                AttemptEffects { fire: None, run_dispatcher: false, sleep: true, stopped: false }
            }
        },
    }
}

/// Processes the dispatcher's return: `is_open` falls, and the supervisor
/// dials again exactly when reconnection is still enabled.
pub fn dispatcher_returned(iface: &mut WebSocketInterface) -> (dial_again: bool)
    requires
        old(iface).is_open,
    ensures
        final (iface).is_open == false,
        final (iface).url == old(iface).url,
        final (iface).reconnect == old(iface).reconnect,
        final (iface).handshake == old(iface).handshake,
        final (iface).inner_active == old(iface).inner_active,
        dial_again == old(iface).reconnect,
{
    iface.is_open = false;
    iface.reconnect
}

/// `is_open` transitions only as false → true on dispatcher entry and
/// true → false on dispatcher exit: an attempt step — which requires the
/// flag down — raises it exactly when it runs the dispatcher, and
/// [`dispatcher_returned`] — which requires the flag up — always lowers it.
/// No other function of the library changes the flag.
pub proof fn lemma_is_open_transitions(task: SupervisorTask, outcome: AttemptOutcome)
    ensures
        attempt_effects(task, outcome).run_dispatcher == (outcome is Connected),
{
}

/// Whether every outcome of a sequence is a failure.
pub open spec fn all_failures(outcomes: Seq<AttemptOutcome>) -> bool {
    forall|i: int| 0 <= i < outcomes.len() ==> !((#[trigger] outcomes[i]) is Connected)
}

/// The task state after a sequence of attempts.
pub open spec fn task_after(task: SupervisorTask, outcomes: Seq<AttemptOutcome>) -> SupervisorTask
    decreases outcomes.len(),
{
    if outcomes.len() == 0 {
        task
    } else {
        task_after(attempt_task(task, outcomes[0]), outcomes.skip(1))
    }
}

/// Under `Retry`, failing dials change nothing of the task state.
pub proof fn lemma_retry_task_constant(task: SupervisorTask, outcomes: Seq<AttemptOutcome>)
    requires
        task.strategy is Retry,
        all_failures(outcomes),
    ensures
        task_after(task, outcomes) == task,
    decreases outcomes.len(),
{
    if outcomes.len() == 0 {
    } else {
        assert(attempt_task(task, outcomes[0]) == task);
        assert(all_failures(outcomes.skip(1))) by {
            assert(forall|i: int|
                0 <= i < outcomes.skip(1).len() ==> outcomes.skip(1)[i] == outcomes[i + 1]);
        }
        lemma_retry_task_constant(task, outcomes.skip(1));
    }
}

/// Under `Retry`, any finite sequence of failing dials leaves the
/// supervisor alive: no step stops it, no step runs the dispatcher (so
/// nothing is published on the receiver channel), no step fires the
/// one-shot; every step just sleeps the retry interval.
pub proof fn lemma_retry_supervisor_alive(task: SupervisorTask, outcomes: Seq<AttemptOutcome>)
    requires
        task.strategy is Retry,
        all_failures(outcomes),
    ensures
        forall|i: int|
            0 <= i < outcomes.len() ==> #[trigger] attempt_effects(
                task_after(task, outcomes.take(i)),
                outcomes[i],
            ) == (AttemptEffects { fire: None, run_dispatcher: false, sleep: true, stopped: false }),
{
    assert forall|i: int| 0 <= i < outcomes.len() implies #[trigger] attempt_effects(
        task_after(task, outcomes.take(i)),
        outcomes[i],
    ) == (AttemptEffects {
        fire: None,
        run_dispatcher: false,
        sleep: true,
        stopped: false,
    }) by {
        assert(all_failures(outcomes.take(i))) by {
            assert(forall|j: int|
                0 <= j < outcomes.take(i).len() ==> outcomes.take(i)[j] == outcomes[j]);
        }
        lemma_retry_task_constant(task, outcomes.take(i));
    }
}

/// Under `Fallback` with a blocking connect, the first failing dial fires
/// the caller's one-shot with exactly that failure and ends the supervisor
/// without running a dispatcher.
pub proof fn lemma_fallback_failure_resolves_connect(task: SupervisorTask, outcome: AttemptOutcome)
    requires
        task.strategy is Fallback,
        task.block_async_connect,
        task.trigger_armed,
        !(outcome is Connected),
    ensures
        attempt_effects(task, outcome).fire == Some(TriggerSignal::Failure(outcome_error(outcome))),
        attempt_effects(task, outcome).stopped,
        !attempt_effects(task, outcome).run_dispatcher,
        !attempt_task(task, outcome).trigger_armed,
{
}

/// The first-connect one-shot fires at most once: once the task is
/// disarmed, no step fires anything, and every step keeps it disarmed.
pub proof fn lemma_trigger_fires_at_most_once(task: SupervisorTask, outcome: AttemptOutcome)
    requires
        !task.trigger_armed,
    ensures
        attempt_effects(task, outcome).fire is None,
        !attempt_task(task, outcome).trigger_armed,
{
}

} // verus!
