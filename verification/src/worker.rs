//! One step of the background worker's polling loop.
//!
//! The worker multiplexes two wait conditions — an external menu event and
//! the one-shot shutdown signal — by level-triggered polling. The host
//! thread runs the loop itself (polling the two sources, sleeping,
//! forwarding commands); each turn's decision is taken here. The retry
//! sleep is clamped so that a pending shutdown signal is observed within
//! the clamp bound however large the configured delay is.

use vstd::prelude::*;

use crate::commands::{translate_spec, translate_menu_event, IdSelectorMap, UICommandEnum,
    TrayMenuEventEnum};

verus! {

/// The longest the worker may sleep between polls, in milliseconds.
pub const RETRY_SLEEP_CAP_MS: u64 = 50;

/// What one poll of the worker's two sources found.
#[derive(Clone, Copy, Debug, PartialEq, Eq, Structural)]
pub enum WorkerPoll {
    /// The shutdown signal is pending.
    ShutdownSignal,
    /// A menu entry with this identifier key was activated.
    MenuEvent(u64),
    /// Neither source had anything.
    Empty,
}

/// What the worker does with the turn.
#[derive(Clone, Copy, Debug, PartialEq, Eq, Structural)]
pub enum WorkerAction {
    /// Leave the loop; the thread ends.
    Exit,
    /// Send `command` to the foreground loop, request a repaint if the send
    /// succeeded, and leave the loop afterwards if `exit_after` holds.
    Forward { command: UICommandEnum, exit_after: bool },
    /// An identifier outside the table: do nothing and poll again at once.
    Ignore,
    /// Nothing was pending: sleep this many milliseconds, then poll again.
    Sleep { ms: u64 },
}

/// The configured retry delay clamped to the cap.
pub open spec fn clamped_retry_delay_spec(retry_delay_ms: u64) -> u64 {
    if retry_delay_ms > RETRY_SLEEP_CAP_MS {
        RETRY_SLEEP_CAP_MS
    } else {
        retry_delay_ms
    }
}

/// The worker's decision for one turn: the shutdown signal always wins; a
/// recognised menu entry is translated and forwarded, ending the loop when
/// it is the quit entry; an unknown identifier is silently ignored; an
/// empty poll sleeps for the clamped delay.
pub open spec fn worker_step_spec(
    poll: WorkerPoll,
    table: Map<u64, TrayMenuEventEnum>,
    retry_delay_ms: u64,
) -> WorkerAction {
    match poll {
        WorkerPoll::ShutdownSignal => WorkerAction::Exit,
        WorkerPoll::MenuEvent(id) => {
            if table.contains_key(id) {
                WorkerAction::Forward {
                    command: translate_spec(table[id]),
                    exit_after: table[id] is Quit,
                }
            } else {
                WorkerAction::Ignore
            }
        },
        WorkerPoll::Empty => WorkerAction::Sleep {
            ms: clamped_retry_delay_spec(retry_delay_ms),
        },
    }
}

/// Decides one turn of the polling loop.
pub fn worker_step(poll: WorkerPoll, table: &IdSelectorMap, retry_delay_ms: u64) -> (a:
    WorkerAction)
    requires
        table.wf(),
    ensures
        a == worker_step_spec(poll, table.view(), retry_delay_ms),
{
    match poll {
        WorkerPoll::ShutdownSignal => WorkerAction::Exit,
        WorkerPoll::MenuEvent(id) => {
            match table.lookup(id) {
                Some(event) => {
                    let command = translate_menu_event(event);
                    let exit_after = match event {
                        TrayMenuEventEnum::Quit => true,
                        TrayMenuEventEnum::Settings => false,
                    };
                    WorkerAction::Forward { command, exit_after }
                },
                None => WorkerAction::Ignore,
            }
        },
        WorkerPoll::Empty => {
            let ms: u64 = if retry_delay_ms > RETRY_SLEEP_CAP_MS {
                RETRY_SLEEP_CAP_MS
            } else {
                retry_delay_ms
            };
            WorkerAction::Sleep { ms }
        },
    }
}

/// Whether an action's sleep, if it is one, stays within `bound`.
pub open spec fn sleep_within(a: WorkerAction, bound: u64) -> bool {
    match a {
        WorkerAction::Sleep { ms } => ms <= bound,
        _ => true,
    }
}

/// Shutdown is observed with bounded latency: whatever the configured retry
/// delay, a turn never sleeps past the cap, and a turn that sees the pending
/// shutdown signal exits at once. Between the two, the worker leaves its
/// loop within one clamped sleep of the signal being sent.
pub proof fn lemma_shutdown_latency_bound(
    poll: WorkerPoll,
    table: Map<u64, TrayMenuEventEnum>,
    retry_delay_ms: u64,
)
    ensures
        sleep_within(worker_step_spec(poll, table, retry_delay_ms), RETRY_SLEEP_CAP_MS),
        worker_step_spec(WorkerPoll::ShutdownSignal, table, retry_delay_ms)
            == WorkerAction::Exit,
{
}

/// The worker never leaves its loop silently: a turn ends the loop only on
/// the shutdown signal, or after forwarding the command of the quit entry —
/// every other turn forwards, ignores or sleeps and polls again.
pub proof fn lemma_worker_exits_only_on_quit_or_shutdown(
    poll: WorkerPoll,
    table: Map<u64, TrayMenuEventEnum>,
    retry_delay_ms: u64,
)
    ensures
        worker_step_spec(poll, table, retry_delay_ms) is Exit ==> poll
            is ShutdownSignal,
        worker_step_spec(poll, table, retry_delay_ms) matches WorkerAction::Forward {
            command,
            exit_after,
        } ==> (exit_after ==> command is Quit),
{
}

} // verus!
