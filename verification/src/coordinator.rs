//! The thread-lifecycle coordinator: the single authority over when the
//! background worker exists, when it is told to stop, and when the process
//! may exit.
//!
//! The host render loop owns the actual resources — the spawned thread, the
//! channel endpoints, the tray handle — and drives one `App` value through
//! the methods here, performing exactly the effects each call returns.
//! Every method says how the lifecycle state changes and which effects are
//! owed, so the shutdown protocol (one-shot signal, then join) is idempotent
//! by construction rather than by accident.

use vstd::prelude::*;

use crate::commands::UICommandEnum;
use crate::scheduler::{due_spec, PeriodicRefreshScheduler};

verus! {

/// The coordinator's view of the resources the host holds for it. A flag is
/// true exactly while the corresponding resource exists and has not been
/// taken: `shutdown_tx_held` mirrors the sending half of the one-shot
/// shutdown signal, `command_rx_held` the receiving end of the command
/// channel, `worker_running` the joinable thread handle.
#[derive(Clone, Copy, Debug, PartialEq, Eq, Structural)]
pub struct App {
    pub tray_exists: bool,
    pub worker_running: bool,
    pub shutdown_tx_held: bool,
    pub command_rx_held: bool,
    pub is_shutting_down: bool,
    pub cleaned_up: bool,
    pub scheduler: PeriodicRefreshScheduler,
}

/// Effects owed after a batch of drained commands has been applied.
#[derive(Clone, Copy, Debug, PartialEq, Eq, Structural)]
pub struct CommandBatchEffects {
    /// Some command asked for the settings window: restore and focus it.
    pub restore_window: bool,
    /// A quit command was in the batch: the host should close this tick.
    pub wants_quit: bool,
    /// The one-shot shutdown signal must be sent to the worker now.
    pub send_signal: bool,
}

/// Effects owed when the worker thread is torn down for a rebuild.
#[derive(Clone, Copy, Debug, PartialEq, Eq, Structural)]
pub struct TeardownEffects {
    /// Send on the shutdown channel before joining.
    pub send_signal: bool,
    /// Join the worker thread (blocking, bounded by the worker's clamped
    /// sleep).
    pub join_worker: bool,
}

/// Effects owed after the settings panel reported what the user changed.
#[derive(Clone, Copy, Debug, PartialEq, Eq, Structural)]
pub struct SettingsEffects {
    /// The language changed: tear the worker down with these actions so the
    /// tray is rebuilt next tick with the new language.
    pub teardown: TeardownEffects,
    /// The language changed: drop the tray handle and request a repaint so
    /// the rebuild happens promptly.
    pub rebuild_tray: bool,
    /// The autostart preference changed: apply this run-on-startup value to
    /// the OS autostart registration.
    pub apply_autostart: Option<bool>,
    /// The panel's close button was pressed: the shutdown signal must be
    /// sent now.
    pub send_signal: bool,
    /// The panel's close button was pressed: the host should close.
    pub close_host: bool,
}

/// Effects owed at process teardown.
#[derive(Clone, Copy, Debug, PartialEq, Eq, Structural)]
pub struct CleanupEffects {
    /// Persist the configuration (failure is logged, not fatal).
    pub save_config: bool,
    /// The shutdown signal was never sent: send it now.
    pub send_signal: bool,
    /// The worker is still joinable: join it.
    pub join_worker: bool,
}

/// The longest the foreground loop waits before repainting on its own, in
/// milliseconds, so that a lost repaint hint only delays command handling.
pub const UI_REPAINT_CAP_MS: u64 = 100;

/// The configured repaint interval clamped to the cap.
pub open spec fn repaint_delay_spec(configured_ms: u64) -> u64 {
    if configured_ms > UI_REPAINT_CAP_MS {
        UI_REPAINT_CAP_MS
    } else {
        configured_ms
    }
}

/// The delay until the host's next self-scheduled repaint: the configured
/// interval, but never beyond the cap.
pub fn repaint_delay_ms(configured_ms: u64) -> (r: u64)
    ensures
        r == repaint_delay_spec(configured_ms),
        r <= UI_REPAINT_CAP_MS,
{
    if configured_ms > UI_REPAINT_CAP_MS {
        UI_REPAINT_CAP_MS
    } else {
        configured_ms
    }
}

/// The lazy bring-up guard: a tray is built only while none exists and
/// shutdown has not begun.
pub open spec fn needs_tray_spec(s: App) -> bool {
    !s.tray_exists && !s.is_shutting_down
}

/// Initiating shutdown only raises the flag; everything else is untouched.
pub open spec fn initiate_shutdown_spec(s: App) -> App {
    App { is_shutting_down: true, ..s }
}

/// The one-shot guard: the signal goes out only on the first initiation,
/// and only while the sending half exists.
pub open spec fn initiate_shutdown_sends(s: App) -> bool {
    !s.is_shutting_down && s.shutdown_tx_held
}

/// Tearing the worker down releases the thread handle and both channel
/// endpoints.
pub open spec fn teardown_spec(s: App) -> App {
    App { worker_running: false, shutdown_tx_held: false, command_rx_held: false, ..s }
}

/// One drained command: a settings request changes no lifecycle state; a
/// quit command initiates shutdown.
pub open spec fn apply_command_spec(s: App, c: UICommandEnum) -> App {
    match c {
        UICommandEnum::ShowSettings => s,
        UICommandEnum::Quit => initiate_shutdown_spec(s),
    }
}

/// A drained batch applied in arrival order, first command first.
pub open spec fn apply_commands_spec(s: App, cmds: Seq<UICommandEnum>) -> App
    decreases cmds.len(),
{
    if cmds.len() == 0 {
        s
    } else {
        apply_commands_spec(apply_command_spec(s, cmds[0]), cmds.skip(1))
    }
}

/// Whether a quit command occurs anywhere in the batch.
pub open spec fn batch_has_quit(cmds: Seq<UICommandEnum>) -> bool {
    exists|i: int| 0 <= i < cmds.len() && cmds[i] is Quit
}

/// Whether a settings request occurs anywhere in the batch.
pub open spec fn batch_has_show_settings(cmds: Seq<UICommandEnum>) -> bool {
    exists|i: int| 0 <= i < cmds.len() && cmds[i] is ShowSettings
}

/// Applying a batch is exactly: initiate shutdown if some command was quit,
/// otherwise change nothing — whatever the order and length of the batch.
pub proof fn lemma_command_batch_effect(s: App, cmds: Seq<UICommandEnum>)
    ensures
        apply_commands_spec(s, cmds) == (App {
            is_shutting_down: s.is_shutting_down || batch_has_quit(cmds),
            ..s
        }),
    decreases cmds.len(),
{
    if cmds.len() == 0 {
        assert(!batch_has_quit(cmds));
        assert(apply_commands_spec(s, cmds) =~= (App {
            is_shutting_down: s.is_shutting_down || batch_has_quit(cmds),
            ..s
        }));
    } else {
        let s1 = apply_command_spec(s, cmds[0]);
        lemma_command_batch_effect(s1, cmds.skip(1));
        assert(batch_has_quit(cmds) == (cmds[0] is Quit || batch_has_quit(cmds.skip(1))))
            by {
            if cmds[0] is Quit {
                assert(batch_has_quit(cmds));
            }
            if batch_has_quit(cmds.skip(1)) {
                let i = choose|i: int|
                    0 <= i < cmds.skip(1).len() && cmds.skip(1)[i] is Quit;
                assert(cmds[i + 1] is Quit);
            }
            if batch_has_quit(cmds) {
                let i = choose|i: int| 0 <= i < cmds.len() && cmds[i] is Quit;
                if i > 0 {
                    assert(cmds.skip(1)[i - 1] is Quit);
                }
            }
        }
        assert(apply_commands_spec(s, cmds) =~= (App {
            is_shutting_down: s.is_shutting_down || batch_has_quit(cmds),
            ..s
        }));
    }
}

impl App {
    /// A coordinator before any tray or worker exists: nothing is running,
    /// shutdown has not begun, and only the (still unconnected) command
    /// receiver placeholder is held. The refresh clock starts at `now_ms`.
    pub fn new(now_ms: u64) -> (s: App)
        ensures
            s == (App {
                tray_exists: false,
                worker_running: false,
                shutdown_tx_held: false,
                command_rx_held: true,
                is_shutting_down: false,
                cleaned_up: false,
                scheduler: PeriodicRefreshScheduler { last_refresh_ms: now_ms },
            }),
    {
        App {
            tray_exists: false,
            worker_running: false,
            shutdown_tx_held: false,
            command_rx_held: true,
            is_shutting_down: false,
            cleaned_up: false,
            scheduler: PeriodicRefreshScheduler::new(now_ms),
        }
    }

    /// The lazy bring-up check at the top of every tick: true exactly when
    /// the host must construct the tray and spawn the worker now.
    pub fn needs_tray_bring_up(&self) -> (r: bool)
        ensures
            r == needs_tray_spec(*self),
    {
        !self.tray_exists && !self.is_shutting_down
    }

    /// Records a successful bring-up: the tray exists, the worker thread
    /// runs, and the host holds the shutdown sender, the thread handle and
    /// the fresh command receiver.
    pub fn on_tray_ready(&mut self)
        requires
            needs_tray_spec(*old(self)),
        ensures
            *final(self) == (App {
                tray_exists: true,
                worker_running: true,
                shutdown_tx_held: true,
                command_rx_held: true,
                ..*old(self)
            }),
    {
        self.tray_exists = true;
        self.worker_running = true;
        self.shutdown_tx_held = true;
        self.command_rx_held = true;
    }

    /// The shutdown fast path: while shutdown is in progress the tick does
    /// nothing but ask the host to close.
    pub fn shutdown_in_progress(&self) -> (r: bool)
        ensures
            r == self.is_shutting_down,
    {
        self.is_shutting_down
    }

    /// Initiates shutdown. Idempotent: the guard flag is raised on the first
    /// call and nothing changes afterwards; the returned `send_signal` is
    /// true at most on the first call, and only while the sending half of
    /// the signal exists.
    pub fn initiate_shutdown(&mut self) -> (send_signal: bool)
        ensures
            *final(self) == initiate_shutdown_spec(*old(self)),
            send_signal == initiate_shutdown_sends(*old(self)),
    {
        if self.is_shutting_down {
            return false;
        }
        self.is_shutting_down = true;
        self.shutdown_tx_held
    }

    /// Applies a drained batch of commands in arrival order: a settings
    /// request restores the window, the first quit command initiates
    /// shutdown, and any quit command asks the host to close this tick.
    pub fn process_ui_commands(&mut self, commands: &Vec<UICommandEnum>) -> (r:
        CommandBatchEffects)
        ensures
            *final(self) == apply_commands_spec(*old(self), commands@),
            r.wants_quit == batch_has_quit(commands@),
            r.restore_window == batch_has_show_settings(commands@),
            r.send_signal == (batch_has_quit(commands@) && initiate_shutdown_sends(
                *old(self),
            )),
    {
        let mut wants_quit = false;
        let mut restore_window = false;
        let mut send_signal = false;
        let n = commands.len();
        let mut k: usize = 0;
        while k < n
            invariant
                n == commands@.len(),
                0 <= k <= n,
                wants_quit == batch_has_quit(commands@.take(k as int)),
                restore_window == batch_has_show_settings(commands@.take(k as int)),
                send_signal == (batch_has_quit(commands@.take(k as int))
                    && initiate_shutdown_sends(*old(self))),
                *self == apply_commands_spec(*old(self), commands@.take(k as int)),
            decreases n - k,
        {
            proof {
                lemma_command_batch_effect(*old(self), commands@.take(k as int));
                lemma_command_batch_effect(*old(self), commands@.take(k as int + 1));
                assert(commands@.take(k as int + 1) =~= commands@.take(k as int).push(
                    commands@[k as int],
                ));
                assert(batch_has_quit(commands@.take(k as int + 1)) == (batch_has_quit(
                    commands@.take(k as int),
                ) || commands@[k as int] is Quit)) by {
                    let t0 = commands@.take(k as int);
                    let t1 = commands@.take(k as int + 1);
                    if batch_has_quit(t0) {
                        let i = choose|i: int| 0 <= i < t0.len() && t0[i] is Quit;
                        assert(t1[i] is Quit);
                    }
                    if commands@[k as int] is Quit {
                        assert(t1[k as int] is Quit);
                    }
                    if batch_has_quit(t1) && !(commands@[k as int] is Quit) {
                        let i = choose|i: int| 0 <= i < t1.len() && t1[i] is Quit;
                        assert(t0[i] is Quit);
                    }
                }
                assert(batch_has_show_settings(commands@.take(k as int + 1)) == (
                batch_has_show_settings(commands@.take(k as int)) || commands@[k as int]
                    is ShowSettings)) by {
                    let t0 = commands@.take(k as int);
                    let t1 = commands@.take(k as int + 1);
                    if batch_has_show_settings(t0) {
                        let i = choose|i: int| 0 <= i < t0.len() && t0[i] is ShowSettings;
                        assert(t1[i] is ShowSettings);
                    }
                    if commands@[k as int] is ShowSettings {
                        assert(t1[k as int] is ShowSettings);
                    }
                    if batch_has_show_settings(t1) && !(commands@[k as int]
                        is ShowSettings) {
                        let i = choose|i: int| 0 <= i < t1.len() && t1[i] is ShowSettings;
                        assert(t0[i] is ShowSettings);
                    }
                }
            }
            match commands[k] {
                UICommandEnum::ShowSettings => {
                    restore_window = true;
                },
                UICommandEnum::Quit => {
                    if !self.is_shutting_down {
                        if self.shutdown_tx_held {
                            send_signal = true;
                        }
                        self.is_shutting_down = true;
                    }
                    wants_quit = true;
                },
            }
            k += 1;
            proof {
                lemma_command_batch_effect(*old(self), commands@.take(k as int));
            }
        }
        proof {
            assert(commands@.take(n as int) =~= commands@);
        }
        CommandBatchEffects { restore_window, wants_quit, send_signal }
    }

    /// Tears the worker thread down for a rebuild: sends on the shutdown
    /// channel if the sender is still held, joins the thread if it runs, and
    /// releases both channel endpoints. Safe to call when no worker was ever
    /// spawned — every effect is then already spent.
    pub fn shutdown_tray_handler_thread(&mut self) -> (r: TeardownEffects)
        ensures
            *final(self) == teardown_spec(*old(self)),
            r.send_signal == old(self).shutdown_tx_held,
            r.join_worker == old(self).worker_running,
    {
        let send_signal = self.shutdown_tx_held;
        let join_worker = self.worker_running;
        self.shutdown_tx_held = false;
        self.worker_running = false;
        self.command_rx_held = false;
        TeardownEffects { send_signal, join_worker }
    }

    /// Whether the scheduled refresh work is due at `now_ms` under the given
    /// interval.
    pub fn refresh_due(&self, now_ms: u64, interval_seconds: u64) -> (r: bool)
        requires
            now_ms >= self.scheduler.last_refresh_ms,
        ensures
            r == due_spec(self.scheduler.last_refresh_ms, now_ms, interval_seconds),
    {
        self.scheduler.is_due(now_ms, interval_seconds)
    }

    /// Restarts the refresh clock after the refresh work ran.
    pub fn mark_refreshed(&mut self, now_ms: u64)
        ensures
            *final(self) == (App {
                scheduler: PeriodicRefreshScheduler { last_refresh_ms: now_ms },
                ..*old(self)
            }),
    {
        self.scheduler.reset(now_ms);
    }

    /// Applies what the settings panel reported. A language change tears the
    /// worker down and drops the tray so the next tick rebuilds both with
    /// the new language; an autostart change is owed to the OS registration;
    /// a close request initiates shutdown and asks the host to close. The
    /// close request sends the signal itself only if the language teardown
    /// has not already taken the sender.
    pub fn on_settings_result(
        &mut self,
        close_requested: bool,
        language_changed: bool,
        autostart_changed: bool,
        run_on_startup: bool,
    ) -> (r: SettingsEffects)
        ensures
            ({
                let after_lang = if language_changed {
                    App { tray_exists: false, ..teardown_spec(*old(self)) }
                } else {
                    *old(self)
                };
                &&& *final(self) == (if close_requested {
                    initiate_shutdown_spec(after_lang)
                } else {
                    after_lang
                })
                &&& r.teardown.send_signal == (language_changed && old(
                    self,
                ).shutdown_tx_held)
                &&& r.teardown.join_worker == (language_changed && old(
                    self,
                ).worker_running)
                &&& r.rebuild_tray == language_changed
                &&& r.apply_autostart == (if autostart_changed {
                    Some(run_on_startup)
                } else {
                    None::<bool>
                })
                &&& r.send_signal == (close_requested && initiate_shutdown_sends(
                    after_lang,
                ))
                &&& r.close_host == close_requested
            }),
    {
        let mut teardown = TeardownEffects { send_signal: false, join_worker: false };
        if language_changed {
            teardown = self.shutdown_tray_handler_thread();
            self.tray_exists = false;
        }
        let apply_autostart = if autostart_changed {
            Some(run_on_startup)
        } else {
            None
        };
        let mut send_signal = false;
        if close_requested {
            send_signal = self.initiate_shutdown();
        }
        SettingsEffects {
            teardown,
            rebuild_tray: language_changed,
            apply_autostart,
            send_signal,
            close_host: close_requested,
        }
    }

    /// Process teardown, called from the host's exit callback and again,
    /// defensively, from its finalizer. The first call persists the
    /// configuration, makes sure shutdown was initiated (sending the signal
    /// if it never went out), joins the worker if it is still joinable and
    /// releases every endpoint; the guard flag makes the second call a
    /// no-op.
    pub fn cleanup_resources(&mut self) -> (r: CleanupEffects)
        ensures
            old(self).cleaned_up ==> *final(self) == *old(self) && r == (CleanupEffects {
                save_config: false,
                send_signal: false,
                join_worker: false,
            }),
            !old(self).cleaned_up ==> *final(self) == (App {
                is_shutting_down: true,
                cleaned_up: true,
                ..teardown_spec(*old(self))
            }) && r == (CleanupEffects {
                save_config: true,
                send_signal: initiate_shutdown_sends(*old(self)),
                join_worker: old(self).worker_running,
            }),
    {
        if self.cleaned_up {
            return CleanupEffects {
                save_config: false,
                send_signal: false,
                join_worker: false,
            };
        }
        let send_signal = self.initiate_shutdown();
        let join_worker = self.worker_running;
        self.worker_running = false;
        self.shutdown_tx_held = false;
        self.command_rx_held = false;
        self.cleaned_up = true;
        CleanupEffects { save_config: true, send_signal, join_worker }
    }
}

/// The number of shutdown signals that `n` successive shutdown initiations
/// send from state `s`.
pub open spec fn shutdown_signals_sent(s: App, n: nat) -> nat
    decreases n,
{
    if n == 0 {
        0
    } else {
        (if initiate_shutdown_sends(s) {
            1nat
        } else {
            0nat
        }) + shutdown_signals_sent(initiate_shutdown_spec(s), (n - 1) as nat)
    }
}

/// Shutdown initiation is idempotent: however often it is called, the
/// signal goes out at most once, and never once shutdown is already in
/// progress. The state settles after the first call.
pub proof fn lemma_initiate_shutdown_idempotent(s: App, n: nat)
    ensures
        shutdown_signals_sent(s, n) <= 1,
        s.is_shutting_down ==> shutdown_signals_sent(s, n) == 0,
        initiate_shutdown_spec(initiate_shutdown_spec(s)) == initiate_shutdown_spec(s),
    decreases n,
{
    if n > 0 {
        lemma_initiate_shutdown_idempotent(initiate_shutdown_spec(s), (n - 1) as nat);
    }
}

/// Bring-up happens at most once while a tray exists: no sequence of
/// drained commands, nor another shutdown initiation, ever re-enables the
/// bring-up guard as long as the tray stands.
pub proof fn lemma_no_double_bring_up(s: App, cmds: Seq<UICommandEnum>)
    requires
        s.tray_exists,
    ensures
        !needs_tray_spec(s),
        !needs_tray_spec(apply_commands_spec(s, cmds)),
        !needs_tray_spec(initiate_shutdown_spec(s)),
{
    lemma_command_batch_effect(s, cmds);
}

/// Process teardown is idempotent: the state after a cleanup is a fixed
/// point, so the defensive second invocation changes nothing and owes no
/// effect.
pub open spec fn cleanup_state_spec(s: App) -> App {
    if s.cleaned_up {
        s
    } else {
        App { is_shutting_down: true, cleaned_up: true, ..teardown_spec(s) }
    }
}

/// The second cleanup is a no-op: after the first cleanup the state is a
/// fixed point that owes neither a signal nor a join, because the thread
/// handle and the channel endpoints have already been taken.
pub proof fn lemma_cleanup_idempotent(s: App)
    requires
        !s.cleaned_up,
    ensures
        cleanup_state_spec(cleanup_state_spec(s)) == cleanup_state_spec(s),
        cleanup_state_spec(s).cleaned_up,
        !initiate_shutdown_sends(cleanup_state_spec(s)),
        !cleanup_state_spec(s).worker_running,
{
}

} // verus!
