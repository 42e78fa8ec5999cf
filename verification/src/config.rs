//! The configuration value shared between the foreground loop and the
//! background worker: general preferences, refresh bounds, timing parameters
//! and the set of active monitor kinds.
//!
//! Invariant: `min_refresh_seconds <= default_refresh_seconds <=
//! max_refresh_seconds`. Out-of-range values are clamped, never rejected:
//! whatever a stored file or a caller hands in, `normalized` brings the
//! bounds into order (raising `max` to `min` if the two are crossed) and
//! clamps the current interval between them. Reloading a value that already
//! satisfies the invariant gives it back unchanged.

use vstd::prelude::*;

use crate::language::SupportedLanguageEnum;
use crate::monitor_type::MonitorTypeEnum;

verus! {

/// Startup behaviour and the active interface language.
#[derive(Clone, Copy, Debug, PartialEq, Eq, Structural)]
pub struct GeneralConfig {
    pub minimized_window_on_startup: bool,
    pub run_on_startup: bool,
    pub language: SupportedLanguageEnum,
}

/// Delays of the two loops: the worker's poll retry (before clamping) and
/// the foreground repaint interval.
#[derive(Clone, Copy, Debug, PartialEq, Eq, Structural)]
pub struct TimingConfig {
    pub tray_error_retry_delay_ms: u64,
    pub ui_repaint_interval: u64,
}

/// The refresh interval in seconds together with the bounds the settings
/// slider moves it between.
#[derive(Clone, Copy, Debug, PartialEq, Eq, Structural)]
pub struct RefreshConfig {
    pub default_refresh_seconds: u64,
    pub min_refresh_seconds: u64,
    pub max_refresh_seconds: u64,
}

/// Which monitor kinds currently have a visible tray icon.
#[derive(Clone, Copy, Debug, PartialEq, Eq, Structural)]
pub struct MonitorSet {
    pub cpu: bool,
    pub ram: bool,
}

/// The whole configuration value. Window geometry is kept by the host shell
/// alone: nothing in the coordination logic reads it.
#[derive(Clone, Debug)]
pub struct AppConfig {
    pub app_name: String,
    pub active_monitors: MonitorSet,
    pub general: GeneralConfig,
    pub refresh: RefreshConfig,
    pub timing: TimingConfig,
}

impl MonitorSet {
    /// The set of kinds this value holds.
    pub open spec fn view(self) -> Set<MonitorTypeEnum> {
        Set::new(
            |t: MonitorTypeEnum| match t {
                MonitorTypeEnum::CpuUsage => self.cpu,
                MonitorTypeEnum::RamUsage => self.ram,
            },
        )
    }

    /// The empty set of kinds.
    pub fn empty() -> (r: MonitorSet)
        ensures
            r.view() == Set::<MonitorTypeEnum>::empty(),
    {
        let r = MonitorSet { cpu: false, ram: false };
        proof {
            assert(r.view() =~= Set::<MonitorTypeEnum>::empty());
        }
        r
    }

    /// Whether `t` is in the set.
    pub fn contains(&self, t: MonitorTypeEnum) -> (r: bool)
        ensures
            r == self.view().contains(t),
    {
        match t {
            MonitorTypeEnum::CpuUsage => self.cpu,
            MonitorTypeEnum::RamUsage => self.ram,
        }
    }

    /// Adds `t` to or removes `t` from the set, as the settings toggle for
    /// that kind demands.
    pub fn set_active(&mut self, t: MonitorTypeEnum, active: bool)
        ensures
            active ==> final(self).view() == old(self).view().insert(t),
            !active ==> final(self).view() == old(self).view().remove(t),
    {
        match t {
            MonitorTypeEnum::CpuUsage => {
                self.cpu = active;
            },
            MonitorTypeEnum::RamUsage => {
                self.ram = active;
            },
        }
        proof {
            if active {
                assert(self.view() =~= old(self).view().insert(t));
            } else {
                assert(self.view() =~= old(self).view().remove(t));
            }
        }
    }
}

/// `v` clamped into the closed interval `[lo, hi]` (with `lo <= hi`).
pub open spec fn clamp_spec(v: u64, lo: u64, hi: u64) -> u64 {
    if v < lo {
        lo
    } else if v > hi {
        hi
    } else {
        v
    }
}

impl RefreshConfig {
    /// The bounds are ordered and the current interval lies between them.
    pub open spec fn wf(self) -> bool {
        self.min_refresh_seconds <= self.default_refresh_seconds
            <= self.max_refresh_seconds
    }

    /// The clamp policy applied to arbitrary stored values: a `max` below
    /// `min` is raised to `min`, then the interval is clamped between them.
    pub open spec fn normalized_spec(self) -> RefreshConfig {
        let hi = if self.max_refresh_seconds < self.min_refresh_seconds {
            self.min_refresh_seconds
        } else {
            self.max_refresh_seconds
        };
        RefreshConfig {
            default_refresh_seconds: clamp_spec(
                self.default_refresh_seconds,
                self.min_refresh_seconds,
                hi,
            ),
            min_refresh_seconds: self.min_refresh_seconds,
            max_refresh_seconds: hi,
        }
    }

    /// Applies the clamp policy, establishing the invariant.
    pub fn normalized(self) -> (r: RefreshConfig)
        ensures
            r == self.normalized_spec(),
            r.wf(),
            self.wf() ==> r == self,
    {
        let hi: u64 = if self.max_refresh_seconds < self.min_refresh_seconds {
            self.min_refresh_seconds
        } else {
            self.max_refresh_seconds
        };
        let lo: u64 = self.min_refresh_seconds;
        let d: u64 = if self.default_refresh_seconds < lo {
            lo
        } else if self.default_refresh_seconds > hi {
            hi
        } else {
            self.default_refresh_seconds
        };
        RefreshConfig {
            default_refresh_seconds: d,
            min_refresh_seconds: lo,
            max_refresh_seconds: hi,
        }
    }
}

impl AppConfig {
    /// The configuration invariant: the refresh bounds are in order.
    pub open spec fn wf(self) -> bool {
        self.refresh.wf()
    }

    /// The whole value after the load-time clamp policy.
    pub open spec fn normalized_spec(self) -> AppConfig {
        AppConfig { refresh: self.refresh.normalized_spec(), ..self }
    }

    /// The clamp policy applied on load: every field but the refresh bounds
    /// passes through unchanged, and a value that already satisfies the
    /// invariant comes back identical.
    pub fn normalized(self) -> (r: AppConfig)
        ensures
            r == self.normalized_spec(),
            r.wf(),
            self.wf() ==> r == self,
    {
        let refresh = self.refresh.normalized();
        let r = AppConfig { refresh, ..self };
        proof {
            if self.wf() {
                assert(r =~= self);
            }
            assert(r =~= self.normalized_spec());
        }
        r
    }

    /// Moves the refresh interval as the settings slider demands, clamping it
    /// between the configured bounds so the invariant is kept whatever the
    /// widget hands in.
    pub fn set_refresh_seconds(&mut self, seconds: u64)
        requires
            old(self).wf(),
        ensures
            final(self).wf(),
            final(self).refresh.default_refresh_seconds == clamp_spec(
                seconds,
                old(self).refresh.min_refresh_seconds,
                old(self).refresh.max_refresh_seconds,
            ),
            final(self).refresh.min_refresh_seconds == old(self).refresh.min_refresh_seconds,
            final(self).refresh.max_refresh_seconds == old(self).refresh.max_refresh_seconds,
            final(self).app_name == old(self).app_name,
            final(self).active_monitors == old(self).active_monitors,
            final(self).general == old(self).general,
            final(self).timing == old(self).timing,
    {
        let lo: u64 = self.refresh.min_refresh_seconds;
        let hi: u64 = self.refresh.max_refresh_seconds;
        let d: u64 = if seconds < lo {
            lo
        } else if seconds > hi {
            hi
        } else {
            seconds
        };
        self.refresh.default_refresh_seconds = d;
    }

    /// Switches the interface language; reports whether it actually changed,
    /// which is what forces the tray to be rebuilt.
    pub fn set_language(&mut self, language: SupportedLanguageEnum) -> (changed: bool)
        ensures
            changed == (old(self).general.language != language),
            final(self).general.language == language,
            final(self).general.minimized_window_on_startup == old(
                self,
            ).general.minimized_window_on_startup,
            final(self).general.run_on_startup == old(self).general.run_on_startup,
            final(self).app_name == old(self).app_name,
            final(self).active_monitors == old(self).active_monitors,
            final(self).refresh == old(self).refresh,
            final(self).timing == old(self).timing,
    {
        let changed = self.general.language != language;
        self.general.language = language;
        changed
    }

    /// Flips the run-on-startup preference; reports whether it changed, which
    /// is what makes the host re-apply the autostart registration.
    pub fn set_run_on_startup(&mut self, run_on_startup: bool) -> (changed: bool)
        ensures
            changed == (old(self).general.run_on_startup != run_on_startup),
            final(self).general.run_on_startup == run_on_startup,
            final(self).general.minimized_window_on_startup == old(
                self,
            ).general.minimized_window_on_startup,
            final(self).general.language == old(self).general.language,
            final(self).app_name == old(self).app_name,
            final(self).active_monitors == old(self).active_monitors,
            final(self).refresh == old(self).refresh,
            final(self).timing == old(self).timing,
    {
        let changed = self.general.run_on_startup != run_on_startup;
        self.general.run_on_startup = run_on_startup;
        changed
    }

    /// Sets the minimize-on-startup preference.
    pub fn set_minimized_on_startup(&mut self, minimized: bool)
        ensures
            final(self).general.minimized_window_on_startup == minimized,
            final(self).general.run_on_startup == old(self).general.run_on_startup,
            final(self).general.language == old(self).general.language,
            final(self).app_name == old(self).app_name,
            final(self).active_monitors == old(self).active_monitors,
            final(self).refresh == old(self).refresh,
            final(self).timing == old(self).timing,
    {
        self.general.minimized_window_on_startup = minimized;
    }
}

/// Reloading a configuration that satisfies the invariant reproduces it
/// exactly: the load-time clamp is the identity on well-formed values, so a
/// persist-and-reload round trip through a faithful store changes nothing.
pub proof fn lemma_normalized_identity(c: AppConfig)
    requires
        c.wf(),
    ensures
        c.normalized_spec() == c,
{
    assert(c.normalized_spec() =~= c);
}

} // verus!
