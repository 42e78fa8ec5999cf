use tray_monitor::config::{AppConfig, GeneralConfig, MonitorSet, RefreshConfig, TimingConfig};
use tray_monitor::language::SupportedLanguageEnum;
use tray_monitor::monitor_type::MonitorTypeEnum;

fn sample_config() -> AppConfig {
    AppConfig {
        app_name: String::from("monitor"),
        active_monitors: MonitorSet { cpu: true, ram: false },
        general: GeneralConfig {
            minimized_window_on_startup: false,
            run_on_startup: true,
            language: SupportedLanguageEnum::English,
        },
        refresh: RefreshConfig {
            default_refresh_seconds: 5,
            min_refresh_seconds: 1,
            max_refresh_seconds: 60,
        },
        timing: TimingConfig { tray_error_retry_delay_ms: 25, ui_repaint_interval: 100 },
    }
}

fn assert_config_eq(a: &AppConfig, b: &AppConfig) {
    assert_eq!(a.app_name, b.app_name);
    assert_eq!(a.active_monitors, b.active_monitors);
    assert_eq!(a.general, b.general);
    assert_eq!(a.refresh, b.refresh);
    assert_eq!(a.timing, b.timing);
}

#[test]
fn reloading_a_valid_config_reproduces_it() {
    let c = sample_config();
    let reloaded = c.clone().normalized();
    assert_config_eq(&c, &reloaded);
    assert_eq!(reloaded.refresh.min_refresh_seconds, 1);
    assert_eq!(reloaded.refresh.default_refresh_seconds, 5);
    assert_eq!(reloaded.refresh.max_refresh_seconds, 60);
}

#[test]
fn a_default_below_min_is_clamped_up() {
    let r = RefreshConfig {
        default_refresh_seconds: 0,
        min_refresh_seconds: 1,
        max_refresh_seconds: 60,
    }
    .normalized();
    assert_eq!(r.default_refresh_seconds, 1);
    assert_eq!(r.min_refresh_seconds, 1);
    assert_eq!(r.max_refresh_seconds, 60);
}

#[test]
fn a_default_above_max_is_clamped_down() {
    let r = RefreshConfig {
        default_refresh_seconds: 600,
        min_refresh_seconds: 1,
        max_refresh_seconds: 60,
    }
    .normalized();
    assert_eq!(r.default_refresh_seconds, 60);
}

#[test]
fn crossed_bounds_are_raised_to_min() {
    let r = RefreshConfig {
        default_refresh_seconds: 5,
        min_refresh_seconds: 10,
        max_refresh_seconds: 2,
    }
    .normalized();
    assert_eq!(r.min_refresh_seconds, 10);
    assert_eq!(r.max_refresh_seconds, 10);
    assert_eq!(r.default_refresh_seconds, 10);
}

#[test]
fn slider_moves_are_clamped_between_the_bounds() {
    let mut c = sample_config();
    c.set_refresh_seconds(30);
    assert_eq!(c.refresh.default_refresh_seconds, 30);
    c.set_refresh_seconds(0);
    assert_eq!(c.refresh.default_refresh_seconds, 1);
    c.set_refresh_seconds(100_000);
    assert_eq!(c.refresh.default_refresh_seconds, 60);
}

#[test]
fn language_switch_reports_a_real_change_only() {
    let mut c = sample_config();
    assert!(!c.set_language(SupportedLanguageEnum::English));
    assert!(c.set_language(SupportedLanguageEnum::Polish));
    assert_eq!(c.general.language, SupportedLanguageEnum::Polish);
}

#[test]
fn autostart_switch_reports_a_real_change_only() {
    let mut c = sample_config();
    assert!(!c.set_run_on_startup(true));
    assert!(c.set_run_on_startup(false));
    assert!(!c.general.run_on_startup);
    c.set_minimized_on_startup(true);
    assert!(c.general.minimized_window_on_startup);
}

#[test]
fn monitor_set_tracks_membership() {
    let mut m = MonitorSet::empty();
    assert!(!m.contains(MonitorTypeEnum::CpuUsage));
    assert!(!m.contains(MonitorTypeEnum::RamUsage));
    m.set_active(MonitorTypeEnum::CpuUsage, true);
    assert!(m.contains(MonitorTypeEnum::CpuUsage));
    assert!(!m.contains(MonitorTypeEnum::RamUsage));
    m.set_active(MonitorTypeEnum::RamUsage, true);
    m.set_active(MonitorTypeEnum::CpuUsage, false);
    assert!(!m.contains(MonitorTypeEnum::CpuUsage));
    assert!(m.contains(MonitorTypeEnum::RamUsage));
}
