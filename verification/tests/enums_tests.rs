use tray_monitor::config::MonitorSet;
use tray_monitor::language::SupportedLanguageEnum;
use tray_monitor::monitor_type::MonitorTypeEnum;
use tray_monitor::sampling::{monitors_to_sample, tray_update_plan};

#[test]
fn monitor_kind_catalog_keys() {
    assert_eq!(
        MonitorTypeEnum::CpuUsage.icon_label_key(),
        "icon-label-cpu-usage"
    );
    assert_eq!(
        MonitorTypeEnum::RamUsage.icon_label_key(),
        "icon-label-ram-usage"
    );
    assert_eq!(
        MonitorTypeEnum::CpuUsage.tray_tooltip_key(),
        "tray-tooltip-cpu-usage"
    );
    assert_eq!(
        MonitorTypeEnum::RamUsage.tray_tooltip_key(),
        "tray-tooltip-ram-usage"
    );
    assert_eq!(MonitorTypeEnum::CpuUsage.unit(), "%");
    assert_eq!(MonitorTypeEnum::RamUsage.unit(), "%");
}

#[test]
fn monitor_kinds_come_in_declaration_order() {
    assert_eq!(
        MonitorTypeEnum::all(),
        vec![MonitorTypeEnum::CpuUsage, MonitorTypeEnum::RamUsage]
    );
}

#[test]
fn languages_come_in_picker_order() {
    assert_eq!(
        SupportedLanguageEnum::iter(),
        vec![SupportedLanguageEnum::Polish, SupportedLanguageEnum::English]
    );
}

#[test]
fn language_tags_and_names() {
    assert_eq!(SupportedLanguageEnum::Polish.id(), "pl");
    assert_eq!(SupportedLanguageEnum::English.id(), "en-US");
    assert_eq!(SupportedLanguageEnum::Polish.name(), "Polski");
    assert_eq!(SupportedLanguageEnum::English.name(), "English");
}

#[test]
fn only_active_kinds_are_sampled() {
    let both = MonitorSet { cpu: true, ram: true };
    assert_eq!(
        monitors_to_sample(&both),
        vec![MonitorTypeEnum::CpuUsage, MonitorTypeEnum::RamUsage]
    );
    let ram_only = MonitorSet { cpu: false, ram: true };
    assert_eq!(monitors_to_sample(&ram_only), vec![MonitorTypeEnum::RamUsage]);
    let none = MonitorSet { cpu: false, ram: false };
    assert_eq!(monitors_to_sample(&none), Vec::new());
}

#[test]
fn tray_plan_hides_inactive_and_draws_sampled_kinds() {
    let active = MonitorSet { cpu: true, ram: false };
    let sampled = vec![MonitorTypeEnum::CpuUsage];
    let plans = tray_update_plan(&active, &sampled);
    assert_eq!(plans.len(), 2);
    assert_eq!(plans[0].monitor_type, MonitorTypeEnum::CpuUsage);
    assert!(plans[0].visible);
    assert!(plans[0].draw_icon);
    assert_eq!(plans[1].monitor_type, MonitorTypeEnum::RamUsage);
    assert!(!plans[1].visible);
    assert!(!plans[1].draw_icon);
}

#[test]
fn an_active_kind_without_a_fresh_reading_stays_visible_undrawn() {
    let active = MonitorSet { cpu: true, ram: true };
    let sampled = vec![MonitorTypeEnum::RamUsage];
    let plans = tray_update_plan(&active, &sampled);
    assert!(plans[0].visible);
    assert!(!plans[0].draw_icon);
    assert!(plans[1].visible);
    assert!(plans[1].draw_icon);
}
