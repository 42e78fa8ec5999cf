use tray_monitor::commands::UICommandEnum;
use tray_monitor::coordinator::{App, UI_REPAINT_CAP_MS, repaint_delay_ms};

fn fresh_app() -> App {
    App::new(0)
}

fn running_app() -> App {
    let mut a = App::new(0);
    assert!(a.needs_tray_bring_up());
    a.on_tray_ready();
    a
}

#[test]
fn new_app_holds_nothing_but_the_receiver() {
    let a = fresh_app();
    assert!(!a.tray_exists);
    assert!(!a.worker_running);
    assert!(!a.shutdown_tx_held);
    assert!(a.command_rx_held);
    assert!(!a.is_shutting_down);
    assert!(!a.cleaned_up);
}

#[test]
fn initiate_shutdown_sends_at_most_once() {
    let mut a = running_app();
    let first = a.initiate_shutdown();
    assert!(first);
    let second = a.initiate_shutdown();
    assert!(!second);
    let third = a.initiate_shutdown();
    assert!(!third);
    assert!(a.is_shutting_down);
}

#[test]
fn initiate_shutdown_without_worker_sends_nothing() {
    let mut a = fresh_app();
    let sent = a.initiate_shutdown();
    assert!(!sent);
    assert!(a.is_shutting_down);
}

#[test]
fn command_batch_with_quit_requests_close() {
    let mut a = running_app();
    let cmds = vec![
        UICommandEnum::ShowSettings,
        UICommandEnum::ShowSettings,
        UICommandEnum::Quit,
    ];
    let r = a.process_ui_commands(&cmds);
    assert!(r.wants_quit);
    assert!(r.restore_window);
    assert!(r.send_signal);
    assert!(a.is_shutting_down);
}

#[test]
fn command_batch_without_quit_changes_nothing() {
    let mut a = running_app();
    let cmds = vec![UICommandEnum::ShowSettings];
    let r = a.process_ui_commands(&cmds);
    assert!(!r.wants_quit);
    assert!(r.restore_window);
    assert!(!r.send_signal);
    assert!(!a.is_shutting_down);
}

#[test]
fn empty_command_batch_is_a_no_op() {
    let mut a = running_app();
    let r = a.process_ui_commands(&Vec::new());
    assert!(!r.wants_quit);
    assert!(!r.restore_window);
    assert!(!r.send_signal);
    assert!(!a.is_shutting_down);
}

#[test]
fn quit_signal_goes_out_only_on_the_first_batch() {
    let mut a = running_app();
    let r1 = a.process_ui_commands(&vec![UICommandEnum::Quit]);
    assert!(r1.send_signal);
    let r2 = a.process_ui_commands(&vec![UICommandEnum::Quit]);
    assert!(r2.wants_quit);
    assert!(!r2.send_signal);
}

#[test]
fn no_second_bring_up_while_tray_exists() {
    let mut a = running_app();
    assert!(!a.needs_tray_bring_up());
    let _ = a.process_ui_commands(&vec![UICommandEnum::ShowSettings]);
    assert!(!a.needs_tray_bring_up());
    a.mark_refreshed(1000);
    assert!(!a.needs_tray_bring_up());
    let _ = a.on_settings_result(false, false, false, false);
    assert!(!a.needs_tray_bring_up());
}

#[test]
fn no_bring_up_once_shutdown_began() {
    let mut a = fresh_app();
    let _ = a.initiate_shutdown();
    assert!(!a.needs_tray_bring_up());
    assert!(a.shutdown_in_progress());
}

#[test]
fn language_change_tears_worker_down_for_rebuild() {
    let mut a = running_app();
    let r = a.on_settings_result(false, true, false, false);
    assert!(r.teardown.send_signal);
    assert!(r.teardown.join_worker);
    assert!(r.rebuild_tray);
    assert!(r.apply_autostart.is_none());
    assert!(!r.close_host);
    assert!(!a.tray_exists);
    assert!(!a.worker_running);
    assert!(!a.shutdown_tx_held);
    assert!(!a.command_rx_held);
    assert!(!a.is_shutting_down);
    assert!(a.needs_tray_bring_up());
}

#[test]
fn autostart_toggle_is_passed_through() {
    let mut a = running_app();
    let r = a.on_settings_result(false, false, true, true);
    assert_eq!(r.apply_autostart, Some(true));
    let r2 = a.on_settings_result(false, false, true, false);
    assert_eq!(r2.apply_autostart, Some(false));
    let r3 = a.on_settings_result(false, false, false, true);
    assert_eq!(r3.apply_autostart, None);
}

#[test]
fn settings_close_initiates_shutdown_and_sends() {
    let mut a = running_app();
    let r = a.on_settings_result(true, false, false, false);
    assert!(r.close_host);
    assert!(r.send_signal);
    assert!(a.is_shutting_down);
}

#[test]
fn language_change_and_close_in_one_tick_sends_no_second_signal() {
    let mut a = running_app();
    let r = a.on_settings_result(true, true, false, false);
    assert!(r.teardown.send_signal);
    assert!(!r.send_signal);
    assert!(r.close_host);
    assert!(a.is_shutting_down);
}

#[test]
fn cleanup_runs_once_and_the_second_call_is_a_no_op() {
    let mut a = running_app();
    let r1 = a.cleanup_resources();
    assert!(r1.save_config);
    assert!(r1.send_signal);
    assert!(r1.join_worker);
    assert!(a.is_shutting_down);
    assert!(a.cleaned_up);
    assert!(!a.worker_running);
    assert!(!a.shutdown_tx_held);
    assert!(!a.command_rx_held);
    let before = a;
    let r2 = a.cleanup_resources();
    assert!(!r2.save_config);
    assert!(!r2.send_signal);
    assert!(!r2.join_worker);
    assert_eq!(a, before);
}

#[test]
fn cleanup_after_quit_does_not_send_again() {
    let mut a = running_app();
    let _ = a.process_ui_commands(&vec![UICommandEnum::Quit]);
    let r = a.cleanup_resources();
    assert!(r.save_config);
    assert!(!r.send_signal);
    assert!(r.join_worker);
}

#[test]
fn repaint_delay_is_clamped_to_the_cap() {
    assert_eq!(repaint_delay_ms(30), 30);
    assert_eq!(repaint_delay_ms(100), 100);
    assert_eq!(repaint_delay_ms(100_000), UI_REPAINT_CAP_MS);
}
