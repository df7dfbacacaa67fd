use status_bar::config::{AppConfig, FloatingBarConfig};
use status_bar::float_bits::F64Bits;
use status_bar::floating_bar::{decision_overflows, should_ignore_cursor_events, CursorEventMode};
use status_bar::schedule::sleep_step;
use status_bar::tray::{
    autostart_target, config_after_autostart, config_with_floating_toggled, truncate, MenuCommand, TooltipAction, TooltipHoverState, RIGHT_CLICK_SUPPRESS_MS,
};

#[test]
fn watchdog_shows_on_hover_and_hides_on_leave() {
    let mut state: TooltipHoverState<u8> = TooltipHoverState::new();
    assert_eq!(state.watchdog_step(false, 0, true), None);
    state.record_shown(9);
    assert!(state.visible);
    assert_eq!(state.watchdog_step(false, 10, true), None);
    assert_eq!(state.watchdog_step(false, 20, false), Some(TooltipAction::Hide));
    assert!(!state.visible);
    assert_eq!(state.watchdog_step(false, 30, true), Some(TooltipAction::Show(9)));
    assert!(state.visible);
}

#[test]
fn right_click_hides_and_suppresses_for_a_while() {
    let mut state: TooltipHoverState<u8> = TooltipHoverState::new();
    state.record_shown(1);
    assert_eq!(state.watchdog_step(true, 1_000, true), Some(TooltipAction::Hide));
    assert_eq!(state.suppress_until, Some(1_000 + RIGHT_CLICK_SUPPRESS_MS));
    assert!(state.is_suppressed(1_799));
    assert!(!state.may_show(false, 1_500));
    assert_eq!(state.watchdog_step(false, 1_500, true), None);
    assert!(!state.is_suppressed(1_800));
    assert!(state.may_show(false, 1_800));
    assert!(!state.may_show(true, 1_800));
    assert_eq!(state.watchdog_step(false, 1_800, true), Some(TooltipAction::Show(1)));
    state.suppress(5_000);
    assert!(!state.visible);
    assert_eq!(state.suppress_until, Some(5_800));
    state.suppress(u64::MAX - 1);
    assert_eq!(state.suppress_until, Some(u64::MAX));
    state.record_hidden();
    assert!(!state.visible);
}

#[test]
fn menu_ids_map_to_commands() {
    assert_eq!(MenuCommand::from_id("settings"), Some(MenuCommand::ShowSettings));
    assert_eq!(MenuCommand::from_id("autostart"), Some(MenuCommand::ToggleAutostart));
    assert_eq!(MenuCommand::from_id("floating"), Some(MenuCommand::ToggleFloatingBar));
    assert_eq!(MenuCommand::from_id("logs"), Some(MenuCommand::OpenLogs));
    assert_eq!(MenuCommand::from_id("quit"), Some(MenuCommand::Quit));
    assert_eq!(MenuCommand::from_id("Quit"), None);
    assert_eq!(MenuCommand::from_id(""), None);
}

#[test]
fn truncate_cuts_characters_and_marks_the_cut() {
    assert_eq!(truncate("short", 34), "short");
    assert_eq!(truncate("abcdef", 3), "abc…");
    assert_eq!(truncate("ↂↂↂↂ", 4), "ↂↂↂↂ");
    assert_eq!(truncate("ↂↂↂↂↂ", 4), "ↂↂↂↂ…");
    assert_eq!(truncate("", 0), "");
    assert_eq!(truncate("a", 0), "…");
}

fn locked_bar() -> FloatingBarConfig {
    let mut bar = FloatingBarConfig::default();
    bar.enabled = true;
    bar.click_through = true;
    bar.lock_position = true;
    bar
}

#[test]
fn floating_bar_ignores_cursor_only_when_locked_through_and_away() {
    let bar = locked_bar();
    let pos = Some((100, 200));
    let size = Some((348u32, 62u32));
    assert!(!should_ignore_cursor_events(&bar, Some(true), Some((150, 220)), pos, size));
    assert!(!should_ignore_cursor_events(&bar, Some(true), Some((97, 197)), pos, size));
    assert!(!should_ignore_cursor_events(&bar, Some(true), Some((451, 265)), pos, size));
    assert!(should_ignore_cursor_events(&bar, Some(true), Some((452, 220)), pos, size));
    assert!(should_ignore_cursor_events(&bar, Some(true), Some((96, 220)), pos, size));
    assert!(should_ignore_cursor_events(&bar, Some(true), None, pos, size));
    assert!(should_ignore_cursor_events(&bar, Some(true), Some((1, 1)), None, size));
    assert!(should_ignore_cursor_events(&bar, Some(true), Some((1, 1)), pos, None));
    assert!(!should_ignore_cursor_events(&bar, Some(false), Some((1, 1)), pos, size));
    assert!(!should_ignore_cursor_events(&bar, None, Some((1, 1)), pos, size));
    let mut open = bar;
    open.click_through = false;
    assert!(!should_ignore_cursor_events(&open, Some(true), Some((1, 1)), pos, size));
    let mut unlocked = bar;
    unlocked.lock_position = false;
    assert!(!should_ignore_cursor_events(&unlocked, Some(true), Some((1, 1)), pos, size));
    assert!(bar.ignores_cursor_events());
    assert!(!open.ignores_cursor_events());
}

#[test]
fn floating_bar_hit_test_overflow_is_detected() {
    let bar = locked_bar();
    assert!(decision_overflows(&bar, Some(true), Some((0, 0)), Some((i32::MIN, 0)), Some((1, 1))));
    assert!(decision_overflows(&bar, Some(true), Some((i32::MAX, 0)), Some((i32::MAX - 2, 0)), Some((0, 0))));
    assert!(!decision_overflows(&bar, Some(true), Some((0, 0)), Some((i32::MAX - 2, 0)), Some((0, 0))));
    assert!(!decision_overflows(&bar, Some(true), Some((0, 0)), Some((10, 10)), Some((1, 1))));
    assert!(!decision_overflows(&bar, Some(false), Some((0, 0)), Some((i32::MIN, 0)), Some((1, 1))));
}

#[test]
fn floating_bar_saved_position_needs_both_coordinates() {
    let mut bar = FloatingBarConfig::default();
    assert!(bar.saved_position().is_none());
    bar.x = Some(F64Bits(10.5f64.to_bits()));
    assert!(bar.saved_position().is_none());
    bar.y = Some(F64Bits(20.0f64.to_bits()));
    let (x, y) = bar.saved_position().unwrap();
    assert_eq!((f64::from_bits(x.0), f64::from_bits(y.0)), (10.5, 20.0));
}

#[test]
fn sleep_steps_add_up_to_the_interval() {
    for interval in [0u64, 1, 99, 100, 101, 250, 1_000] {
        let mut slept = 0u64;
        let mut steps = 0;
        while let Some(step) = sleep_step(interval, slept) {
            assert!(step > 0 && step <= 100);
            slept += step;
            steps += 1;
        }
        assert_eq!(slept, interval);
        assert_eq!(steps, (interval + 99) / 100);
    }
}

#[test]
fn menu_toggles_change_only_their_setting() {
    assert!(!autostart_target(Some(true)));
    assert!(autostart_target(Some(false)));
    assert!(autostart_target(None));

    let config = AppConfig::default();
    let next = config_after_autostart(config, true, true).unwrap();
    assert!(next.autostart);
    assert_eq!(next.refresh_interval_ms, config.refresh_interval_ms);
    assert!(config_after_autostart(config, true, false).is_none());

    let toggled = config_with_floating_toggled(config);
    assert_eq!(toggled.floating_bar.enabled, !config.floating_bar.enabled);
    assert_eq!(toggled.floating_bar.opacity.0, config.floating_bar.opacity.0);
    assert_eq!(toggled.autostart, config.autostart);
    let back = config_with_floating_toggled(toggled);
    assert_eq!(back.floating_bar.enabled, config.floating_bar.enabled);
}

#[test]
fn cursor_event_mode_switches_only_on_change_and_after_success() {
    let mut mode = CursorEventMode::new();
    assert!(!mode.ignored);
    assert_eq!(mode.change_needed(false), None);
    assert_eq!(mode.change_needed(true), Some(true));
    mode.record(true, false);
    assert!(!mode.ignored);
    assert_eq!(mode.change_needed(true), Some(true));
    mode.record(true, true);
    assert!(mode.ignored);
    assert_eq!(mode.change_needed(true), None);
    assert_eq!(mode.change_needed(false), Some(false));
}
