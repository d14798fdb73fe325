use co2_monitor::controller::{
    on_app_timer, on_button, on_measurement, AppState, Monitor, Reaction, ScreenCommand,
    CO2_HISTORY_LEN, DEBOUNCE_TIMEOUT_MS, SCREEN_TIMEOUT_MS,
};

fn reaction(state: AppState, screen: ScreenCommand, timer_ms: Option<u64>) -> Reaction {
    Reaction { state, screen, timer_ms }
}

#[test]
fn button_ignored_while_initializing() {
    assert_eq!(
        on_button(AppState::Initializing, false),
        reaction(AppState::Initializing, ScreenCommand::Keep, None)
    );
}

#[test]
fn button_from_idle_shows_measurement() {
    assert_eq!(
        on_button(AppState::Idle, true),
        reaction(AppState::GeneralViewDebouncing, ScreenCommand::ShowMeasurement, Some(300))
    );
    assert_eq!(
        on_button(AppState::HistoryView, true),
        reaction(AppState::GeneralViewDebouncing, ScreenCommand::ShowMeasurement, Some(300))
    );
    assert_eq!(
        on_button(AppState::Idle, false),
        reaction(AppState::GeneralViewDebouncing, ScreenCommand::Keep, Some(300))
    );
}

#[test]
fn button_from_general_view_shows_history() {
    assert_eq!(
        on_button(AppState::GeneralView, true),
        reaction(AppState::HistoryViewDebouncing, ScreenCommand::ShowHistory, Some(DEBOUNCE_TIMEOUT_MS))
    );
}

#[test]
fn button_while_debouncing_restarts_debounce() {
    for s in [AppState::GeneralViewDebouncing, AppState::HistoryViewDebouncing] {
        assert_eq!(on_button(s, true), reaction(s, ScreenCommand::Keep, Some(300)));
    }
}

#[test]
fn timer_transitions() {
    assert_eq!(on_app_timer(AppState::Initializing), reaction(AppState::Initializing, ScreenCommand::Keep, None));
    assert_eq!(on_app_timer(AppState::Idle), reaction(AppState::Idle, ScreenCommand::Keep, None));
    assert_eq!(
        on_app_timer(AppState::GeneralViewDebouncing),
        reaction(AppState::GeneralView, ScreenCommand::Keep, Some(SCREEN_TIMEOUT_MS))
    );
    assert_eq!(
        on_app_timer(AppState::HistoryViewDebouncing),
        reaction(AppState::HistoryView, ScreenCommand::Keep, Some(5000))
    );
    assert_eq!(on_app_timer(AppState::GeneralView), reaction(AppState::Idle, ScreenCommand::TurnOff, None));
    assert_eq!(on_app_timer(AppState::HistoryView), reaction(AppState::Idle, ScreenCommand::TurnOff, None));
}

#[test]
fn first_measurement_ends_start_up() {
    assert_eq!(
        on_measurement(AppState::Initializing, false),
        reaction(AppState::Idle, ScreenCommand::TurnOff, None)
    );
    assert_eq!(
        on_measurement(AppState::GeneralView, true),
        reaction(AppState::GeneralView, ScreenCommand::Keep, None)
    );
}

#[test]
fn monitor_full_screen_cycle() {
    let mut m = Monitor::new();
    assert_eq!(m.state(), AppState::Initializing);
    assert!(!m.has_measurement());
    assert_eq!(m.press_button().state, AppState::Initializing);
    assert!(m.can_record(420));
    assert_eq!(m.record_measurement(420), reaction(AppState::Idle, ScreenCommand::TurnOff, None));
    assert!(m.has_measurement());
    assert_eq!(m.press_button(), reaction(AppState::GeneralViewDebouncing, ScreenCommand::ShowMeasurement, Some(300)));
    assert_eq!(m.app_timer_expired(), reaction(AppState::GeneralView, ScreenCommand::Keep, Some(5000)));
    assert_eq!(m.press_button(), reaction(AppState::HistoryViewDebouncing, ScreenCommand::ShowHistory, Some(300)));
    assert_eq!(m.app_timer_expired(), reaction(AppState::HistoryView, ScreenCommand::Keep, Some(5000)));
    assert_eq!(m.app_timer_expired(), reaction(AppState::Idle, ScreenCommand::TurnOff, None));
    assert_eq!(m.state(), AppState::Idle);
}

#[test]
fn later_measurements_keep_the_screen_state() {
    let mut m = Monitor::new();
    m.record_measurement(400);
    m.press_button();
    assert_eq!(m.record_measurement(410), reaction(AppState::GeneralViewDebouncing, ScreenCommand::Keep, None));
    assert_eq!(m.state(), AppState::GeneralViewDebouncing);
}

#[test]
fn every_twelve_readings_append_one_average() {
    let mut m = Monitor::new();
    for i in 0..12u16 {
        assert_eq!(m.history()[CO2_HISTORY_LEN - 1], 0);
        m.record_measurement(400 + 2 * i);
    }
    // (400 + 402 + ... + 422) / 12 = 411
    assert_eq!(m.history()[CO2_HISTORY_LEN - 1], 411);
    assert_eq!(m.history()[CO2_HISTORY_LEN - 2], 0);
    for _ in 0..12 {
        m.record_measurement(1000);
    }
    assert_eq!(m.history()[CO2_HISTORY_LEN - 1], 1000);
    assert_eq!(m.history()[CO2_HISTORY_LEN - 2], 411);
}

#[test]
fn reading_that_would_overflow_block_sum_is_refused() {
    let mut m = Monitor::new();
    m.record_measurement(60000);
    assert!(m.can_record(5535));
    assert!(!m.can_record(5536));
}
