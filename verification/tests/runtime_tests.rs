use livesplit_auto_splitting::runtime::{
    decide_action, Driver, TickOutcome, TimerAction, TimerState,
};

#[test]
fn split_takes_precedence_over_reset_while_running() {
    // Both predicates fire on the same tick; the split is checked first.
    let action = decide_action(TimerState::Running, None, Some(1), Some(1));
    assert_eq!(action, Some(TimerAction::Split));
}

#[test]
fn reset_fires_while_running_without_a_split() {
    assert_eq!(
        decide_action(TimerState::Running, None, Some(0), Some(1)),
        Some(TimerAction::Reset)
    );
    assert_eq!(decide_action(TimerState::Running, None, None, Some(7)), Some(TimerAction::Reset));
}

#[test]
fn finished_state_only_resets() {
    assert_eq!(
        decide_action(TimerState::Finished, Some(1), Some(1), Some(1)),
        Some(TimerAction::Reset)
    );
    assert_eq!(decide_action(TimerState::Finished, Some(1), Some(1), Some(0)), None);
    assert_eq!(decide_action(TimerState::Finished, Some(1), Some(1), None), None);
}

#[test]
fn not_running_state_only_starts() {
    assert_eq!(
        decide_action(TimerState::NotRunning, Some(1), Some(1), Some(1)),
        Some(TimerAction::Start)
    );
    assert_eq!(decide_action(TimerState::NotRunning, Some(0), Some(1), Some(1)), None);
    assert_eq!(decide_action(TimerState::NotRunning, None, None, None), None);
}

#[test]
fn missing_exports_yield_no_action() {
    assert_eq!(decide_action(TimerState::Running, None, None, None), None);
}

#[test]
fn idle_driver_stays_idle_when_no_process_matches() {
    let mut driver = Driver::new();
    driver.env.set_process_name(String::from("no_process_could_carry_this_name_0x7f"));
    assert_eq!(driver.begin_tick(), TickOutcome::NotHooked);
    assert!(driver.env.process.is_none());
}

#[test]
fn driver_hooks_a_running_process_by_name() {
    let pid = sysinfo::get_current_pid().expect("the current pid is known");
    let mut sys = sysinfo::System::new();
    sys.refresh_processes(sysinfo::ProcessesToUpdate::Some(&[pid]), false);
    let name = sys
        .process(pid)
        .expect("the current process is listed")
        .name()
        .to_string_lossy()
        .into_owned();

    let mut driver = Driver::new();
    driver.env.set_process_name(name);
    // With no pointer paths registered, hooking and the first update
    // succeed, and so does the steady tick after it.
    assert_eq!(driver.begin_tick(), TickOutcome::Ready);
    assert!(driver.env.process.is_some());
    assert_eq!(driver.begin_tick(), TickOutcome::Ready);
}

#[test]
fn driver_records_the_loading_answer() {
    let mut driver = Driver::new();
    assert_eq!(driver.is_loading(), None);
    driver.record_is_loading(1);
    assert_eq!(driver.is_loading(), Some(true));
    driver.record_is_loading(0);
    assert_eq!(driver.is_loading(), Some(false));
}

#[test]
fn timer_state_is_set_by_the_embedder() {
    let mut driver = Driver::new();
    assert_eq!(driver.timer_state, TimerState::NotRunning);
    driver.set_state(TimerState::Running);
    assert_eq!(driver.timer_state, TimerState::Running);
    driver.set_state(TimerState::Finished);
    assert_eq!(driver.timer_state, TimerState::Finished);
}
