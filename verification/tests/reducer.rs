use dashboard_core::app::data_harvester::Data;
use dashboard_core::app::data_harvester::TemperatureType;
use dashboard_core::app::frozen_state::FrozenState;
use dashboard_core::app::layout_manager::LayoutCreationOutput;
use dashboard_core::app::widgets::BottomWidgetType;
use dashboard_core::app::AppConfigFields;
use dashboard_core::app::AppMessages;
use dashboard_core::app::AppState;
use dashboard_core::app::AxisScaling;
use dashboard_core::app::CurrentScreen;
use dashboard_core::app::UsedWidgets;
use dashboard_core::units::DataUnit;
use std::sync::atomic::AtomicBool;
use std::sync::atomic::Ordering;
use std::sync::Arc;

fn config() -> AppConfigFields {
    AppConfigFields {
        update_rate_in_milliseconds: 1000,
        temperature_type: TemperatureType::Celsius,
        use_dot: false,
        left_legend: false,
        show_average_cpu: true,
        use_current_cpu_total: false,
        use_basic_mode: false,
        default_time_value: 60000,
        time_interval: 15000,
        hide_time: false,
        autohide_time: false,
        use_old_network_legend: false,
        table_gap: true,
        disable_click: false,
        no_write: false,
        show_table_scroll_position: false,
        is_advanced_kill: false,
        network_unit_type: DataUnit::Byte,
        network_scale_type: AxisScaling::Linear,
        network_use_binary_prefix: false,
    }
}

fn app_with_flag(flag: Arc<AtomicBool>) -> AppState {
    let mut used_widgets = UsedWidgets::default();
    used_widgets.add(&BottomWidgetType::Cpu);
    let layout = LayoutCreationOutput { used_widgets, selected: 0 };
    AppState::with_terminator(config(), layout, flag)
}

fn app() -> AppState {
    app_with_flag(Arc::new(AtomicBool::new(false)))
}

fn snapshot(time: u64) -> AppMessages {
    AppMessages::Update(Box::new(Data { collection_time: time }))
}

#[test]
fn construction_starts_from_defaults() {
    let app = app();
    assert!(app.data_collection.data.is_empty());
    assert_eq!(app.data_collection.current_time, 0);
    assert_eq!(app.current_screen, CurrentScreen::Main);
    assert!(matches!(app.frozen_state, FrozenState::NotFrozen));
    assert!(!app.is_terminated());
    assert!(app.used_widgets.use_cpu);
    assert!(!app.used_widgets.use_mem);
}

#[test]
fn every_message_but_clean_and_quit_requires_a_redraw() {
    let mut app = app();
    assert!(app.update(snapshot(100)));
    assert!(app.update(AppMessages::OpenHelp));
    assert!(app.update(AppMessages::ConfirmKillProcess { to_kill: vec![42] }));
    assert!(app.update(AppMessages::KillProcess { to_kill: vec![42], signal: Some(15) }));
    assert!(app.update(AppMessages::ToggleFreeze));
    assert!(app.update(AppMessages::Reset));
    assert!(!app.update(AppMessages::Clean));
    assert!(!app.update(AppMessages::Quit));
}

#[test]
fn update_ingests_the_snapshot() {
    let mut app = app();
    app.update(snapshot(700));
    app.update(snapshot(900));
    assert_eq!(app.data_collection.data.len(), 2);
    assert_eq!(app.data_collection.data[1].collection_time, 900);
    assert_eq!(app.data_collection.current_time, 900);
}

#[test]
fn open_help_moves_to_the_help_screen() {
    let mut app = app();
    assert_eq!(app.current_screen, CurrentScreen::Main);
    app.update(AppMessages::OpenHelp);
    assert_eq!(app.current_screen, CurrentScreen::Help);
}

#[test]
fn clean_evicts_stale_points_only() {
    let mut app = app();
    app.update(snapshot(0));
    app.update(snapshot(700_000));
    app.update(AppMessages::Clean);
    // The point at 0 is more than 600000 ms older than the last harvest.
    assert_eq!(app.data_collection.data.len(), 1);
    assert_eq!(app.data_collection.data[0].collection_time, 700_000);
}

#[test]
fn clean_preserves_screen_freeze_and_termination() {
    let mut app = app();
    app.update(AppMessages::OpenHelp);
    app.update(AppMessages::ToggleFreeze);
    app.update(AppMessages::Clean);
    assert_eq!(app.current_screen, CurrentScreen::Help);
    assert!(matches!(app.frozen_state, FrozenState::Frozen(_)));
    assert!(!app.is_terminated());
}

#[test]
fn toggle_freeze_twice_restores_occupancy() {
    let mut app = app();
    app.update(snapshot(100));
    assert!(matches!(app.frozen_state, FrozenState::NotFrozen));
    app.update(AppMessages::ToggleFreeze);
    match &app.frozen_state {
        FrozenState::Frozen(copy) => {
            assert_eq!(copy.data.len(), 1);
            assert_eq!(copy.current_time, 100);
        }
        FrozenState::NotFrozen => panic!("expected a frozen copy"),
    }
    app.update(snapshot(200));
    app.update(AppMessages::ToggleFreeze);
    assert!(matches!(app.frozen_state, FrozenState::NotFrozen));
    // The live collection kept collecting while frozen.
    assert_eq!(app.data_collection.data.len(), 2);
}

#[test]
fn the_view_reads_the_frozen_copy_while_frozen() {
    let mut app = app();
    app.update(snapshot(100));
    app.update(AppMessages::ToggleFreeze);
    app.update(snapshot(200));
    // Frozen: the view still sees the instant of the freeze.
    assert_eq!(app.effective_data().current_time, 100);
    app.update(AppMessages::ToggleFreeze);
    // Thawed: the view sees the live collection again.
    assert_eq!(app.effective_data().current_time, 200);
}

#[test]
fn quit_terminates_and_termination_is_monotonic() {
    let mut app = app();
    assert!(!app.is_terminated());
    app.update(AppMessages::Quit);
    assert!(app.is_terminated());
    // No later message revokes a standing request.
    app.update(AppMessages::Reset);
    app.update(AppMessages::Clean);
    app.update(snapshot(100));
    assert!(app.is_terminated());
}

#[test]
fn the_termination_decision_is_the_disjunction() {
    assert!(!AppState::termination_decision(false, false));
    assert!(AppState::termination_decision(true, false));
    assert!(AppState::termination_decision(false, true));
    assert!(AppState::termination_decision(true, true));
}

#[test]
fn a_fresh_state_with_a_clear_flag_is_not_terminated() {
    // Neither a quit request nor an interrupt: the loop keeps running.
    let app = app();
    assert!(!app.is_terminated());
    assert!(!app.is_terminated());
}

#[test]
fn an_interrupt_on_the_shared_flag_terminates() {
    let flag = Arc::new(AtomicBool::new(false));
    let app = app_with_flag(Arc::clone(&flag));
    assert!(!app.is_terminated());
    // The OS interrupt handler performs exactly this store.
    flag.store(true, Ordering::SeqCst);
    assert!(app.is_terminated());
}

#[test]
fn quit_also_sets_the_shared_flag() {
    let flag = Arc::new(AtomicBool::new(false));
    let mut app = app_with_flag(Arc::clone(&flag));
    app.update(AppMessages::Quit);
    assert!(flag.load(Ordering::SeqCst));
}

#[test]
fn used_widgets_add_enables_whole_categories() {
    let mut used = UsedWidgets::default();
    used.add(&BottomWidgetType::BasicMem);
    used.add(&BottomWidgetType::Net);
    used.add(&BottomWidgetType::ProcSort);
    assert!(used.use_mem);
    assert!(used.use_net);
    // A sort pane belongs to no category of its own.
    assert!(!used.use_proc);
    assert!(!used.use_cpu);
    assert!(!used.use_disk);
    assert!(!used.use_temp);
    assert!(!used.use_battery);
}
