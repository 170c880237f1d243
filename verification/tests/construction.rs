use dashboard_core::app::data_harvester::TemperatureType;
use dashboard_core::app::layout_manager::LayoutCreationOutput;
use dashboard_core::app::AppConfigFields;
use dashboard_core::app::AppError;
use dashboard_core::app::AppState;
use dashboard_core::app::AxisScaling;
use dashboard_core::app::UsedWidgets;
use dashboard_core::units::DataUnit;

fn config() -> AppConfigFields {
    AppConfigFields {
        update_rate_in_milliseconds: 1000,
        temperature_type: TemperatureType::Celsius,
        use_dot: false,
        left_legend: false,
        show_average_cpu: true,
        use_current_cpu_total: false,
        use_basic_mode: false,
        default_time_value: 60000,
        time_interval: 15000,
        hide_time: false,
        autohide_time: false,
        use_old_network_legend: false,
        table_gap: true,
        disable_click: false,
        no_write: false,
        show_table_scroll_position: false,
        is_advanced_kill: false,
        network_unit_type: DataUnit::Byte,
        network_scale_type: AxisScaling::Linear,
        network_use_binary_prefix: false,
    }
}

fn layout() -> LayoutCreationOutput {
    LayoutCreationOutput { used_widgets: UsedWidgets::default(), selected: 0 }
}

#[test]
fn registering_the_interrupt_handler_twice_fails() {
    // The first construction registers the process-wide interrupt handler.
    let app = AppState::new(config(), layout()).expect("first registration succeeds");
    assert!(!app.is_terminated());
    // A second registration in the same process is refused, and the failure
    // aborts construction.
    let second = AppState::new(config(), layout());
    assert!(matches!(second, Err(AppError::TerminatorRegistration)));
}
