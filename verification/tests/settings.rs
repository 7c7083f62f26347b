use clicker_data_collector::config::{
    apply_config_update, default_cycles, default_serial_port, default_web_port, Config,
    ConfigUpdateError, UpdateAndSaveConfigValues,
};
use clicker_data_collector::data_point::{DataPoint, IDataPoint};

fn no_update() -> UpdateAndSaveConfigValues {
    UpdateAndSaveConfigValues { rk_meter_port: None, web_port: None, cycles: None }
}

#[test]
fn defaults() {
    assert_eq!(default_serial_port(), "COM1");
    assert_eq!(default_web_port(), 3289);
    assert_eq!(default_cycles(), 3);
    let c = Config::new_default();
    assert_eq!(c.rk_meter_port, "COM1");
    assert_eq!(c.web_port, 3289);
    assert_eq!(c.cycles, 3);
}

#[test]
fn empty_update_changes_nothing() {
    let mut c = Config::new_default();
    assert_eq!(apply_config_update(&mut c, no_update()), Ok(false));
    assert_eq!(c.rk_meter_port, "COM1");
}

#[test]
fn full_update_is_applied() {
    let mut c = Config::new_default();
    let upd = UpdateAndSaveConfigValues {
        rk_meter_port: Some("/dev/ttyUSB0".to_string()),
        web_port: Some(8080),
        cycles: Some(5),
    };
    assert_eq!(apply_config_update(&mut c, upd), Ok(true));
    assert_eq!(c.rk_meter_port, "/dev/ttyUSB0");
    assert_eq!(c.web_port, 8080);
    assert_eq!(c.cycles, 5);
}

#[test]
fn empty_port_is_rejected_without_change() {
    let mut c = Config::new_default();
    let upd = UpdateAndSaveConfigValues {
        rk_meter_port: Some(String::new()),
        web_port: Some(8080),
        cycles: None,
    };
    assert_eq!(apply_config_update(&mut c, upd), Err(ConfigUpdateError::EmptyPort));
    assert_eq!(c.web_port, 3289);
}

#[test]
fn low_web_port_is_rejected() {
    let mut c = Config::new_default();
    let upd = UpdateAndSaveConfigValues {
        rk_meter_port: None,
        web_port: Some(1023),
        cycles: None,
    };
    assert_eq!(apply_config_update(&mut c, upd), Err(ConfigUpdateError::WebPortTooLow));
    assert_eq!(c.web_port, 3289);
    let boundary = UpdateAndSaveConfigValues {
        rk_meter_port: None,
        web_port: Some(1024),
        cycles: None,
    };
    assert_eq!(apply_config_update(&mut c, boundary), Ok(true));
    assert_eq!(c.web_port, 1024);
}

#[test]
fn zero_cycles_is_rejected() {
    let mut c = Config::new_default();
    let upd = UpdateAndSaveConfigValues { rk_meter_port: None, web_port: None, cycles: Some(0) };
    assert_eq!(apply_config_update(&mut c, upd), Err(ConfigUpdateError::CyclesZero));
    assert_eq!(c.cycles, 3);
}

#[test]
fn update_error_messages() {
    assert_eq!(
        ConfigUpdateError::EmptyPort.message(),
        "the serial port name must not be empty"
    );
    assert_eq!(ConfigUpdateError::WebPortTooLow.message(), "the web port must be at least 1024");
    assert_eq!(ConfigUpdateError::CyclesZero.message(), "the cycle count must be at least 1");
}

#[test]
fn data_point_accessors() {
    let p = DataPoint::new(3, -4);
    assert_eq!(p.x(), 3);
    assert_eq!(p.y(), -4);
}
