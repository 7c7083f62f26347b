//! Application settings and their validated update.
//!
//! Loading and saving the settings file is input/output and lives with the
//! embedding application; this module owns the default values and the rules
//! that an update must satisfy before it may be persisted.
use vstd::prelude::*;
use vstd::string::StringExecFns;

verus! {

/// Serial port used when the settings file names none.
pub fn default_serial_port() -> (r: String)
    ensures
        r@ == "COM1"@,
{
    String::from_str("COM1")
}

/// Web port used when the settings file names none.
pub fn default_web_port() -> (r: u16)
    ensures
        r == 3289,
{
    3289
}

/// Switch-cycle count used when the settings file names none.
pub fn default_cycles() -> (r: u32)
    ensures
        r == 3,
{
    3
}

/// The application settings: the device's serial port, the port the web
/// interface listens on, and how many Rk/Freq switch cycles one measurement
/// session runs for.
#[derive(Clone, Debug)]
pub struct Config {
    pub rk_meter_port: String,
    pub web_port: u16,
    pub cycles: u32,
}

impl Config {
    /// A settings value with every field at its default.
    pub fn new_default() -> (r: Self)
        ensures
            r.rk_meter_port@ == "COM1"@,
            r.web_port == 3289,
            r.cycles == 3,
    {
        Self { rk_meter_port: default_serial_port(), web_port: default_web_port(), cycles: default_cycles() }
    }
}

/// A partial settings update: fields left as `None` keep their current value.
#[derive(Clone, Debug)]
pub struct UpdateAndSaveConfigValues {
    pub rk_meter_port: Option<String>,
    pub web_port: Option<u16>,
    pub cycles: Option<u32>,
}

/// Why a settings update was rejected.
#[derive(Clone, Copy, Debug, PartialEq, Eq)]
pub enum ConfigUpdateError {
    /// The serial port name may not be empty.
    EmptyPort,
    /// The web port must be at least 1024.
    WebPortTooLow,
    /// The cycle count must be at least 1.
    CyclesZero,
}

impl ConfigUpdateError {
    /// A user-facing description of the rejection.
    pub fn message(&self) -> (r: &'static str)
        ensures
            *self is EmptyPort ==> r@ == "the serial port name must not be empty"@,
            *self is WebPortTooLow ==> r@ == "the web port must be at least 1024"@,
            *self is CyclesZero ==> r@ == "the cycle count must be at least 1"@,
    {
        match self {
            ConfigUpdateError::EmptyPort => "the serial port name must not be empty",
            ConfigUpdateError::WebPortTooLow => "the web port must be at least 1024",
            ConfigUpdateError::CyclesZero => "the cycle count must be at least 1",
        }
    }
}

/// The outcome `apply_config_update` owes for a given update: the serial
/// port is checked first, then the web port, then the cycle count.
pub open spec fn spec_config_update_error(upd: UpdateAndSaveConfigValues) -> Option<
    ConfigUpdateError,
> {
    if upd.rk_meter_port matches Some(p) && p@.len() == 0 {
        Some(ConfigUpdateError::EmptyPort)
    } else if upd.web_port matches Some(w) && w < 1024 {
        Some(ConfigUpdateError::WebPortTooLow)
    } else if upd.cycles matches Some(c) && c < 1 {
        Some(ConfigUpdateError::CyclesZero)
    } else {
        None
    }
}

/// Validate `upd` against the settings rules and, if every given field is
/// acceptable, apply it to `config`. Returns whether anything changed, so
/// the caller knows whether to persist the settings; on rejection the
/// settings are left untouched.
pub fn apply_config_update(config: &mut Config, upd: UpdateAndSaveConfigValues) -> (r: Result<
    bool,
    ConfigUpdateError,
>)
    ensures
        match spec_config_update_error(upd) {
            Some(e) => r == Result::<bool, ConfigUpdateError>::Err(e) && *final(config)
                == *old(config),
            None => {
                &&& r == Result::<bool, ConfigUpdateError>::Ok(
                    upd.rk_meter_port is Some || upd.web_port is Some || upd.cycles is Some,
                )
                &&& final(config).rk_meter_port@ == (match upd.rk_meter_port {
                    Some(p) => p@,
                    None => old(config).rk_meter_port@,
                })
                &&& final(config).web_port == (match upd.web_port {
                    Some(w) => w,
                    None => old(config).web_port,
                })
                &&& final(config).cycles == (match upd.cycles {
                    Some(c) => c,
                    None => old(config).cycles,
                })
            },
        },
{
    if let Some(port) = &upd.rk_meter_port {
        if port.as_str().is_empty() {
            return Err(ConfigUpdateError::EmptyPort);
        }
    }
    if let Some(web_port) = &upd.web_port {
        if *web_port < 1024 {
            return Err(ConfigUpdateError::WebPortTooLow);
        }
    }
    if let Some(cycles) = &upd.cycles {
        if *cycles < 1 {
            return Err(ConfigUpdateError::CyclesZero);
        }
    }
    let mut modified = false;
    if let Some(port) = upd.rk_meter_port {
        config.rk_meter_port = port;
        modified = true;
    }
    if let Some(web_port) = upd.web_port {
        config.web_port = web_port;
        modified = true;
    }
    if let Some(cycles) = upd.cycles {
        config.cycles = cycles;
        modified = true;
    }
    Ok(modified)
}

} // verus!
