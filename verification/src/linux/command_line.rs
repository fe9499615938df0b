//! What the command line asks for.

use crate::number::{parse_number_spec, parse_u32};
use crate::text::{trim, trim_spec};
use vstd::prelude::*;
use vstd::string::StringExecFns;

verus! {

/// The settings file where the command line names none.
pub const DEFAULT_CONFIG_PATH: &'static str = "config.ini";

/// The arguments of the command line: the path of the settings file, and a
/// command.
#[derive(Debug)]
pub struct Cli {
    pub config_path: Option<String>,
    pub command: Option<Commands>,
}

/// What the command line can ask for besides debouncing.
#[derive(Debug)]
pub enum Commands {
    /// List all connected devices.
    ListDevices,
    /// Select the device to listen to, by its number in the list.
    Select { device: String },
}

/// What the program is to do.
#[derive(Debug, Clone, Copy, PartialEq, Eq, Structural)]
pub enum Request {
    /// List the keyboards and end.
    ListDevices,
    /// Debounce the keyboard with this number in the list, or the one that the
    /// settings remember where the number is zero.
    Watch { device_number: u32 },
}

/// The device number of a `Select` command is not a number of at most 32
/// bits.
#[derive(Debug, Clone, Copy, PartialEq, Eq, Structural)]
pub struct InvalidDeviceNumber;

/// What a command asks for. Without a command, and with the number zero, the
/// keyboard of the settings is watched. White space around a device number
/// does not count.
pub open spec fn request_spec(command: Option<Commands>) -> Result<Request, InvalidDeviceNumber> {
    match command {
        None => Ok(Request::Watch { device_number: 0 }),
        Some(Commands::ListDevices) => Ok(Request::ListDevices),
        Some(Commands::Select { device }) => match parse_number_spec(
            trim_spec(device@),
            u32::MAX as int,
        ) {
            Some(number) => Ok(Request::Watch { device_number: number as u32 }),
            None => Err(InvalidDeviceNumber),
        },
    }
}

impl Cli {
    /// The path of the settings file: the one given, or `config.ini`.
    pub fn config_path(&self) -> (path: String)
        ensures
            path@ == match self.config_path {
                Some(given) => given@,
                None => DEFAULT_CONFIG_PATH@,
            },
    {
        match &self.config_path {
            Some(given) => given.clone(),
            None => String::from_str(DEFAULT_CONFIG_PATH),
        }
    }

    /// What the command line asks for.
    pub fn request(&self) -> (request: Result<Request, InvalidDeviceNumber>)
        ensures
            request == request_spec(self.command),
    {
        match &self.command {
            None => Ok(Request::Watch { device_number: 0 }),
            Some(Commands::ListDevices) => Ok(Request::ListDevices),
            Some(Commands::Select { device }) => match parse_u32(trim(device.as_str())) {
                Some(device_number) => Ok(Request::Watch { device_number }),
                None => Err(InvalidDeviceNumber),
            },
        }
    }
}

} // verus!
