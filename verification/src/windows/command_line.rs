//! What the command line asks for.

use vstd::prelude::*;
use vstd::string::StringExecFns;

verus! {

/// The settings file where the command line names none.
pub const DEFAULT_CONFIG_PATH: &'static str = "config.ini";

/// The arguments of the command line: the path of the settings file.
#[derive(Debug)]
pub struct Cli {
    pub config_path: Option<String>,
}

impl Cli {
    /// The path of the settings file: the one given, or `config.ini`.
    pub fn config_path(&self) -> (path: String)
        ensures
            path@ == match self.config_path {
                Some(given) => given@,
                None => DEFAULT_CONFIG_PATH@,
            },
    {
        match &self.config_path {
            Some(given) => given.clone(),
            None => String::from_str(DEFAULT_CONFIG_PATH),
        }
    }
}

} // verus!
