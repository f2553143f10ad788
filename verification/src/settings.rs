use vstd::prelude::*;

use crate::text::concat;

verus! {

/// The options of the configuration file; each one is off unless the file turns it on.
#[derive(PartialEq, Eq, Structural, Clone, Copy, Debug)]
pub struct Settings {
    /// Disables all write actions (pull, merge, ...).
    pub read_only: bool,
    /// Keeps the terminal's main screen instead of the alternate one.
    pub no_alternate_screen: bool,
}

impl Default for Settings {
    fn default() -> (res: Self)
        ensures
            !res.read_only,
            !res.no_alternate_screen,
    {
        Settings { read_only: false, no_alternate_screen: false }
    }
}

/// Why the settings could not be read.
#[derive(PartialEq, Eq, Debug)]
pub enum SettingsError {
    /// The configuration file does not exist.
    ConfigNotFound,
    /// The file could not be opened or read; the message of the system error.
    Io(String),
    /// The file does not hold valid settings; the message of the parser.
    InvalidConfig(String),
}

/// The message of an error, where the configuration file is looked for at `config_path`.
pub open spec fn error_message(e: SettingsError, config_path: Seq<char>) -> Seq<char> {
    match e {
        SettingsError::ConfigNotFound => "Config file "@ + config_path + " not found"@,
        SettingsError::Io(m) => m@,
        SettingsError::InvalidConfig(m) => m@,
    }
}

impl SettingsError {
    /// The message of the error, where the configuration file is looked for at `config_path`.
    pub fn to_string(&self, config_path: &str) -> (res: String)
        ensures
            res@ == error_message(*self, config_path@),
    {
        match self {
            SettingsError::ConfigNotFound => {
                let head = concat("Config file ", config_path);
                concat(head.as_str(), " not found")
            },
            SettingsError::Io(m) => m.clone(),
            SettingsError::InvalidConfig(m) => m.clone(),
        }
    }
}

/// The error for a configuration file that could not be opened: a missing file is
/// `ConfigNotFound`, any other failure carries the system's message.
pub fn open_error(not_found: bool, message: String) -> (res: SettingsError)
    ensures
        not_found ==> res == SettingsError::ConfigNotFound,
        !not_found ==> res == SettingsError::Io(message),
{
    if not_found {
        SettingsError::ConfigNotFound
    } else {
        SettingsError::Io(message)
    }
}

} // verus!
