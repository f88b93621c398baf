//! Where the program keeps its files, decided from the environment that the
//! caller read.

use vstd::prelude::*;
use vstd::string::StringExecFns;

verus! {

/// The directory that the configuration files stand in.
#[derive(Debug, Clone, PartialEq, Eq)]
pub enum ConfigRoot {
    /// The directory `.config/terminoda` under this home directory.
    UnderHome(String),
    /// This directory itself.
    Plain(String),
}

/// Why a location could not be decided.
#[derive(Debug, Clone, Copy, PartialEq, Eq, Structural)]
pub enum LocationError {
    /// Neither a home directory nor a user profile is known.
    NoHomeDirectory,
}

impl LocationError {
    /// The message shown to the caller.
    pub open spec fn message_text(self) -> Seq<char> {
        "Could not find home directory"@
    }

    /// The message shown to the caller.
    pub fn message(&self) -> (s: String)
        ensures
            s@ == self.message_text(),
    {
        String::from_str("Could not find home directory")
    }
}

/// Decides the configuration directory: under the home directory where one
/// is known, else the application data directory, else the working directory.
pub fn config_root(home: Option<String>, app_data: Option<String>) -> (root: ConfigRoot)
    ensures
        match home {
            Some(h) => root == ConfigRoot::UnderHome(h),
            None => match app_data {
                Some(d) => root == ConfigRoot::Plain(d),
                None => root matches ConfigRoot::Plain(d) && d@ == "."@,
            },
        },
{
    match home {
        Some(h) => ConfigRoot::UnderHome(h),
        None => match app_data {
            Some(d) => ConfigRoot::Plain(d),
            None => ConfigRoot::Plain(String::from_str(".")),
        },
    }
}

/// Decides the directory that holds the user's `.ssh` directory: the home
/// directory where one is known, else the user profile.
pub fn ssh_home(home: Option<String>, user_profile: Option<String>) -> (r: Result<
    String,
    LocationError,
>)
    ensures
        match home {
            Some(h) => r == Ok::<String, LocationError>(h),
            None => match user_profile {
                Some(p) => r == Ok::<String, LocationError>(p),
                None => r == Err::<String, LocationError>(LocationError::NoHomeDirectory),
            },
        },
{
    match home {
        Some(h) => Ok(h),
        None => match user_profile {
            Some(p) => Ok(p),
            None => Err(LocationError::NoHomeDirectory),
        },
    }
}

} // verus!
