use vstd::prelude::*;

use crate::error::FruitError;
use crate::paths::{join, join_path};

verus! {

/// How long one call of the event loop runs.
#[derive(Debug, Clone, Copy, PartialEq, Eq)]
pub enum RunPeriod {
    /// One pass of the loop, then return.
    Once,
    /// Until stopped.
    Forever,
    /// At least this long, unless stopped.
    Time(std::time::Duration),
}

/// How much user interface a running application presents.
#[derive(Debug, Clone, Copy, PartialEq, Eq)]
pub enum ActivationPolicy {
    /// In the Dock and menu bar, with windows.
    Regular,
    /// Not in the Dock or menu bar, may have windows.
    Accessory,
    /// Background only.
    Prohibited,
}

impl ActivationPolicy {
    /// The host's integer code for the policy.
    pub open spec fn code(&self) -> i64 {
        match self {
            ActivationPolicy::Regular => 0,
            ActivationPolicy::Accessory => 1,
            ActivationPolicy::Prohibited => 2,
        }
    }

    /// The host's integer code for the policy: 0, 1 and 2 in declaration order.
    pub fn native_value(&self) -> (r: i64)
        ensures
            r == self.code(),
    {
        match self {
            ActivationPolicy::Regular => 0,
            ActivationPolicy::Accessory => 1,
            ActivationPolicy::Prohibited => 2,
        }
    }
}

/// Where a generated bundle is installed.
#[derive(Debug, Clone, PartialEq, Eq)]
pub enum InstallDir {
    /// The system's temporary directory.
    Temp,
    /// The applications directory shared by all users.
    SystemApplications,
    /// The current user's applications directory.
    UserApplications,
    /// A directory of the caller's choice, which must exist.
    Custom(String),
}

/// The view of an optional string.
pub open spec fn opt_view(o: Option<&str>) -> Option<Seq<char>> {
    match o {
        Some(s) => Some(s@),
        None => None,
    }
}

/// The directory that `dir` names, given the temporary directory and the
/// home directory (if there is one). `None` when the user's applications
/// directory is asked for and there is no home directory.
pub open spec fn install_path(dir: InstallDir, temp: Seq<char>, home: Option<Seq<char>>) -> Option<
    Seq<char>,
> {
    match dir {
        InstallDir::Temp => Some(temp),
        InstallDir::SystemApplications => Some("/Applications"@),
        InstallDir::UserApplications => match home {
            Some(h) => Some(join(h, "Applications"@)),
            None => None,
        },
        InstallDir::Custom(p) => Some(p@),
    }
}

impl InstallDir {
    /// The absolute directory to install into. A custom directory is taken as
    /// given: the caller resolves it to its canonical form first.
    pub fn resolve(&self, temp_dir: &str, home_dir: Option<&str>) -> (r: Result<String, FruitError>)
        ensures
            match install_path(*self, temp_dir@, opt_view(home_dir)) {
                Some(p) => r is Ok && r->Ok_0@ == p,
                None => r is Err && r->Err_0 is GeneralError,
            },
    {
        match self {
            InstallDir::Temp => Ok(temp_dir.to_owned()),
            InstallDir::SystemApplications => Ok("/Applications".to_owned()),
            InstallDir::UserApplications => match home_dir {
                Some(h) => Ok(join_path(h, "Applications")),
                None => Err(FruitError::GeneralError("no home directory for the user's applications".to_owned())),
            },
            InstallDir::Custom(p) => Ok(p.clone()),
        }
    }
}

/// Where log files are written.
#[derive(Debug, Clone, PartialEq, Eq)]
pub enum LogDir {
    /// The user's home directory.
    Home,
    /// The system's temporary directory.
    Temp,
    /// A directory of the caller's choice.
    Custom(String),
}

/// Rolling log files are not part of this library: every request for one
/// fails with a general error.
pub fn create_logger(filename: &str, dir: LogDir, max_size_mb: u32, backup_count: u32) -> (r: Result<
    String,
    FruitError,
>)
    ensures
        r is Err && r->Err_0 is GeneralError,
{
    Err(FruitError::GeneralError("logging to files is not built into this library".to_owned()))
}

} // verus!
