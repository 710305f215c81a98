//! Which mode the process runs in, decided from the command line: a
//! development flag, an explicit test configuration file, or production.
//! Reading the mode's configuration file is the caller's concern.

use vstd::prelude::*;

verus! {

/// The process run mode.
#[derive(Debug, PartialEq)]
pub enum RunMode {
    Development,
    Production,
    /// In test mode, the configuration file for this test is carried
    /// along.
    Test(String),
}

/// Decides the run mode: the development flag wins, an explicit test
/// configuration file selects test mode, and otherwise the process runs
/// in production.
pub fn get_run_mode(devel: bool, test_configfile: Option<&String>) -> (r: RunMode)
    ensures
        devel ==> r is Development,
        !devel ==> match test_configfile {
            Some(f) => r matches RunMode::Test(s) && s@ == f@,
            None => r is Production,
        },
{
    if devel {
        RunMode::Development
    } else {
        match test_configfile {
            Some(f) => RunMode::Test(f.clone()),
            None => RunMode::Production,
        }
    }
}

} // verus!
