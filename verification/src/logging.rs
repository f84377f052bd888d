//! File logging setup for builds without logging support.

use vstd::prelude::*;
use crate::error::Error;

verus! {

/// The message of the error that [`log_to_file`] reports.
pub open spec fn logging_disabled_message() -> Seq<char> {
    "Logging feature is not enabled. Enable the 'logging' feature to use log_to_file."@
}

/// Set up file logging for the application. This build has no logging
/// support, so it always fails with `Error::Configuration`, explaining that
/// the logging feature must be enabled.
pub fn log_to_file(path: &str, prefix: &str) -> (r: Result<(), Error>)
    ensures
        r matches Err(Error::Configuration(m)) && m@ == logging_disabled_message(),
{
    let _ = path;
    let _ = prefix;
    Err(Error::Configuration(
        "Logging feature is not enabled. Enable the 'logging' feature to use log_to_file.".to_string(),
    ))
}

} // verus!
