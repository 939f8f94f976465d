//! The decisions behind the command-line surface: which operation the
//! mutually exclusive flags select, and which log level a repeated
//! verbosity flag yields. Argument parsing itself is an external
//! collaborator; these functions decide on the parsed values.

use vstd::prelude::*;

verus! {

/// The operation a single invocation performs.
#[derive(Debug)]
pub enum CliState {
    Check,
    Build,
    BuildUpload,
}

/// The log levels the verbosity flag can select.
#[derive(Debug)]
pub enum LogVerbosity {
    Info,
    Debug,
    Trace,
}

/// No occurrence of the verbosity flag means info, one means debug, two
/// or more mean trace.
pub fn verbosity_filter(verbose_occurrences: u64) -> (r: LogVerbosity)
    ensures
        r is Info <==> verbose_occurrences == 0,
        r is Debug <==> verbose_occurrences == 1,
        r is Trace <==> verbose_occurrences >= 2,
{
    if verbose_occurrences == 0 {
        LogVerbosity::Info
    } else if verbose_occurrences == 1 {
        LogVerbosity::Debug
    } else {
        LogVerbosity::Trace
    }
}

/// The operation selected by the three mutually exclusive flags, with
/// the same precedence the tool has always had: check first, then
/// upload (which implies a build), then build. `None` when no flag was
/// given.
pub fn command_state(check: bool, build: bool, upload: bool) -> (r: Option<CliState>)
    ensures
        check ==> (r matches Some(CliState::Check)),
        !check && upload ==> (r matches Some(CliState::BuildUpload)),
        !check && !upload && build ==> (r matches Some(CliState::Build)),
        !check && !upload && !build ==> r is None,
{
    if check {
        Some(CliState::Check)
    } else if upload {
        Some(CliState::BuildUpload)
    } else if build {
        Some(CliState::Build)
    } else {
        None
    }
}

} // verus!
