//! How much the tool prints.

use vstd::prelude::*;

verus! {

/// The two switches of the tool's output.
#[derive(Debug, Clone, Copy, PartialEq, Eq, Structural)]
pub struct LogMode {
    pub quiet: bool,
    pub verbose: bool,
}

impl Default for LogMode {
    /// Neither quiet nor verbose.
    fn default() -> (mode: Self)
        ensures
            !mode.quiet,
            !mode.verbose,
    {
        LogMode { quiet: false, verbose: false }
    }
}

/// Switches the quiet mode.
pub fn set_quiet_mode(mode: &mut LogMode, quiet: bool)
    ensures
        final(mode).quiet == quiet,
        final(mode).verbose == old(mode).verbose,
{
    mode.quiet = quiet;
}

/// Switches the verbose mode.
pub fn set_verbose_mode(mode: &mut LogMode, verbose: bool)
    ensures
        final(mode).verbose == verbose,
        final(mode).quiet == old(mode).quiet,
{
    mode.verbose = verbose;
}

/// Whether the tool is quiet.
pub fn is_quiet(mode: &LogMode) -> (b: bool)
    ensures
        b == mode.quiet,
{
    mode.quiet
}

/// Whether the tool is verbose.
pub fn is_verbose(mode: &LogMode) -> (b: bool)
    ensures
        b == mode.verbose,
{
    mode.verbose
}

/// Whether a message for the reader is printed: unless the tool is quiet.
pub fn prints_info(mode: &LogMode) -> (b: bool)
    ensures
        b == !mode.quiet,
{
    !mode.quiet
}

/// Whether a detail is printed: where the tool is verbose and not quiet.
pub fn prints_verbose(mode: &LogMode) -> (b: bool)
    ensures
        b == (mode.verbose && !mode.quiet),
{
    mode.verbose && !mode.quiet
}

} // verus!
