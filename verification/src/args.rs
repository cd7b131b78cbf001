//! What the command line sets.

use vstd::prelude::*;

verus! {

/// The settings of the process. The interval is taken as it is given: zero
/// and very large values are not corrected.
#[derive(Debug, Clone, Copy, PartialEq, Eq, Structural)]
pub struct Args {
    /// Seconds between two snapshots of the host.
    pub sysinfo_poll_interval: u64,
}

impl Default for Args {
    /// A snapshot every five seconds.
    fn default() -> (args: Args)
        ensures
            args.sysinfo_poll_interval == 5,
    {
        Args { sysinfo_poll_interval: 5 }
    }
}

} // verus!
