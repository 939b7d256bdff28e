//! Scanning the local library against an Immich dump (not done yet: a no-op).

use vstd::prelude::*;

verus! {

/// Arguments of the scan command.
pub struct Args {
    /// Path to local photo library
    pub local_path: String,
    /// Path to the Immich dump (dump.json)
    pub dump: String,
    /// Output file path
    pub output: String,
}

/// Scans nothing yet, and succeeds.
pub fn run(args: Args) -> (r: Result<(), ()>)
    ensures
        r == Ok::<(), ()>(()),
{
    Ok(())
}

} // verus!
