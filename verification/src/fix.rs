//! Applying a list of fixes to the local library (not done yet: a no-op).

use vstd::prelude::*;

verus! {

/// Arguments of the fix command.
pub struct Args {
    /// Path to local photo library
    pub local_path: String,
    /// Path to list of fixes (fixes.json)
    pub fixes: String,
}

/// Applies nothing yet, and succeeds.
pub fn run(args: Args) -> (r: Result<(), ()>)
    ensures
        r == Ok::<(), ()>(()),
{
    Ok(())
}

} // verus!
