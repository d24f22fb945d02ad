//! The media-player (MPRIS) server: at most one runs per process.

use vstd::prelude::*;
use crate::text::owned;

verus! {

/// Claim the right to run the MPRIS server. The first claim succeeds; every
/// later one is refused, whatever happened to the first server.
pub fn claim_server(running: &mut bool) -> (r: Result<(), String>)
    ensures
        *final(running),
        r is Ok <==> !*old(running),
        r matches Err(e) ==> e@ == "MPRIS server already running"@,
{
    let was_running = *running;
    *running = true;
    if was_running {
        Err(owned("MPRIS server already running"))
    } else {
        Ok(())
    }
}

} // verus!
