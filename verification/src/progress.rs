//! Deciding when asset loading has finished.

use vstd::prelude::*;

verus! {

/// A progress counter's snapshot: how many units of work are done out of
/// how many there are in total.
#[derive(Clone, Copy, Debug, PartialEq, Eq, Structural)]
pub struct Progress {
    pub done: u32,
    pub total: u32,
}

/// Whether the splash screen may give way to the game: the splash timer has
/// run out and a progress counter exists whose work is complete. Done
/// covering total means complete; a counter that never received any work
/// (zero of zero) counts as complete too, so loading cannot wedge on an
/// empty asset list.
pub fn check_loaded_assets(splash_finished: bool, progress_counter: Option<Progress>) -> (r: bool)
    ensures
        r == (progress_counter matches Some(p) && splash_finished && p.done >= p.total),
{
    if let Some(progress) = progress_counter {
        let complete = (progress.total > 0 && progress.done >= progress.total) || (progress.total
            == 0 && progress.done > 0);
        let force_continue = progress.done == 0 && progress.total == 0;
        if (complete && splash_finished) || (force_continue && splash_finished) {
            return true;
        }
    }
    false
}

} // verus!
