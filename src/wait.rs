//! Decoding the status word that a blocking wait reports for a traced child.
use vstd::prelude::*;

use crate::wait_status_bits::{
    exit_code_of, is_exit_word, is_signal_word, is_stop_word, stop_signal_of, term_signal_of,
    wexitstatus, wifexited, wifsignaled, wifstopped, wstopsig, wtermsig,
};

verus! {

/// Why a traced process changed state.
#[derive(Clone, Copy, Debug, PartialEq, Eq, Structural)]
pub enum WaitOutcome {
    /// Stopped by the given signal; it can be inspected and resumed.
    Stopped { signal: i32 },
    /// Exited on its own with the given code.
    Exited { code: i32 },
    /// Killed by the given signal.
    Terminated { signal: i32 },
}

/// What a status word says, read in the same order as the decoder reads it:
/// a stop first, then a normal exit, then a fatal signal.
pub open spec fn outcome_of(status: i32) -> Option<WaitOutcome> {
    if is_stop_word(status) {
        Some(WaitOutcome::Stopped { signal: stop_signal_of(status) })
    } else if is_exit_word(status) {
        Some(WaitOutcome::Exited { code: exit_code_of(status) })
    } else if is_signal_word(status) {
        Some(WaitOutcome::Terminated { signal: term_signal_of(status) })
    } else {
        None
    }
}

/// Decodes a status word; `None` for a word that none of the three shapes fits.
pub fn decode_wait_status(status: i32) -> (r: Option<WaitOutcome>)
    ensures
        r == outcome_of(status),
{
    if wifstopped(status) {
        Some(WaitOutcome::Stopped { signal: wstopsig(status) })
    } else if wifexited(status) {
        Some(WaitOutcome::Exited { code: wexitstatus(status) })
    } else if wifsignaled(status) {
        Some(WaitOutcome::Terminated { signal: wtermsig(status) })
    } else {
        None
    }
}

} // verus!
