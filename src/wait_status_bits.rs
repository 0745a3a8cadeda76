use vstd::prelude::*;

verus! {

/// The status word of a child that stopped: its low byte is `0x7f`.
pub open spec fn is_stop_word(status: i32) -> bool {
    (status & 0xff) == 0x7f
}

/// The signal that stopped the child: the second byte of the status word.
pub open spec fn stop_signal_of(status: i32) -> i32 {
    (status >> 8) & 0xff
}

/// The status word of a child that exited normally: its low seven bits are zero.
pub open spec fn is_exit_word(status: i32) -> bool {
    (status & 0x7f) == 0
}

/// The code a child exited with: the second byte of the status word.
pub open spec fn exit_code_of(status: i32) -> i32 {
    (status >> 8) & 0xff
}

/// The status word of a child killed by a signal: its low seven bits are
/// neither zero (exited) nor `0x7f` (stopped).
pub open spec fn is_signal_word(status: i32) -> bool {
    (status & 0x7f) != 0 && (status & 0x7f) != 0x7f
}

/// The signal that killed the child: the low seven bits of the status word.
pub open spec fn term_signal_of(status: i32) -> i32 {
    status & 0x7f
}

/// Relies on libc::WIFSTOPPED, which computes `(status & 0xff) == 0x7f`.
#[verifier::external_body]
pub(crate) fn wifstopped(status: i32) -> (r: bool)
    ensures
        r == is_stop_word(status),
{
    libc::WIFSTOPPED(status)
}

/// Relies on libc::WSTOPSIG, which computes `(status >> 8) & 0xff`.
#[verifier::external_body]
pub(crate) fn wstopsig(status: i32) -> (r: i32)
    ensures
        r == stop_signal_of(status),
{
    libc::WSTOPSIG(status)
}

/// Relies on libc::WIFEXITED, which computes `(status & 0x7f) == 0`.
#[verifier::external_body]
pub(crate) fn wifexited(status: i32) -> (r: bool)
    ensures
        r == is_exit_word(status),
{
    libc::WIFEXITED(status)
}

/// Relies on libc::WEXITSTATUS, which computes `(status >> 8) & 0xff`.
#[verifier::external_body]
pub(crate) fn wexitstatus(status: i32) -> (r: i32)
    ensures
        r == exit_code_of(status),
{
    libc::WEXITSTATUS(status)
}

/// Relies on libc::WIFSIGNALED, which computes
/// `((status & 0x7f) + 1) as i8 >= 2`: true exactly when the low seven bits
/// are neither `0` nor `0x7f`.
#[verifier::external_body]
pub(crate) fn wifsignaled(status: i32) -> (r: bool)
    ensures
        r == is_signal_word(status),
{
    libc::WIFSIGNALED(status)
}

/// Relies on libc::WTERMSIG, which computes `status & 0x7f`.
#[verifier::external_body]
pub(crate) fn wtermsig(status: i32) -> (r: i32)
    ensures
        r == term_signal_of(status),
{
    libc::WTERMSIG(status)
}

} // verus!
