use vstd::prelude::*;

verus! {

/// `errno` value telling that a non-blocking write would have blocked.
pub const EAGAIN: i32 = 11;

/// Mask of the file-type bits of `st_mode`.
pub const S_IFMT: u32 = 0o170000;

/// File type of a regular file.
pub const S_IFREG: u32 = 0o100000;

/// File type of a block device.
pub const S_IFBLK: u32 = 0o060000;

/// `libc::POLLIN`, 0x1 in libc's Linux definitions.
#[verifier::external_body]
fn poll_in() -> (r: i16)
    ensures
        r == 0x1,
{
    libc::POLLIN
}

/// `libc::POLLOUT`, 0x4 in libc's Linux definitions.
#[verifier::external_body]
fn poll_out() -> (r: i16)
    ensures
        r == 0x4,
{
    libc::POLLOUT
}

/// `libc::POLLERR`, 0x8 in libc's Linux definitions.
#[verifier::external_body]
fn poll_err() -> (r: i16)
    ensures
        r == 0x8,
{
    libc::POLLERR
}

/// `libc::POLLHUP`, 0x10 in libc's Linux definitions.
#[verifier::external_body]
fn poll_hup() -> (r: i16)
    ensures
        r == 0x10,
{
    libc::POLLHUP
}

/// `libc::POLLNVAL`, 0x20 in libc's Linux definitions.
#[verifier::external_body]
fn poll_nval() -> (r: i16)
    ensures
        r == 0x20,
{
    libc::POLLNVAL
}

/// What `iopoll` asks `poll` for: the events to watch on the input and on the
/// output descriptor, the output events that end the wait, and the timeout.
#[derive(Debug, Clone, Copy, PartialEq, Eq)]
pub struct IopollSetup {
    pub fdin: i32,
    pub in_events: i16,
    pub fdout: i32,
    pub out_events: i16,
    pub check_out_events: i16,
    pub timeout: i32,
    pub block: bool,
    pub broken_output: bool,
}

/// Sets up a wait on `fdin` and `fdout`, at least one of which must be open
/// (not -1). When the caller is watching for a broken output, the input is
/// watched for readiness and the output for writability, and an error,
/// hang-up or invalid descriptor on the output ends the wait; otherwise both
/// are watched for errors only. A blocking wait has no timeout (-1), a
/// non-blocking one returns at once (0).
pub fn iopoll_setup(fdin: i32, fdout: i32, block: bool, broken_output: bool) -> (r: IopollSetup)
    requires
        fdin != -1 || fdout != -1,
    ensures
        r.fdin == fdin,
        r.fdout == fdout,
        r.block == block,
        r.broken_output == broken_output,
        r.timeout == (if block { -1i32 } else { 0i32 }),
        broken_output ==> r.in_events == 0x5 && r.out_events == 0x4 && r.check_out_events == 0x38,
        !broken_output ==> r.in_events == 0x8 && r.out_events == 0x8 && r.check_out_events == 0x8,
{
    let mut in_events: i16 = poll_in() | poll_out();
    let mut out_events: i16 = poll_out();
    let mut check_out_events: i16 = poll_err() | poll_hup() | poll_nval();
    if !broken_output {
        out_events = poll_err();
        in_events = out_events;
        check_out_events = poll_err();
    }
    assert(0x1i16 | 0x4i16 == 0x5i16) by (bit_vector);
    assert(0x8i16 | 0x10i16 | 0x20i16 == 0x38i16) by (bit_vector);
    IopollSetup {
        fdin,
        in_events,
        fdout,
        out_events,
        check_out_events,
        timeout: if block { -1 } else { 0 },
        block,
        broken_output,
    }
}

/// What to do after one call of `poll`: wait again, or return a result.
#[derive(Debug, Clone, Copy, PartialEq, Eq)]
pub enum IopollNext {
    Retry,
    Finish(i32),
}

/// What `iopoll` does after `poll` returned `ret` and reported `in_revents`
/// on the input and `out_revents` on the output.
pub open spec fn iopoll_decision(setup: IopollSetup, ret: i32, in_revents: i16, out_revents: i16) -> IopollNext {
    if ret < 0 {
        IopollNext::Retry
    } else if ret == 0 {
        IopollNext::Finish(0)
    } else if in_revents != 0 {
        IopollNext::Finish(0)
    } else if (out_revents as i32) & (setup.check_out_events as i32) != 0 {
        IopollNext::Finish(if setup.broken_output { -2i32 } else { 0i32 })
    } else {
        IopollNext::Retry
    }
}

/// Decides, from what `poll` returned, whether `iopoll` waits again or
/// returns. A failed call is retried; a non-blocking wait that found nothing
/// returns 0; any event on the input returns 0; a checked event on the
/// output returns -2 when the caller watches for a broken output and 0
/// otherwise; anything else is waited out again. A blocking wait never
/// reports that nothing happened, so `ret == 0` is accepted only for a
/// non-blocking wait.
pub fn iopoll_next(setup: &IopollSetup, ret: i32, in_revents: i16, out_revents: i16) -> (r: IopollNext)
    requires
        ret != 0 || !setup.block,
    ensures
        r == iopoll_decision(*setup, ret, in_revents, out_revents),
        ret > 0 && in_revents != 0 ==> r == IopollNext::Finish(0),
{
    if ret < 0 {
        return IopollNext::Retry;
    }
    if ret == 0 && !setup.block {
        return IopollNext::Finish(0);
    }
    if in_revents != 0 {
        return IopollNext::Finish(0);
    }
    if (out_revents as i32) & (setup.check_out_events as i32) != 0 {
        return IopollNext::Finish(if setup.broken_output { -2 } else { 0 });
    }
    IopollNext::Retry
}

/// Law: `iopoll` only ever returns 0, or -2 when it watches for a broken
/// output; without that watch it always returns 0.
pub proof fn lemma_iopoll_results(setup: IopollSetup, ret: i32, in_revents: i16, out_revents: i16)
    ensures
        iopoll_decision(setup, ret, in_revents, out_revents) matches IopollNext::Finish(v)
            ==> v == 0 || (v == -2 && setup.broken_output),
        !setup.broken_output ==> (iopoll_decision(setup, ret, in_revents, out_revents) matches IopollNext::Finish(v) ==> v == 0),
{
}

/// Law: any event at all on the input (readiness, hang-up, error) ends the
/// wait with 0, whatever happens on the output, so a closed input pipe is
/// never waited on forever.
pub proof fn lemma_iopoll_input_event_ends_wait(setup: IopollSetup, ret: i32, in_revents: i16, out_revents: i16)
    requires
        ret > 0,
        in_revents != 0,
    ensures
        iopoll_decision(setup, ret, in_revents, out_revents) == IopollNext::Finish(0),
{
}

/// Whether input from a file with this `fstat` outcome should be polled:
/// it should, unless `fstat` succeeded and the file is a regular file or a
/// block device, which are always ready.
pub fn input_ok_from_stat(fstat_succeeded: bool, st_mode: u32) -> (r: bool)
    ensures
        r == !(fstat_succeeded && ((st_mode & S_IFMT) == S_IFREG || (st_mode & S_IFMT) == S_IFBLK)),
{
    let always_ready = fstat_succeeded
        && ((st_mode & S_IFMT) == S_IFREG || (st_mode & S_IFMT) == S_IFBLK);
    !always_ready
}

/// Whether a failed write should wait for the output to drain and retry:
/// only when it failed because the write would have blocked.
pub fn write_would_block(errno: i32) -> (r: bool)
    ensures
        r == (errno == EAGAIN),
{
    errno == EAGAIN
}

/// What `fwrite_wait` does after one `fwrite`: stop, everything written, or
/// wait and write the remaining bytes.
#[derive(Debug, Clone, Copy, PartialEq, Eq)]
pub enum FwriteNext {
    Done,
    Wait(i64),
}

/// Decides, after `fwrite` wrote `written` of the `size` bytes asked for,
/// whether all were written or how many remain. `size` is handed to
/// `fwrite` as an unsigned count, which writes at most that many; what
/// remains must be representable as a nonnegative `i64`.
pub fn fwrite_wait_next(size: i64, written: u64) -> (r: FwriteNext)
    requires
        written <= size as u64,
        size as u64 - written <= i64::MAX,
    ensures
        size as u64 == written ==> r is Done,
        size as u64 != written ==> r == FwriteNext::Wait((size as u64 - written) as i64),
{
    let remaining: i64 = ((size as u64) - written) as i64;
    if remaining <= 0 {
        FwriteNext::Done
    } else {
        FwriteNext::Wait(remaining)
    }
}

} // verus!
