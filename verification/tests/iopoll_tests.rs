use coreutils::iopoll::{
    fwrite_wait_next, input_ok_from_stat, iopoll_next, iopoll_setup, write_would_block,
    FwriteNext, IopollNext, EAGAIN,
};

#[test]
fn broken_output_watch_uses_readiness_events() {
    let s = iopoll_setup(0, 1, true, true);
    assert_eq!(s.in_events, libc::POLLIN | libc::POLLOUT);
    assert_eq!(s.out_events, libc::POLLOUT);
    assert_eq!(s.check_out_events, libc::POLLERR | libc::POLLHUP | libc::POLLNVAL);
    assert_eq!(s.timeout, -1);
    assert_eq!((s.fdin, s.fdout), (0, 1));
}

#[test]
fn plain_watch_uses_error_events_only() {
    let s = iopoll_setup(-1, 3, false, false);
    assert_eq!(s.in_events, libc::POLLERR);
    assert_eq!(s.out_events, libc::POLLERR);
    assert_eq!(s.check_out_events, libc::POLLERR);
    assert_eq!(s.timeout, 0);
}

#[test]
fn failed_poll_is_retried() {
    let s = iopoll_setup(0, 1, true, true);
    assert_eq!(iopoll_next(&s, -1, 0, 0), IopollNext::Retry);
}

#[test]
fn input_event_ends_the_wait() {
    let s = iopoll_setup(0, 1, true, true);
    assert_eq!(iopoll_next(&s, 1, libc::POLLIN, 0), IopollNext::Finish(0));
}

#[test]
fn hang_up_on_output_reports_a_broken_output() {
    let s = iopoll_setup(0, 1, true, true);
    assert_eq!(iopoll_next(&s, 1, 0, libc::POLLHUP), IopollNext::Finish(-2));
    assert_eq!(iopoll_next(&s, 1, 0, libc::POLLERR), IopollNext::Finish(-2));
}

#[test]
fn writable_output_keeps_waiting() {
    let s = iopoll_setup(0, 1, true, true);
    assert_eq!(iopoll_next(&s, 1, 0, libc::POLLOUT), IopollNext::Retry);
}

#[test]
fn output_error_without_broken_watch_returns_zero() {
    let s = iopoll_setup(-1, 1, true, false);
    assert_eq!(iopoll_next(&s, 1, 0, libc::POLLERR), IopollNext::Finish(0));
    assert_eq!(iopoll_next(&s, 1, 0, libc::POLLHUP), IopollNext::Retry);
}

#[test]
fn non_blocking_poll_with_nothing_returns_zero() {
    let s = iopoll_setup(0, 1, false, true);
    assert_eq!(iopoll_next(&s, 0, 0, 0), IopollNext::Finish(0));
}

#[test]
fn regular_files_and_block_devices_need_no_polling() {
    assert!(!input_ok_from_stat(true, 0o100644));
    assert!(!input_ok_from_stat(true, 0o060660));
}

#[test]
fn pipes_and_failed_stats_need_polling() {
    assert!(input_ok_from_stat(true, 0o010644));
    assert!(input_ok_from_stat(true, 0o020620));
    assert!(input_ok_from_stat(false, 0o100644));
}

#[test]
fn only_eagain_is_waited_out() {
    assert_eq!(EAGAIN, libc::EAGAIN);
    assert!(write_would_block(11));
    assert!(!write_would_block(4));
    assert!(!write_would_block(0));
}

#[test]
fn fwrite_wait_stops_when_everything_is_written() {
    assert_eq!(fwrite_wait_next(10, 10), FwriteNext::Done);
    assert_eq!(fwrite_wait_next(0, 0), FwriteNext::Done);
}

#[test]
fn fwrite_wait_continues_with_the_rest() {
    assert_eq!(fwrite_wait_next(10, 4), FwriteNext::Wait(6));
    assert_eq!(fwrite_wait_next(10, 0), FwriteNext::Wait(10));
}
