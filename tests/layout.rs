use std::mem;

use uvsafe::buf::uv_buf_t;
use uvsafe::check::uv_check_t;
use uvsafe::event_loop::uv_loop_t;
use uvsafe::handle::uv_handle_t;
use uvsafe::idle::uv_idle_t;
use uvsafe::poll::uv_poll_t;
use uvsafe::prepare::uv_prepare_t;
use uvsafe::req::{uv_connect_t, uv_req_t, uv_shutdown_t, uv_write_t};
use uvsafe::signal::uv_signal_t;
use uvsafe::stream::uv_stream_t;
use uvsafe::timer::uv_timer_t;
use uvsafe::{
    Buf, Check, Connect, Handle, Idle, Loop, Pipe, Poll, Prepare, Shutdown, Signal, Stream, Tcp,
    Timer, Write,
};

#[test]
fn test_layout_buf() {
    assert_eq!(mem::size_of::<Buf>(), mem::size_of::<uv_buf_t>(), "Size of: Buf");
    assert_eq!(mem::align_of::<Buf>(), mem::align_of::<uv_buf_t>(), "Alignment of Buf");
}

#[test]
fn test_layout_check() {
    assert_eq!(mem::size_of::<Check>(), mem::size_of::<uv_check_t>(), "Size of: Check");
    assert_eq!(mem::align_of::<Check>(), mem::align_of::<uv_check_t>(), "Alignment of Check");
    assert_eq!(mem::align_of::<Check>(), mem::align_of::<Handle>(), "Alignment of Check");
}

#[test]
fn test_layout_handle() {
    assert_eq!(mem::size_of::<Handle>(), mem::size_of::<uv_handle_t>(), "Size of: Handle");
    assert_eq!(mem::align_of::<Handle>(), mem::align_of::<uv_handle_t>(), "Alignment of Handle");
}

#[test]
fn test_layout_idle() {
    assert_eq!(mem::size_of::<Idle>(), mem::size_of::<uv_idle_t>(), "Size of: Idle");
    assert_eq!(mem::align_of::<Idle>(), mem::align_of::<uv_idle_t>(), "Alignment of Idle");
    assert_eq!(mem::align_of::<Idle>(), mem::align_of::<Handle>(), "Alignment of Idle");
}

#[test]
fn test_layout_loop() {
    assert_eq!(mem::size_of::<Loop>(), mem::size_of::<uv_loop_t>(), "Size of: Loop");
    assert_eq!(mem::align_of::<Loop>(), mem::align_of::<uv_loop_t>(), "Alignment of Loop");
}

#[test]
fn test_layout_pipe() {
    assert_eq!(mem::align_of::<Pipe>(), mem::align_of::<Stream>(), "Alignment of Pipe");
    assert_eq!(mem::align_of::<Pipe>(), mem::align_of::<Handle>(), "Alignment of Pipe");
}

#[test]
fn test_layout_poll() {
    assert_eq!(mem::size_of::<Poll>(), mem::size_of::<uv_poll_t>(), "Size of: Poll");
    assert_eq!(mem::align_of::<Poll>(), mem::align_of::<uv_poll_t>(), "Alignment of Poll");
    assert_eq!(mem::align_of::<Poll>(), mem::align_of::<Handle>(), "Alignment of Poll");
}

#[test]
fn test_layout_prepare() {
    assert_eq!(mem::size_of::<Prepare>(), mem::size_of::<uv_prepare_t>(), "Size of: Prepare");
    assert_eq!(
        mem::align_of::<Prepare>(),
        mem::align_of::<uv_prepare_t>(),
        "Alignment of Prepare"
    );
    assert_eq!(mem::align_of::<Prepare>(), mem::align_of::<Handle>(), "Alignment of Prepare");
}

#[test]
fn test_layout_connect() {
    assert_eq!(mem::size_of::<Connect>(), mem::size_of::<uv_connect_t>(), "Size of: Connect");
    assert_eq!(
        mem::align_of::<Connect>(),
        mem::align_of::<uv_connect_t>(),
        "Alignment of Connect"
    );
    assert_eq!(mem::align_of::<Connect>(), mem::align_of::<uv_req_t>(), "Alignment of Connect");
}

#[test]
fn test_layout_shutdown() {
    assert_eq!(mem::size_of::<Shutdown>(), mem::size_of::<uv_shutdown_t>(), "Size of: Shutdown");
    assert_eq!(
        mem::align_of::<Shutdown>(),
        mem::align_of::<uv_shutdown_t>(),
        "Alignment of Shutdown"
    );
    assert_eq!(mem::align_of::<Shutdown>(), mem::align_of::<uv_req_t>(), "Alignment of Shutdown");
}

#[test]
fn test_layout_write() {
    assert_eq!(mem::size_of::<Write>(), mem::size_of::<uv_write_t>(), "Size of: Write");
    assert_eq!(mem::align_of::<Write>(), mem::align_of::<uv_write_t>(), "Alignment of Write");
    assert_eq!(mem::align_of::<Write>(), mem::align_of::<uv_req_t>(), "Alignment of Write");
}

#[test]
fn test_layout_signal() {
    assert_eq!(mem::size_of::<Signal>(), mem::size_of::<uv_signal_t>(), "Size of: Signal");
    assert_eq!(mem::align_of::<Signal>(), mem::align_of::<uv_signal_t>(), "Alignment of Signal");
    assert_eq!(mem::align_of::<Signal>(), mem::align_of::<Handle>(), "Alignment of Signal");
    assert_eq!(mem::align_of::<Signal>(), mem::align_of::<Stream>(), "Alignment of Signal");
}

#[test]
fn test_layout_stream() {
    assert_eq!(mem::size_of::<Stream>(), mem::size_of::<uv_stream_t>(), "Size of: Stream");
    assert_eq!(mem::align_of::<Stream>(), mem::align_of::<uv_stream_t>(), "Alignment of Stream");
    assert_eq!(mem::align_of::<Stream>(), mem::align_of::<Handle>(), "Alignment of Stream");
}

#[test]
fn test_algnmt_repr() {
    assert_eq!(mem::align_of::<Tcp>(), mem::align_of::<Stream>(), "Alignment of Tcp");
    assert_eq!(mem::align_of::<Tcp>(), mem::align_of::<Handle>(), "Alignment of Tcp");
}

#[test]
fn test_layout_timer() {
    assert_eq!(mem::size_of::<Timer>(), mem::size_of::<uv_timer_t>(), "Size of: Timer");
    assert_eq!(mem::align_of::<Timer>(), mem::align_of::<uv_timer_t>(), "Alignment of Timer");
    assert_eq!(mem::align_of::<Timer>(), mem::align_of::<Handle>(), "Alignment of Timer");
}
