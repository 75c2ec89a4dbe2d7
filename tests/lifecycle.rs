use uvsafe::{
    Error, Handle, HandleImpl, HandleState, HandleType, Idle, Loop, LoopState, ReqImpl, ReqState,
    RunMode, Stream, StreamImpl, Tcp, Timer, Buf, Pipe, Signal, Process, Check, Prepare, Req,
    ReqType, Poll, PollEvent,
};

fn ready_loop() -> Loop {
    let mut l = Loop::new();
    assert_eq!(l.init(0), Ok(()));
    l
}

#[test]
fn handle_lifecycle() {
    let l = ready_loop();
    let mut t = Timer::new();
    assert_eq!(t.as_handle().state(), HandleState::Uninit);
    assert!(t.as_handle().is_releasable());
    assert_eq!(t.init(&l, 0), Ok(()));
    assert_eq!(t.as_handle().get_type(), HandleType::Timer);
    assert!(!t.as_handle().is_active());
    assert_eq!(t.start(50, 10, 0), Ok(()));
    assert!(t.as_handle().is_active());
    assert_eq!(t.timeout(), 50);
    assert_eq!(t.repeat(), 10);
    assert_eq!(t.stop(0), Ok(()));
    assert!(!t.as_handle().is_active());
    t.as_mut_handle().close();
    assert!(t.as_handle().is_closing());
    assert!(!t.as_handle().is_releasable());
    t.as_mut_handle().record_closed();
    assert!(t.as_handle().is_closing());
    assert!(t.as_handle().is_releasable());
}

#[test]
fn failed_init_leaves_handle_uninitialized() {
    let l = ready_loop();
    let mut i = Idle::new();
    assert_eq!(i.init(&l, -22), Err(Error::EINVAL));
    assert_eq!(i.as_handle().state(), HandleState::Uninit);
}

#[test]
fn failed_start_keeps_state_and_settings() {
    let l = ready_loop();
    let mut t = Timer::new();
    assert_eq!(t.init(&l, 0), Ok(()));
    assert_eq!(t.start(5, 0, -22), Err(Error::EINVAL));
    assert_eq!(t.as_handle().state(), HandleState::Inactive);
    assert_eq!(t.timeout(), 0);
}

#[test]
fn data_slot() {
    let mut h = Handle::new(HandleType::Check);
    assert_eq!(h.get_data(), 0);
    h.set_data(0x1000);
    assert_eq!(h.get_data(), 0x1000);
    assert_eq!(h.clear_data(), 0x1000);
    assert_eq!(h.get_data(), 0);
}

#[test]
fn write_refused_at_submission() {
    let l = ready_loop();
    let mut tcp = Tcp::new();
    assert_eq!(tcp.init(&l, 0), Ok(()));
    let bufs = vec![Buf::new(0x2000, 5)];
    let r = tcp.as_mut_stream().write(&bufs, -32);
    assert!(matches!(r, Err(Error::EPIPE)));
}

#[test]
fn write_completes_once() {
    let l = ready_loop();
    let mut tcp = Tcp::new();
    assert_eq!(tcp.init(&l, 0), Ok(()));
    let bufs = vec![Buf::new(0x2000, 5), Buf::new(0x3000, 7)];
    let mut w = tcp.as_mut_stream().write(&bufs, 0).unwrap();
    assert_eq!(w.as_request().get_type(), ReqType::Write);
    assert_eq!(w.bufs().len(), 2);
    assert_eq!(w.bufs()[1].len(), 7);
    assert!(w.as_request().engine_owns());
    assert!(!w.as_request().must_release());
    assert_eq!(w.as_mut_request().complete(0), Some(Ok(())));
    assert_eq!(w.as_request().state(), ReqState::Completed(0));
    assert!(!w.as_request().engine_owns());
    assert!(w.as_request().must_release());
    assert_eq!(w.as_mut_request().complete(-125), None);
    assert_eq!(w.as_request().state(), ReqState::Completed(0));
}

#[test]
fn refused_submission_takes_no_completion() {
    let mut r = Req::new(ReqType::Fs);
    assert_eq!(r.submit(-13), Err(Error::EACCES));
    assert_eq!(r.state(), ReqState::SubmitFailed);
    assert!(r.must_release());
    assert!(!r.engine_owns());
    assert_eq!(r.complete(0), None);
    assert_eq!(r.state(), ReqState::SubmitFailed);
}

#[test]
fn connect_refused_reports_through_completion() {
    let l = ready_loop();
    let mut tcp = Tcp::new();
    assert_eq!(tcp.init(&l, 0), Ok(()));
    let mut c = tcp.connect(0).unwrap();
    assert_eq!(c.as_request().get_type(), ReqType::Connect);
    assert_eq!(c.as_mut_request().complete(-111), Some(Err(Error::ECONNREFUSED)));
    assert!(c.as_request().must_release());
}

#[test]
fn shutdown_request() {
    let l = ready_loop();
    let mut p = Pipe::new();
    assert_eq!(p.init(&l, true, 0), Ok(()));
    assert!(p.ipc());
    let mut s = p.as_mut_stream().shutdown(0).unwrap();
    assert_eq!(s.as_request().get_type(), ReqType::Shutdown);
    assert_eq!(s.as_mut_request().complete(0), Some(Ok(())));
    assert!(matches!(p.as_mut_stream().shutdown(-107), Err(Error::ENOTCONN)));
}

#[test]
fn loop_run_and_stop() {
    let mut l = ready_loop();
    assert_eq!(l.state(), LoopState::Ready);
    assert_eq!(l.run(RunMode::Default, 0), Ok(false));
    l.stop();
    assert!(l.is_stop_requested());
    assert_eq!(l.run(RunMode::Default, 1), Ok(true));
    assert!(!l.is_stop_requested());
    assert_eq!(l.run(RunMode::NoWait, -22), Err(Error::EINVAL));
}

#[test]
fn loop_close_busy_then_closed() {
    let mut l = ready_loop();
    l.set_data(7);
    assert_eq!(l.close(-16), Err(Error::EBUSY));
    assert!(l.is_ready());
    assert_eq!(l.close(0), Ok(()));
    assert_eq!(l.state(), LoopState::Closed);
    assert_eq!(l.get_data(), 7);
}

#[test]
fn idle_stops_itself_and_the_loop() {
    let mut l = ready_loop();
    let mut idle = Idle::new();
    assert_eq!(idle.init(&l, 0), Ok(()));
    assert_eq!(idle.start(0), Ok(()));
    assert!(idle.as_handle().is_active());
    assert_eq!(idle.stop(0), Ok(()));
    l.stop();
    assert!(!idle.as_handle().is_active());
    assert_eq!(l.run(RunMode::Default, 0), Ok(false));
}

#[test]
fn stream_listen_accept_read() {
    let l = ready_loop();
    let mut server = Tcp::new();
    let mut client = Tcp::new();
    assert_eq!(server.init(&l, 0), Ok(()));
    assert_eq!(client.init(&l, 0), Ok(()));
    assert_eq!(server.as_mut_stream().listen(128, 0), Ok(()));
    assert!(server.as_stream().is_listening());
    assert!(server.as_handle().is_active());
    assert_eq!(server.as_mut_stream().accept(client.as_mut_stream(), 0), Ok(()));
    assert_eq!(client.as_mut_stream().read_start(0), Ok(()));
    assert!(client.as_stream().is_reading());
    assert_eq!(client.as_mut_stream().read_stop(0), Ok(()));
    assert!(!client.as_stream().is_reading());
    assert_eq!(client.nodelay(true, 0), Ok(()));
    assert!(client.is_nodelay());
    assert_eq!(client.as_mut_stream().set_blocking(true, -9), Err(Error::EBADF));
}

#[test]
fn plain_stream_prefix() {
    let s = Stream::new(HandleType::Tty);
    assert_eq!(s.as_handle().get_type(), HandleType::Tty);
    assert!(!s.is_reading());
}

#[test]
fn pipe_operations() {
    let l = ready_loop();
    let mut p = Pipe::new();
    assert_eq!(p.init(&l, false, 0), Ok(()));
    assert_eq!(p.bind("/tmp/sock", 0), Ok(()));
    assert_eq!(p.pending_count(2), Ok(2));
    assert_eq!(p.pending_count(-22), Err(Error::EINVAL));
    assert_eq!(p.pending_type(12), Ok(HandleType::Tcp));
    let ev = PollEvent::from_bits(PollEvent::READABLE | PollEvent::WRITABLE).unwrap();
    assert_eq!(p.chmod(ev, 0), Ok(()));
    let c = p.connect("/tmp/sock", 0).unwrap();
    assert!(c.as_request().engine_owns());
}

#[test]
fn signal_start_modes() {
    let l = ready_loop();
    let mut s = Signal::new();
    assert_eq!(s.init(&l, 0), Ok(()));
    assert_eq!(s.start(2, 0), Ok(()));
    assert_eq!(s.signum(), 2);
    assert!(!s.is_oneshot());
    assert_eq!(s.start_oneshot(15, 0), Ok(()));
    assert_eq!(s.signum(), 15);
    assert!(s.is_oneshot());
    assert_eq!(s.stop(0), Ok(()));
    assert_eq!(s.as_stream().as_handle().get_type(), HandleType::Signal);
}

#[test]
fn poll_handle() {
    let l = ready_loop();
    let mut p = Poll::new();
    assert_eq!(p.fd(), -1);
    assert_eq!(p.init(&l, 4, 0), Ok(()));
    assert_eq!(p.fd(), 4);
    let ev = PollEvent::from_bits(PollEvent::READABLE).unwrap();
    assert_eq!(p.start(ev, 0), Ok(()));
    assert_eq!(p.events().bits(), 1);
    assert_eq!(p.stop(0), Ok(()));
}

#[test]
fn check_and_prepare() {
    let l = ready_loop();
    let mut c = Check::new();
    let mut p = Prepare::new();
    assert_eq!(c.init(&l, 0), Ok(()));
    assert_eq!(p.init(&l, 0), Ok(()));
    assert_eq!(c.start(0), Ok(()));
    assert_eq!(p.start(0), Ok(()));
    assert_eq!(c.as_handle().get_type(), HandleType::Check);
    assert_eq!(p.as_handle().get_type(), HandleType::Prepare);
}

#[test]
fn process_spawn_and_kill() {
    let l = ready_loop();
    let mut child = Process::new();
    let options = uvsafe::ProcessOptions::builder().file("/bin/true\0").build();
    assert_eq!(child.spawn(&l, options, 0), Ok(()));
    assert!(child.as_handle().is_active());
    assert_eq!(child.kill(15, -3), Err(Error::ESRCH));
    let mut failed = Process::new();
    let options = uvsafe::ProcessOptions::builder().build();
    assert_eq!(failed.spawn(&l, options, -2), Err(Error::ENOENT));
    assert_eq!(failed.as_handle().state(), HandleState::Uninit);
}
