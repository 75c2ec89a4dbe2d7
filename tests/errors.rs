use uvsafe::{Error, HandleType, LoopOption, ReqType, RunMode};

#[test]
fn known_codes_round_trip() {
    let mut known = 0;
    let mut c: i32 = -5000;
    while c <= 0 {
        if Error::is_known_code(c) {
            known += 1;
            assert_eq!(Error::from_code(c).code(), c);
        }
        c += 1;
    }
    assert_eq!(known, 64);
}

#[test]
fn codes_follow_the_engine_table() {
    assert_eq!(Error::from_code(-1), Error::EPERM);
    assert_eq!(Error::from_code(-111), Error::ECONNREFUSED);
    assert_eq!(Error::from_code(-4028), Error::EFTYPE);
    assert_eq!(Error::from_code(-4096), Error::MAX);
    assert_eq!(Error::ECONNREFUSED.code(), -111);
    assert_eq!(Error::EBUSY.code(), -16);
    assert_eq!(i32::from(Error::EAGAIN), -11);
    assert_eq!(i32::from(Error::ENOTSUP), -95);
}

#[test]
fn unknown_codes_are_not_known() {
    assert!(!Error::is_known_code(0));
    assert!(!Error::is_known_code(1));
    assert!(!Error::is_known_code(-8));
    assert!(!Error::is_known_code(-4095));
    assert!(!Error::is_known_code(i32::MIN));
}

#[test]
fn no_two_reasons_share_a_code() {
    let mut seen: Vec<i32> = Vec::new();
    let mut c: i32 = -5000;
    while c <= 0 {
        if Error::is_known_code(c) {
            let code = Error::from_code(c).code();
            assert!(!seen.contains(&code));
            seen.push(code);
        }
        c += 1;
    }
}

#[test]
fn status_results() {
    assert_eq!(Error::check(0), Ok(()));
    assert_eq!(Error::check(7), Ok(()));
    assert_eq!(Error::check(-9), Err(Error::EBADF));
    assert_eq!(Error::check(-16), Err(Error::EBUSY));
    assert_eq!(Error::check_count(3), Ok(3));
    assert_eq!(Error::check_count(0), Ok(0));
    assert_eq!(Error::check_count(-12), Err(Error::ENOMEM));
}

#[test]
fn handle_tags_round_trip() {
    let mut t: u32 = 0;
    while t <= 18 {
        assert!(HandleType::is_known_tag(t));
        assert_eq!(HandleType::from_tag(t).tag(), t);
        t += 1;
    }
    assert!(!HandleType::is_known_tag(19));
    assert_eq!(HandleType::from_tag(12), HandleType::Tcp);
    assert_eq!(HandleType::from_tag(7), HandleType::NamedPipe);
    assert_eq!(u32::from(HandleType::Timer), 13);
    assert_eq!(u32::from(HandleType::HandleTypeMax), 18);
}

#[test]
fn stream_kinds() {
    assert!(HandleType::Tcp.is_stream());
    assert!(HandleType::NamedPipe.is_stream());
    assert!(HandleType::Tty.is_stream());
    assert!(HandleType::Signal.is_stream());
    assert!(!HandleType::Timer.is_stream());
    assert!(!HandleType::Udp.is_stream());
}

#[test]
fn request_tags_round_trip() {
    let mut t: u32 = 0;
    while t <= 11 {
        assert!(ReqType::is_known_tag(t));
        assert_eq!(ReqType::from_tag(t).tag(), t);
        t += 1;
    }
    assert!(!ReqType::is_known_tag(12));
    assert_eq!(ReqType::from_tag(3), ReqType::Write);
    assert_eq!(u32::from(ReqType::Connect), 2);
    assert_eq!(u32::from(ReqType::Shutdown), 4);
}

#[test]
fn run_modes_and_options() {
    assert_eq!(u32::from(RunMode::Default), 0);
    assert_eq!(u32::from(RunMode::Once), 1);
    assert_eq!(RunMode::NoWait.value(), 2);
    assert_eq!(u32::from(LoopOption::LoopBlockSignal), 0);
    assert_eq!(LoopOption::MetricsIdleTime.value(), 1);
}
