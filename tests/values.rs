use uvsafe::{
    Buf, PollEvent, ProcessOptions, StdioContainer, StdioData, StdioFlags, TcpFlags,
};

#[test]
fn buffer_views() {
    let mut b = Buf::new(0x1000, 0);
    assert!(b.is_empty());
    b.set_len(16);
    assert_eq!(b.len(), 16);
    assert!(!b.is_empty());
    assert_eq!(b.base(), 0x1000);
    b.set_base(0x2000);
    assert_eq!(b.base(), 0x2000);
    assert_eq!(b.len(), 16);
    b.realloc(0x3000, 4);
    assert_eq!((b.base(), b.len()), (0x3000, 4));
    let boxed = Buf::allocate(0x4000, 8).unwrap();
    assert_eq!((boxed.base(), boxed.len()), (0x4000, 8));
}

#[test]
fn poll_events() {
    assert!(PollEvent::from_bits(16).is_none());
    assert!(PollEvent::from_bits(-1).is_none());
    let r = PollEvent::from_bits(PollEvent::READABLE).unwrap();
    let w = PollEvent::from_bits(PollEvent::WRITABLE).unwrap();
    let rw = r.union(w);
    assert_eq!(rw.bits(), 3);
    assert!(rw.contains(r));
    assert!(!r.contains(w));
    assert_eq!(PollEvent::from_bits_truncate(0xff).bits(), 15);
    assert_eq!(PollEvent::empty().bits(), 0);
}

#[test]
fn stdio_flags() {
    assert!(StdioFlags::from_bits(0x08).is_none());
    let f = StdioFlags::from_bits(StdioFlags::CREATE_PIPE | StdioFlags::READABLE_PIPE).unwrap();
    assert_eq!(f.bits(), 0x11);
    let p = StdioFlags::from_bits(StdioFlags::CREATE_PIPE).unwrap();
    assert!(f.contains(p));
    assert_eq!(StdioFlags::from_bits_truncate(0xff).bits(), 0x77);
    assert_eq!(StdioFlags::OVERLAPPED_PIPE, StdioFlags::NONBLOCK_PIPE);
}

#[test]
fn stdio_container_builder() {
    let inherit = StdioFlags::from_bits(StdioFlags::INHERIT_FD).unwrap();
    let c = StdioContainer::builder().flags(inherit).fd(2).build();
    assert_eq!(c.flags.bits(), 2);
    assert_eq!(c.data, StdioData::Fd(2));
    let s = StdioContainer::builder().stream(0x5000).build();
    assert_eq!(s.flags.bits(), 0);
    assert_eq!(s.data, StdioData::Stream(0x5000));
    assert_eq!(StdioContainer::readable_stream(0x10).flags.bits(), 0x11);
    assert_eq!(StdioContainer::writable_stream(0x10).flags.bits(), 0x21);
    assert_eq!(StdioContainer::readable_fd(0).data, StdioData::Fd(0));
    assert_eq!(StdioContainer::writable_fd(1).flags.bits(), 2);
    assert_eq!(StdioContainer::ignore().flags.bits(), 0);
}

#[test]
fn args_stop_at_first_empty() {
    let argv = vec!["ls".to_string(), "-l".to_string(), String::new(), "x".to_string()];
    let o = ProcessOptions::new().set_args(&argv);
    assert_eq!(o.args(), &vec!["ls".to_string(), "-l".to_string()]);
    let b = ProcessOptions::builder().args(&argv).build();
    assert_eq!(b.args().len(), 2);
    let all = vec!["a".to_string(), "b".to_string()];
    assert_eq!(ProcessOptions::new().set_args(&all).args(), &all);
    let none: Vec<String> = vec![String::new(), "a".to_string()];
    assert!(ProcessOptions::new().set_args(&none).args().is_empty());
}

#[test]
fn process_options_builder() {
    let slots = [StdioContainer::ignore(), StdioContainer::writable_fd(1), StdioContainer::writable_fd(2)];
    let o = ProcessOptions::builder()
        .file("/bin/echo\0")
        .cwd("/tmp\0")
        .uid(1000)
        .gid(100)
        .stdio(&slots)
        .build();
    assert_eq!(o.file().unwrap().as_str(), "/bin/echo\0");
    assert_eq!(o.cwd().unwrap().as_str(), "/tmp\0");
    assert_eq!((o.uid(), o.gid()), (1000, 100));
    assert_eq!(o.stdio().len(), 3);
    assert_eq!(o.stdio_count(), 3);
    assert_eq!(o.stdio()[2].data, StdioData::Fd(2));
    let o = o.set_stdio(&slots[..1]).set_uid(0).set_gid(0).set_cwd("/\0").set_file("/bin/ls\0");
    assert_eq!(o.stdio_count(), 1);
    assert_eq!(o.uid(), 0);
    assert_eq!(o.cwd().unwrap().as_str(), "/\0");
    assert_eq!(o.file().unwrap().as_str(), "/bin/ls\0");
}

#[test]
fn tcp_flags() {
    assert_eq!(i32::from(TcpFlags::Readable), 1);
    assert_eq!(i32::from(TcpFlags::Writable), 2);
    assert_eq!(TcpFlags::from_bits(2), Some(TcpFlags::Writable));
    assert_eq!(TcpFlags::from_bits(3), None);
    assert_eq!(TcpFlags::Readable.bitor(TcpFlags::Readable), Some(TcpFlags::Readable));
    assert_eq!(TcpFlags::Readable.bitor(TcpFlags::Writable), None);
}
