use vstd::prelude::*;

use crate::error::{is_known_code, Error};
use crate::event_loop::{Loop, LoopState};
use crate::handle::{is_known_handle_tag, Handle, HandleImpl, HandleState, HandleType};
use crate::poll::PollEvent;
use crate::req::{Connect, ReqImpl, ReqState, ReqType};
use crate::stream::{stream_open, Stream, StreamImpl};

verus! {

/// A pipe: a local domain socket or named pipe, with the stream prefix.
#[derive(Debug)]
pub struct Pipe {
    stream: Stream,
    ipc: bool,
}

impl Pipe {
    pub closed spec fn spec_ipc(&self) -> bool {
        self.ipc
    }

    /// A pipe handle that is not initialized yet.
    pub fn new() -> (r: Pipe)
        ensures
            r.spec_handle().spec_kind() == HandleType::NamedPipe,
            r.spec_handle().spec_state() == HandleState::Uninit,
            !r.spec_ipc(),
    {
        Pipe { stream: Stream::new(HandleType::NamedPipe), ipc: false }
    }

    /// Whether the pipe passes handles between processes.
    pub fn ipc(&self) -> (r: bool)
        ensures
            r == self.spec_ipc(),
    {
        self.ipc
    }

    /// Records the engine's status for initializing the handle on `l`.
    pub fn init(&mut self, l: &Loop, ipc: bool, status: i32) -> (r: Result<(), Error>)
        requires
            old(self).spec_handle().spec_state() == HandleState::Uninit,
            l.spec_state() == LoopState::Ready,
            status >= 0 || is_known_code(status),
        ensures
            r == Error::spec_check(status),
            final(self).spec_handle().spec_state() == (if status >= 0 {
                HandleState::Inactive
            } else {
                HandleState::Uninit
            }),
            final(self).spec_handle().spec_kind() == old(self).spec_handle().spec_kind(),
            final(self).spec_ipc() == (if status >= 0 {
                ipc
            } else {
                old(self).spec_ipc()
            }),
    {
        let r = self.stream.record_init(status);
        if r.is_ok() {
            self.ipc = ipc;
        }
        r
    }

    /// Records the engine's status for opening the existing descriptor `fd`
    /// as this pipe.
    pub fn open(&mut self, fd: i32, status: i32) -> (r: Result<(), Error>)
        requires
            stream_open(old(self).spec_handle()),
            status >= 0 || is_known_code(status),
        ensures
            r == Error::spec_check(status),
            final(self).spec_stream() == old(self).spec_stream(),
            final(self).spec_ipc() == old(self).spec_ipc(),
    {
        Error::check(status)
    }

    /// Records the engine's status for binding the pipe to the path `name`.
    pub fn bind(&mut self, name: &str, status: i32) -> (r: Result<(), Error>)
        requires
            stream_open(old(self).spec_handle()),
            status >= 0 || is_known_code(status),
        ensures
            r == Error::spec_check(status),
            final(self).spec_stream() == old(self).spec_stream(),
            final(self).spec_ipc() == old(self).spec_ipc(),
    {
        Error::check(status)
    }

    /// Records the engine's status for connecting to the path `name`: on success the returned
    /// request is in flight until its one completion, which reports whether
    /// the connection was made; on failure no callback will come and the
    /// request has already been released.
    pub fn connect(&mut self, name: &str, status: i32) -> (r: Result<Connect, Error>)
        requires
            stream_open(old(self).spec_handle()),
            status >= 0 || is_known_code(status),
        ensures
            status >= 0 <==> r is Ok,
            r matches Ok(c) ==> {
                &&& c.spec_request().spec_kind() == ReqType::Connect
                &&& c.spec_request().spec_state() == ReqState::Submitted
            },
            r matches Err(e) ==> Err::<(), Error>(e) == Error::spec_check(status),
            final(self).spec_stream() == old(self).spec_stream(),
            final(self).spec_ipc() == old(self).spec_ipc(),
    {
        let mut c = Connect::new();
        match c.as_mut_request().submit(status) {
            Ok(()) => Ok(c),
            Err(e) => Err(e),
        }
    }

    /// Records the engine's status for making the pipe readable or writable
    /// by other users, as `flags` says.
    pub fn chmod(&mut self, flags: PollEvent, status: i32) -> (r: Result<(), Error>)
        requires
            stream_open(old(self).spec_handle()),
            status >= 0 || is_known_code(status),
        ensures
            r == Error::spec_check(status),
            final(self).spec_stream() == old(self).spec_stream(),
            final(self).spec_ipc() == old(self).spec_ipc(),
    {
        Error::check(status)
    }

    /// Records the engine's answer to how many handles wait to be received
    /// over the pipe.
    pub fn pending_count(&mut self, status: i32) -> (r: Result<u32, Error>)
        requires
            status >= 0 || is_known_code(status),
        ensures
            status >= 0 <==> r is Ok,
            r matches Ok(n) ==> n as int == status as int,
            r matches Err(e) ==> e.spec_code() == status,
            final(self).spec_stream() == old(self).spec_stream(),
            final(self).spec_ipc() == old(self).spec_ipc(),
    {
        Error::check_count(status)
    }

    /// The kind of the next handle to receive over the pipe, from the tag
    /// that the engine reports.
    pub fn pending_type(&mut self, tag: u32) -> (r: Result<HandleType, Error>)
        requires
            is_known_handle_tag(tag),
        ensures
            r matches Ok(k) && k.spec_tag() == tag,
            final(self).spec_stream() == old(self).spec_stream(),
            final(self).spec_ipc() == old(self).spec_ipc(),
    {
        Ok(HandleType::from_tag(tag))
    }
}

impl HandleImpl for Pipe {
    closed spec fn spec_handle(&self) -> Handle {
        self.stream.spec_handle()
    }

    fn as_handle(&self) -> (r: &Handle) {
        self.stream.as_handle()
    }

    fn as_mut_handle(&mut self) -> (r: &mut Handle) {
        self.stream.as_mut_handle()
    }
}

impl StreamImpl for Pipe {
    closed spec fn spec_stream(&self) -> Stream {
        self.stream
    }

    fn as_stream(&self) -> (r: &Stream) {
        &self.stream
    }

    fn as_mut_stream(&mut self) -> (r: &mut Stream) {
        &mut self.stream
    }
}

/// The engine's name for the pipe handle.
#[allow(non_camel_case_types)]
pub type uv_pipe_t = Pipe;

} // verus!
