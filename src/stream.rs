use vstd::prelude::*;

use crate::buf::Buf;
use crate::error::{is_known_code, Error};
use crate::handle::{Handle, HandleImpl, HandleState, HandleType};
use crate::req::{ReqImpl, ReqState, ReqType, Shutdown, Write};

verus! {

/// The stream prefix that duplex byte handles share: the handle prefix, and
/// whether the stream is reading and listening.
#[derive(Debug)]
pub struct Stream {
    handle: Handle,
    reading: bool,
    listening: bool,
}

/// Whether a handle prefix may carry a stream operation: it is bound to a
/// loop and close was not asked for.
pub open spec fn stream_open(h: Handle) -> bool {
    h.spec_state().is_open()
}

impl Stream {
    pub closed spec fn spec_reading(&self) -> bool {
        self.reading
    }

    pub closed spec fn spec_listening(&self) -> bool {
        self.listening
    }

    /// A stream prefix of the given kind, not yet initialized.
    pub fn new(kind: HandleType) -> (r: Stream)
        requires
            kind.spec_is_stream(),
        ensures
            r.spec_handle().spec_kind() == kind,
            r.spec_handle().spec_state() == HandleState::Uninit,
            r.spec_handle().spec_data() == 0,
            !r.spec_reading(),
            !r.spec_listening(),
    {
        Stream { handle: Handle::new(kind), reading: false, listening: false }
    }

    /// Whether the stream is reading.
    pub fn is_reading(&self) -> (r: bool)
        ensures
            r == self.spec_reading(),
    {
        self.reading
    }

    /// Whether the stream listens for connections.
    pub fn is_listening(&self) -> (r: bool)
        ensures
            r == self.spec_listening(),
    {
        self.listening
    }

    /// Records the engine's status for initializing the stream.
    pub fn record_init(&mut self, status: i32) -> (r: Result<(), Error>)
        requires
            old(self).spec_handle().spec_state() == HandleState::Uninit,
            status >= 0 || is_known_code(status),
        ensures
            r == Error::spec_check(status),
            final(self).spec_handle().spec_state() == (if status >= 0 {
                HandleState::Inactive
            } else {
                HandleState::Uninit
            }),
            final(self).spec_handle().spec_kind() == old(self).spec_handle().spec_kind(),
            final(self).spec_handle().spec_data() == old(self).spec_handle().spec_data(),
            final(self).spec_reading() == old(self).spec_reading(),
            final(self).spec_listening() == old(self).spec_listening(),
    {
        self.handle.record_init(status)
    }

    /// Records the engine's status for starting the handle.
    pub fn record_start(&mut self, status: i32) -> (r: Result<(), Error>)
        requires
            stream_open(old(self).spec_handle()),
            status >= 0 || is_known_code(status),
        ensures
            r == Error::spec_check(status),
            final(self).spec_handle().spec_state() == (if status >= 0 {
                HandleState::Active
            } else {
                old(self).spec_handle().spec_state()
            }),
            final(self).spec_handle().spec_kind() == old(self).spec_handle().spec_kind(),
            final(self).spec_handle().spec_data() == old(self).spec_handle().spec_data(),
            final(self).spec_reading() == old(self).spec_reading(),
            final(self).spec_listening() == old(self).spec_listening(),
    {
        self.handle.record_start(status)
    }

    /// Records the engine's status for stopping the handle.
    pub fn record_stop(&mut self, status: i32) -> (r: Result<(), Error>)
        requires
            stream_open(old(self).spec_handle()),
            status >= 0 || is_known_code(status),
        ensures
            r == Error::spec_check(status),
            final(self).spec_handle().spec_state() == (if status >= 0 {
                HandleState::Inactive
            } else {
                old(self).spec_handle().spec_state()
            }),
            final(self).spec_handle().spec_kind() == old(self).spec_handle().spec_kind(),
            final(self).spec_handle().spec_data() == old(self).spec_handle().spec_data(),
            final(self).spec_reading() == old(self).spec_reading(),
            final(self).spec_listening() == old(self).spec_listening(),
    {
        self.handle.record_stop(status)
    }

    /// Records the engine's status for `listen`: on success the stream
    /// listens and is active.
    pub fn listen(&mut self, backlog: i32, status: i32) -> (r: Result<(), Error>)
        requires
            stream_open(old(self).spec_handle()),
            status >= 0 || is_known_code(status),
        ensures
            r == Error::spec_check(status),
            final(self).spec_listening() == (old(self).spec_listening() || status >= 0),
            final(self).spec_reading() == old(self).spec_reading(),
            final(self).spec_handle().spec_state() == (if status >= 0 {
                HandleState::Active
            } else {
                old(self).spec_handle().spec_state()
            }),
            final(self).spec_handle().spec_kind() == old(self).spec_handle().spec_kind(),
    {
        let r = self.handle.record_start(status);
        if r.is_ok() {
            self.listening = true;
        }
        r
    }

    /// Records the engine's status for accepting a connection into `client`,
    /// an initialized, not yet started stream of the same kind. Nothing of
    /// either stream changes.
    pub fn accept(&mut self, client: &mut Stream, status: i32) -> (r: Result<(), Error>)
        requires
            old(self).spec_listening(),
            stream_open(old(self).spec_handle()),
            old(client).spec_handle().spec_state() == HandleState::Inactive,
            old(client).spec_handle().spec_kind() == old(self).spec_handle().spec_kind(),
            status >= 0 || is_known_code(status),
        ensures
            r == Error::spec_check(status),
            final(self).spec_handle() == old(self).spec_handle(),
            final(self).spec_listening() == old(self).spec_listening(),
            final(self).spec_reading() == old(self).spec_reading(),
            final(client).spec_handle() == old(client).spec_handle(),
            final(client).spec_listening() == old(client).spec_listening(),
            final(client).spec_reading() == old(client).spec_reading(),
    {
        Error::check(status)
    }

    /// Records the engine's status for starting to read: on success the
    /// stream reads and is active.
    pub fn read_start(&mut self, status: i32) -> (r: Result<(), Error>)
        requires
            stream_open(old(self).spec_handle()),
            status >= 0 || is_known_code(status),
        ensures
            r == Error::spec_check(status),
            final(self).spec_reading() == (old(self).spec_reading() || status >= 0),
            final(self).spec_listening() == old(self).spec_listening(),
            final(self).spec_handle().spec_state() == (if status >= 0 {
                HandleState::Active
            } else {
                old(self).spec_handle().spec_state()
            }),
            final(self).spec_handle().spec_kind() == old(self).spec_handle().spec_kind(),
    {
        let r = self.handle.record_start(status);
        if r.is_ok() {
            self.reading = true;
        }
        r
    }

    /// Records the engine's status for stopping to read.
    pub fn read_stop(&mut self, status: i32) -> (r: Result<(), Error>)
        requires
            stream_open(old(self).spec_handle()),
            status >= 0 || is_known_code(status),
        ensures
            r == Error::spec_check(status),
            final(self).spec_reading() == (old(self).spec_reading() && status < 0),
            final(self).spec_listening() == old(self).spec_listening(),
            final(self).spec_handle() == old(self).spec_handle(),
    {
        let r = Error::check(status);
        if r.is_ok() {
            self.reading = false;
        }
        r
    }

    /// Records the engine's status for switching blocking mode.
    pub fn set_blocking(&mut self, blocking: bool, status: i32) -> (r: Result<(), Error>)
        requires
            stream_open(old(self).spec_handle()),
            status >= 0 || is_known_code(status),
        ensures
            r == Error::spec_check(status),
            final(self).spec_handle() == old(self).spec_handle(),
            final(self).spec_reading() == old(self).spec_reading(),
            final(self).spec_listening() == old(self).spec_listening(),
    {
        Error::check(status)
    }

    /// Submits a write of `bufs`, which the engine answered with `status`.
    /// On success the returned request is in flight: the engine owns it
    /// until its one completion. On failure no callback will come and the
    /// request has already been released.
    pub fn write(&mut self, bufs: &Vec<Buf>, status: i32) -> (r: Result<Write, Error>)
        requires
            stream_open(old(self).spec_handle()),
            bufs@.len() <= u32::MAX,
            status >= 0 || is_known_code(status),
        ensures
            status >= 0 <==> r is Ok,
            r matches Ok(w) ==> {
                &&& w.spec_request().spec_kind() == ReqType::Write
                &&& w.spec_request().spec_state() == ReqState::Submitted
                &&& w.spec_bufs() == bufs@
            },
            r matches Err(e) ==> Err::<(), Error>(e) == Error::spec_check(status),
            final(self).spec_handle() == old(self).spec_handle(),
            final(self).spec_reading() == old(self).spec_reading(),
            final(self).spec_listening() == old(self).spec_listening(),
    {
        let mut w = Write::new(bufs);
        match w.submit(status) {
            Ok(()) => Ok(w),
            Err(e) => Err(e),
        }
    }

    /// Submits a shutdown of the write side, which the engine answered with
    /// `status`; the request is in flight or released as for `write`.
    pub fn shutdown(&mut self, status: i32) -> (r: Result<Shutdown, Error>)
        requires
            stream_open(old(self).spec_handle()),
            status >= 0 || is_known_code(status),
        ensures
            status >= 0 <==> r is Ok,
            r matches Ok(s) ==> {
                &&& s.spec_request().spec_kind() == ReqType::Shutdown
                &&& s.spec_request().spec_state() == ReqState::Submitted
            },
            r matches Err(e) ==> Err::<(), Error>(e) == Error::spec_check(status),
            final(self).spec_handle() == old(self).spec_handle(),
            final(self).spec_reading() == old(self).spec_reading(),
            final(self).spec_listening() == old(self).spec_listening(),
    {
        let mut s = Shutdown::new();
        match s.as_mut_request().submit(status) {
            Ok(()) => Ok(s),
            Err(e) => Err(e),
        }
    }
}

impl HandleImpl for Stream {
    closed spec fn spec_handle(&self) -> Handle {
        self.handle
    }

    fn as_handle(&self) -> (r: &Handle) {
        &self.handle
    }

    fn as_mut_handle(&mut self) -> (r: &mut Handle) {
        &mut self.handle
    }
}

/// Access to the stream prefix of a concrete stream kind.
pub trait StreamImpl: HandleImpl {
    spec fn spec_stream(&self) -> Stream;

    fn as_stream(&self) -> (r: &Stream)
        ensures
            *r == self.spec_stream(),
    ;

    fn as_mut_stream(&mut self) -> (r: &mut Stream)
        ensures
            *r == old(self).spec_stream(),
            final(self).spec_stream() == *final(r),
    ;
}

impl StreamImpl for Stream {
    open spec fn spec_stream(&self) -> Stream {
        *self
    }

    fn as_stream(&self) -> (r: &Stream) {
        self
    }

    fn as_mut_stream(&mut self) -> (r: &mut Stream) {
        self
    }
}

/// The engine's name for the stream prefix.
#[allow(non_camel_case_types)]
pub type uv_stream_t = Stream;

} // verus!
