use vstd::prelude::*;

use crate::error::{is_known_code, Error};
use crate::event_loop::{Loop, LoopState};
use crate::handle::{Handle, HandleImpl, HandleState, HandleType};
use crate::req::{Connect, ReqImpl, ReqState, ReqType};
use crate::stream::{stream_open, Stream, StreamImpl};

verus! {

/// A TCP socket, with the stream prefix.
#[derive(Debug)]
pub struct Tcp {
    stream: Stream,
    nodelay: bool,
}

impl Tcp {
    pub closed spec fn spec_nodelay(&self) -> bool {
        self.nodelay
    }

    /// A TCP handle that is not initialized yet.
    pub fn new() -> (r: Tcp)
        ensures
            r.spec_handle().spec_kind() == HandleType::Tcp,
            r.spec_handle().spec_state() == HandleState::Uninit,
            !r.spec_nodelay(),
    {
        Tcp { stream: Stream::new(HandleType::Tcp), nodelay: false }
    }

    /// Whether Nagle's algorithm is switched off.
    pub fn is_nodelay(&self) -> (r: bool)
        ensures
            r == self.spec_nodelay(),
    {
        self.nodelay
    }

    /// Records the engine's status for initializing the handle on `l`.
    pub fn init(&mut self, l: &Loop, status: i32) -> (r: Result<(), Error>)
        requires
            old(self).spec_handle().spec_state() == HandleState::Uninit,
            l.spec_state() == LoopState::Ready,
            status >= 0 || is_known_code(status),
        ensures
            r == Error::spec_check(status),
            final(self).spec_handle().spec_state() == (if status >= 0 {
                HandleState::Inactive
            } else {
                HandleState::Uninit
            }),
            final(self).spec_handle().spec_kind() == old(self).spec_handle().spec_kind(),
            final(self).spec_nodelay() == old(self).spec_nodelay(),
    {
        self.stream.record_init(status)
    }

    /// Records the engine's status for opening the existing socket `sock` as
    /// this handle.
    pub fn open(&mut self, sock: i32, status: i32) -> (r: Result<(), Error>)
        requires
            stream_open(old(self).spec_handle()),
            status >= 0 || is_known_code(status),
        ensures
            r == Error::spec_check(status),
            final(self).spec_stream() == old(self).spec_stream(),
            final(self).spec_nodelay() == old(self).spec_nodelay(),
    {
        Error::check(status)
    }

    /// Records the engine's status for switching Nagle's algorithm off
    /// (`enable`) or on.
    pub fn nodelay(&mut self, enable: bool, status: i32) -> (r: Result<(), Error>)
        requires
            stream_open(old(self).spec_handle()),
            status >= 0 || is_known_code(status),
        ensures
            r == Error::spec_check(status),
            final(self).spec_stream() == old(self).spec_stream(),
            final(self).spec_nodelay() == (if status >= 0 {
                enable
            } else {
                old(self).spec_nodelay()
            }),
    {
        let r = Error::check(status);
        if r.is_ok() {
            self.nodelay = enable;
        }
        r
    }

    /// Records the engine's status for binding the handle to an address.
    pub fn bind(&mut self, status: i32) -> (r: Result<(), Error>)
        requires
            stream_open(old(self).spec_handle()),
            status >= 0 || is_known_code(status),
        ensures
            r == Error::spec_check(status),
            final(self).spec_stream() == old(self).spec_stream(),
            final(self).spec_nodelay() == old(self).spec_nodelay(),
    {
        Error::check(status)
    }

    /// Records the engine's status for connecting to an address: on success the returned
    /// request is in flight until its one completion, which reports whether
    /// the connection was made; on failure no callback will come and the
    /// request has already been released.
    pub fn connect(&mut self, status: i32) -> (r: Result<Connect, Error>)
        requires
            stream_open(old(self).spec_handle()),
            status >= 0 || is_known_code(status),
        ensures
            status >= 0 <==> r is Ok,
            r matches Ok(c) ==> {
                &&& c.spec_request().spec_kind() == ReqType::Connect
                &&& c.spec_request().spec_state() == ReqState::Submitted
            },
            r matches Err(e) ==> Err::<(), Error>(e) == Error::spec_check(status),
            final(self).spec_stream() == old(self).spec_stream(),
            final(self).spec_nodelay() == old(self).spec_nodelay(),
    {
        let mut c = Connect::new();
        match c.as_mut_request().submit(status) {
            Ok(()) => Ok(c),
            Err(e) => Err(e),
        }
    }
}

impl HandleImpl for Tcp {
    closed spec fn spec_handle(&self) -> Handle {
        self.stream.spec_handle()
    }

    fn as_handle(&self) -> (r: &Handle) {
        self.stream.as_handle()
    }

    fn as_mut_handle(&mut self) -> (r: &mut Handle) {
        self.stream.as_mut_handle()
    }
}

impl StreamImpl for Tcp {
    closed spec fn spec_stream(&self) -> Stream {
        self.stream
    }

    fn as_stream(&self) -> (r: &Stream) {
        &self.stream
    }

    fn as_mut_stream(&mut self) -> (r: &mut Stream) {
        &mut self.stream
    }
}

/// The direction flags of a TCP handle.
#[derive(Debug, Clone, Copy, PartialEq, Eq, Structural)]
pub enum TcpFlags {
    Readable,
    Writable,
}

impl TcpFlags {
    /// The engine's bit for this flag.
    pub open spec fn spec_bits(self) -> i32 {
        match self {
            TcpFlags::Readable => 1,
            TcpFlags::Writable => 2,
        }
    }

    /// The bit for this flag.
    pub fn bits(self) -> (r: i32)
        ensures
            r == self.spec_bits(),
    {
        match self {
            TcpFlags::Readable => 1,
            TcpFlags::Writable => 2,
        }
    }

    /// The flag whose bit is `bits`, if there is one.
    pub fn from_bits(bits: i32) -> (r: Option<TcpFlags>)
        ensures
            r is Some <==> (bits == 1 || bits == 2),
            r matches Some(f) ==> f.spec_bits() == bits,
    {
        if bits == 1 {
            Some(TcpFlags::Readable)
        } else if bits == 2 {
            Some(TcpFlags::Writable)
        } else {
            None
        }
    }

    /// The flag that the union of the bits of two flags names: there is one
    /// only when both are the same flag, for no flag stands for both
    /// directions.
    pub fn bitor(self, rhs: TcpFlags) -> (r: Option<TcpFlags>)
        ensures
            r is Some <==> self == rhs,
            r matches Some(f) ==> f.spec_bits() == self.spec_bits() | rhs.spec_bits(),
    {
        match (self, rhs) {
            (TcpFlags::Readable, TcpFlags::Readable) => {
                assert(1i32 | 1i32 == 1i32) by (bit_vector);
                Some(TcpFlags::Readable)
            },
            (TcpFlags::Writable, TcpFlags::Writable) => {
                assert(2i32 | 2i32 == 2i32) by (bit_vector);
                Some(TcpFlags::Writable)
            },
            _ => None,
        }
    }
}

impl From<TcpFlags> for i32 {
    fn from(flags: TcpFlags) -> (r: i32) {
        flags.bits()
    }
}

impl vstd::std_specs::convert::FromSpecImpl<TcpFlags> for i32 {
    open spec fn obeys_from_spec() -> bool {
        true
    }

    open spec fn from_spec(flags: TcpFlags) -> i32 {
        flags.spec_bits()
    }
}

/// The engine's name for the TCP handle.
#[allow(non_camel_case_types)]
pub type uv_tcp_t = Tcp;

} // verus!
