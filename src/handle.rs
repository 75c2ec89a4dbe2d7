use vstd::prelude::*;

use crate::error::Error;

verus! {

/// The kind tag that every handle carries in its common prefix.
#[derive(Debug, Clone, Copy, PartialEq, Eq, Structural)]
pub enum HandleType {
    UnknownHandle,
    Async,
    Check,
    FsEvent,
    FsPoll,
    Handle,
    Idle,
    NamedPipe,
    Poll,
    Prepare,
    Process,
    Stream,
    Tcp,
    Timer,
    Tty,
    Udp,
    Signal,
    File,
    HandleTypeMax,
}

impl HandleType {
    /// The engine's numeric tag for this kind.
    pub open spec fn spec_tag(self) -> u32 {
        match self {
            HandleType::UnknownHandle => 0u32,
            HandleType::Async => 1u32,
            HandleType::Check => 2u32,
            HandleType::FsEvent => 3u32,
            HandleType::FsPoll => 4u32,
            HandleType::Handle => 5u32,
            HandleType::Idle => 6u32,
            HandleType::NamedPipe => 7u32,
            HandleType::Poll => 8u32,
            HandleType::Prepare => 9u32,
            HandleType::Process => 10u32,
            HandleType::Stream => 11u32,
            HandleType::Tcp => 12u32,
            HandleType::Timer => 13u32,
            HandleType::Tty => 14u32,
            HandleType::Udp => 15u32,
            HandleType::Signal => 16u32,
            HandleType::File => 17u32,
            HandleType::HandleTypeMax => 18u32,
        }
    }

    /// The numeric tag for this kind.
    pub fn tag(self) -> (r: u32)
        ensures
            r == self.spec_tag(),
    {
        match self {
            HandleType::UnknownHandle => 0u32,
            HandleType::Async => 1u32,
            HandleType::Check => 2u32,
            HandleType::FsEvent => 3u32,
            HandleType::FsPoll => 4u32,
            HandleType::Handle => 5u32,
            HandleType::Idle => 6u32,
            HandleType::NamedPipe => 7u32,
            HandleType::Poll => 8u32,
            HandleType::Prepare => 9u32,
            HandleType::Process => 10u32,
            HandleType::Stream => 11u32,
            HandleType::Tcp => 12u32,
            HandleType::Timer => 13u32,
            HandleType::Tty => 14u32,
            HandleType::Udp => 15u32,
            HandleType::Signal => 16u32,
            HandleType::File => 17u32,
            HandleType::HandleTypeMax => 18u32,
        }
    }

    /// Whether `tag` names a kind; any other tag is an ABI inconsistency.
    pub fn is_known_tag(tag: u32) -> (r: bool)
        ensures
            r == is_known_handle_tag(tag),
    {
        tag <= 18
    }

    /// The kind that the engine names by `tag`.
    pub fn from_tag(tag: u32) -> (r: HandleType)
        requires
            is_known_handle_tag(tag),
        ensures
            r.spec_tag() == tag,
    {
        match tag {
            0u32 => HandleType::UnknownHandle,
            1u32 => HandleType::Async,
            2u32 => HandleType::Check,
            3u32 => HandleType::FsEvent,
            4u32 => HandleType::FsPoll,
            5u32 => HandleType::Handle,
            6u32 => HandleType::Idle,
            7u32 => HandleType::NamedPipe,
            8u32 => HandleType::Poll,
            9u32 => HandleType::Prepare,
            10u32 => HandleType::Process,
            11u32 => HandleType::Stream,
            12u32 => HandleType::Tcp,
            13u32 => HandleType::Timer,
            14u32 => HandleType::Tty,
            15u32 => HandleType::Udp,
            16u32 => HandleType::Signal,
            17u32 => HandleType::File,
            _ => HandleType::HandleTypeMax,
        }
    }

    /// Whether handles of this kind carry the stream prefix.
    pub open spec fn spec_is_stream(self) -> bool {
        ||| self == HandleType::Stream
        ||| self == HandleType::NamedPipe
        ||| self == HandleType::Tcp
        ||| self == HandleType::Tty
        ||| self == HandleType::Signal
    }

    /// Whether handles of this kind carry the stream prefix.
    pub fn is_stream(self) -> (r: bool)
        ensures
            r == self.spec_is_stream(),
    {
        match self {
            HandleType::Stream | HandleType::NamedPipe | HandleType::Tcp | HandleType::Tty
            | HandleType::Signal => true,
            _ => false,
        }
    }
}

/// Whether a numeric tag names a handle kind.
pub open spec fn is_known_handle_tag(tag: u32) -> bool {
    tag <= 18
}

/// Two kinds with the same tag are the same kind.
pub proof fn lemma_handle_tag_injective(a: HandleType, b: HandleType)
    requires
        a.spec_tag() == b.spec_tag(),
    ensures
        a == b,
{
}

impl From<HandleType> for u32 {
    fn from(kind: HandleType) -> (r: u32) {
        kind.tag()
    }
}

impl vstd::std_specs::convert::FromSpecImpl<HandleType> for u32 {
    open spec fn obeys_from_spec() -> bool {
        true
    }

    open spec fn from_spec(kind: HandleType) -> u32 {
        kind.spec_tag()
    }
}

/// Where a handle stands in its lifecycle.
#[derive(Debug, Clone, Copy, PartialEq, Eq, Structural)]
pub enum HandleState {
    /// Allocated with its kind's layout, not yet bound to a loop.
    Uninit,
    /// Initialized against a loop and producing no events.
    Inactive,
    /// Started: producing events.
    Active,
    /// Close was asked for; the close callback has not run yet.
    Closing,
    /// The close callback ran: the memory may now be released.
    Closed,
}

impl HandleState {
    /// Bound to a loop, and `close` was not asked for.
    pub open spec fn is_open(self) -> bool {
        self == HandleState::Inactive || self == HandleState::Active
    }
}

/// The common prefix of every handle: its kind tag, where it stands in its
/// lifecycle, and the caller's data slot.
#[derive(Debug)]
pub struct Handle {
    kind: HandleType,
    state: HandleState,
    data: usize,
}

impl Handle {
    pub closed spec fn spec_kind(&self) -> HandleType {
        self.kind
    }

    pub closed spec fn spec_state(&self) -> HandleState {
        self.state
    }

    pub closed spec fn spec_data(&self) -> usize {
        self.data
    }

    /// A handle of the given kind, not yet initialized.
    pub fn new(kind: HandleType) -> (r: Handle)
        ensures
            r.spec_kind() == kind,
            r.spec_state() == HandleState::Uninit,
            r.spec_data() == 0,
    {
        Handle { kind, state: HandleState::Uninit, data: 0 }
    }

    /// The kind tag.
    pub fn get_type(&self) -> (r: HandleType)
        ensures
            r == self.spec_kind(),
    {
        self.kind
    }

    /// Where the handle stands in its lifecycle.
    pub fn state(&self) -> (r: HandleState)
        ensures
            r == self.spec_state(),
    {
        self.state
    }

    /// The caller's data slot.
    pub fn get_data(&self) -> (r: usize)
        ensures
            r == self.spec_data(),
    {
        self.data
    }

    /// Stores a value in the caller's data slot.
    pub fn set_data(&mut self, data: usize)
        ensures
            final(self).spec_data() == data,
            final(self).spec_kind() == old(self).spec_kind(),
            final(self).spec_state() == old(self).spec_state(),
    {
        self.data = data;
    }

    /// Empties the caller's data slot and returns what it held.
    pub fn clear_data(&mut self) -> (r: usize)
        ensures
            r == old(self).spec_data(),
            final(self).spec_data() == 0,
            final(self).spec_kind() == old(self).spec_kind(),
            final(self).spec_state() == old(self).spec_state(),
    {
        let data = self.data;
        self.data = 0;
        data
    }

    /// Whether the handle is started.
    pub fn is_active(&self) -> (r: bool)
        ensures
            r == (self.spec_state() == HandleState::Active),
    {
        self.state == HandleState::Active
    }

    /// Whether close was asked for (the close may already have completed).
    pub fn is_closing(&self) -> (r: bool)
        ensures
            r == (self.spec_state() == HandleState::Closing || self.spec_state()
                == HandleState::Closed),
    {
        self.state == HandleState::Closing || self.state == HandleState::Closed
    }

    /// Whether the caller may release the handle's memory: it was never
    /// bound to a loop, or its close callback ran.
    pub fn is_releasable(&self) -> (r: bool)
        ensures
            r == (self.spec_state() == HandleState::Uninit || self.spec_state()
                == HandleState::Closed),
    {
        self.state == HandleState::Uninit || self.state == HandleState::Closed
    }

    /// Records the engine's status for initializing the handle.
    pub fn record_init(&mut self, status: i32) -> (r: Result<(), Error>)
        requires
            old(self).spec_state() == HandleState::Uninit,
            status >= 0 || crate::error::is_known_code(status),
        ensures
            r == Error::spec_check(status),
            final(self).spec_state() == (if status >= 0 {
                HandleState::Inactive
            } else {
                HandleState::Uninit
            }),
            final(self).spec_kind() == old(self).spec_kind(),
            final(self).spec_data() == old(self).spec_data(),
    {
        let r = Error::check(status);
        if r.is_ok() {
            self.state = HandleState::Inactive;
        }
        r
    }

    /// Records the engine's status for starting the handle.
    pub fn record_start(&mut self, status: i32) -> (r: Result<(), Error>)
        requires
            old(self).spec_state().is_open(),
            status >= 0 || crate::error::is_known_code(status),
        ensures
            r == Error::spec_check(status),
            final(self).spec_state() == (if status >= 0 {
                HandleState::Active
            } else {
                old(self).spec_state()
            }),
            final(self).spec_kind() == old(self).spec_kind(),
            final(self).spec_data() == old(self).spec_data(),
    {
        let r = Error::check(status);
        if r.is_ok() {
            self.state = HandleState::Active;
        }
        r
    }

    /// Records the engine's status for stopping the handle.
    pub fn record_stop(&mut self, status: i32) -> (r: Result<(), Error>)
        requires
            old(self).spec_state().is_open(),
            status >= 0 || crate::error::is_known_code(status),
        ensures
            r == Error::spec_check(status),
            final(self).spec_state() == (if status >= 0 {
                HandleState::Inactive
            } else {
                old(self).spec_state()
            }),
            final(self).spec_kind() == old(self).spec_kind(),
            final(self).spec_data() == old(self).spec_data(),
    {
        let r = Error::check(status);
        if r.is_ok() {
            self.state = HandleState::Inactive;
        }
        r
    }

    /// Asks for the handle to be torn down. Closing twice, or starting or
    /// stopping after close, is the caller's obligation to avoid.
    pub fn close(&mut self)
        requires
            old(self).spec_state().is_open(),
        ensures
            final(self).spec_state() == HandleState::Closing,
            final(self).spec_kind() == old(self).spec_kind(),
            final(self).spec_data() == old(self).spec_data(),
    {
        self.state = HandleState::Closing;
    }

    /// Records that the engine ran the close callback.
    pub fn record_closed(&mut self)
        requires
            old(self).spec_state() == HandleState::Closing,
        ensures
            final(self).spec_state() == HandleState::Closed,
            final(self).spec_kind() == old(self).spec_kind(),
            final(self).spec_data() == old(self).spec_data(),
    {
        self.state = HandleState::Closed;
    }
}

/// Access to the common handle prefix of a concrete handle kind.
pub trait HandleImpl {
    spec fn spec_handle(&self) -> Handle;

    fn as_handle(&self) -> (r: &Handle)
        ensures
            *r == self.spec_handle(),
    ;

    fn as_mut_handle(&mut self) -> (r: &mut Handle)
        ensures
            *r == old(self).spec_handle(),
            final(self).spec_handle() == *final(r),
    ;
}

impl HandleImpl for Handle {
    open spec fn spec_handle(&self) -> Handle {
        *self
    }

    fn as_handle(&self) -> (r: &Handle) {
        self
    }

    fn as_mut_handle(&mut self) -> (r: &mut Handle) {
        self
    }
}

/// The engine's name for the handle prefix.
#[allow(non_camel_case_types)]
pub type uv_handle_t = Handle;

} // verus!
