use vstd::prelude::*;

use crate::error::{is_known_code, Error};
use crate::event_loop::{Loop, LoopState};
use crate::handle::{Handle, HandleImpl, HandleState, HandleType};

verus! {

/// A set of readiness events that a poll handle watches or reports.
#[derive(Debug, Clone, Copy, PartialEq, Eq, Structural)]
pub struct PollEvent {
    bits: i32,
}

/// The bits of all the events that the engine defines.
pub const POLL_EVENT_ALL: i32 = 15;

impl PollEvent {
    /// The bit of the readable event.
    pub const READABLE: i32 = 1;
    /// The bit of the writable event.
    pub const WRITABLE: i32 = 2;
    /// The bit of the disconnect event.
    pub const DISCONNECT: i32 = 4;
    /// The bit of the prioritized event.
    pub const PRIORITIZED: i32 = 8;

    pub closed spec fn spec_bits(self) -> i32 {
        self.bits
    }

    /// The empty set.
    pub fn empty() -> (r: PollEvent)
        ensures
            r.spec_bits() == 0,
    {
        PollEvent { bits: 0 }
    }

    /// The set that `bits` codes, if every bit in it names an event.
    pub fn from_bits(bits: i32) -> (r: Option<PollEvent>)
        ensures
            r is Some <==> bits & !POLL_EVENT_ALL == 0,
            r matches Some(e) ==> e.spec_bits() == bits,
    {
        if bits & !POLL_EVENT_ALL == 0 {
            Some(PollEvent { bits })
        } else {
            None
        }
    }

    /// The set of the events whose bits are in `bits`; other bits are dropped.
    pub fn from_bits_truncate(bits: i32) -> (r: PollEvent)
        ensures
            r.spec_bits() == bits & POLL_EVENT_ALL,
    {
        PollEvent { bits: bits & POLL_EVENT_ALL }
    }

    /// The bits of the set.
    pub fn bits(self) -> (r: i32)
        ensures
            r == self.spec_bits(),
    {
        self.bits
    }

    /// Whether every event of `other` is in the set.
    pub fn contains(self, other: PollEvent) -> (r: bool)
        ensures
            r == (self.spec_bits() & other.spec_bits() == other.spec_bits()),
    {
        self.bits & other.bits == other.bits
    }

    /// The events of both sets.
    pub fn union(self, other: PollEvent) -> (r: PollEvent)
        ensures
            r.spec_bits() == self.spec_bits() | other.spec_bits(),
    {
        PollEvent { bits: self.bits | other.bits }
    }
}


/// A handle that watches a file descriptor for readiness events.
#[derive(Debug)]
pub struct Poll {
    handle: Handle,
    fd: i32,
    events: PollEvent,
}

impl Poll {
    pub closed spec fn spec_fd(&self) -> i32 {
        self.fd
    }

    pub closed spec fn spec_events(&self) -> PollEvent {
        self.events
    }

    /// A poll handle that is not initialized yet.
    pub fn new() -> (r: Poll)
        ensures
            r.spec_handle().spec_kind() == HandleType::Poll,
            r.spec_handle().spec_state() == HandleState::Uninit,
            r.spec_fd() == -1,
            r.spec_events().spec_bits() == 0,
    {
        Poll { handle: Handle::new(HandleType::Poll), fd: -1, events: PollEvent::empty() }
    }

    /// The watched file descriptor; -1 before a successful init.
    pub fn fd(&self) -> (r: i32)
        ensures
            r == self.spec_fd(),
    {
        self.fd
    }

    /// The events of the last successful start.
    pub fn events(&self) -> (r: PollEvent)
        ensures
            r == self.spec_events(),
    {
        self.events
    }

    /// Records the engine's status for initializing the handle on `l`.
    pub fn init(&mut self, l: &Loop, fd: i32, status: i32) -> (r: Result<(), Error>)
        requires
            old(self).spec_handle().spec_state() == HandleState::Uninit,
            l.spec_state() == LoopState::Ready,
            status >= 0 || is_known_code(status),
        ensures
            r == Error::spec_check(status),
            final(self).spec_handle().spec_state() == (if status >= 0 {
                HandleState::Inactive
            } else {
                HandleState::Uninit
            }),
            final(self).spec_handle().spec_kind() == old(self).spec_handle().spec_kind(),
            final(self).spec_handle().spec_data() == old(self).spec_handle().spec_data(),
            final(self).spec_fd() == (if status >= 0 {
                fd
            } else {
                old(self).spec_fd()
            }),
            final(self).spec_events() == old(self).spec_events(),
    {
        let r = self.handle.record_init(status);
        if r.is_ok() {
            self.fd = fd;
        }
        r
    }

    /// Records the engine's status for starting to watch `events`.
    pub fn start(&mut self, events: PollEvent, status: i32) -> (r: Result<(), Error>)
        requires
            old(self).spec_handle().spec_state().is_open(),
            status >= 0 || is_known_code(status),
        ensures
            r == Error::spec_check(status),
            final(self).spec_handle().spec_state() == (if status >= 0 {
                HandleState::Active
            } else {
                old(self).spec_handle().spec_state()
            }),
            final(self).spec_handle().spec_kind() == old(self).spec_handle().spec_kind(),
            final(self).spec_handle().spec_data() == old(self).spec_handle().spec_data(),
            final(self).spec_fd() == old(self).spec_fd(),
            final(self).spec_events() == (if status >= 0 {
                events
            } else {
                old(self).spec_events()
            }),
    {
        let r = self.handle.record_start(status);
        if r.is_ok() {
            self.events = events;
        }
        r
    }

    /// Records the engine's status for stopping the handle.
    pub fn stop(&mut self, status: i32) -> (r: Result<(), Error>)
        requires
            old(self).spec_handle().spec_state().is_open(),
            status >= 0 || is_known_code(status),
        ensures
            r == Error::spec_check(status),
            final(self).spec_handle().spec_state() == (if status >= 0 {
                HandleState::Inactive
            } else {
                old(self).spec_handle().spec_state()
            }),
            final(self).spec_handle().spec_kind() == old(self).spec_handle().spec_kind(),
            final(self).spec_handle().spec_data() == old(self).spec_handle().spec_data(),
            final(self).spec_fd() == old(self).spec_fd(),
            final(self).spec_events() == old(self).spec_events(),
    {
        self.handle.record_stop(status)
    }
}

impl HandleImpl for Poll {
    closed spec fn spec_handle(&self) -> Handle {
        self.handle
    }

    fn as_handle(&self) -> (r: &Handle) {
        &self.handle
    }

    fn as_mut_handle(&mut self) -> (r: &mut Handle) {
        &mut self.handle
    }
}

/// The engine's name for the poll handle.
#[allow(non_camel_case_types)]
pub type uv_poll_t = Poll;

} // verus!
