use vstd::prelude::*;

use crate::error::{is_known_code, Error};
use crate::event_loop::{Loop, LoopState};
use crate::handle::{Handle, HandleImpl, HandleState, HandleType};

verus! {

/// A handle whose callback runs after a timeout, and again at each repeat
/// interval if that is not zero.
#[derive(Debug)]
pub struct Timer {
    handle: Handle,
    timeout: u64,
    repeat: u64,
}

impl Timer {
    pub closed spec fn spec_timeout(&self) -> u64 {
        self.timeout
    }

    pub closed spec fn spec_repeat(&self) -> u64 {
        self.repeat
    }

    /// A timer handle that is not initialized yet.
    pub fn new() -> (r: Timer)
        ensures
            r.spec_handle().spec_kind() == HandleType::Timer,
            r.spec_handle().spec_state() == HandleState::Uninit,
            r.spec_timeout() == 0,
            r.spec_repeat() == 0,
    {
        Timer { handle: Handle::new(HandleType::Timer), timeout: 0, repeat: 0 }
    }

    /// The timeout, in milliseconds, of the last successful start.
    pub fn timeout(&self) -> (r: u64)
        ensures
            r == self.spec_timeout(),
    {
        self.timeout
    }

    /// The repeat interval, in milliseconds, of the last successful start;
    /// zero for none.
    pub fn repeat(&self) -> (r: u64)
        ensures
            r == self.spec_repeat(),
    {
        self.repeat
    }

    /// Records the engine's status for initializing the handle on `l`.
    pub fn init(&mut self, l: &Loop, status: i32) -> (r: Result<(), Error>)
        requires
            old(self).spec_handle().spec_state() == HandleState::Uninit,
            l.spec_state() == LoopState::Ready,
            status >= 0 || is_known_code(status),
        ensures
            r == Error::spec_check(status),
            final(self).spec_handle().spec_state() == (if status >= 0 {
                HandleState::Inactive
            } else {
                HandleState::Uninit
            }),
            final(self).spec_handle().spec_kind() == old(self).spec_handle().spec_kind(),
            final(self).spec_handle().spec_data() == old(self).spec_handle().spec_data(),
            final(self).spec_timeout() == old(self).spec_timeout(),
            final(self).spec_repeat() == old(self).spec_repeat(),
    {
        self.handle.record_init(status)
    }

    /// Records the engine's status for starting the timer with `timeout` and
    /// `repeat`, in milliseconds.
    pub fn start(&mut self, timeout: u64, repeat: u64, status: i32) -> (r: Result<(), Error>)
        requires
            old(self).spec_handle().spec_state().is_open(),
            status >= 0 || is_known_code(status),
        ensures
            r == Error::spec_check(status),
            final(self).spec_handle().spec_state() == (if status >= 0 {
                HandleState::Active
            } else {
                old(self).spec_handle().spec_state()
            }),
            final(self).spec_handle().spec_kind() == old(self).spec_handle().spec_kind(),
            final(self).spec_handle().spec_data() == old(self).spec_handle().spec_data(),
            final(self).spec_timeout() == (if status >= 0 {
                timeout
            } else {
                old(self).spec_timeout()
            }),
            final(self).spec_repeat() == (if status >= 0 {
                repeat
            } else {
                old(self).spec_repeat()
            }),
    {
        let r = self.handle.record_start(status);
        if r.is_ok() {
            self.timeout = timeout;
            self.repeat = repeat;
        }
        r
    }

    /// Records the engine's status for stopping the handle.
    pub fn stop(&mut self, status: i32) -> (r: Result<(), Error>)
        requires
            old(self).spec_handle().spec_state().is_open(),
            status >= 0 || is_known_code(status),
        ensures
            r == Error::spec_check(status),
            final(self).spec_handle().spec_state() == (if status >= 0 {
                HandleState::Inactive
            } else {
                old(self).spec_handle().spec_state()
            }),
            final(self).spec_handle().spec_kind() == old(self).spec_handle().spec_kind(),
            final(self).spec_handle().spec_data() == old(self).spec_handle().spec_data(),
            final(self).spec_timeout() == old(self).spec_timeout(),
            final(self).spec_repeat() == old(self).spec_repeat(),
    {
        self.handle.record_stop(status)
    }
}

impl HandleImpl for Timer {
    closed spec fn spec_handle(&self) -> Handle {
        self.handle
    }

    fn as_handle(&self) -> (r: &Handle) {
        &self.handle
    }

    fn as_mut_handle(&mut self) -> (r: &mut Handle) {
        &mut self.handle
    }
}

/// The engine's name for the timer handle.
#[allow(non_camel_case_types)]
pub type uv_timer_t = Timer;

} // verus!
