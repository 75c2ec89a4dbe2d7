use vstd::prelude::*;

use crate::error::{is_known_code, Error};
use crate::event_loop::{Loop, LoopState};
use crate::handle::{Handle, HandleImpl, HandleState, HandleType};

verus! {

/// A handle whose callback runs once per loop iteration while the loop has
/// nothing else to do.
#[derive(Debug)]
pub struct Idle {
    handle: Handle,
}

impl Idle {
    /// An idle handle that is not initialized yet.
    pub fn new() -> (r: Idle)
        ensures
            r.spec_handle().spec_kind() == HandleType::Idle,
            r.spec_handle().spec_state() == HandleState::Uninit,
    {
        Idle { handle: Handle::new(HandleType::Idle) }
    }

    /// Records the engine's status for initializing the handle on `l`.
    pub fn init(&mut self, l: &Loop, status: i32) -> (r: Result<(), Error>)
        requires
            old(self).spec_handle().spec_state() == HandleState::Uninit,
            l.spec_state() == LoopState::Ready,
            status >= 0 || is_known_code(status),
        ensures
            r == Error::spec_check(status),
            final(self).spec_handle().spec_state() == (if status >= 0 {
                HandleState::Inactive
            } else {
                HandleState::Uninit
            }),
            final(self).spec_handle().spec_kind() == old(self).spec_handle().spec_kind(),
            final(self).spec_handle().spec_data() == old(self).spec_handle().spec_data(),
    {
        self.handle.record_init(status)
    }

    /// Records the engine's status for starting the handle.
    pub fn start(&mut self, status: i32) -> (r: Result<(), Error>)
        requires
            old(self).spec_handle().spec_state().is_open(),
            status >= 0 || is_known_code(status),
        ensures
            r == Error::spec_check(status),
            final(self).spec_handle().spec_state() == (if status >= 0 {
                HandleState::Active
            } else {
                old(self).spec_handle().spec_state()
            }),
            final(self).spec_handle().spec_kind() == old(self).spec_handle().spec_kind(),
            final(self).spec_handle().spec_data() == old(self).spec_handle().spec_data(),
    {
        self.handle.record_start(status)
    }

    /// Records the engine's status for stopping the handle.
    pub fn stop(&mut self, status: i32) -> (r: Result<(), Error>)
        requires
            old(self).spec_handle().spec_state().is_open(),
            status >= 0 || is_known_code(status),
        ensures
            r == Error::spec_check(status),
            final(self).spec_handle().spec_state() == (if status >= 0 {
                HandleState::Inactive
            } else {
                old(self).spec_handle().spec_state()
            }),
            final(self).spec_handle().spec_kind() == old(self).spec_handle().spec_kind(),
            final(self).spec_handle().spec_data() == old(self).spec_handle().spec_data(),
    {
        self.handle.record_stop(status)
    }
}

impl HandleImpl for Idle {
    closed spec fn spec_handle(&self) -> Handle {
        self.handle
    }

    fn as_handle(&self) -> (r: &Handle) {
        &self.handle
    }

    fn as_mut_handle(&mut self) -> (r: &mut Handle) {
        &mut self.handle
    }
}

/// The engine's name for the idle handle.
#[allow(non_camel_case_types)]
pub type uv_idle_t = Idle;

} // verus!
