use vstd::prelude::*;

use crate::error::{is_known_code, Error};
use crate::event_loop::{Loop, LoopState};
use crate::handle::{Handle, HandleImpl, HandleState, HandleType};

verus! {

/// A handle whose callback runs once per loop iteration, right before polling for I/O.
#[derive(Debug)]
pub struct Prepare {
    handle: Handle,
}

impl Prepare {
    /// A prepare handle that is not initialized yet.
    pub fn new() -> (r: Prepare)
        ensures
            r.spec_handle().spec_kind() == HandleType::Prepare,
            r.spec_handle().spec_state() == HandleState::Uninit,
    {
        Prepare { handle: Handle::new(HandleType::Prepare) }
    }

    /// Records the engine's status for initializing the handle on `l`.
    pub fn init(&mut self, l: &Loop, status: i32) -> (r: Result<(), Error>)
        requires
            old(self).spec_handle().spec_state() == HandleState::Uninit,
            l.spec_state() == LoopState::Ready,
            status >= 0 || is_known_code(status),
        ensures
            r == Error::spec_check(status),
            final(self).spec_handle().spec_state() == (if status >= 0 {
                HandleState::Inactive
            } else {
                HandleState::Uninit
            }),
            final(self).spec_handle().spec_kind() == old(self).spec_handle().spec_kind(),
            final(self).spec_handle().spec_data() == old(self).spec_handle().spec_data(),
    {
        self.handle.record_init(status)
    }

    /// Records the engine's status for starting the handle.
    pub fn start(&mut self, status: i32) -> (r: Result<(), Error>)
        requires
            old(self).spec_handle().spec_state().is_open(),
            status >= 0 || is_known_code(status),
        ensures
            r == Error::spec_check(status),
            final(self).spec_handle().spec_state() == (if status >= 0 {
                HandleState::Active
            } else {
                old(self).spec_handle().spec_state()
            }),
            final(self).spec_handle().spec_kind() == old(self).spec_handle().spec_kind(),
            final(self).spec_handle().spec_data() == old(self).spec_handle().spec_data(),
    {
        self.handle.record_start(status)
    }

    /// Records the engine's status for stopping the handle.
    pub fn stop(&mut self, status: i32) -> (r: Result<(), Error>)
        requires
            old(self).spec_handle().spec_state().is_open(),
            status >= 0 || is_known_code(status),
        ensures
            r == Error::spec_check(status),
            final(self).spec_handle().spec_state() == (if status >= 0 {
                HandleState::Inactive
            } else {
                old(self).spec_handle().spec_state()
            }),
            final(self).spec_handle().spec_kind() == old(self).spec_handle().spec_kind(),
            final(self).spec_handle().spec_data() == old(self).spec_handle().spec_data(),
    {
        self.handle.record_stop(status)
    }
}

impl HandleImpl for Prepare {
    closed spec fn spec_handle(&self) -> Handle {
        self.handle
    }

    fn as_handle(&self) -> (r: &Handle) {
        &self.handle
    }

    fn as_mut_handle(&mut self) -> (r: &mut Handle) {
        &mut self.handle
    }
}

/// The engine's name for the prepare handle.
#[allow(non_camel_case_types)]
pub type uv_prepare_t = Prepare;

} // verus!
