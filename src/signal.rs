use vstd::prelude::*;

use crate::error::{is_known_code, Error};
use crate::event_loop::{Loop, LoopState};
use crate::handle::{Handle, HandleImpl, HandleState, HandleType};
use crate::stream::{Stream, StreamImpl};

verus! {

/// A handle that watches for a signal. At the native layer it carries the
/// stream prefix.
#[derive(Debug)]
pub struct Signal {
    stream: Stream,
    signum: i32,
    oneshot: bool,
}

impl Signal {
    pub closed spec fn spec_signum(&self) -> i32 {
        self.signum
    }

    pub closed spec fn spec_oneshot(&self) -> bool {
        self.oneshot
    }

    /// A signal handle that is not initialized yet.
    pub fn new() -> (r: Signal)
        ensures
            r.spec_handle().spec_kind() == HandleType::Signal,
            r.spec_handle().spec_state() == HandleState::Uninit,
            r.spec_signum() == 0,
            !r.spec_oneshot(),
    {
        Signal { stream: Stream::new(HandleType::Signal), signum: 0, oneshot: false }
    }

    /// The signal of the last successful start; 0 before any.
    pub fn signum(&self) -> (r: i32)
        ensures
            r == self.spec_signum(),
    {
        self.signum
    }

    /// Whether the last successful start watches for one signal only.
    pub fn is_oneshot(&self) -> (r: bool)
        ensures
            r == self.spec_oneshot(),
    {
        self.oneshot
    }

    /// Records the engine's status for initializing the handle on `l`.
    pub fn init(&mut self, l: &Loop, status: i32) -> (r: Result<(), Error>)
        requires
            old(self).spec_handle().spec_state() == HandleState::Uninit,
            l.spec_state() == LoopState::Ready,
            status >= 0 || is_known_code(status),
        ensures
            r == Error::spec_check(status),
            final(self).spec_handle().spec_state() == (if status >= 0 {
                HandleState::Inactive
            } else {
                HandleState::Uninit
            }),
            final(self).spec_handle().spec_kind() == old(self).spec_handle().spec_kind(),
            final(self).spec_signum() == old(self).spec_signum(),
            final(self).spec_oneshot() == old(self).spec_oneshot(),
    {
        self.stream.record_init(status)
    }

    /// Records the engine's status for watching for `signum` until stopped.
    pub fn start(&mut self, signum: i32, status: i32) -> (r: Result<(), Error>)
        requires
            old(self).spec_handle().spec_state().is_open(),
            status >= 0 || is_known_code(status),
        ensures
            r == Error::spec_check(status),
            final(self).spec_handle().spec_state() == (if status >= 0 {
                HandleState::Active
            } else {
                old(self).spec_handle().spec_state()
            }),
            final(self).spec_handle().spec_kind() == old(self).spec_handle().spec_kind(),
            final(self).spec_signum() == (if status >= 0 {
                signum
            } else {
                old(self).spec_signum()
            }),
            final(self).spec_oneshot() == (old(self).spec_oneshot() && status < 0),
    {
        let r = self.stream.record_start(status);
        if r.is_ok() {
            self.signum = signum;
            self.oneshot = false;
        }
        r
    }

    /// Records the engine's status for watching for one `signum` only.
    pub fn start_oneshot(&mut self, signum: i32, status: i32) -> (r: Result<(), Error>)
        requires
            old(self).spec_handle().spec_state().is_open(),
            status >= 0 || is_known_code(status),
        ensures
            r == Error::spec_check(status),
            final(self).spec_handle().spec_state() == (if status >= 0 {
                HandleState::Active
            } else {
                old(self).spec_handle().spec_state()
            }),
            final(self).spec_handle().spec_kind() == old(self).spec_handle().spec_kind(),
            final(self).spec_signum() == (if status >= 0 {
                signum
            } else {
                old(self).spec_signum()
            }),
            final(self).spec_oneshot() == (old(self).spec_oneshot() || status >= 0),
    {
        let r = self.stream.record_start(status);
        if r.is_ok() {
            self.signum = signum;
            self.oneshot = true;
        }
        r
    }

    /// Records the engine's status for stopping the handle.
    pub fn stop(&mut self, status: i32) -> (r: Result<(), Error>)
        requires
            old(self).spec_handle().spec_state().is_open(),
            status >= 0 || is_known_code(status),
        ensures
            r == Error::spec_check(status),
            final(self).spec_handle().spec_state() == (if status >= 0 {
                HandleState::Inactive
            } else {
                old(self).spec_handle().spec_state()
            }),
            final(self).spec_handle().spec_kind() == old(self).spec_handle().spec_kind(),
            final(self).spec_signum() == old(self).spec_signum(),
            final(self).spec_oneshot() == old(self).spec_oneshot(),
    {
        self.stream.record_stop(status)
    }
}

impl HandleImpl for Signal {
    closed spec fn spec_handle(&self) -> Handle {
        self.stream.spec_handle()
    }

    fn as_handle(&self) -> (r: &Handle) {
        self.stream.as_handle()
    }

    fn as_mut_handle(&mut self) -> (r: &mut Handle) {
        self.stream.as_mut_handle()
    }
}

impl StreamImpl for Signal {
    closed spec fn spec_stream(&self) -> Stream {
        self.stream
    }

    fn as_stream(&self) -> (r: &Stream) {
        &self.stream
    }

    fn as_mut_stream(&mut self) -> (r: &mut Stream) {
        &mut self.stream
    }
}

/// The engine's name for the signal handle.
#[allow(non_camel_case_types)]
pub type uv_signal_t = Signal;

} // verus!
