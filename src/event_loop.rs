use vstd::prelude::*;

use crate::error::{is_known_code, Error};

verus! {

/// Options that `configure` can set on a loop.
#[derive(Debug, Clone, Copy, PartialEq, Eq, Structural)]
pub enum LoopOption {
    /// Block a signal when polling for new events; the engine accepts only
    /// the profiling signal.
    LoopBlockSignal,
    /// Accumulate the time that the loop spends idle in the event provider.
    MetricsIdleTime,
}

impl LoopOption {
    /// The engine's numeric value for this option.
    pub open spec fn spec_value(self) -> u32 {
        match self {
            LoopOption::LoopBlockSignal => 0,
            LoopOption::MetricsIdleTime => 1,
        }
    }

    /// The numeric value for this option.
    pub fn value(self) -> (r: u32)
        ensures
            r == self.spec_value(),
    {
        match self {
            LoopOption::LoopBlockSignal => 0,
            LoopOption::MetricsIdleTime => 1,
        }
    }
}

/// How long one `run` drives the loop.
#[derive(Debug, Clone, Copy, PartialEq, Eq, Structural)]
pub enum RunMode {
    /// Until no active and referenced handle or request is left.
    Default,
    /// Poll for I/O once, blocking if no callback is pending.
    Once,
    /// Poll for I/O once without blocking.
    NoWait,
}

impl RunMode {
    /// The engine's numeric value for this mode.
    pub open spec fn spec_value(self) -> u32 {
        match self {
            RunMode::Default => 0,
            RunMode::Once => 1,
            RunMode::NoWait => 2,
        }
    }

    /// The numeric value for this mode.
    pub fn value(self) -> (r: u32)
        ensures
            r == self.spec_value(),
    {
        match self {
            RunMode::Default => 0,
            RunMode::Once => 1,
            RunMode::NoWait => 2,
        }
    }
}

impl From<RunMode> for u32 {
    fn from(mode: RunMode) -> (r: u32) {
        mode.value()
    }
}

impl vstd::std_specs::convert::FromSpecImpl<RunMode> for u32 {
    open spec fn obeys_from_spec() -> bool {
        true
    }

    open spec fn from_spec(mode: RunMode) -> u32 {
        mode.spec_value()
    }
}

impl From<LoopOption> for u32 {
    fn from(option: LoopOption) -> (r: u32) {
        option.value()
    }
}

impl vstd::std_specs::convert::FromSpecImpl<LoopOption> for u32 {
    open spec fn obeys_from_spec() -> bool {
        true
    }

    open spec fn from_spec(option: LoopOption) -> u32 {
        option.spec_value()
    }
}

/// Where a loop stands in its lifecycle.
#[derive(Debug, Clone, Copy, PartialEq, Eq, Structural)]
pub enum LoopState {
    /// Not initialized yet.
    Uninit,
    /// Initialized: handles can be bound to it and it can be run.
    Ready,
    /// Closed after all its handles were closed.
    Closed,
}

/// One instance of the event engine, driven by one thread.
#[derive(Debug)]
pub struct Loop {
    state: LoopState,
    stop_requested: bool,
    data: usize,
}

impl Loop {
    pub closed spec fn spec_state(&self) -> LoopState {
        self.state
    }

    pub closed spec fn spec_stop_requested(&self) -> bool {
        self.stop_requested
    }

    pub closed spec fn spec_data(&self) -> usize {
        self.data
    }

    /// A loop that is not initialized yet.
    pub fn new() -> (r: Loop)
        ensures
            r.spec_state() == LoopState::Uninit,
            !r.spec_stop_requested(),
            r.spec_data() == 0,
    {
        Loop { state: LoopState::Uninit, stop_requested: false, data: 0 }
    }

    /// Where the loop stands.
    pub fn state(&self) -> (r: LoopState)
        ensures
            r == self.spec_state(),
    {
        self.state
    }

    /// Whether handles can be bound to the loop and it can be run.
    pub fn is_ready(&self) -> (r: bool)
        ensures
            r == (self.spec_state() == LoopState::Ready),
    {
        self.state == LoopState::Ready
    }

    /// Records the engine's status for initializing the loop.
    pub fn init(&mut self, status: i32) -> (r: Result<(), Error>)
        requires
            old(self).spec_state() == LoopState::Uninit,
            status >= 0 || is_known_code(status),
        ensures
            r == Error::spec_check(status),
            final(self).spec_state() == (if status >= 0 {
                LoopState::Ready
            } else {
                LoopState::Uninit
            }),
            final(self).spec_stop_requested() == old(self).spec_stop_requested(),
            final(self).spec_data() == old(self).spec_data(),
    {
        let r = Error::check(status);
        if r.is_ok() {
            self.state = LoopState::Ready;
        }
        r
    }

    /// Records what one `run` returned: a negative status is a failure; on
    /// success the result says whether more work is expected (the engine
    /// returned non-zero). A pending stop request is used up by the run.
    pub fn run(&mut self, mode: RunMode, status: i32) -> (r: Result<bool, Error>)
        requires
            old(self).spec_state() == LoopState::Ready,
            status >= 0 || is_known_code(status),
        ensures
            status < 0 ==> r == Err::<bool, Error>(Error::spec_check(status)->Err_0),
            status >= 0 ==> r == Ok::<bool, Error>(status > 0),
            final(self).spec_state() == LoopState::Ready,
            !final(self).spec_stop_requested(),
            final(self).spec_data() == old(self).spec_data(),
    {
        self.stop_requested = false;
        if status < 0 {
            Err(Error::from_code(status))
        } else {
            Ok(status > 0)
        }
    }

    /// Asks the current or next `run` to return once its iteration ends.
    pub fn stop(&mut self)
        ensures
            final(self).spec_stop_requested(),
            final(self).spec_state() == old(self).spec_state(),
            final(self).spec_data() == old(self).spec_data(),
    {
        self.stop_requested = true;
    }

    /// Whether a stop was asked for and no `run` has used it up yet.
    pub fn is_stop_requested(&self) -> (r: bool)
        ensures
            r == self.spec_stop_requested(),
    {
        self.stop_requested
    }

    /// Records the engine's status for closing the loop. It refuses (busy)
    /// while a handle bound to the loop is not fully closed; the loop then
    /// stays ready.
    pub fn close(&mut self, status: i32) -> (r: Result<(), Error>)
        requires
            old(self).spec_state() == LoopState::Ready,
            status >= 0 || is_known_code(status),
        ensures
            r == Error::spec_check(status),
            final(self).spec_state() == (if status >= 0 {
                LoopState::Closed
            } else {
                LoopState::Ready
            }),
            final(self).spec_stop_requested() == old(self).spec_stop_requested(),
            final(self).spec_data() == old(self).spec_data(),
    {
        let r = Error::check(status);
        if r.is_ok() {
            self.state = LoopState::Closed;
        }
        r
    }

    /// The caller's data slot.
    pub fn get_data(&self) -> (r: usize)
        ensures
            r == self.spec_data(),
    {
        self.data
    }

    /// Stores a value in the caller's data slot.
    pub fn set_data(&mut self, data: usize)
        ensures
            final(self).spec_data() == data,
            final(self).spec_state() == old(self).spec_state(),
            final(self).spec_stop_requested() == old(self).spec_stop_requested(),
    {
        self.data = data;
    }
}

/// The engine's name for the loop.
#[allow(non_camel_case_types)]
pub type uv_loop_t = Loop;

} // verus!
