//! A verified model of the handle and request layer over a callback-driven
//! event engine: its error domain, handle and request kinds, their lifecycles,
//! buffer views and process options.
pub mod buf;
pub mod check;
pub mod error;
pub mod event_loop;
pub mod handle;
pub mod idle;
pub mod pipe;
pub mod poll;
pub mod prepare;
pub mod process;
pub mod req;
pub mod signal;
pub mod stdio;
pub mod stream;
pub mod tcp;
pub mod timer;

pub use buf::Buf;
pub use check::Check;
pub use error::Error;
pub use event_loop::{Loop, LoopOption, LoopState, RunMode};
pub use handle::{Handle, HandleImpl, HandleState, HandleType};
pub use idle::Idle;
pub use pipe::Pipe;
pub use poll::{Poll, PollEvent};
pub use prepare::Prepare;
pub use process::{Process, ProcessOptions, ProcessOptionsBuilder};
pub use req::{Connect, Req, ReqImpl, ReqState, ReqType, Shutdown, Write};
pub use signal::Signal;
pub use stdio::{StdioContainer, StdioContainerBuilder, StdioData, StdioFlags};
pub use stream::{Stream, StreamImpl};
pub use tcp::{Tcp, TcpFlags};
pub use timer::Timer;
