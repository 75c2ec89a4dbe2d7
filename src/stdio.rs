use vstd::prelude::*;

verus! {

/// How a child process's stdio slot is set up.
#[derive(Debug, Clone, Copy, PartialEq, Eq, Structural)]
pub struct StdioFlags {
    bits: i32,
}

/// The bits of all the flags that the engine defines.
pub const STDIO_FLAGS_ALL: i32 = 0x77;

impl StdioFlags {
    /// No flag: the slot is ignored.
    pub const IGNORE: i32 = 0x00;
    /// Create a pipe for the slot.
    pub const CREATE_PIPE: i32 = 0x01;
    /// Inherit a file descriptor.
    pub const INHERIT_FD: i32 = 0x02;
    /// Inherit the descriptor of a stream.
    pub const INHERIT_STREAM: i32 = 0x04;
    /// With `CREATE_PIPE`: the child reads from the pipe.
    pub const READABLE_PIPE: i32 = 0x10;
    /// With `CREATE_PIPE`: the child writes to the pipe.
    pub const WRITABLE_PIPE: i32 = 0x20;
    /// With `CREATE_PIPE`: the child's end is non-blocking.
    pub const NONBLOCK_PIPE: i32 = 0x40;
    /// The older name of `NONBLOCK_PIPE`.
    pub const OVERLAPPED_PIPE: i32 = 0x40;

    pub closed spec fn spec_bits(self) -> i32 {
        self.bits
    }

    /// No flag.
    pub fn empty() -> (r: StdioFlags)
        ensures
            r.spec_bits() == 0,
    {
        StdioFlags { bits: 0 }
    }

    /// The flags that `bits` codes, if every bit in it names a flag.
    pub fn from_bits(bits: i32) -> (r: Option<StdioFlags>)
        ensures
            r is Some <==> bits & !STDIO_FLAGS_ALL == 0,
            r matches Some(f) ==> f.spec_bits() == bits,
    {
        if bits & !STDIO_FLAGS_ALL == 0 {
            Some(StdioFlags { bits })
        } else {
            None
        }
    }

    /// The flags whose bits are in `bits`; other bits are dropped.
    pub fn from_bits_truncate(bits: i32) -> (r: StdioFlags)
        ensures
            r.spec_bits() == bits & STDIO_FLAGS_ALL,
    {
        StdioFlags { bits: bits & STDIO_FLAGS_ALL }
    }

    /// The bits of the flags.
    pub fn bits(self) -> (r: i32)
        ensures
            r == self.spec_bits(),
    {
        self.bits
    }

    /// Whether every flag of `other` is set.
    pub fn contains(self, other: StdioFlags) -> (r: bool)
        ensures
            r == (self.spec_bits() & other.spec_bits() == other.spec_bits()),
    {
        self.bits & other.bits == other.bits
    }

    /// The flags of both.
    pub fn union(self, other: StdioFlags) -> (r: StdioFlags)
        ensures
            r.spec_bits() == self.spec_bits() | other.spec_bits(),
    {
        StdioFlags { bits: self.bits | other.bits }
    }
}

/// What a stdio slot refers to: a file descriptor, or the address of a
/// native stream.
#[derive(Debug, Clone, Copy, PartialEq, Eq, Structural)]
pub enum StdioData {
    Fd(i32),
    Stream(usize),
}

/// One stdio slot of a child process: its flags and what it refers to.
#[derive(Debug, Clone, Copy, PartialEq, Eq, Structural)]
pub struct StdioContainer {
    pub flags: StdioFlags,
    pub data: StdioData,
}

impl StdioContainer {
    /// A builder that starts from an ignored slot.
    pub fn builder() -> (r: StdioContainerBuilder)
        ensures
            r.spec_container().flags.spec_bits() == StdioFlags::IGNORE,
            r.spec_container().data == StdioData::Fd(0),
    {
        StdioContainerBuilder { container: StdioContainer::ignore() }
    }

    /// An ignored slot.
    pub fn ignore() -> (r: StdioContainer)
        ensures
            r.flags.spec_bits() == StdioFlags::IGNORE,
            r.data == StdioData::Fd(0),
    {
        StdioContainer { flags: StdioFlags::empty(), data: StdioData::Fd(0) }
    }

    /// A slot from which the child reads the inherited descriptor `fd`.
    pub fn readable_fd(fd: i32) -> (r: StdioContainer)
        ensures
            r.flags.spec_bits() == StdioFlags::INHERIT_FD,
            r.data == StdioData::Fd(fd),
    {
        StdioContainer { flags: StdioFlags { bits: StdioFlags::INHERIT_FD }, data: StdioData::Fd(fd) }
    }

    /// A slot to which the child writes through the inherited descriptor `fd`.
    pub fn writable_fd(fd: i32) -> (r: StdioContainer)
        ensures
            r.flags.spec_bits() == StdioFlags::INHERIT_FD,
            r.data == StdioData::Fd(fd),
    {
        StdioContainer { flags: StdioFlags { bits: StdioFlags::INHERIT_FD }, data: StdioData::Fd(fd) }
    }

    /// A slot that creates a pipe, which the child reads, on the stream at
    /// address `stream`.
    pub fn readable_stream(stream: usize) -> (r: StdioContainer)
        ensures
            r.flags.spec_bits() == StdioFlags::READABLE_PIPE | StdioFlags::CREATE_PIPE,
            r.data == StdioData::Stream(stream),
    {
        StdioContainer {
            flags: StdioFlags { bits: StdioFlags::READABLE_PIPE | StdioFlags::CREATE_PIPE },
            data: StdioData::Stream(stream),
        }
    }

    /// A slot that creates a pipe, to which the child writes, on the stream
    /// at address `stream`.
    pub fn writable_stream(stream: usize) -> (r: StdioContainer)
        ensures
            r.flags.spec_bits() == StdioFlags::WRITABLE_PIPE | StdioFlags::CREATE_PIPE,
            r.data == StdioData::Stream(stream),
    {
        StdioContainer {
            flags: StdioFlags { bits: StdioFlags::WRITABLE_PIPE | StdioFlags::CREATE_PIPE },
            data: StdioData::Stream(stream),
        }
    }
}

/// Builds a stdio slot step by step.
#[derive(Debug)]
pub struct StdioContainerBuilder {
    container: StdioContainer,
}

impl StdioContainerBuilder {
    pub closed spec fn spec_container(&self) -> StdioContainer {
        self.container
    }

    /// Sets the flags and keeps what the slot refers to.
    pub fn flags(self, flags: StdioFlags) -> (r: Self)
        ensures
            r.spec_container().flags == flags,
            r.spec_container().data == self.spec_container().data,
    {
        StdioContainerBuilder { container: StdioContainer { flags, data: self.container.data } }
    }

    /// Makes the slot refer to the descriptor `fd` and keeps the flags.
    pub fn fd(self, fd: i32) -> (r: Self)
        ensures
            r.spec_container().data == StdioData::Fd(fd),
            r.spec_container().flags == self.spec_container().flags,
    {
        StdioContainerBuilder {
            container: StdioContainer { flags: self.container.flags, data: StdioData::Fd(fd) },
        }
    }

    /// Makes the slot refer to the native stream at address `stream` and keeps
    /// the flags.
    pub fn stream(self, stream: usize) -> (r: Self)
        ensures
            r.spec_container().data == StdioData::Stream(stream),
            r.spec_container().flags == self.spec_container().flags,
    {
        StdioContainerBuilder {
            container: StdioContainer { flags: self.container.flags, data: StdioData::Stream(stream) },
        }
    }

    /// The slot built so far.
    pub fn build(self) -> (r: StdioContainer)
        ensures
            r == self.spec_container(),
    {
        self.container
    }
}

} // verus!
