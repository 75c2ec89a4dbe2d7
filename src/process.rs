use vstd::prelude::*;

use crate::error::{is_known_code, Error};
use crate::event_loop::{Loop, LoopState};
use crate::handle::{Handle, HandleImpl, HandleState, HandleType};
use crate::stdio::StdioContainer;

verus! {

/// Whether `s` is a C string: it ends with its only NUL character.
pub open spec fn is_c_string(s: Seq<char>) -> bool {
    &&& s.len() > 0
    &&& s.last() == '\0'
    &&& forall|j: int| 0 <= j < s.len() - 1 ==> s[j] != '\0'
}

/// Whether `args` are the arguments of `argv` that come before its first
/// empty one: an empty argument ends the list.
pub open spec fn leading_args(argv: Seq<String>, args: Seq<String>) -> bool {
    &&& args.len() <= argv.len()
    &&& forall|j: int| 0 <= j < args.len() ==> args[j] == argv[j] && argv[j]@.len() > 0
    &&& args.len() < argv.len() ==> argv[args.len() as int]@.len() == 0
}

/// The arguments of `argv` before its first empty one.
fn leading_args_of(argv: &[String]) -> (r: Vec<String>)
    ensures
        leading_args(argv@, r@),
{
    let mut args: Vec<String> = Vec::new();
    let mut i: usize = 0;
    while i < argv.len()
        invariant
            i <= argv@.len(),
            args@.len() == i,
            forall|j: int| 0 <= j < i ==> args@[j] == argv@[j] && argv@[j]@.len() > 0,
        decreases argv@.len() - i,
    {
        if argv[i].as_str().is_empty() {
            return args;
        }
        args.push(argv[i].clone());
        i = i + 1;
    }
    args
}

/// What a child process is spawned with.
#[derive(Debug)]
pub struct ProcessOptions {
    file: Option<String>,
    args: Vec<String>,
    cwd: Option<String>,
    stdio: Vec<StdioContainer>,
    uid: u32,
    gid: u32,
}

impl ProcessOptions {
    pub closed spec fn spec_file(&self) -> Option<Seq<char>> {
        match self.file {
            Some(f) => Some(f@),
            None => None,
        }
    }

    pub closed spec fn spec_args(&self) -> Seq<String> {
        self.args@
    }

    pub closed spec fn spec_cwd(&self) -> Option<Seq<char>> {
        match self.cwd {
            Some(c) => Some(c@),
            None => None,
        }
    }

    pub closed spec fn spec_stdio(&self) -> Seq<StdioContainer> {
        self.stdio@
    }

    pub closed spec fn spec_uid(&self) -> u32 {
        self.uid
    }

    pub closed spec fn spec_gid(&self) -> u32 {
        self.gid
    }

    /// Options with no program, argument, directory or stdio slot, as user
    /// and group 0.
    pub fn new() -> (r: ProcessOptions)
        ensures
            r.spec_file() is None,
            r.spec_args().len() == 0,
            r.spec_cwd() is None,
            r.spec_stdio().len() == 0,
            r.spec_uid() == 0,
            r.spec_gid() == 0,
    {
        ProcessOptions {
            file: None,
            args: Vec::new(),
            cwd: None,
            stdio: Vec::new(),
            uid: 0,
            gid: 0,
        }
    }

    /// A builder that starts from `new`.
    pub fn builder() -> (r: ProcessOptionsBuilder)
        ensures
            r.spec_options().spec_file() is None,
            r.spec_options().spec_args().len() == 0,
            r.spec_options().spec_cwd() is None,
            r.spec_options().spec_stdio().len() == 0,
            r.spec_options().spec_uid() == 0,
            r.spec_options().spec_gid() == 0,
    {
        ProcessOptionsBuilder { options: ProcessOptions::new() }
    }

    /// The program to run.
    pub fn file(&self) -> (r: Option<&String>)
        ensures
            r matches Some(f) ==> self.spec_file() == Some(f@),
            r is None <==> self.spec_file() is None,
    {
        self.file.as_ref()
    }

    /// The arguments.
    pub fn args(&self) -> (r: &Vec<String>)
        ensures
            r@ == self.spec_args(),
    {
        &self.args
    }

    /// The working directory.
    pub fn cwd(&self) -> (r: Option<&String>)
        ensures
            r matches Some(c) ==> self.spec_cwd() == Some(c@),
            r is None <==> self.spec_cwd() is None,
    {
        self.cwd.as_ref()
    }

    /// The stdio slots.
    pub fn stdio(&self) -> (r: &Vec<StdioContainer>)
        ensures
            r@ == self.spec_stdio(),
    {
        &self.stdio
    }

    /// The number of stdio slots, as the engine counts them.
    pub fn stdio_count(&self) -> (r: i32)
        requires
            self.spec_stdio().len() <= i32::MAX,
        ensures
            r as int == self.spec_stdio().len(),
    {
        self.stdio.len() as i32
    }

    /// The user to run as.
    pub fn uid(&self) -> (r: u32)
        ensures
            r == self.spec_uid(),
    {
        self.uid
    }

    /// The group to run as.
    pub fn gid(&self) -> (r: u32)
        ensures
            r == self.spec_gid(),
    {
        self.gid
    }

    /// Sets the user to run as.
    pub fn set_uid(self, uid: u32) -> (r: Self)
        ensures
            r.spec_uid() == uid,
            r.spec_gid() == self.spec_gid(),
            r.spec_file() == self.spec_file(),
            r.spec_args() == self.spec_args(),
            r.spec_cwd() == self.spec_cwd(),
            r.spec_stdio() == self.spec_stdio(),
    {
        ProcessOptions { uid, ..self }
    }

    /// Sets the group to run as.
    pub fn set_gid(self, gid: u32) -> (r: Self)
        ensures
            r.spec_gid() == gid,
            r.spec_uid() == self.spec_uid(),
            r.spec_file() == self.spec_file(),
            r.spec_args() == self.spec_args(),
            r.spec_cwd() == self.spec_cwd(),
            r.spec_stdio() == self.spec_stdio(),
    {
        ProcessOptions { gid, ..self }
    }

    /// Sets the working directory, given as a C string.
    pub fn set_cwd(self, cwd: &str) -> (r: Self)
        requires
            is_c_string(cwd@),
        ensures
            r.spec_cwd() == Some(cwd@),
            r.spec_file() == self.spec_file(),
            r.spec_args() == self.spec_args(),
            r.spec_stdio() == self.spec_stdio(),
            r.spec_uid() == self.spec_uid(),
            r.spec_gid() == self.spec_gid(),
    {
        ProcessOptions { cwd: Some(cwd.to_owned()), ..self }
    }

    /// Sets the program to run, given as a C string.
    pub fn set_file(self, file: &str) -> (r: Self)
        requires
            is_c_string(file@),
        ensures
            r.spec_file() == Some(file@),
            r.spec_cwd() == self.spec_cwd(),
            r.spec_args() == self.spec_args(),
            r.spec_stdio() == self.spec_stdio(),
            r.spec_uid() == self.spec_uid(),
            r.spec_gid() == self.spec_gid(),
    {
        ProcessOptions { file: Some(file.to_owned()), ..self }
    }

    /// Sets the arguments: those of `argv` before its first empty one.
    pub fn set_args(self, argv: &[String]) -> (r: Self)
        ensures
            leading_args(argv@, r.spec_args()),
            r.spec_file() == self.spec_file(),
            r.spec_cwd() == self.spec_cwd(),
            r.spec_stdio() == self.spec_stdio(),
            r.spec_uid() == self.spec_uid(),
            r.spec_gid() == self.spec_gid(),
    {
        ProcessOptions { args: leading_args_of(argv), ..self }
    }

    /// Sets the stdio slots; the engine counts them in an `i32`.
    pub fn set_stdio(self, stdio: &[StdioContainer]) -> (r: Self)
        requires
            stdio@.len() <= i32::MAX,
        ensures
            r.spec_stdio() == stdio@,
            r.spec_file() == self.spec_file(),
            r.spec_cwd() == self.spec_cwd(),
            r.spec_args() == self.spec_args(),
            r.spec_uid() == self.spec_uid(),
            r.spec_gid() == self.spec_gid(),
    {
        let mut slots: Vec<StdioContainer> = Vec::new();
        let mut i: usize = 0;
        while i < stdio.len()
            invariant
                i <= stdio@.len(),
                slots@ == stdio@.subrange(0, i as int),
            decreases stdio@.len() - i,
        {
            slots.push(stdio[i]);
            i = i + 1;
        }
        assert(slots@ == stdio@);
        ProcessOptions { stdio: slots, ..self }
    }
}

/// Builds process options step by step.
#[derive(Debug)]
pub struct ProcessOptionsBuilder {
    options: ProcessOptions,
}

impl ProcessOptionsBuilder {
    pub closed spec fn spec_options(&self) -> ProcessOptions {
        self.options
    }

    /// Sets the user to run as.
    pub fn uid(self, uid: u32) -> (r: Self)
        ensures
            r.spec_options().spec_uid() == uid,
            r.spec_options().spec_gid() == self.spec_options().spec_gid(),
            r.spec_options().spec_file() == self.spec_options().spec_file(),
            r.spec_options().spec_args() == self.spec_options().spec_args(),
            r.spec_options().spec_cwd() == self.spec_options().spec_cwd(),
            r.spec_options().spec_stdio() == self.spec_options().spec_stdio(),
    {
        ProcessOptionsBuilder { options: self.options.set_uid(uid) }
    }

    /// Sets the group to run as.
    pub fn gid(self, gid: u32) -> (r: Self)
        ensures
            r.spec_options().spec_gid() == gid,
            r.spec_options().spec_uid() == self.spec_options().spec_uid(),
            r.spec_options().spec_file() == self.spec_options().spec_file(),
            r.spec_options().spec_args() == self.spec_options().spec_args(),
            r.spec_options().spec_cwd() == self.spec_options().spec_cwd(),
            r.spec_options().spec_stdio() == self.spec_options().spec_stdio(),
    {
        ProcessOptionsBuilder { options: self.options.set_gid(gid) }
    }

    /// Sets the working directory, given as a C string.
    pub fn cwd(self, cwd: &str) -> (r: Self)
        requires
            is_c_string(cwd@),
        ensures
            r.spec_options().spec_cwd() == Some(cwd@),
            r.spec_options().spec_file() == self.spec_options().spec_file(),
            r.spec_options().spec_args() == self.spec_options().spec_args(),
            r.spec_options().spec_stdio() == self.spec_options().spec_stdio(),
            r.spec_options().spec_uid() == self.spec_options().spec_uid(),
            r.spec_options().spec_gid() == self.spec_options().spec_gid(),
    {
        ProcessOptionsBuilder { options: self.options.set_cwd(cwd) }
    }

    /// Sets the program to run, given as a C string.
    pub fn file(self, file: &str) -> (r: Self)
        requires
            is_c_string(file@),
        ensures
            r.spec_options().spec_file() == Some(file@),
            r.spec_options().spec_cwd() == self.spec_options().spec_cwd(),
            r.spec_options().spec_args() == self.spec_options().spec_args(),
            r.spec_options().spec_stdio() == self.spec_options().spec_stdio(),
            r.spec_options().spec_uid() == self.spec_options().spec_uid(),
            r.spec_options().spec_gid() == self.spec_options().spec_gid(),
    {
        ProcessOptionsBuilder { options: self.options.set_file(file) }
    }

    /// Sets the arguments: those of `args` before its first empty one.
    pub fn args(self, args: &[String]) -> (r: Self)
        ensures
            leading_args(args@, r.spec_options().spec_args()),
            r.spec_options().spec_file() == self.spec_options().spec_file(),
            r.spec_options().spec_cwd() == self.spec_options().spec_cwd(),
            r.spec_options().spec_stdio() == self.spec_options().spec_stdio(),
            r.spec_options().spec_uid() == self.spec_options().spec_uid(),
            r.spec_options().spec_gid() == self.spec_options().spec_gid(),
    {
        ProcessOptionsBuilder { options: self.options.set_args(args) }
    }

    /// Sets the three standard slots: input, output and error.
    pub fn stdio(self, stdio: &[StdioContainer; 3]) -> (r: Self)
        ensures
            r.spec_options().spec_stdio() == stdio@,
            r.spec_options().spec_file() == self.spec_options().spec_file(),
            r.spec_options().spec_cwd() == self.spec_options().spec_cwd(),
            r.spec_options().spec_args() == self.spec_options().spec_args(),
            r.spec_options().spec_uid() == self.spec_options().spec_uid(),
            r.spec_options().spec_gid() == self.spec_options().spec_gid(),
    {
        ProcessOptionsBuilder { options: self.options.set_stdio(stdio.as_slice()) }
    }

    /// The options built so far.
    pub fn build(self) -> (r: ProcessOptions)
        ensures
            r == self.spec_options(),
    {
        self.options
    }
}

/// A child process handle.
#[derive(Debug)]
pub struct Process {
    handle: Handle,
}

impl Process {
    /// A process handle that nothing was spawned on yet.
    pub fn new() -> (r: Process)
        ensures
            r.spec_handle().spec_kind() == HandleType::Process,
            r.spec_handle().spec_state() == HandleState::Uninit,
    {
        Process { handle: Handle::new(HandleType::Process) }
    }

    /// Records the engine's status for spawning a child on `l` with
    /// `options`: on success the handle is bound to the loop and active
    /// while the child runs.
    pub fn spawn(&mut self, l: &Loop, options: ProcessOptions, status: i32) -> (r: Result<(), Error>)
        requires
            old(self).spec_handle().spec_state() == HandleState::Uninit,
            l.spec_state() == LoopState::Ready,
            options.spec_stdio().len() <= i32::MAX,
            status >= 0 || is_known_code(status),
        ensures
            r == Error::spec_check(status),
            final(self).spec_handle().spec_state() == (if status >= 0 {
                HandleState::Active
            } else {
                HandleState::Uninit
            }),
            final(self).spec_handle().spec_kind() == old(self).spec_handle().spec_kind(),
    {
        let r = self.handle.record_init(status);
        if r.is_ok() {
            // A spawned child keeps its handle active until it exits.
            let _ = self.handle.record_start(0);
        }
        r
    }

    /// Records the engine's status for sending `signum` to the child.
    pub fn kill(&mut self, signum: i32, status: i32) -> (r: Result<(), Error>)
        requires
            status >= 0 || is_known_code(status),
        ensures
            r == Error::spec_check(status),
            final(self).spec_handle() == old(self).spec_handle(),
    {
        Error::check(status)
    }
}

impl HandleImpl for Process {
    closed spec fn spec_handle(&self) -> Handle {
        self.handle
    }

    fn as_handle(&self) -> (r: &Handle) {
        &self.handle
    }

    fn as_mut_handle(&mut self) -> (r: &mut Handle) {
        &mut self.handle
    }
}

/// The engine's name for the process handle.
#[allow(non_camel_case_types)]
pub type uv_process_t = Process;

} // verus!
