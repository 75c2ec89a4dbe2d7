use vstd::prelude::*;

use crate::buf::Buf;
use crate::error::{is_known_code, Error};

verus! {

/// The kind tag that every request carries in its common prefix.
#[derive(Debug, Clone, Copy, PartialEq, Eq, Structural)]
pub enum ReqType {
    UnknownReq,
    Req,
    Connect,
    Write,
    Shutdown,
    UdpSend,
    Fs,
    Work,
    GetAddrInfo,
    GetNameInfo,
    Random,
    ReqTypeMax,
}

impl ReqType {
    /// The engine's numeric tag for this kind.
    pub open spec fn spec_tag(self) -> u32 {
        match self {
            ReqType::UnknownReq => 0u32,
            ReqType::Req => 1u32,
            ReqType::Connect => 2u32,
            ReqType::Write => 3u32,
            ReqType::Shutdown => 4u32,
            ReqType::UdpSend => 5u32,
            ReqType::Fs => 6u32,
            ReqType::Work => 7u32,
            ReqType::GetAddrInfo => 8u32,
            ReqType::GetNameInfo => 9u32,
            ReqType::Random => 10u32,
            ReqType::ReqTypeMax => 11u32,
        }
    }

    /// The numeric tag for this kind.
    pub fn tag(self) -> (r: u32)
        ensures
            r == self.spec_tag(),
    {
        match self {
            ReqType::UnknownReq => 0u32,
            ReqType::Req => 1u32,
            ReqType::Connect => 2u32,
            ReqType::Write => 3u32,
            ReqType::Shutdown => 4u32,
            ReqType::UdpSend => 5u32,
            ReqType::Fs => 6u32,
            ReqType::Work => 7u32,
            ReqType::GetAddrInfo => 8u32,
            ReqType::GetNameInfo => 9u32,
            ReqType::Random => 10u32,
            ReqType::ReqTypeMax => 11u32,
        }
    }

    /// Whether `tag` names a request kind; any other tag is an ABI inconsistency.
    pub fn is_known_tag(tag: u32) -> (r: bool)
        ensures
            r == (tag <= 11),
    {
        tag <= 11
    }

    /// The kind that the engine names by `tag`.
    pub fn from_tag(tag: u32) -> (r: ReqType)
        requires
            tag <= 11,
        ensures
            r.spec_tag() == tag,
    {
        match tag {
            0u32 => ReqType::UnknownReq,
            1u32 => ReqType::Req,
            2u32 => ReqType::Connect,
            3u32 => ReqType::Write,
            4u32 => ReqType::Shutdown,
            5u32 => ReqType::UdpSend,
            6u32 => ReqType::Fs,
            7u32 => ReqType::Work,
            8u32 => ReqType::GetAddrInfo,
            9u32 => ReqType::GetNameInfo,
            10u32 => ReqType::Random,
            _ => ReqType::ReqTypeMax,
        }
    }
}

/// Two request kinds with the same tag are the same kind.
pub proof fn lemma_req_tag_injective(a: ReqType, b: ReqType)
    requires
        a.spec_tag() == b.spec_tag(),
    ensures
        a == b,
{
}

impl From<ReqType> for u32 {
    fn from(kind: ReqType) -> (r: u32) {
        kind.tag()
    }
}

impl vstd::std_specs::convert::FromSpecImpl<ReqType> for u32 {
    open spec fn obeys_from_spec() -> bool {
        true
    }

    open spec fn from_spec(kind: ReqType) -> u32 {
        kind.spec_tag()
    }
}

/// Where a request block stands in the hand-off to the engine.
#[derive(Debug, Clone, Copy, PartialEq, Eq, Structural)]
pub enum ReqState {
    /// Allocated and owned by the caller; not handed to the engine yet.
    Allocated,
    /// Handed to the engine, which owns it until the completion callback.
    Submitted,
    /// The engine refused it synchronously: the caller owns it again and
    /// must release it at once; no callback will come.
    SubmitFailed,
    /// The completion callback ran with this status: the callback owns the
    /// block and must release it.
    Completed(i32),
}

impl ReqState {
    /// Whether the engine holds the block, so that nobody else may release it.
    pub open spec fn engine_owns(self) -> bool {
        self == ReqState::Submitted
    }

    /// Whether a completion callback is still to come.
    pub open spec fn awaits_completion(self) -> bool {
        self == ReqState::Submitted
    }

    /// Whether the block must be released by whoever holds it now.
    pub open spec fn must_release(self) -> bool {
        self == ReqState::SubmitFailed || self is Completed
    }
}

/// The state after the engine answered a submission with `status`.
pub open spec fn after_submit(status: i32) -> ReqState {
    if status < 0 {
        ReqState::SubmitFailed
    } else {
        ReqState::Submitted
    }
}

/// The state after a completion with `status` is delivered in state `s`:
/// only a request in flight takes it, once.
pub open spec fn after_completion(s: ReqState, status: i32) -> ReqState {
    if s == ReqState::Submitted {
        ReqState::Completed(status)
    } else {
        s
    }
}

/// The common prefix of every request: its kind tag, where it stands in the
/// hand-off to the engine, and the caller's data slot.
#[derive(Debug)]
pub struct Req {
    kind: ReqType,
    state: ReqState,
    data: usize,
}

impl Req {
    pub closed spec fn spec_kind(&self) -> ReqType {
        self.kind
    }

    pub closed spec fn spec_state(&self) -> ReqState {
        self.state
    }

    pub closed spec fn spec_data(&self) -> usize {
        self.data
    }

    /// A freshly allocated request of the given kind.
    pub fn new(kind: ReqType) -> (r: Req)
        ensures
            r.spec_kind() == kind,
            r.spec_state() == ReqState::Allocated,
            r.spec_data() == 0,
    {
        Req { kind, state: ReqState::Allocated, data: 0 }
    }

    /// The kind tag.
    pub fn get_type(&self) -> (r: ReqType)
        ensures
            r == self.spec_kind(),
    {
        self.kind
    }

    /// Where the request stands.
    pub fn state(&self) -> (r: ReqState)
        ensures
            r == self.spec_state(),
    {
        self.state
    }

    /// The caller's data slot.
    pub fn get_data(&self) -> (r: usize)
        ensures
            r == self.spec_data(),
    {
        self.data
    }

    /// Stores a value in the caller's data slot.
    pub fn set_data(&mut self, data: usize)
        ensures
            final(self).spec_data() == data,
            final(self).spec_kind() == old(self).spec_kind(),
            final(self).spec_state() == old(self).spec_state(),
    {
        self.data = data;
    }

    /// Records the engine's answer to handing it this request.
    pub fn submit(&mut self, status: i32) -> (r: Result<(), Error>)
        requires
            old(self).spec_state() == ReqState::Allocated,
            status >= 0 || is_known_code(status),
        ensures
            r == Error::spec_check(status),
            final(self).spec_state() == after_submit(status),
            final(self).spec_kind() == old(self).spec_kind(),
            final(self).spec_data() == old(self).spec_data(),
    {
        let r = Error::check(status);
        if r.is_ok() {
            self.state = ReqState::Submitted;
        } else {
            self.state = ReqState::SubmitFailed;
        }
        r
    }

    /// Delivers a completion with `status`. A request in flight takes it and
    /// its result is returned; any other request refuses it with `None`, so
    /// that no completion is delivered twice or without a submission.
    pub fn complete(&mut self, status: i32) -> (r: Option<Result<(), Error>>)
        requires
            status >= 0 || is_known_code(status),
        ensures
            final(self).spec_state() == after_completion(old(self).spec_state(), status),
            r is Some <==> old(self).spec_state().awaits_completion(),
            r is Some ==> r == Some(Error::spec_check(status)),
            final(self).spec_kind() == old(self).spec_kind(),
            final(self).spec_data() == old(self).spec_data(),
    {
        if self.state == ReqState::Submitted {
            self.state = ReqState::Completed(status);
            Some(Error::check(status))
        } else {
            None
        }
    }

    /// Whether the engine holds the block now.
    pub fn engine_owns(&self) -> (r: bool)
        ensures
            r == self.spec_state().engine_owns(),
    {
        self.state == ReqState::Submitted
    }

    /// Whether the block is to be released now by whoever holds it.
    pub fn must_release(&self) -> (r: bool)
        ensures
            r == self.spec_state().must_release(),
    {
        match self.state {
            ReqState::SubmitFailed | ReqState::Completed(_) => true,
            _ => false,
        }
    }
}

/// The request protocol. A submission that the engine refuses leaves the
/// block with the caller, who must release it, and no completion is ever
/// taken. One that it accepts leaves the block with the engine until exactly
/// one completion is taken; after it the engine holds nothing, the holder must
/// release the block, and a later completion is refused.
pub proof fn lemma_request_protocol(submit_status: i32, first: i32, second: i32)
    ensures
        submit_status < 0 ==> {
            let s = after_submit(submit_status);
            &&& !s.engine_owns()
            &&& s.must_release()
            &&& !s.awaits_completion()
            &&& after_completion(s, first) == s
        },
        submit_status >= 0 ==> {
            let s = after_submit(submit_status);
            let done = after_completion(s, first);
            &&& s.engine_owns()
            &&& s.awaits_completion()
            &&& done == ReqState::Completed(first)
            &&& !done.engine_owns()
            &&& done.must_release()
            &&& !done.awaits_completion()
            &&& after_completion(done, second) == done
        },
{
}

/// Access to the common request prefix of a concrete request kind.
pub trait ReqImpl {
    spec fn spec_request(&self) -> Req;

    fn as_request(&self) -> (r: &Req)
        ensures
            *r == self.spec_request(),
    ;

    fn as_mut_request(&mut self) -> (r: &mut Req)
        ensures
            *r == old(self).spec_request(),
            final(self).spec_request() == *final(r),
    ;
}

impl ReqImpl for Req {
    open spec fn spec_request(&self) -> Req {
        *self
    }

    fn as_request(&self) -> (r: &Req) {
        self
    }

    fn as_mut_request(&mut self) -> (r: &mut Req) {
        self
    }
}

/// A write request: the buffer views it carries stay valid and unchanged
/// until its completion.
#[derive(Debug)]
pub struct Write {
    req: Req,
    bufs: Vec<Buf>,
}

impl Write {
    pub closed spec fn spec_bufs(&self) -> Seq<Buf> {
        self.bufs@
    }

    /// A write request for the given views, not yet submitted.
    pub fn new(bufs: &Vec<Buf>) -> (r: Write)
        ensures
            r.spec_request().spec_kind() == ReqType::Write,
            r.spec_request().spec_state() == ReqState::Allocated,
            r.spec_bufs() == bufs@,
    {
        Write { req: Req::new(ReqType::Write), bufs: bufs.clone() }
    }

    /// Records the engine's answer to handing it this write; the views stay.
    pub fn submit(&mut self, status: i32) -> (r: Result<(), Error>)
        requires
            old(self).spec_request().spec_state() == ReqState::Allocated,
            status >= 0 || is_known_code(status),
        ensures
            r == Error::spec_check(status),
            final(self).spec_request().spec_state() == after_submit(status),
            final(self).spec_request().spec_kind() == old(self).spec_request().spec_kind(),
            final(self).spec_bufs() == old(self).spec_bufs(),
    {
        self.req.submit(status)
    }

    /// The buffer views that the write carries.
    pub fn bufs(&self) -> (r: &Vec<Buf>)
        ensures
            r@ == self.spec_bufs(),
    {
        &self.bufs
    }
}

impl ReqImpl for Write {
    closed spec fn spec_request(&self) -> Req {
        self.req
    }

    fn as_request(&self) -> (r: &Req) {
        &self.req
    }

    fn as_mut_request(&mut self) -> (r: &mut Req) {
        &mut self.req
    }
}

/// A connect request.
#[derive(Debug)]
pub struct Connect {
    req: Req,
}

impl Connect {
    /// A connect request, not yet submitted.
    pub fn new() -> (r: Connect)
        ensures
            r.spec_request().spec_kind() == ReqType::Connect,
            r.spec_request().spec_state() == ReqState::Allocated,
    {
        Connect { req: Req::new(ReqType::Connect) }
    }
}

impl ReqImpl for Connect {
    closed spec fn spec_request(&self) -> Req {
        self.req
    }

    fn as_request(&self) -> (r: &Req) {
        &self.req
    }

    fn as_mut_request(&mut self) -> (r: &mut Req) {
        &mut self.req
    }
}

/// A shutdown request.
#[derive(Debug)]
pub struct Shutdown {
    req: Req,
}

impl Shutdown {
    /// A shutdown request, not yet submitted.
    pub fn new() -> (r: Shutdown)
        ensures
            r.spec_request().spec_kind() == ReqType::Shutdown,
            r.spec_request().spec_state() == ReqState::Allocated,
    {
        Shutdown { req: Req::new(ReqType::Shutdown) }
    }
}

impl ReqImpl for Shutdown {
    closed spec fn spec_request(&self) -> Req {
        self.req
    }

    fn as_request(&self) -> (r: &Req) {
        &self.req
    }

    fn as_mut_request(&mut self) -> (r: &mut Req) {
        &mut self.req
    }
}

/// The engine's name for the request prefix.
#[allow(non_camel_case_types)]
pub type uv_req_t = Req;

/// The engine's name for the connect request.
#[allow(non_camel_case_types)]
pub type uv_connect_t = Connect;

/// The engine's name for the shutdown request.
#[allow(non_camel_case_types)]
pub type uv_shutdown_t = Shutdown;

/// The engine's name for the write request.
#[allow(non_camel_case_types)]
pub type uv_write_t = Write;

} // verus!
