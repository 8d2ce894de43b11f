//! Errors of endpoints, transfers and managers, and their messages.

use crate::effect::PostOp;
use crate::text::{decimal, decimal_string, hex_string, hexadecimal, unsigned_string};
use vstd::prelude::*;

verus! {

/// Where a buffer was looked up.
#[derive(Debug, Clone, Copy, PartialEq, Eq)]
pub enum Lookup {
    LoopbackWrite,
    LoopbackRead,
    PostRecv,
    SendFromBuffer,
}

impl Lookup {
    /// The words that open the message.
    pub open spec fn label(self) -> Seq<char> {
        match self {
            Lookup::LoopbackWrite => "loopback WriteFromLocal"@,
            Lookup::LoopbackRead => "loopback ReadIntoLocal"@,
            Lookup::PostRecv => "PostRecv"@,
            Lookup::SendFromBuffer => "SendFromBuffer"@,
        }
    }

    fn label_str(&self) -> (s: &'static str)
        ensures
            s@ == self.label(),
    {
        match self {
            Lookup::LoopbackWrite => "loopback WriteFromLocal",
            Lookup::LoopbackRead => "loopback ReadIntoLocal",
            Lookup::PostRecv => "PostRecv",
            Lookup::SendFromBuffer => "SendFromBuffer",
        }
    }
}

impl PostOp {
    /// The name of the libfabric function.
    pub open spec fn function(self) -> Seq<char> {
        match self {
            PostOp::Write => "fi_write"@,
            PostOp::Read => "fi_read"@,
            PostOp::Send => "fi_send"@,
            PostOp::Recv => "fi_recv"@,
        }
    }

    fn function_str(&self) -> (s: &'static str)
        ensures
            s@ == self.function(),
    {
        match self {
            PostOp::Write => "fi_write",
            PostOp::Read => "fi_read",
            PostOp::Send => "fi_send",
            PostOp::Recv => "fi_recv",
        }
    }
}

/// An object that a domain consists of.
#[derive(Debug, Clone, Copy, PartialEq, Eq)]
pub enum DomainPart {
    Fabric,
    Domain,
    Av,
    Cq,
}

impl DomainPart {
    /// The name of the libfabric function that opens the object.
    pub open spec fn function(self) -> Seq<char> {
        match self {
            DomainPart::Fabric => "fi_fabric"@,
            DomainPart::Domain => "fi_domain"@,
            DomainPart::Av => "fi_av_open"@,
            DomainPart::Cq => "fi_cq_open"@,
        }
    }

    fn function_str(&self) -> (s: &'static str)
        ensures
            s@ == self.function(),
    {
        match self {
            DomainPart::Fabric => "fi_fabric",
            DomainPart::Domain => "fi_domain",
            DomainPart::Av => "fi_av_open",
            DomainPart::Cq => "fi_cq_open",
        }
    }
}

/// What an error code of libfabric means.
#[derive(Debug, PartialEq, Eq)]
pub enum ErrorText {
    /// The code for success.
    Success,
    /// The library's own words.
    Known(String),
    /// A code that the library has no words for.
    Unknown(i32),
}

impl ErrorText {
    /// The words for the code.
    pub open spec fn text(self) -> Seq<char> {
        match self {
            ErrorText::Success => "success"@,
            ErrorText::Known(words) => words@,
            ErrorText::Unknown(err) => "unknown error ("@ + decimal(err as int) + ")"@,
        }
    }

    /// Returns the words for the code.
    pub fn message(&self) -> (m: String)
        ensures
            m@ == self.text(),
    {
        match self {
            ErrorText::Success => "success".to_owned(),
            ErrorText::Known(words) => words.clone(),
            ErrorText::Unknown(err) => with_code("unknown error (", *err as i64).concat(")"),
        }
    }
}

/// The code under which the words for the return code `err` are looked up:
/// libfabric returns negated error codes.
pub open spec fn strerror_code(err: i32) -> i32 {
    if err == i32::MIN {
        err
    } else {
        (-err) as i32
    }
}

/// Returns the code under which the words for `err` are looked up.
pub fn error_code(err: i32) -> (code: i32)
    ensures
        code == strerror_code(err),
{
    if err == i32::MIN {
        err
    } else {
        -err
    }
}

/// What the return code `err` means, where `words` are those of the library.
pub open spec fn strerror(err: i32, words: Option<String>) -> ErrorText {
    if err == 0 {
        ErrorText::Success
    } else {
        match words {
            Some(known) => ErrorText::Known(known),
            None => ErrorText::Unknown(err),
        }
    }
}

/// Returns what the return code `err` means, where `words` are those that
/// `fi_strerror` has for it.
pub fn ofi_strerror(err: i32, words: Option<String>) -> (meaning: ErrorText)
    ensures
        meaning == strerror(err, words),
{
    if err == 0 {
        ErrorText::Success
    } else {
        match words {
            Some(known) => ErrorText::Known(known),
            None => ErrorText::Unknown(err),
        }
    }
}

/// The text that `{:?}` prints for a string: quoted, with escapes.
pub uninterp spec fn quoted(s: Seq<char>) -> Seq<char>;

/// Formats a string with the `Debug` impl of `str`. Its result depends on the
/// characters alone and is given the name [`quoted`]; which characters are
/// escaped, and how, is left to the standard library.
#[verifier::external_body]
fn quote(s: &str) -> (q: String)
    ensures
        q@ == quoted(s@),
{
    format!("{:?}", s)
}

/// The message for a query that found no provider, where `provider` is the
/// quoted name of the provider that was asked for.
pub open spec fn no_provider_text(
    reason: ErrorText,
    provider: Seq<char>,
    hmem: bool,
) -> Seq<char> {
    "fi_getinfo failed: "@ + reason.text() + " (provider: "@ + provider + ", hmem: "@ + truth(hmem)
        + ")"@
}

/// Returns the message for a query that found no provider.
pub fn no_provider_message(reason: &ErrorText, provider: &str, hmem: bool) -> (m: String)
    ensures
        m@ == no_provider_text(*reason, provider@, hmem),
{
    "fi_getinfo failed: ".to_owned().concat(reason.message().as_str()).concat(
        " (provider: ",
    ).concat(provider).concat(", hmem: ").concat(truth_str(hmem)).concat(")")
}

/// Why an endpoint, a transfer or a manager request failed.
#[derive(Debug, PartialEq, Eq)]
pub enum OfiError {
    /// The system has no libfabric.
    Unsupported,
    /// The hints could not be allocated.
    AllocInfo,
    /// The provider name holds a zero byte.
    InvalidProvider { position: usize },
    /// No provider was found.
    GetInfo { reason: ErrorText, provider: String, hmem: bool },
    /// An object of the domain could not be opened.
    Open { part: DomainPart, reason: ErrorText },
    /// `fi_endpoint` failed.
    Endpoint { ret: i32 },
    /// Binding the address vector failed.
    BindAv { ret: i64 },
    /// Binding the completion queue failed.
    BindCq { ret: i64 },
    /// `fi_enable` failed.
    Enable { ret: i64 },
    /// `fi_getname` failed.
    GetName { ret: i32 },
    /// `fi_av_insert` did not insert exactly one address.
    AvInsert { ret: i32 },
    /// `fi_mr_reg` failed.
    Register { ret: i32 },
    /// `fi_mr_regattr` failed.
    RegisterAttr { ret: i32 },
    /// A data transfer was not accepted.
    Post { op: PostOp, ret: i64 },
    /// No completion arrived in time.
    CqTimeout,
    /// Reading the completion queue failed. The entry's own error code is part
    /// of what an asynchronous poll reports.
    CqRead { ret: i64, err: Option<i32>, prov_errno: i32 },
    /// The CUDA driver did not name a device for the address.
    DeviceOrdinal { addr: usize, err: u32 },
    /// The buffer has no registration.
    NotRegistered { lookup: Lookup, buf_id: usize },
    /// A peer or the actor runtime reported a failure.
    Peer(String),
    /// The operations did not all start before the deadline.
    SubmitTimeout,
    /// The remote buffer cannot be reached by this transport.
    NoRemoteBackend,
    /// The process has no manager for this transport.
    NoLocalBackend,
    /// The manager lives in another process.
    NotLocal,
    /// The owner was set before.
    OwnerAlreadySet,
}

impl OfiError {
    /// The message of this error.
    pub open spec fn text(self) -> Seq<char> {
        match self {
            OfiError::Unsupported => "libfabric is not available on this system"@,
            OfiError::AllocInfo => "fi_allocinfo failed"@,
            OfiError::InvalidProvider { position } => {
                "invalid provider name: nul byte found in provided data at position: "@ + decimal(
                    position as int,
                )
            },
            OfiError::GetInfo { reason, provider, hmem } => {
                no_provider_text(reason, quoted(provider@), hmem)
            },
            OfiError::Open { part, reason } => part.function() + " failed: "@ + reason.text(),
            OfiError::Endpoint { ret } => "fi_endpoint failed: "@ + decimal(ret as int),
            OfiError::BindAv { ret } => "fi_ep_bind(av) failed: "@ + decimal(ret as int),
            OfiError::BindCq { ret } => "fi_ep_bind(cq) failed: "@ + decimal(ret as int),
            OfiError::Enable { ret } => "fi_enable failed: "@ + decimal(ret as int),
            OfiError::GetName { ret } => "fi_getname failed: "@ + decimal(ret as int),
            OfiError::AvInsert { ret } => {
                "fi_av_insert failed: expected 1, got "@ + decimal(ret as int)
            },
            OfiError::Register { ret } => "fi_mr_reg failed: "@ + decimal(ret as int),
            OfiError::RegisterAttr { ret } => "fi_mr_regattr failed: "@ + decimal(ret as int),
            OfiError::Post { op, ret } => op.function() + " failed: "@ + decimal(ret as int),
            OfiError::CqTimeout => "CQ poll timed out"@,
            OfiError::CqRead { ret, err, prov_errno } => {
                "fi_cq_read error: ret="@ + decimal(ret as int) + (match err {
                    Some(e) => ", err="@ + decimal(e as int),
                    None => Seq::empty(),
                }) + ", prov_errno="@ + decimal(prov_errno as int)
            },
            OfiError::DeviceOrdinal { addr, err } => {
                "failed to get CUDA device ordinal for addr "@ + hexadecimal(addr as nat)
                    + ": err="@ + decimal(err as int)
            },
            OfiError::NotRegistered { lookup, buf_id } => {
                lookup.label() + ": buffer "@ + decimal(buf_id as int) + " not registered"@
            },
            OfiError::Peer(text) => text@,
            OfiError::SubmitTimeout => "OFI submit timed out"@,
            OfiError::NoRemoteBackend => "OFI backend not found for remote buffer"@,
            OfiError::NoLocalBackend => "local RdmaManagerActor has no OFI backend"@,
            OfiError::NotLocal => "OfiManagerActor is not in the local process"@,
            OfiError::OwnerAlreadySet => "OfiManagerActor owner already set"@,
        }
    }

    /// Returns the message of this error.
    pub fn message(&self) -> (m: String)
        ensures
            m@ == self.text(),
    {
        match self {
            OfiError::Unsupported => "libfabric is not available on this system".to_owned(),
            OfiError::AllocInfo => "fi_allocinfo failed".to_owned(),
            OfiError::InvalidProvider { position } => {
                "invalid provider name: nul byte found in provided data at position: ".to_owned()
                    .concat(unsigned_string(*position as u64).as_str())
            },
            OfiError::GetInfo { reason, provider, hmem } => {
                no_provider_message(reason, quote(provider.as_str()).as_str(), *hmem)
            },
            OfiError::Open { part, reason } => {
                part.function_str().to_owned().concat(" failed: ").concat(
                    reason.message().as_str(),
                )
            },
            OfiError::Endpoint { ret } => with_code("fi_endpoint failed: ", *ret as i64),
            OfiError::BindAv { ret } => with_code("fi_ep_bind(av) failed: ", *ret),
            OfiError::BindCq { ret } => with_code("fi_ep_bind(cq) failed: ", *ret),
            OfiError::Enable { ret } => with_code("fi_enable failed: ", *ret),
            OfiError::GetName { ret } => with_code("fi_getname failed: ", *ret as i64),
            OfiError::AvInsert { ret } => {
                with_code("fi_av_insert failed: expected 1, got ", *ret as i64)
            },
            OfiError::Register { ret } => with_code("fi_mr_reg failed: ", *ret as i64),
            OfiError::RegisterAttr { ret } => with_code("fi_mr_regattr failed: ", *ret as i64),
            OfiError::Post { op, ret } => {
                let head = op.function_str().to_owned().concat(" failed: ");
                with_code(head.as_str(), *ret)
            },
            OfiError::CqTimeout => "CQ poll timed out".to_owned(),
            OfiError::CqRead { ret, err, prov_errno } => {
                let head = with_code("fi_cq_read error: ret=", *ret);
                let middle = match err {
                    Some(e) => with_code(", err=", *e as i64),
                    None => String::new(),
                };
                let tail = with_code(", prov_errno=", *prov_errno as i64);
                head.concat(middle.as_str()).concat(tail.as_str())
            },
            OfiError::DeviceOrdinal { addr, err } => {
                let head = "failed to get CUDA device ordinal for addr ".to_owned();
                let addr_text = hex_string(*addr as u64);
                let code = with_code(": err=", *err as i64);
                let m = head.concat(addr_text.as_str()).concat(code.as_str());
                assert(m@ =~= self.text());
                m
            },
            OfiError::NotRegistered { lookup, buf_id } => {
                let id = unsigned_string(*buf_id as u64);
                lookup.label_str().to_owned().concat(": buffer ").concat(id.as_str()).concat(
                    " not registered",
                )
            },
            OfiError::Peer(text) => text.clone(),
            OfiError::SubmitTimeout => "OFI submit timed out".to_owned(),
            OfiError::NoRemoteBackend => "OFI backend not found for remote buffer".to_owned(),
            OfiError::NoLocalBackend => "local RdmaManagerActor has no OFI backend".to_owned(),
            OfiError::NotLocal => "OfiManagerActor is not in the local process".to_owned(),
            OfiError::OwnerAlreadySet => "OfiManagerActor owner already set".to_owned(),
        }
    }
}

/// A truth value as `{}` prints it.
pub open spec fn truth(b: bool) -> Seq<char> {
    if b {
        "true"@
    } else {
        "false"@
    }
}

fn truth_str(b: bool) -> (s: &'static str)
    ensures
        s@ == truth(b),
{
    if b {
        "true"
    } else {
        "false"
    }
}

/// `head` followed by the decimal text of `code`.
pub(crate) fn with_code(head: &str, code: i64) -> (s: String)
    ensures
        s@ == head@ + decimal(code as int),
{
    head.to_owned().concat(decimal_string(code).as_str())
}

} // verus!
