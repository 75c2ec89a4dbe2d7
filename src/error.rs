use vstd::prelude::*;

verus! {

/// A failure reported by the event engine.
///
/// Each reason stands for exactly one of the engine's negative status codes
/// (the Linux table of its ABI); `MAX` is the sentinel one below the last code.
#[allow(non_camel_case_types)]
#[derive(Debug, Clone, Copy, PartialEq, Eq, Structural)]
pub enum Error {
    /// Operation not permitted.
    EPERM,
    /// No such file or directory.
    ENOENT,
    /// No such process.
    ESRCH,
    /// Interrupted system call.
    EINTR,
    /// Input/output error.
    EIO,
    /// Device not configured.
    ENXIO,
    /// Argument list too long.
    E2BIG,
    /// Bad file descriptor.
    EBADF,
    /// Cannot allocate memory.
    ENOMEM,
    /// Permission denied.
    EACCES,
    /// Bad address.
    EFAULT,
    /// Device / Resource busy.
    EBUSY,
    /// File exists.
    EEXIST,
    /// Cross-device link.
    EXDEV,
    /// Operation not supported by device.
    ENODEV,
    /// Not a directory.
    ENOTDIR,
    /// Is a directory.
    EISDIR,
    /// Invalid argument.
    EINVAL,
    /// Too many open files in system.
    ENFILE,
    /// Too many open files.
    EMFILE,
    /// Inappropriate ioctl for device.
    ENOTTY,
    /// Text file busy.
    ETXTBSY,
    /// File too large.
    EFBIG,
    /// No space left on device.
    ENOSPC,
    /// Illegal seek.
    ESPIPE,
    /// Read-only file system.
    EROFS,
    /// Too many links.
    EMLINK,
    /// Broken pipe.
    EPIPE,
    /// Result too large.
    ERANGE,
    /// Resource temporarily unavailable.
    EAGAIN,
    /// Operation already in progress.
    EALREADY,
    /// Socket operation on non-socket.
    ENOTSOCK,
    /// Destination address required.
    EDESTADDRREQ,
    /// Message too long.
    EMSGSIZE,
    /// Protocol wrong type for socket.
    EPROTOTYPE,
    /// Protocol not available.
    ENOPROTOOPT,
    /// Protocol not supported.
    EPROTONOSUPPORT,
    /// Socket type not supported.
    ESOCKTNOSUPPORT,
    /// Operation not supported.
    ENOTSUP,
    /// Address family not supported by protocol family.
    EAFNOSUPPORT,
    /// Address already in use.
    EADDRINUSE,
    /// Can't assign requested address.
    EADDRNOTAVAIL,
    /// Network is down.
    ENETDOWN,
    /// Network is unreachable.
    ENETUNREACH,
    /// Software caused connection abort.
    ECONNABORTED,
    /// Connection reset by peer.
    ECONNRESET,
    /// No buffer space available.
    ENOBUFS,
    /// Socket is already connected.
    EISCONN,
    /// Socket is not connected.
    ENOTCONN,
    /// Can't send after socket shutdown.
    ESHUTDOWN,
    /// Operation timed out.
    ETIMEDOUT,
    /// Connection refused.
    ECONNREFUSED,
    /// Too many levels of symbolic links.
    ELOOP,
    /// File name too long.
    ENAMETOOLONG,
    /// Host is down.
    EHOSTDOWN,
    /// No route to host.
    EHOSTUNREACH,
    /// Directory not empty.
    ENOTEMPTY,
    /// Function not implemented.
    ENOSYS,
    /// Inappropriate file type or format.
    EFTYPE,
    /// Value too large to be stored in data type.
    EOVERFLOW,
    /// Operation canceled.
    ECANCELED,
    /// Illegal byte sequence.
    EILSEQ,
    /// Protocol error.
    EPROTO,
    /// Must be equal largest errno.
    MAX,
}

impl Error {
    /// The engine's status code for this reason.
    pub open spec fn spec_code(self) -> i32 {
        match self {
            Error::EPERM => -1i32,
            Error::ENOENT => -2i32,
            Error::ESRCH => -3i32,
            Error::EINTR => -4i32,
            Error::EIO => -5i32,
            Error::ENXIO => -6i32,
            Error::E2BIG => -7i32,
            Error::EBADF => -9i32,
            Error::ENOMEM => -12i32,
            Error::EACCES => -13i32,
            Error::EFAULT => -14i32,
            Error::EBUSY => -16i32,
            Error::EEXIST => -17i32,
            Error::EXDEV => -18i32,
            Error::ENODEV => -19i32,
            Error::ENOTDIR => -20i32,
            Error::EISDIR => -21i32,
            Error::EINVAL => -22i32,
            Error::ENFILE => -23i32,
            Error::EMFILE => -24i32,
            Error::ENOTTY => -25i32,
            Error::ETXTBSY => -26i32,
            Error::EFBIG => -27i32,
            Error::ENOSPC => -28i32,
            Error::ESPIPE => -29i32,
            Error::EROFS => -30i32,
            Error::EMLINK => -31i32,
            Error::EPIPE => -32i32,
            Error::ERANGE => -34i32,
            Error::EAGAIN => -11i32,
            Error::EALREADY => -114i32,
            Error::ENOTSOCK => -88i32,
            Error::EDESTADDRREQ => -89i32,
            Error::EMSGSIZE => -90i32,
            Error::EPROTOTYPE => -91i32,
            Error::ENOPROTOOPT => -92i32,
            Error::EPROTONOSUPPORT => -93i32,
            Error::ESOCKTNOSUPPORT => -94i32,
            Error::ENOTSUP => -95i32,
            Error::EAFNOSUPPORT => -97i32,
            Error::EADDRINUSE => -98i32,
            Error::EADDRNOTAVAIL => -99i32,
            Error::ENETDOWN => -100i32,
            Error::ENETUNREACH => -101i32,
            Error::ECONNABORTED => -103i32,
            Error::ECONNRESET => -104i32,
            Error::ENOBUFS => -105i32,
            Error::EISCONN => -106i32,
            Error::ENOTCONN => -107i32,
            Error::ESHUTDOWN => -108i32,
            Error::ETIMEDOUT => -110i32,
            Error::ECONNREFUSED => -111i32,
            Error::ELOOP => -40i32,
            Error::ENAMETOOLONG => -36i32,
            Error::EHOSTDOWN => -112i32,
            Error::EHOSTUNREACH => -113i32,
            Error::ENOTEMPTY => -39i32,
            Error::ENOSYS => -38i32,
            Error::EFTYPE => -4028i32,
            Error::EOVERFLOW => -75i32,
            Error::ECANCELED => -125i32,
            Error::EILSEQ => -84i32,
            Error::EPROTO => -71i32,
            Error::MAX => -4096i32,
        }
    }

    /// The status code for this reason.
    pub fn code(self) -> (r: i32)
        ensures
            r == self.spec_code(),
    {
        match self {
            Error::EPERM => -1i32,
            Error::ENOENT => -2i32,
            Error::ESRCH => -3i32,
            Error::EINTR => -4i32,
            Error::EIO => -5i32,
            Error::ENXIO => -6i32,
            Error::E2BIG => -7i32,
            Error::EBADF => -9i32,
            Error::ENOMEM => -12i32,
            Error::EACCES => -13i32,
            Error::EFAULT => -14i32,
            Error::EBUSY => -16i32,
            Error::EEXIST => -17i32,
            Error::EXDEV => -18i32,
            Error::ENODEV => -19i32,
            Error::ENOTDIR => -20i32,
            Error::EISDIR => -21i32,
            Error::EINVAL => -22i32,
            Error::ENFILE => -23i32,
            Error::EMFILE => -24i32,
            Error::ENOTTY => -25i32,
            Error::ETXTBSY => -26i32,
            Error::EFBIG => -27i32,
            Error::ENOSPC => -28i32,
            Error::ESPIPE => -29i32,
            Error::EROFS => -30i32,
            Error::EMLINK => -31i32,
            Error::EPIPE => -32i32,
            Error::ERANGE => -34i32,
            Error::EAGAIN => -11i32,
            Error::EALREADY => -114i32,
            Error::ENOTSOCK => -88i32,
            Error::EDESTADDRREQ => -89i32,
            Error::EMSGSIZE => -90i32,
            Error::EPROTOTYPE => -91i32,
            Error::ENOPROTOOPT => -92i32,
            Error::EPROTONOSUPPORT => -93i32,
            Error::ESOCKTNOSUPPORT => -94i32,
            Error::ENOTSUP => -95i32,
            Error::EAFNOSUPPORT => -97i32,
            Error::EADDRINUSE => -98i32,
            Error::EADDRNOTAVAIL => -99i32,
            Error::ENETDOWN => -100i32,
            Error::ENETUNREACH => -101i32,
            Error::ECONNABORTED => -103i32,
            Error::ECONNRESET => -104i32,
            Error::ENOBUFS => -105i32,
            Error::EISCONN => -106i32,
            Error::ENOTCONN => -107i32,
            Error::ESHUTDOWN => -108i32,
            Error::ETIMEDOUT => -110i32,
            Error::ECONNREFUSED => -111i32,
            Error::ELOOP => -40i32,
            Error::ENAMETOOLONG => -36i32,
            Error::EHOSTDOWN => -112i32,
            Error::EHOSTUNREACH => -113i32,
            Error::ENOTEMPTY => -39i32,
            Error::ENOSYS => -38i32,
            Error::EFTYPE => -4028i32,
            Error::EOVERFLOW => -75i32,
            Error::ECANCELED => -125i32,
            Error::EILSEQ => -84i32,
            Error::EPROTO => -71i32,
            Error::MAX => -4096i32,
        }
    }

    /// Whether `code` is one of the engine's known status codes.
    pub fn is_known_code(code: i32) -> (r: bool)
        ensures
            r == is_known_code(code),
    {
        decode(code).is_some()
    }

    /// The reason that the engine reports by `code`.
    ///
    /// An unknown code means that this library and the engine disagree on
    /// their ABI: callers hold `is_known_code(code)` before the call.
    pub fn from_code(code: i32) -> (r: Error)
        requires
            is_known_code(code),
        ensures
            r.spec_code() == code,
            Some(r) == error_for_code(code),
    {
        match decode(code) {
            Some(e) => e,
            None => Error::MAX,
        }
    }

    /// What an engine status stands for: a negative status is the failure it
    /// codes, any other status is success.
    pub open spec fn spec_check(status: i32) -> Result<(), Error> {
        if status < 0 {
            Err(error_for_code(status)->0)
        } else {
            Ok(())
        }
    }

    /// Reads an engine status: a negative status is the failure it codes, any
    /// other status is success.
    pub fn check(status: i32) -> (r: Result<(), Error>)
        requires
            status >= 0 || is_known_code(status),
        ensures
            r == Error::spec_check(status),
            r matches Err(e) ==> e.spec_code() == status,
    {
        if status < 0 {
            Err(Error::from_code(status))
        } else {
            Ok(())
        }
    }

    /// Reads an engine status that counts something on success.
    pub fn check_count(status: i32) -> (r: Result<u32, Error>)
        requires
            status >= 0 || is_known_code(status),
        ensures
            status >= 0 <==> r is Ok,
            r matches Ok(n) ==> n as int == status as int,
            r matches Err(e) ==> e.spec_code() == status && Some(e) == error_for_code(status),
    {
        if status < 0 {
            Err(Error::from_code(status))
        } else {
            Ok(status as u32)
        }
    }
}

/// The reason that the engine reports by a status code, if the code is known.
pub open spec fn error_for_code(code: i32) -> Option<Error> {
    if code == -1i32 {
        Some(Error::EPERM)
    } else if code == -2i32 {
        Some(Error::ENOENT)
    } else if code == -3i32 {
        Some(Error::ESRCH)
    } else if code == -4i32 {
        Some(Error::EINTR)
    } else if code == -5i32 {
        Some(Error::EIO)
    } else if code == -6i32 {
        Some(Error::ENXIO)
    } else if code == -7i32 {
        Some(Error::E2BIG)
    } else if code == -9i32 {
        Some(Error::EBADF)
    } else if code == -12i32 {
        Some(Error::ENOMEM)
    } else if code == -13i32 {
        Some(Error::EACCES)
    } else if code == -14i32 {
        Some(Error::EFAULT)
    } else if code == -16i32 {
        Some(Error::EBUSY)
    } else if code == -17i32 {
        Some(Error::EEXIST)
    } else if code == -18i32 {
        Some(Error::EXDEV)
    } else if code == -19i32 {
        Some(Error::ENODEV)
    } else if code == -20i32 {
        Some(Error::ENOTDIR)
    } else if code == -21i32 {
        Some(Error::EISDIR)
    } else if code == -22i32 {
        Some(Error::EINVAL)
    } else if code == -23i32 {
        Some(Error::ENFILE)
    } else if code == -24i32 {
        Some(Error::EMFILE)
    } else if code == -25i32 {
        Some(Error::ENOTTY)
    } else if code == -26i32 {
        Some(Error::ETXTBSY)
    } else if code == -27i32 {
        Some(Error::EFBIG)
    } else if code == -28i32 {
        Some(Error::ENOSPC)
    } else if code == -29i32 {
        Some(Error::ESPIPE)
    } else if code == -30i32 {
        Some(Error::EROFS)
    } else if code == -31i32 {
        Some(Error::EMLINK)
    } else if code == -32i32 {
        Some(Error::EPIPE)
    } else if code == -34i32 {
        Some(Error::ERANGE)
    } else if code == -11i32 {
        Some(Error::EAGAIN)
    } else if code == -114i32 {
        Some(Error::EALREADY)
    } else if code == -88i32 {
        Some(Error::ENOTSOCK)
    } else if code == -89i32 {
        Some(Error::EDESTADDRREQ)
    } else if code == -90i32 {
        Some(Error::EMSGSIZE)
    } else if code == -91i32 {
        Some(Error::EPROTOTYPE)
    } else if code == -92i32 {
        Some(Error::ENOPROTOOPT)
    } else if code == -93i32 {
        Some(Error::EPROTONOSUPPORT)
    } else if code == -94i32 {
        Some(Error::ESOCKTNOSUPPORT)
    } else if code == -95i32 {
        Some(Error::ENOTSUP)
    } else if code == -97i32 {
        Some(Error::EAFNOSUPPORT)
    } else if code == -98i32 {
        Some(Error::EADDRINUSE)
    } else if code == -99i32 {
        Some(Error::EADDRNOTAVAIL)
    } else if code == -100i32 {
        Some(Error::ENETDOWN)
    } else if code == -101i32 {
        Some(Error::ENETUNREACH)
    } else if code == -103i32 {
        Some(Error::ECONNABORTED)
    } else if code == -104i32 {
        Some(Error::ECONNRESET)
    } else if code == -105i32 {
        Some(Error::ENOBUFS)
    } else if code == -106i32 {
        Some(Error::EISCONN)
    } else if code == -107i32 {
        Some(Error::ENOTCONN)
    } else if code == -108i32 {
        Some(Error::ESHUTDOWN)
    } else if code == -110i32 {
        Some(Error::ETIMEDOUT)
    } else if code == -111i32 {
        Some(Error::ECONNREFUSED)
    } else if code == -40i32 {
        Some(Error::ELOOP)
    } else if code == -36i32 {
        Some(Error::ENAMETOOLONG)
    } else if code == -112i32 {
        Some(Error::EHOSTDOWN)
    } else if code == -113i32 {
        Some(Error::EHOSTUNREACH)
    } else if code == -39i32 {
        Some(Error::ENOTEMPTY)
    } else if code == -38i32 {
        Some(Error::ENOSYS)
    } else if code == -4028i32 {
        Some(Error::EFTYPE)
    } else if code == -75i32 {
        Some(Error::EOVERFLOW)
    } else if code == -125i32 {
        Some(Error::ECANCELED)
    } else if code == -84i32 {
        Some(Error::EILSEQ)
    } else if code == -71i32 {
        Some(Error::EPROTO)
    } else if code == -4096i32 {
        Some(Error::MAX)
    } else {
        None
    }
}

/// Whether a status code is one of the engine's known codes.
pub open spec fn is_known_code(code: i32) -> bool {
    error_for_code(code) is Some
}

fn decode(code: i32) -> (r: Option<Error>)
    ensures
        r == error_for_code(code),
{
    match code {
        -1i32 => Some(Error::EPERM),
        -2i32 => Some(Error::ENOENT),
        -3i32 => Some(Error::ESRCH),
        -4i32 => Some(Error::EINTR),
        -5i32 => Some(Error::EIO),
        -6i32 => Some(Error::ENXIO),
        -7i32 => Some(Error::E2BIG),
        -9i32 => Some(Error::EBADF),
        -12i32 => Some(Error::ENOMEM),
        -13i32 => Some(Error::EACCES),
        -14i32 => Some(Error::EFAULT),
        -16i32 => Some(Error::EBUSY),
        -17i32 => Some(Error::EEXIST),
        -18i32 => Some(Error::EXDEV),
        -19i32 => Some(Error::ENODEV),
        -20i32 => Some(Error::ENOTDIR),
        -21i32 => Some(Error::EISDIR),
        -22i32 => Some(Error::EINVAL),
        -23i32 => Some(Error::ENFILE),
        -24i32 => Some(Error::EMFILE),
        -25i32 => Some(Error::ENOTTY),
        -26i32 => Some(Error::ETXTBSY),
        -27i32 => Some(Error::EFBIG),
        -28i32 => Some(Error::ENOSPC),
        -29i32 => Some(Error::ESPIPE),
        -30i32 => Some(Error::EROFS),
        -31i32 => Some(Error::EMLINK),
        -32i32 => Some(Error::EPIPE),
        -34i32 => Some(Error::ERANGE),
        -11i32 => Some(Error::EAGAIN),
        -114i32 => Some(Error::EALREADY),
        -88i32 => Some(Error::ENOTSOCK),
        -89i32 => Some(Error::EDESTADDRREQ),
        -90i32 => Some(Error::EMSGSIZE),
        -91i32 => Some(Error::EPROTOTYPE),
        -92i32 => Some(Error::ENOPROTOOPT),
        -93i32 => Some(Error::EPROTONOSUPPORT),
        -94i32 => Some(Error::ESOCKTNOSUPPORT),
        -95i32 => Some(Error::ENOTSUP),
        -97i32 => Some(Error::EAFNOSUPPORT),
        -98i32 => Some(Error::EADDRINUSE),
        -99i32 => Some(Error::EADDRNOTAVAIL),
        -100i32 => Some(Error::ENETDOWN),
        -101i32 => Some(Error::ENETUNREACH),
        -103i32 => Some(Error::ECONNABORTED),
        -104i32 => Some(Error::ECONNRESET),
        -105i32 => Some(Error::ENOBUFS),
        -106i32 => Some(Error::EISCONN),
        -107i32 => Some(Error::ENOTCONN),
        -108i32 => Some(Error::ESHUTDOWN),
        -110i32 => Some(Error::ETIMEDOUT),
        -111i32 => Some(Error::ECONNREFUSED),
        -40i32 => Some(Error::ELOOP),
        -36i32 => Some(Error::ENAMETOOLONG),
        -112i32 => Some(Error::EHOSTDOWN),
        -113i32 => Some(Error::EHOSTUNREACH),
        -39i32 => Some(Error::ENOTEMPTY),
        -38i32 => Some(Error::ENOSYS),
        -4028i32 => Some(Error::EFTYPE),
        -75i32 => Some(Error::EOVERFLOW),
        -125i32 => Some(Error::ECANCELED),
        -84i32 => Some(Error::EILSEQ),
        -71i32 => Some(Error::EPROTO),
        -4096i32 => Some(Error::MAX),
        _ => None,
    }
}

impl From<Error> for i32 {
    fn from(e: Error) -> (r: i32) {
        e.code()
    }
}

impl vstd::std_specs::convert::FromSpecImpl<Error> for i32 {
    open spec fn obeys_from_spec() -> bool {
        true
    }

    open spec fn from_spec(e: Error) -> i32 {
        e.spec_code()
    }
}

/// Decoding a known code and coding the reason again gives the code back.
pub proof fn lemma_code_round_trip(code: i32)
    requires
        is_known_code(code),
    ensures
        error_for_code(code)->0.spec_code() == code,
{
}

/// Coding a reason and decoding the code gives the reason back, so no two
/// reasons share a code.
pub proof fn lemma_reason_round_trip(e: Error)
    ensures
        error_for_code(e.spec_code()) == Some(e),
{
}

/// Two reasons with the same code are the same reason.
pub proof fn lemma_code_injective(a: Error, b: Error)
    requires
        a.spec_code() == b.spec_code(),
    ensures
        a == b,
{
    lemma_reason_round_trip(a);
    lemma_reason_round_trip(b);
}

} // verus!
