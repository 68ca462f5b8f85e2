//! The error taxonomy: native status codes mapped to symbolic kinds, with an
//! "unknown code" fallback that keeps the raw code for diagnostics.

use vstd::prelude::*;

verus! {

/// Symbolic kinds for the failure statuses the native event-loop library
/// reports. Each kind stands for exactly one native status code.
#[derive(Debug, Copy, Clone, PartialEq, Eq, Structural)]
pub enum NativeErrorKind {
    E2BIG,
    EACCES,
    EADDRINUSE,
    EADDRNOTAVAIL,
    EAFNOSUPPORT,
    EAGAIN,
    EAIADDRFAMILY,
    EAIAGAIN,
    EAIBADFLAGS,
    EAIBADHINTS,
    EAICANCELED,
    EAIFAIL,
    EAIFAMILY,
    EAIMEMORY,
    EAINODATA,
    EAINONAME,
    EAIOVERFLOW,
    EAIPROTOCOL,
    EAISERVICE,
    EAISOCKTYPE,
    EALREADY,
    EBADF,
    EBUSY,
    ECANCELED,
    ECHARSET,
    ECONNABORTED,
    ECONNREFUSED,
    ECONNRESET,
    EDESTADDRREQ,
    EEXIST,
    EFAULT,
    EFBIG,
    EHOSTUNREACH,
    EINTR,
    EINVAL,
    EIO,
    EISCONN,
    EISDIR,
    ELOOP,
    EMFILE,
    EMSGSIZE,
    ENAMETOOLONG,
    ENETDOWN,
    ENETUNREACH,
    ENFILE,
    ENOBUFS,
    ENODEV,
    ENOENT,
    ENOMEM,
    ENONET,
    ENOPROTOOPT,
    ENOSPC,
    ENOSYS,
    ENOTCONN,
    ENOTDIR,
    ENOTEMPTY,
    ENOTSOCK,
    ENOTSUP,
    EOVERFLOW,
    EPERM,
    EPIPE,
    EPROTO,
    EPROTONOSUPPORT,
    EPROTOTYPE,
    ERANGE,
    EROFS,
    ESHUTDOWN,
    ESPIPE,
    ESRCH,
    ETIMEDOUT,
    ETXTBSY,
    EXDEV,
    UNKNOWN,
    EOF,
    ENXIO,
    EMLINK,
    EHOSTDOWN,
    EREMOTEIO,
    ENOTTY,
    EFTYPE,
    EILSEQ,
    ESOCKTNOSUPPORT,
    ENODATA,
}

/// The native status code that each symbolic kind stands for.
pub open spec fn native_code_of(kind: NativeErrorKind) -> int {
    match kind {
        NativeErrorKind::E2BIG => -7,
        NativeErrorKind::EACCES => -13,
        NativeErrorKind::EADDRINUSE => -98,
        NativeErrorKind::EADDRNOTAVAIL => -99,
        NativeErrorKind::EAFNOSUPPORT => -97,
        NativeErrorKind::EAGAIN => -11,
        NativeErrorKind::EAIADDRFAMILY => -3000,
        NativeErrorKind::EAIAGAIN => -3001,
        NativeErrorKind::EAIBADFLAGS => -3002,
        NativeErrorKind::EAIBADHINTS => -3013,
        NativeErrorKind::EAICANCELED => -3003,
        NativeErrorKind::EAIFAIL => -3004,
        NativeErrorKind::EAIFAMILY => -3005,
        NativeErrorKind::EAIMEMORY => -3006,
        NativeErrorKind::EAINODATA => -3007,
        NativeErrorKind::EAINONAME => -3008,
        NativeErrorKind::EAIOVERFLOW => -3009,
        NativeErrorKind::EAIPROTOCOL => -3014,
        NativeErrorKind::EAISERVICE => -3010,
        NativeErrorKind::EAISOCKTYPE => -3011,
        NativeErrorKind::EALREADY => -114,
        NativeErrorKind::EBADF => -9,
        NativeErrorKind::EBUSY => -16,
        NativeErrorKind::ECANCELED => -125,
        NativeErrorKind::ECHARSET => -4080,
        NativeErrorKind::ECONNABORTED => -103,
        NativeErrorKind::ECONNREFUSED => -111,
        NativeErrorKind::ECONNRESET => -104,
        NativeErrorKind::EDESTADDRREQ => -89,
        NativeErrorKind::EEXIST => -17,
        NativeErrorKind::EFAULT => -14,
        NativeErrorKind::EFBIG => -27,
        NativeErrorKind::EHOSTUNREACH => -113,
        NativeErrorKind::EINTR => -4,
        NativeErrorKind::EINVAL => -22,
        NativeErrorKind::EIO => -5,
        NativeErrorKind::EISCONN => -106,
        NativeErrorKind::EISDIR => -21,
        NativeErrorKind::ELOOP => -40,
        NativeErrorKind::EMFILE => -24,
        NativeErrorKind::EMSGSIZE => -90,
        NativeErrorKind::ENAMETOOLONG => -36,
        NativeErrorKind::ENETDOWN => -100,
        NativeErrorKind::ENETUNREACH => -101,
        NativeErrorKind::ENFILE => -23,
        NativeErrorKind::ENOBUFS => -105,
        NativeErrorKind::ENODEV => -19,
        NativeErrorKind::ENOENT => -2,
        NativeErrorKind::ENOMEM => -12,
        NativeErrorKind::ENONET => -64,
        NativeErrorKind::ENOPROTOOPT => -92,
        NativeErrorKind::ENOSPC => -28,
        NativeErrorKind::ENOSYS => -38,
        NativeErrorKind::ENOTCONN => -107,
        NativeErrorKind::ENOTDIR => -20,
        NativeErrorKind::ENOTEMPTY => -39,
        NativeErrorKind::ENOTSOCK => -88,
        NativeErrorKind::ENOTSUP => -95,
        NativeErrorKind::EOVERFLOW => -75,
        NativeErrorKind::EPERM => -1,
        NativeErrorKind::EPIPE => -32,
        NativeErrorKind::EPROTO => -71,
        NativeErrorKind::EPROTONOSUPPORT => -93,
        NativeErrorKind::EPROTOTYPE => -91,
        NativeErrorKind::ERANGE => -34,
        NativeErrorKind::EROFS => -30,
        NativeErrorKind::ESHUTDOWN => -108,
        NativeErrorKind::ESPIPE => -29,
        NativeErrorKind::ESRCH => -3,
        NativeErrorKind::ETIMEDOUT => -110,
        NativeErrorKind::ETXTBSY => -26,
        NativeErrorKind::EXDEV => -18,
        NativeErrorKind::UNKNOWN => -4094,
        NativeErrorKind::EOF => -4095,
        NativeErrorKind::ENXIO => -6,
        NativeErrorKind::EMLINK => -31,
        NativeErrorKind::EHOSTDOWN => -112,
        NativeErrorKind::EREMOTEIO => -121,
        NativeErrorKind::ENOTTY => -25,
        NativeErrorKind::EFTYPE => -4028,
        NativeErrorKind::EILSEQ => -84,
        NativeErrorKind::ESOCKTNOSUPPORT => -94,
        NativeErrorKind::ENODATA => -61,
    }
}

impl NativeErrorKind {
    /// The native status code of this kind.
    pub fn to_native(&self) -> (r: i32)
        ensures
            r as int == native_code_of(*self),
    {
        match self {
            Self::E2BIG => -7,
            Self::EACCES => -13,
            Self::EADDRINUSE => -98,
            Self::EADDRNOTAVAIL => -99,
            Self::EAFNOSUPPORT => -97,
            Self::EAGAIN => -11,
            Self::EAIADDRFAMILY => -3000,
            Self::EAIAGAIN => -3001,
            Self::EAIBADFLAGS => -3002,
            Self::EAIBADHINTS => -3013,
            Self::EAICANCELED => -3003,
            Self::EAIFAIL => -3004,
            Self::EAIFAMILY => -3005,
            Self::EAIMEMORY => -3006,
            Self::EAINODATA => -3007,
            Self::EAINONAME => -3008,
            Self::EAIOVERFLOW => -3009,
            Self::EAIPROTOCOL => -3014,
            Self::EAISERVICE => -3010,
            Self::EAISOCKTYPE => -3011,
            Self::EALREADY => -114,
            Self::EBADF => -9,
            Self::EBUSY => -16,
            Self::ECANCELED => -125,
            Self::ECHARSET => -4080,
            Self::ECONNABORTED => -103,
            Self::ECONNREFUSED => -111,
            Self::ECONNRESET => -104,
            Self::EDESTADDRREQ => -89,
            Self::EEXIST => -17,
            Self::EFAULT => -14,
            Self::EFBIG => -27,
            Self::EHOSTUNREACH => -113,
            Self::EINTR => -4,
            Self::EINVAL => -22,
            Self::EIO => -5,
            Self::EISCONN => -106,
            Self::EISDIR => -21,
            Self::ELOOP => -40,
            Self::EMFILE => -24,
            Self::EMSGSIZE => -90,
            Self::ENAMETOOLONG => -36,
            Self::ENETDOWN => -100,
            Self::ENETUNREACH => -101,
            Self::ENFILE => -23,
            Self::ENOBUFS => -105,
            Self::ENODEV => -19,
            Self::ENOENT => -2,
            Self::ENOMEM => -12,
            Self::ENONET => -64,
            Self::ENOPROTOOPT => -92,
            Self::ENOSPC => -28,
            Self::ENOSYS => -38,
            Self::ENOTCONN => -107,
            Self::ENOTDIR => -20,
            Self::ENOTEMPTY => -39,
            Self::ENOTSOCK => -88,
            Self::ENOTSUP => -95,
            Self::EOVERFLOW => -75,
            Self::EPERM => -1,
            Self::EPIPE => -32,
            Self::EPROTO => -71,
            Self::EPROTONOSUPPORT => -93,
            Self::EPROTOTYPE => -91,
            Self::ERANGE => -34,
            Self::EROFS => -30,
            Self::ESHUTDOWN => -108,
            Self::ESPIPE => -29,
            Self::ESRCH => -3,
            Self::ETIMEDOUT => -110,
            Self::ETXTBSY => -26,
            Self::EXDEV => -18,
            Self::UNKNOWN => -4094,
            Self::EOF => -4095,
            Self::ENXIO => -6,
            Self::EMLINK => -31,
            Self::EHOSTDOWN => -112,
            Self::EREMOTEIO => -121,
            Self::ENOTTY => -25,
            Self::EFTYPE => -4028,
            Self::EILSEQ => -84,
            Self::ESOCKTNOSUPPORT => -94,
            Self::ENODATA => -61,
        }
    }

    /// The symbolic kind that a native status code stands for, or `None`
    /// when the code belongs to no known kind.
    pub fn from_native(native: i32) -> (r: Option<NativeErrorKind>)
        ensures
            r matches Some(kind) ==> native_code_of(kind) == native as int,
            forall|kind: NativeErrorKind| native_code_of(kind) == native as int ==> r == Some(
                kind,
            ),
            r is None ==> forall|kind: NativeErrorKind| native_code_of(kind) != native as int,
    {
        match native {
            -7 => Some(Self::E2BIG),
            -13 => Some(Self::EACCES),
            -98 => Some(Self::EADDRINUSE),
            -99 => Some(Self::EADDRNOTAVAIL),
            -97 => Some(Self::EAFNOSUPPORT),
            -11 => Some(Self::EAGAIN),
            -3000 => Some(Self::EAIADDRFAMILY),
            -3001 => Some(Self::EAIAGAIN),
            -3002 => Some(Self::EAIBADFLAGS),
            -3013 => Some(Self::EAIBADHINTS),
            -3003 => Some(Self::EAICANCELED),
            -3004 => Some(Self::EAIFAIL),
            -3005 => Some(Self::EAIFAMILY),
            -3006 => Some(Self::EAIMEMORY),
            -3007 => Some(Self::EAINODATA),
            -3008 => Some(Self::EAINONAME),
            -3009 => Some(Self::EAIOVERFLOW),
            -3014 => Some(Self::EAIPROTOCOL),
            -3010 => Some(Self::EAISERVICE),
            -3011 => Some(Self::EAISOCKTYPE),
            -114 => Some(Self::EALREADY),
            -9 => Some(Self::EBADF),
            -16 => Some(Self::EBUSY),
            -125 => Some(Self::ECANCELED),
            -4080 => Some(Self::ECHARSET),
            -103 => Some(Self::ECONNABORTED),
            -111 => Some(Self::ECONNREFUSED),
            -104 => Some(Self::ECONNRESET),
            -89 => Some(Self::EDESTADDRREQ),
            -17 => Some(Self::EEXIST),
            -14 => Some(Self::EFAULT),
            -27 => Some(Self::EFBIG),
            -113 => Some(Self::EHOSTUNREACH),
            -4 => Some(Self::EINTR),
            -22 => Some(Self::EINVAL),
            -5 => Some(Self::EIO),
            -106 => Some(Self::EISCONN),
            -21 => Some(Self::EISDIR),
            -40 => Some(Self::ELOOP),
            -24 => Some(Self::EMFILE),
            -90 => Some(Self::EMSGSIZE),
            -36 => Some(Self::ENAMETOOLONG),
            -100 => Some(Self::ENETDOWN),
            -101 => Some(Self::ENETUNREACH),
            -23 => Some(Self::ENFILE),
            -105 => Some(Self::ENOBUFS),
            -19 => Some(Self::ENODEV),
            -2 => Some(Self::ENOENT),
            -12 => Some(Self::ENOMEM),
            -64 => Some(Self::ENONET),
            -92 => Some(Self::ENOPROTOOPT),
            -28 => Some(Self::ENOSPC),
            -38 => Some(Self::ENOSYS),
            -107 => Some(Self::ENOTCONN),
            -20 => Some(Self::ENOTDIR),
            -39 => Some(Self::ENOTEMPTY),
            -88 => Some(Self::ENOTSOCK),
            -95 => Some(Self::ENOTSUP),
            -75 => Some(Self::EOVERFLOW),
            -1 => Some(Self::EPERM),
            -32 => Some(Self::EPIPE),
            -71 => Some(Self::EPROTO),
            -93 => Some(Self::EPROTONOSUPPORT),
            -91 => Some(Self::EPROTOTYPE),
            -34 => Some(Self::ERANGE),
            -30 => Some(Self::EROFS),
            -108 => Some(Self::ESHUTDOWN),
            -29 => Some(Self::ESPIPE),
            -3 => Some(Self::ESRCH),
            -110 => Some(Self::ETIMEDOUT),
            -26 => Some(Self::ETXTBSY),
            -18 => Some(Self::EXDEV),
            -4094 => Some(Self::UNKNOWN),
            -4095 => Some(Self::EOF),
            -6 => Some(Self::ENXIO),
            -31 => Some(Self::EMLINK),
            -112 => Some(Self::EHOSTDOWN),
            -121 => Some(Self::EREMOTEIO),
            -25 => Some(Self::ENOTTY),
            -4028 => Some(Self::EFTYPE),
            -84 => Some(Self::EILSEQ),
            -94 => Some(Self::ESOCKTNOSUPPORT),
            -61 => Some(Self::ENODATA),
            _ => None,
        }
    }
}

/// Distinct symbolic kinds stand for distinct native status codes, so a
/// status code determines its kind: mapping a kind to its code and back
/// returns the kind it started from.
pub proof fn lemma_native_code_injective(a: NativeErrorKind, b: NativeErrorKind)
    requires
        native_code_of(a) == native_code_of(b),
    ensures
        a == b,
{
}

/// What went wrong, as one of the four classes the driver distinguishes.
#[derive(Debug)]
pub enum ErrorKind {
    /// A native call returned a recognized nonzero status.
    NativeError(NativeErrorKind),
    /// An allocation or other OS-level failure, or a native status that
    /// belongs to no known kind; the raw code is kept for diagnostics.
    IoError(i32),
    /// A free-text condition, such as starting a reactor twice.
    Message(String),
    /// A shared-state guard was left inconsistent by an earlier failure.
    LockPoisonedError(String),
}

/// An immutable error value: constructed once, then only wrapped or shown.
#[derive(Debug)]
pub struct Error {
    pub kind: ErrorKind,
}

impl Error {
    /// An error for a recognized native failure status.
    pub fn native(kind: NativeErrorKind) -> (e: Error)
        ensures
            e.kind == ErrorKind::NativeError(kind),
    {
        Error { kind: ErrorKind::NativeError(kind) }
    }

    /// An error carrying a raw OS or native code that maps to no known kind.
    pub fn io(code: i32) -> (e: Error)
        ensures
            e.kind == ErrorKind::IoError(code),
    {
        Error { kind: ErrorKind::IoError(code) }
    }

    /// An error for a guard poisoned by an earlier failure.
    pub fn lock_poisoned(message: String) -> (e: Error)
        ensures
            e.kind == ErrorKind::LockPoisonedError(message),
    {
        Error { kind: ErrorKind::LockPoisonedError(message) }
    }
}

/// Whether some symbolic kind stands for this native status code.
pub open spec fn known_native_code(native: int) -> bool {
    exists|kind: NativeErrorKind| native_code_of(kind) == native
}

/// The error kind that a native status code maps to: its symbolic kind
/// where one is known, otherwise the raw-code fallback.
pub open spec fn kind_for_native(native: i32) -> ErrorKind {
    if known_native_code(native as int) {
        ErrorKind::NativeError(choose|k: NativeErrorKind| native_code_of(k) == native as int)
    } else {
        ErrorKind::IoError(native)
    }
}

impl From<String> for Error {
    /// A free-text error.
    fn from(message: String) -> (e: Error) {
        Error { kind: ErrorKind::Message(message) }
    }
}

impl vstd::std_specs::convert::FromSpecImpl<String> for Error {
    open spec fn obeys_from_spec() -> bool {
        true
    }

    open spec fn from_spec(message: String) -> Error {
        Error { kind: ErrorKind::Message(message) }
    }
}

impl From<i32> for Error {
    /// The error for a native failure status: its symbolic kind where one is
    /// known, otherwise the raw-code fallback.
    fn from(native: i32) -> (e: Error) {
        match NativeErrorKind::from_native(native) {
            Some(kind) => {
                proof {
                    let picked = (choose|k: NativeErrorKind| native_code_of(k) == native as int);
                    lemma_native_code_injective(picked, kind);
                }
                Error { kind: ErrorKind::NativeError(kind) }
            },
            None => Error { kind: ErrorKind::IoError(native) },
        }
    }
}

impl vstd::std_specs::convert::FromSpecImpl<i32> for Error {
    open spec fn obeys_from_spec() -> bool {
        true
    }

    open spec fn from_spec(native: i32) -> Error {
        Error { kind: kind_for_native(native) }
    }
}

} // verus!
