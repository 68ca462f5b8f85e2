use uv::error::NativeErrorKind as K;
use uv::error::{Error, ErrorKind, NativeErrorKind};

fn all_kinds() -> Vec<NativeErrorKind> {
    vec![
        K::E2BIG,
        K::EACCES,
        K::EADDRINUSE,
        K::EADDRNOTAVAIL,
        K::EAFNOSUPPORT,
        K::EAGAIN,
        K::EAIADDRFAMILY,
        K::EAIAGAIN,
        K::EAIBADFLAGS,
        K::EAIBADHINTS,
        K::EAICANCELED,
        K::EAIFAIL,
        K::EAIFAMILY,
        K::EAIMEMORY,
        K::EAINODATA,
        K::EAINONAME,
        K::EAIOVERFLOW,
        K::EAIPROTOCOL,
        K::EAISERVICE,
        K::EAISOCKTYPE,
        K::EALREADY,
        K::EBADF,
        K::EBUSY,
        K::ECANCELED,
        K::ECHARSET,
        K::ECONNABORTED,
        K::ECONNREFUSED,
        K::ECONNRESET,
        K::EDESTADDRREQ,
        K::EEXIST,
        K::EFAULT,
        K::EFBIG,
        K::EHOSTUNREACH,
        K::EINTR,
        K::EINVAL,
        K::EIO,
        K::EISCONN,
        K::EISDIR,
        K::ELOOP,
        K::EMFILE,
        K::EMSGSIZE,
        K::ENAMETOOLONG,
        K::ENETDOWN,
        K::ENETUNREACH,
        K::ENFILE,
        K::ENOBUFS,
        K::ENODEV,
        K::ENOENT,
        K::ENOMEM,
        K::ENONET,
        K::ENOPROTOOPT,
        K::ENOSPC,
        K::ENOSYS,
        K::ENOTCONN,
        K::ENOTDIR,
        K::ENOTEMPTY,
        K::ENOTSOCK,
        K::ENOTSUP,
        K::EOVERFLOW,
        K::EPERM,
        K::EPIPE,
        K::EPROTO,
        K::EPROTONOSUPPORT,
        K::EPROTOTYPE,
        K::ERANGE,
        K::EROFS,
        K::ESHUTDOWN,
        K::ESPIPE,
        K::ESRCH,
        K::ETIMEDOUT,
        K::ETXTBSY,
        K::EXDEV,
        K::UNKNOWN,
        K::EOF,
        K::ENXIO,
        K::EMLINK,
        K::EHOSTDOWN,
        K::EREMOTEIO,
        K::ENOTTY,
        K::EFTYPE,
        K::EILSEQ,
        K::ESOCKTNOSUPPORT,
        K::ENODATA,
    ]
}

#[test]
fn native_codes_round_trip() {
    for kind in all_kinds() {
        let code = kind.to_native();
        assert_eq!(NativeErrorKind::from_native(code), Some(kind));
    }
}

#[test]
fn native_codes_are_distinct() {
    let kinds = all_kinds();
    for (i, a) in kinds.iter().enumerate() {
        for b in kinds.iter().skip(i + 1) {
            assert_ne!(a.to_native(), b.to_native());
        }
    }
}

#[test]
fn exact_native_codes() {
    assert_eq!(NativeErrorKind::E2BIG.to_native(), -7);
    assert_eq!(NativeErrorKind::EPERM.to_native(), -1);
    assert_eq!(NativeErrorKind::ENOENT.to_native(), -2);
    assert_eq!(NativeErrorKind::EINVAL.to_native(), -22);
    assert_eq!(NativeErrorKind::ETIMEDOUT.to_native(), -110);
    assert_eq!(NativeErrorKind::EAIADDRFAMILY.to_native(), -3000);
    assert_eq!(NativeErrorKind::EAIPROTOCOL.to_native(), -3014);
    assert_eq!(NativeErrorKind::ECHARSET.to_native(), -4080);
    assert_eq!(NativeErrorKind::EFTYPE.to_native(), -4028);
    assert_eq!(NativeErrorKind::UNKNOWN.to_native(), -4094);
    assert_eq!(NativeErrorKind::EOF.to_native(), -4095);
    assert_eq!(NativeErrorKind::ENODATA.to_native(), -61);
}

#[test]
fn unknown_codes_map_to_none() {
    assert_eq!(NativeErrorKind::from_native(0), None);
    assert_eq!(NativeErrorKind::from_native(7), None);
    assert_eq!(NativeErrorKind::from_native(-126), None);
    assert_eq!(NativeErrorKind::from_native(-9999), None);
    assert_eq!(NativeErrorKind::from_native(i32::MIN), None);
}

#[test]
fn every_kind_comes_back_through_error_from() {
    for kind in all_kinds() {
        let e = Error::from(kind.to_native());
        match e.kind {
            ErrorKind::NativeError(k) => assert_eq!(k, kind),
            other => panic!("unexpected kind: {:?}", other),
        }
    }
}

#[test]
fn error_from_known_status() {
    let e = Error::from(-7);
    match e.kind {
        ErrorKind::NativeError(kind) => assert_eq!(kind, NativeErrorKind::E2BIG),
        other => panic!("unexpected kind: {:?}", other),
    }
}

#[test]
fn error_from_unknown_status_keeps_raw_code() {
    let e = Error::from(-9999);
    match e.kind {
        ErrorKind::IoError(code) => assert_eq!(code, -9999),
        other => panic!("unexpected kind: {:?}", other),
    }
}

#[test]
fn error_constructors() {
    let e = Error::native(NativeErrorKind::EINVAL);
    assert!(matches!(e.kind, ErrorKind::NativeError(NativeErrorKind::EINVAL)));
    let e = Error::io(12);
    assert!(matches!(e.kind, ErrorKind::IoError(12)));
    let e = Error::lock_poisoned(String::from("a worker failed while holding the guard"));
    match e.kind {
        ErrorKind::LockPoisonedError(m) => {
            assert_eq!(m, "a worker failed while holding the guard")
        },
        other => panic!("unexpected kind: {:?}", other),
    }
    let e = Error::from(String::from("free text"));
    match e.kind {
        ErrorKind::Message(m) => assert_eq!(m, "free text"),
        other => panic!("unexpected kind: {:?}", other),
    }
}
