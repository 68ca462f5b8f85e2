use uv::error::{ErrorKind, NativeErrorKind};
use uv::reactor::{status_to_result, ReactorRegistry, RunMode};

#[test]
fn run_mode_codes() {
    assert_eq!(RunMode::Default.to_native(), 0);
    assert_eq!(RunMode::Once.to_native(), 1);
    assert_eq!(RunMode::NoWait.to_native(), 2);
}

#[test]
fn zero_status_is_success() {
    assert!(status_to_result(0).is_ok());
}

#[test]
fn known_status_maps_to_its_kind() {
    let e = status_to_result(-22).unwrap_err();
    assert!(matches!(e.kind, ErrorKind::NativeError(NativeErrorKind::EINVAL)));
}

#[test]
fn eof_status_maps_to_its_kind() {
    let e = status_to_result(-4095).unwrap_err();
    assert!(matches!(e.kind, ErrorKind::NativeError(NativeErrorKind::EOF)));
}

#[test]
fn unknown_status_keeps_raw_code() {
    let e = status_to_result(-12345).unwrap_err();
    assert!(matches!(e.kind, ErrorKind::IoError(-12345)));
}

#[test]
fn second_start_while_active_is_refused() {
    let mut registry = ReactorRegistry::new();
    let first = registry.begin().unwrap();
    assert_eq!(first, 1);
    assert!(registry.active);

    // A nested start fails with the distinguishable report and changes
    // nothing, so the caller allocates nothing natively.
    let refused = registry.begin().unwrap_err();
    match refused.kind {
        ErrorKind::Message(m) => assert_eq!(m, "Loop already started in this thread."),
        other => panic!("unexpected kind: {:?}", other),
    }
    assert!(registry.active);
    assert_eq!(registry.generation, first);
}

#[test]
fn sequential_runs_get_fresh_reactors() {
    let mut registry = ReactorRegistry::new();

    let first = registry.begin().unwrap();
    registry.end();
    assert!(!registry.active);

    let second = registry.begin().unwrap();
    assert!(registry.active);
    assert_ne!(first, second);

    registry.end();
    assert!(!registry.active);
}
