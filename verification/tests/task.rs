use uv::error::ErrorKind;
use uv::Task;

#[test]
fn run_returns_exactly_the_recorded_output() {
    let mut task: Task<u32> = Task::new();
    assert!(task.res.is_none());
    task.record_ready(42);
    assert_eq!(task.into_result().unwrap(), 42);
}

#[test]
fn run_without_a_ready_poll_yields_no_value() {
    let task: Task<u32> = Task::new();
    let e = task.into_result().unwrap_err();
    match e.kind {
        ErrorKind::Message(m) => assert_eq!(m, "Result not set in a future"),
        other => panic!("unexpected kind: {:?}", other),
    }
}

#[test]
fn recorded_string_comes_back_untouched() {
    let mut task: Task<String> = Task::new();
    task.record_ready(String::from("the final output"));
    assert_eq!(task.into_result().unwrap(), "the final output");
}
