use worker_invoker::invoke::InvocationRequest;
use worker_invoker::invoke::InvocationResult;
use worker_invoker::invoke::ProcessOutcome;
use worker_invoker::invoke::interpret_outcome;

#[test]
fn zero_exit_passes_stdout_through() {
    let outcome = ProcessOutcome::Exited {
        exit_ok: true,
        stdout: b"{\"ok\":true}".to_vec(),
        stderr: Vec::new(),
    };
    let result = interpret_outcome(outcome);
    assert_eq!(
        result,
        InvocationResult::Success(String::from("{\"ok\":true}"))
    );
}

#[test]
fn zero_exit_with_empty_stdout_is_empty_success() {
    let outcome = ProcessOutcome::Exited {
        exit_ok: true,
        stdout: Vec::new(),
        stderr: Vec::new(),
    };
    assert_eq!(
        interpret_outcome(outcome),
        InvocationResult::Success(String::new())
    );
}

#[test]
fn zero_exit_decodes_multibyte_stdout() {
    // Two bytes that decode to one character: the decode is more than a
    // byte-for-byte copy.
    let outcome = ProcessOutcome::Exited {
        exit_ok: true,
        stdout: vec![0xc3, 0xa9],
        stderr: Vec::new(),
    };
    assert_eq!(
        interpret_outcome(outcome),
        InvocationResult::Success(String::from("\u{e9}"))
    );
}

#[test]
fn nonzero_exit_prefixes_stderr() {
    let outcome = ProcessOutcome::Exited {
        exit_ok: false,
        stdout: Vec::new(),
        stderr: b"bad key".to_vec(),
    };
    assert_eq!(
        interpret_outcome(outcome),
        InvocationResult::Failure(String::from("Worker script failed: bad key"))
    );
}

#[test]
fn nonzero_exit_ignores_stdout() {
    let outcome = ProcessOutcome::Exited {
        exit_ok: false,
        stdout: b"partial result".to_vec(),
        stderr: b"ran out of quota".to_vec(),
    };
    assert_eq!(
        interpret_outcome(outcome),
        InvocationResult::Failure(String::from("Worker script failed: ran out of quota"))
    );
}

#[test]
fn nonzero_exit_with_undecodable_stderr_uses_placeholder() {
    let outcome = ProcessOutcome::Exited {
        exit_ok: false,
        stdout: Vec::new(),
        stderr: vec![0xff, 0xfe, 0xfd],
    };
    assert_eq!(
        interpret_outcome(outcome),
        InvocationResult::Failure(String::from("Worker script failed: Unknown worker error"))
    );
}

#[test]
fn zero_exit_with_undecodable_stdout_is_decode_failure() {
    let outcome = ProcessOutcome::Exited {
        exit_ok: true,
        stdout: vec![0xff],
        stderr: Vec::new(),
    };
    let result = interpret_outcome(outcome);
    assert!(!result.is_success());
    match result {
        InvocationResult::Failure(message) => {
            assert!(message.contains("invalid utf-8"));
        }
        InvocationResult::Success(_) => panic!("garbled output must not succeed"),
    }
}

#[test]
fn spawn_failure_carries_platform_description() {
    let outcome =
        ProcessOutcome::SpawnFailed(String::from("No such file or directory (os error 2)"));
    assert_eq!(
        interpret_outcome(outcome),
        InvocationResult::Failure(String::from("No such file or directory (os error 2)"))
    );
}

#[test]
fn argv_is_entry_then_positionals_in_order() {
    let request = InvocationRequest::new(
        String::from("python"),
        String::from("review.py"),
        vec![
            String::from("notes.txt"),
            String::from("key-123"),
            String::from("model-a"),
        ],
    );
    let argv = request.argv();
    assert_eq!(
        argv,
        vec![
            String::from("review.py"),
            String::from("notes.txt"),
            String::from("key-123"),
            String::from("model-a"),
        ]
    );
}

#[test]
fn argv_of_request_without_positionals_is_entry_alone() {
    let request = InvocationRequest::new(
        String::from("worker"),
        String::from("job"),
        Vec::new(),
    );
    assert_eq!(request.argv(), vec![String::from("job")]);
    assert_eq!(request.executable_path, String::from("worker"));
}

#[test]
fn result_accessors_report_variant_and_text() {
    let ok = InvocationResult::Success(String::from("out"));
    assert!(ok.is_success());
    assert_eq!(ok.text(), &String::from("out"));
    let bad = InvocationResult::Failure(String::from("why"));
    assert!(!bad.is_success());
    assert_eq!(bad.text(), &String::from("why"));
}
