use command_cache::command::CommandError;
use command_cache::record::{Cache, ParseError, TIMESTAMP_WIDTH};
use command_cache::store::{
    check_purge, command_failure, evaluate_record, parse_failure, refresh_outcome, CacheError,
    Decision, Outcome,
};

#[test]
fn scenario_first_run_caches_then_serves_then_refreshes() {
    // period = 1000 ms; no prior cache file, so the freshly created file
    // reads back empty: the command must run.
    let period: u64 = 1_000;
    let now = 1_700_000_000_000u64;
    assert!(matches!(evaluate_record(&[], now, period), Decision::Refresh));

    // The command `echo hi` succeeds with "hi\n": a record stamped `now`
    // is persisted.
    let file = match refresh_outcome(Ok("hi\n".to_string()), now) {
        Outcome::Persist { record, encoded } => {
            assert_eq!(record.ts, now);
            assert_eq!(record.output, "hi\n");
            encoded
        }
        Outcome::Abort { .. } => panic!("a successful command must persist"),
    };
    let stored = Cache::decode(&file).expect("the persisted bytes hold a record");
    assert_eq!(stored.ts, now);
    assert_eq!(stored.output, "hi\n");

    // An immediate second run, still within the period, serves the cached
    // output without running the command again.
    match evaluate_record(&file, now + 999, period) {
        Decision::Serve(out) => assert_eq!(out, "hi\n"),
        _ => panic!("a fresh record must be served"),
    }

    // A third run 1100 ms later finds the record stale and re-runs.
    assert!(matches!(
        evaluate_record(&file, now + 1_100, period),
        Decision::Refresh
    ));
}

#[test]
fn second_invocation_after_wait_sees_fresh_record() {
    // Two invocations for the same command serialize on the file lock: when
    // the second one finally reads the file, the first has just written a
    // fresh record, and the second must serve it rather than run again.
    let now = 5_000_000u64;
    let bytes = match refresh_outcome(Ok("once\n".to_string()), now) {
        Outcome::Persist { encoded, .. } => encoded,
        Outcome::Abort { .. } => panic!("a successful command must persist"),
    };
    match evaluate_record(&bytes, now, 10_000) {
        Decision::Serve(out) => assert_eq!(out, "once\n"),
        _ => panic!("the waiting invocation must not re-run the command"),
    }
}

#[test]
fn corrupt_record_is_rejected_not_served() {
    let short = vec![1u8, 2, 3];
    match evaluate_record(&short, 10, 1_000) {
        Decision::Reject(ParseError::MalformedRecord) => {}
        _ => panic!("a short buffer must be rejected"),
    }

    let mut bad_utf8 = vec![0u8; TIMESTAMP_WIDTH];
    bad_utf8.push(0xC0);
    match evaluate_record(&bad_utf8, 10, 1_000) {
        Decision::Reject(ParseError::EncodingError(_)) => {}
        _ => panic!("an undecodable output must be rejected"),
    }
}

#[test]
fn command_failure_becomes_cleanup_and_error() {
    let failed = Err(CommandError::ExecError("No such file or directory".to_string()));
    match refresh_outcome(failed, 42) {
        Outcome::Abort { error } => match error {
            CacheError::CommandExecFailed(detail) => {
                assert_eq!(detail, "No such file or directory")
            }
            _ => panic!("a start failure maps to CommandExecFailed"),
        },
        Outcome::Persist { .. } => panic!("a failed command must abort the transaction"),
    }
}

#[test]
fn error_mappings_keep_their_kinds() {
    assert!(matches!(
        parse_failure(ParseError::MalformedRecord),
        CacheError::RecordMalformed
    ));
    assert!(matches!(
        parse_failure(ParseError::TimestampError),
        CacheError::RecordMalformed
    ));
    match parse_failure(ParseError::EncodingError("bad byte".to_string())) {
        CacheError::RecordEncodingInvalid(detail) => assert_eq!(detail, "bad byte"),
        _ => panic!("an encoding failure maps to RecordEncodingInvalid"),
    }
    match command_failure(CommandError::OutputError("invalid utf-8".to_string())) {
        CacheError::CommandOutputNotUTF8(detail) => assert_eq!(detail, "invalid utf-8"),
        _ => panic!("an output failure maps to CommandOutputNotUTF8"),
    }
}

#[test]
fn command_error_messages_name_the_failure() {
    let exec = CommandError::ExecError("boom".to_string());
    assert_eq!(exec.message(), "Error executing command: boom");
    let output = CommandError::OutputError("bad bytes".to_string());
    assert_eq!(output.message(), "Error parsing command output: bad bytes");
}

#[test]
fn purge_of_missing_or_empty_directory_fails_loudly() {
    match check_purge(false, 0) {
        Err(CacheError::PurgeFailed(msg)) => {
            assert_eq!(msg, "nothing to purge: the cache directory is absent or empty")
        }
        _ => panic!("purging a missing directory must fail"),
    }
    assert!(matches!(
        check_purge(true, 0),
        Err(CacheError::PurgeFailed(_))
    ));
    assert!(check_purge(true, 3).is_ok());
}
