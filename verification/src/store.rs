//! The locked cache store's decisions.
//!
//! One invocation is one cache transaction: acquire the exclusive lock on
//! the key's file (creating the file when absent), read everything, decide,
//! possibly run the command and rewrite the record, and release the lock on
//! every exit path.  The lock, the file and the command live outside this
//! crate; the decisions between those steps live here, verified for every
//! reading of the clock and every outcome the outside world can hand back.

use vstd::prelude::*;

use crate::command::CommandError;
use crate::record::{
    Cache, CacheView, ParseError, TIMESTAMP_WIDTH, lemma_encode_decode, record_output,
    record_timestamp, spec_encode, well_formed_record,
};
use crate::staleness::{is_stale, spec_is_stale};

verus! {

/// Everything that terminates an invocation without serving output.  Each
/// kind is unrecoverable where it occurs and is surfaced once, at the
/// outermost boundary; variants carry the underlying failure's description.
pub enum CacheError {
    /// The exclusive lock on the cache file could not be acquired.
    LockAcquisitionFailed(String),
    /// The cache file could not be read.
    IOReadFailed(String),
    /// The cache file could not be written.
    IOWriteFailed(String),
    /// The stored record is too short to contain a timestamp.
    RecordMalformed,
    /// The stored record's output bytes are not valid UTF-8.
    RecordEncodingInvalid(String),
    /// The wrapped command could not be started or run.
    CommandExecFailed(String),
    /// The wrapped command's output was not valid UTF-8.
    CommandOutputNotUTF8(String),
    /// The cache directory could not be created.
    DirectoryCreateFailed(String),
    /// The cache directory could not be purged.
    PurgeFailed(String),
}

/// The store's terminal error for a record that failed to decode.  The
/// defensive timestamp failure counts as a malformed record: both mean the
/// stored bytes cannot be what the codec writes.
pub open spec fn spec_parse_failure(e: ParseError) -> CacheError {
    match e {
        ParseError::MalformedRecord => CacheError::RecordMalformed,
        ParseError::TimestampError => CacheError::RecordMalformed,
        ParseError::EncodingError(d) => CacheError::RecordEncodingInvalid(d),
    }
}

/// Fold a record decode failure into the store's terminal error.
pub fn parse_failure(e: ParseError) -> (r: CacheError)
    ensures
        r == spec_parse_failure(e),
{
    match e {
        ParseError::MalformedRecord => CacheError::RecordMalformed,
        ParseError::TimestampError => CacheError::RecordMalformed,
        ParseError::EncodingError(d) => CacheError::RecordEncodingInvalid(d),
    }
}

/// The store's terminal error for a failed run of the wrapped command.
pub open spec fn spec_command_failure(e: CommandError) -> CacheError {
    match e {
        CommandError::ExecError(d) => CacheError::CommandExecFailed(d),
        CommandError::OutputError(d) => CacheError::CommandOutputNotUTF8(d),
    }
}

/// Fold a command failure into the store's terminal error.
pub fn command_failure(e: CommandError) -> (r: CacheError)
    ensures
        r == spec_command_failure(e),
{
    match e {
        CommandError::ExecError(d) => CacheError::CommandExecFailed(d),
        CommandError::OutputError(d) => CacheError::CommandOutputNotUTF8(d),
    }
}

/// What one look at the locked cache file's contents decides.
pub enum Decision {
    /// A fresh record is stored: serve its output without running anything.
    Serve(String),
    /// No prior record, or a stale one: run the command and persist anew.
    Refresh,
    /// The stored bytes are corrupt: fail without serving or running.
    Reject(ParseError),
}

/// Decide one cache transaction from the locked file's full contents and
/// one reading of the clock.  An empty buffer is a freshly created file and
/// means "no prior record", never a decode attempt.  In particular, a
/// buffer holding an encoded record that is not yet stale is served exactly
/// as it was written — the wrapped command does not run again — and a stale
/// one is refreshed.
pub fn evaluate_record(bytes: &[u8], now: u64, period: u64) -> (d: Decision)
    ensures
        bytes@.len() == 0 ==> d is Refresh,
        d matches Decision::Serve(out) ==> bytes@.len() > 0
            && well_formed_record(bytes@)
            && !spec_is_stale(record_timestamp(bytes@), now, period)
            && out@ == record_output(bytes@),
        bytes@.len() > 0 && d is Refresh ==> well_formed_record(bytes@)
            && spec_is_stale(record_timestamp(bytes@), now, period),
        d matches Decision::Reject(e) ==> bytes@.len() > 0 && (match e {
            ParseError::MalformedRecord => bytes@.len() < TIMESTAMP_WIDTH,
            ParseError::TimestampError => false,
            ParseError::EncodingError(_) => bytes@.len() >= TIMESTAMP_WIDTH
                && !well_formed_record(bytes@),
        }),
        forall|v: CacheView| bytes@ == #[trigger] spec_encode(v)
            ==> if spec_is_stale(v.ts, now, period) {
                d is Refresh
            } else {
                (d matches Decision::Serve(out) && out@ == v.output)
            },
{
    if bytes.len() == 0 {
        proof {
            assert forall|v: CacheView| bytes@ == #[trigger] spec_encode(v)
                implies false by {
                lemma_encode_decode(v);
            }
        }
        return Decision::Refresh;
    }
    match Cache::decode(bytes) {
        Err(e) => Decision::Reject(e),
        Ok(c) => {
            if is_stale(c.ts, now, period) {
                Decision::Refresh
            } else {
                Decision::Serve(c.output)
            }
        }
    }
}

/// The fate of one refresh, after the wrapped command has run.
pub enum Outcome {
    /// The command succeeded: rewrite the cache file with `encoded`, the
    /// fresh record's bytes, replacing any prior contents, then serve the
    /// record's output.
    Persist { record: Cache, encoded: Vec<u8> },
    /// The command failed: the caller must delete the cache file and
    /// release the lock before exiting with `error`, so no empty or
    /// partial entry survives to be misread as a record later.
    Abort { error: CacheError },
}

/// Turn the command runner's outcome into the store's next step, at clock
/// reading `now`.  Success yields exactly the record that pairs `now` with
/// the command's output, already encoded; failure yields the cleanup
/// obligation carrying the structured error.  A refresh never serves
/// anything but what the command just returned.
pub fn refresh_outcome(result: Result<String, CommandError>, now: u64) -> (o: Outcome)
    ensures
        result matches Ok(out) ==> (o matches Outcome::Persist { record, encoded }
            && record@ == (CacheView { ts: now, output: out@ })
            && encoded@ == spec_encode(CacheView { ts: now, output: out@ })),
        result matches Err(e) ==> (o matches Outcome::Abort { error }
            && error == spec_command_failure(e)),
{
    match result {
        Ok(output) => {
            let record = Cache { ts: now, output };
            let encoded = record.encode();
            Outcome::Persist { record, encoded }
        }
        Err(e) => Outcome::Abort { error: command_failure(e) },
    }
}

/// Decide a purge of the cache directory.  Removal may proceed only when
/// the directory exists and holds at least one entry; purging an absent or
/// empty directory fails loudly with a descriptive error instead of
/// succeeding vacuously.
pub fn check_purge(dir_exists: bool, entry_count: usize) -> (r: Result<(), CacheError>)
    ensures
        r is Ok <==> dir_exists && entry_count > 0,
        r matches Err(e) ==> (e matches CacheError::PurgeFailed(m)
            && m@ == "nothing to purge: the cache directory is absent or empty"@),
{
    if dir_exists && entry_count > 0 {
        Ok(())
    } else {
        Err(CacheError::PurgeFailed(
            "nothing to purge: the cache directory is absent or empty".to_owned(),
        ))
    }
}

} // verus!
