//! Disk-backed memoisation of a command's output.
//!
//! A cache record pairs the moment a command's output was captured with the
//! output text itself.  Records are persisted one per derived key: the key is
//! a position-salted digest of the command and its arguments, the record is a
//! fixed-width little-endian timestamp followed by the raw UTF-8 bytes of the
//! output.  A record older than the configured period is stale and must be
//! refreshed before it is served again.
//!
//! The crate holds the cache protocol itself: key derivation, the binary
//! record codec, staleness evaluation, and the decisions of one locked cache
//! transaction.  Acquiring the file lock, running the wrapped command and
//! touching the file system are left to the surrounding program, which feeds
//! their outcomes to the decision functions here.

pub mod clock;
pub mod command;
pub mod key;
pub mod record;
pub mod staleness;
pub mod store;
