//! The binary record codec.
//!
//! An encoded record is the timestamp as a fixed-width little-endian unsigned
//! integer, followed immediately by the raw UTF-8 bytes of the captured
//! output.  There is no header, no magic number and no length field: the
//! record's extent is the buffer's extent, and the output always starts at
//! `TIMESTAMP_WIDTH`.

use vstd::bytes::{spec_u64_from_le_bytes, spec_u64_to_le_bytes, u64_from_le_bytes, u64_to_le_bytes};
use vstd::bytes::lemma_auto_spec_u64_to_from_le_bytes;
use vstd::prelude::*;
use vstd::slice::{slice_subrange, slice_to_vec};
use vstd::utf8::{decode_utf8, encode_utf8, encode_utf8_decode_utf8, encode_utf8_valid_utf8, valid_utf8};

verus! {

/// Width in bytes of the timestamp field at the start of every encoded record.
pub const TIMESTAMP_WIDTH: usize = 8;

/// One cache record: the moment the output was captured, in milliseconds
/// since the UNIX epoch, and the captured standard output of the command.
pub struct Cache {
    pub ts: u64,
    pub output: String,
}

/// The mathematical content of a [`Cache`] record.
#[verifier::ext_equal]
pub struct CacheView {
    pub ts: u64,
    pub output: Seq<char>,
}

impl View for Cache {
    type V = CacheView;

    open spec fn view(&self) -> CacheView {
        CacheView { ts: self.ts, output: self.output@ }
    }
}

/// Why a buffer failed to decode as a record.
#[derive(Debug)]
pub enum ParseError {
    /// The buffer is shorter than the timestamp field.
    MalformedRecord,
    /// The timestamp field could not be read as the fixed-width integer.
    /// Defensive: this can only arise if the width check itself were wrong.
    TimestampError,
    /// The bytes after the timestamp are not valid UTF-8.  Carries the
    /// underlying decode failure's description.
    EncodingError(String),
}

/// The bytes that encode a record: the little-endian timestamp, then the
/// UTF-8 encoding of the output.
pub open spec fn spec_encode(r: CacheView) -> Seq<u8> {
    spec_u64_to_le_bytes(r.ts) + encode_utf8(r.output)
}

/// A buffer holds a decodable record: long enough for the timestamp, and
/// everything after it valid UTF-8.
pub open spec fn well_formed_record(bytes: Seq<u8>) -> bool {
    bytes.len() >= TIMESTAMP_WIDTH && valid_utf8(bytes.skip(TIMESTAMP_WIDTH as int))
}

/// The timestamp stored in a well-formed record.
pub open spec fn record_timestamp(bytes: Seq<u8>) -> u64 {
    spec_u64_from_le_bytes(bytes.take(TIMESTAMP_WIDTH as int))
}

/// The output stored in a well-formed record.
pub open spec fn record_output(bytes: Seq<u8>) -> Seq<char> {
    decode_utf8(bytes.skip(TIMESTAMP_WIDTH as int))
}

/// Law: encoding is lossless.  An encoded record is well formed, and reading
/// its fields back yields exactly the timestamp and output it was built from;
/// together with the contract of [`Cache::decode`] this gives
/// `decode(encode(record)) == record` for every record.
pub proof fn lemma_encode_decode(r: CacheView)
    ensures
        spec_encode(r).len() == TIMESTAMP_WIDTH + encode_utf8(r.output).len(),
        well_formed_record(spec_encode(r)),
        record_timestamp(spec_encode(r)) == r.ts,
        record_output(spec_encode(r)) == r.output,
{
    lemma_auto_spec_u64_to_from_le_bytes();
    let bytes = spec_encode(r);
    assert(bytes.take(TIMESTAMP_WIDTH as int) =~= spec_u64_to_le_bytes(r.ts));
    assert(bytes.skip(TIMESTAMP_WIDTH as int) =~= encode_utf8(r.output));
    encode_utf8_valid_utf8(r.output);
    encode_utf8_decode_utf8(r.output);
}

/// Relies on `String::from_utf8`: it returns the string whose UTF-8 encoding
/// is `bytes` exactly when `bytes` is valid UTF-8, and otherwise an error,
/// rendered here as its description.
#[verifier::external_body]
fn string_from_utf8(bytes: Vec<u8>) -> (r: Result<String, String>)
    ensures
        r matches Ok(s) ==> valid_utf8(bytes@) && s@ == decode_utf8(bytes@),
        r is Ok <==> valid_utf8(bytes@),
{
    String::from_utf8(bytes).map_err(|e| e.to_string())
}

impl Cache {
    /// Serialise this record to its on-disk form.
    pub fn encode(&self) -> (r: Vec<u8>)
        ensures
            r@ == spec_encode(self@),
    {
        let mut r = u64_to_le_bytes(self.ts);
        let mut out_bytes = slice_to_vec(self.output.as_str().as_bytes());
        r.append(&mut out_bytes);
        proof {
            assert(r@ =~= spec_encode(self@));
        }
        r
    }

    /// Deserialise a record from its on-disk form.  Never panics: a buffer
    /// shorter than the timestamp field is `MalformedRecord`, a buffer whose
    /// tail is not valid UTF-8 is `EncodingError`, and nothing is silently
    /// truncated or substituted.
    pub fn decode(bytes: &[u8]) -> (r: Result<Cache, ParseError>)
        ensures
            r matches Ok(c) ==> well_formed_record(bytes@)
                && c@.ts == record_timestamp(bytes@)
                && c@.output == record_output(bytes@),
            r matches Err(e) ==> match e {
                ParseError::MalformedRecord => bytes@.len() < TIMESTAMP_WIDTH,
                ParseError::TimestampError => false,
                ParseError::EncodingError(_) => bytes@.len() >= TIMESTAMP_WIDTH
                    && !valid_utf8(bytes@.skip(TIMESTAMP_WIDTH as int)),
            },
            forall|v: CacheView| bytes@ == #[trigger] spec_encode(v)
                ==> (r matches Ok(c) && c@ == v),
    {
        if bytes.len() < TIMESTAMP_WIDTH {
            proof {
                assert forall|v: CacheView| bytes@ == #[trigger] spec_encode(v)
                    implies false by {
                    lemma_encode_decode(v);
                }
            }
            return Err(ParseError::MalformedRecord);
        }
        let ts_bytes = slice_subrange(bytes, 0, TIMESTAMP_WIDTH);
        if ts_bytes.len() != TIMESTAMP_WIDTH {
            // Defensive, per the record protocol: unreachable while the
            // width check above is consistent.
            return Err(ParseError::TimestampError);
        }
        let ts = u64_from_le_bytes(ts_bytes);
        let tail = slice_to_vec(slice_subrange(bytes, TIMESTAMP_WIDTH, bytes.len()));
        let r = match string_from_utf8(tail) {
            Ok(output) => Ok(Cache { ts, output }),
            Err(detail) => Err(ParseError::EncodingError(detail)),
        };
        proof {
            assert forall|v: CacheView| bytes@ == #[trigger] spec_encode(v)
                implies (r matches Ok(c) && c@ == v) by {
                lemma_encode_decode(v);
                let c = r->Ok_0;
                assert(c@ =~= v);
            }
        }
        r
    }
}

} // verus!
