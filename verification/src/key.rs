//! The key deriver.
//!
//! A command and its arguments map to a stable cache-file identifier: the
//! digest of a position-salted byte sequence, in its canonical hexadecimal
//! form.  The salt keeps argument lists apart that would concatenate to the
//! same bytes.

use vstd::prelude::*;
use vstd::slice::slice_to_vec;
use vstd::utf8::encode_utf8;

verus! {

/// The byte sequence that is hashed for a command line: for each part at
/// position `i` (the command word itself standing at position 0), its UTF-8
/// bytes followed by the one-byte position tag `i mod 256`.  The tag keeps
/// `["ab", "c"]` distinguishable from `["a", "bc"]`, which naive
/// concatenation would conflate.
pub open spec fn key_material_of(parts: Seq<Seq<char>>) -> Seq<u8>
    decreases parts.len(),
{
    if parts.len() == 0 {
        seq![]
    } else {
        key_material_of(parts.drop_last()) + encode_utf8(parts.last())
            + seq![((parts.len() - 1) % 256) as u8]
    }
}

/// The hexadecimal digest that names a cache file, as a function of the
/// hashed bytes alone.
pub uninterp spec fn md5_hex_of(bytes: Seq<u8>) -> Seq<char>;

/// A lowercase hexadecimal digit: the only characters the key's canonical
/// textual form uses, so a key never holds a path separator.
pub open spec fn is_lower_hex_digit(c: char) -> bool {
    ('0' as u32 <= c as u32 && c as u32 <= '9' as u32)
        || ('a' as u32 <= c as u32 && c as u32 <= 'f' as u32)
}

/// Relies on `md5::compute` and on `md5::Digest`'s lower-hex formatting:
/// the digest of the input bytes written as 32 lowercase hexadecimal
/// characters (two per digest byte), a function of the input alone.
#[verifier::external_body]
fn md5_hex(bytes: &Vec<u8>) -> (r: String)
    ensures
        r@ == md5_hex_of(bytes@),
        r@.len() == 32,
        forall|i: int| 0 <= i < r@.len() ==> is_lower_hex_digit(#[trigger] r@[i]),
{
    format!("{:?}", md5::compute(bytes.as_slice()))
}

/// Build the position-salted byte sequence for a command line.
fn key_material(command: &Vec<String>) -> (r: Vec<u8>)
    ensures
        r@ == key_material_of(command.deep_view()),
{
    let ghost dv = command.deep_view();
    let mut r: Vec<u8> = Vec::new();
    let mut i: usize = 0;
    while i < command.len()
        invariant
            i <= command.len(),
            dv == command.deep_view(),
            dv.len() == command.len(),
            r@ == key_material_of(dv.take(i as int)),
        decreases command.len() - i,
    {
        let mut part = slice_to_vec(command[i].as_str().as_bytes());
        r.append(&mut part);
        r.push((i % 256) as u8);
        proof {
            assert(dv.take(i as int + 1).drop_last() =~= dv.take(i as int));
            assert(dv[i as int] == command@[i as int]@);
            assert(r@ =~= key_material_of(dv.take(i as int + 1)));
        }
        i = i + 1;
    }
    proof {
        assert(dv.take(command.len() as int) =~= dv);
    }
    r
}

/// Derive the cache key for a command line, the command word itself counting
/// as position 0.  The result is the digest's canonical hexadecimal form —
/// fixed width, lowercase hex digits only, so it is always usable as a file
/// name — and a function of the parts alone: identical invocations always
/// reach the same cache file, and the key is stable across calls and
/// processes.
pub fn derive_key(command: &Vec<String>) -> (r: String)
    ensures
        r@ == md5_hex_of(key_material_of(command.deep_view())),
        r@.len() == 32,
        forall|i: int| 0 <= i < r@.len() ==> is_lower_hex_digit(#[trigger] r@[i]),
{
    let material = key_material(command);
    md5_hex(&material)
}

} // verus!
