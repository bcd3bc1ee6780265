//! Conversion between host-native text/byte values and the representations
//! the boundary requires: null-terminated strings for setters, and the
//! null-means-absent convention for getters.

use vstd::prelude::*;
use vstd::string::StringSliceAdditionalSpecFns;
use vstd::utf8::encode_utf8_decode_utf8;
use crate::error::UdmfError;

verus! {

/// Whether a byte sequence holds an embedded null byte.
pub open spec fn has_nul(bytes: Seq<u8>) -> bool {
    exists|i: int| 0 <= i < bytes.len() && bytes[i] == 0u8
}

/// Whether two strings hold the same characters.
pub fn str_eq(a: &str, b: &str) -> (r: bool)
    ensures
        r <==> (a@ == b@),
{
    let ab = a.as_bytes();
    let bb = b.as_bytes();
    if ab.len() != bb.len() {
        return false;
    }
    let n = ab.len();
    let mut i: usize = 0;
    while i < n
        invariant
            ab@ == a.spec_bytes(),
            bb@ == b.spec_bytes(),
            n == ab@.len(),
            n == bb@.len(),
            i <= n,
            forall|j: int| 0 <= j < i ==> ab@[j] == bb@[j],
        decreases n - i,
    {
        if ab[i] != bb[i] {
            return false;
        }
        i += 1;
    }
    proof {
        assert(a.spec_bytes() =~= b.spec_bytes());
        encode_utf8_decode_utf8(a@);
        encode_utf8_decode_utf8(b@);
    }
    true
}

/// Build the null-terminated byte representation the boundary requires for
/// a string parameter: the string's bytes followed by one terminator byte.
/// A string holding an embedded null byte cannot be represented and is
/// rejected with `InvalidParam`.
pub fn c_string_bytes(s: &str) -> (r: Result<Vec<u8>, UdmfError>)
    ensures
        !has_nul(s.spec_bytes()) ==> (r matches Ok(v) && v@ == s.spec_bytes().push(0u8)),
        has_nul(s.spec_bytes()) ==> r == Err::<Vec<u8>, UdmfError>(UdmfError::InvalidParam),
{
    let bytes = s.as_bytes();
    let n = bytes.len();
    let mut out: Vec<u8> = Vec::new();
    let mut i: usize = 0;
    while i < n
        invariant
            bytes@ == s.spec_bytes(),
            n == bytes@.len(),
            i <= n,
            out@ == bytes@.subrange(0, i as int),
            forall|j: int| 0 <= j < i ==> bytes@[j] != 0u8,
        decreases n - i,
    {
        let b = bytes[i];
        if b == 0 {
            return Err(UdmfError::InvalidParam);
        }
        out.push(b);
        i += 1;
        proof {
            assert(out@ =~= bytes@.subrange(0, i as int));
        }
    }
    out.push(0);
    proof {
        assert(bytes@.subrange(0, n as int) =~= bytes@);
        assert(out@ =~= s.spec_bytes().push(0u8));
    }
    Ok(out)
}

/// Normalize an absent boundary string: a null pointer on the native side
/// means "no value", which becomes the empty string, never an error.
pub fn string_or_empty(v: Option<String>) -> (r: String)
    ensures
        v is None ==> r@ == Seq::<char>::empty(),
        v matches Some(s) ==> r@ == s@,
{
    match v {
        None => String::new(),
        Some(s) => s,
    }
}

/// Normalize an absent boundary buffer: a null pointer or zero length on
/// the native side means "no data", which becomes the empty buffer, never
/// an error.
pub fn bytes_or_empty(v: Option<Vec<u8>>) -> (r: Vec<u8>)
    ensures
        v is None ==> r@ == Seq::<u8>::empty(),
        v matches Some(b) ==> r@ == b@,
{
    match v {
        None => Vec::new(),
        Some(b) => b,
    }
}

} // verus!
