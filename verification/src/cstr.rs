//! Conversion of paths (and other text handed to native calls) into the
//! null-terminated byte strings the native library's C interface needs.
//!
//! A text whose byte form holds an embedded null byte has no such
//! representation; it is rejected here, before any native call could be
//! made, and never surfaces a native error message.

use vstd::prelude::*;
use vstd::string::StrSliceExecFns;
use vstd::string::StringSliceAdditionalSpecFns;

use crate::errors::ImageError;

verus! {

/// Whether the byte form of `s` holds an embedded null byte.
pub open spec fn has_embedded_nul(s: &str) -> bool {
    s.spec_bytes().contains(0u8)
}

/// The null-terminated byte form of `s`: its bytes with one null byte
/// appended.
pub open spec fn c_bytes_spec(s: &str) -> Seq<u8> {
    s.spec_bytes().push(0u8)
}

/// Converts text into the null-terminated byte string a native call takes.
/// Fails, and only fails, when the text holds an embedded null byte.
pub fn to_c_bytes(s: &str) -> (r: Result<Vec<u8>, ImageError>)
    ensures
        match r {
            Ok(v) => !has_embedded_nul(s) && v@ == c_bytes_spec(s),
            Err(e) => has_embedded_nul(s) && e == ImageError::PathConversionError,
        },
{
    let bytes = s.as_bytes();
    let n = bytes.len();
    let mut i: usize = 0;
    while i < n
        invariant
            i <= n,
            n == s.spec_bytes().len(),
            bytes@ == s.spec_bytes(),
            forall|j: int| 0 <= j < i ==> s.spec_bytes()[j] != 0u8,
        decreases n - i,
    {
        if bytes[i] == 0 {
            proof {
                assert(s.spec_bytes().contains(0u8)) by {
                    assert(s.spec_bytes()[i as int] == 0u8);
                }
            }
            return Err(ImageError::PathConversionError);
        }
        i = i + 1;
    }
    let mut v = s.as_bytes_vec();
    v.push(0);
    Ok(v)
}

} // verus!
