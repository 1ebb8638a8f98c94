//! Clip paths as the SDK takes them: raw bytes, NUL-terminated on the C++
//! side.

use vstd::prelude::*;

use crate::error::BrawError;

verus! {

/// Checks the raw bytes of a clip path before they are handed to the SDK.
/// They need not be valid UTF-8 (Linux paths seldom are); an embedded NUL
/// byte is the only disallowed content, and yields the error `path
/// contains an interior NUL byte`.
pub fn check_clip_path(bytes: &[u8]) -> (r: Result<(), BrawError>)
    ensures
        r is Ok <==> !bytes@.contains(0u8),
        r matches Err(e) ==> e@ == "path contains an interior NUL byte"@,
{
    let mut i: usize = 0;
    while i < bytes.len()
        invariant
            i <= bytes@.len(),
            forall|j: int| 0 <= j < i ==> bytes@[j] != 0u8,
        decreases bytes@.len() - i,
    {
        if bytes[i] == 0 {
            return Err(BrawError::new("path contains an interior NUL byte"));
        }
        i = i + 1;
    }
    Ok(())
}

} // verus!
