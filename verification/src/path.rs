//! The null-terminated form in which the engine takes a file's path.

use crate::error::Error;
use vstd::prelude::*;

verus! {

/// Whether `bytes` can be null-terminated: no byte of it is zero.
pub open spec fn has_no_nul(bytes: Seq<u8>) -> bool {
    forall|i: int| 0 <= i < bytes.len() ==> bytes[i] != 0u8
}

/// `bytes` followed by the terminating zero byte.
pub open spec fn nul_terminated(bytes: Seq<u8>) -> Seq<u8> {
    bytes.push(0u8)
}

/// The null-terminated copy of `path`, or `InvalidPath` where `path`
/// holds a zero byte of its own.
pub fn c_path(path: &[u8]) -> (r: Result<Vec<u8>, Error>)
    ensures
        has_no_nul(path@) ==> r.is_ok() && r.unwrap()@ == nul_terminated(path@),
        !has_no_nul(path@) ==> r == Err::<Vec<u8>, Error>(Error::InvalidPath),
{
    let n: usize = path.len();
    let mut out: Vec<u8> = Vec::new();
    let mut i: usize = 0;
    while i < n
        invariant
            n == path@.len(),
            i <= n,
            out@ == path@.subrange(0, i as int),
            has_no_nul(path@.subrange(0, i as int)),
        decreases n - i,
    {
        let b: u8 = path[i];
        if b == 0 {
            return Err(Error::InvalidPath);
        }
        out.push(b);
        proof {
            let before = path@.subrange(0, i as int);
            let after = path@.subrange(0, i + 1);
            assert(after == before.push(b));
        }
        i = i + 1;
    }
    assert(path@.subrange(0, n as int) == path@);
    out.push(0);
    Ok(out)
}

} // verus!
