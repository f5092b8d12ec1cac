//! Zeroization of sensitive buffers.
//!
//! A passphrase or raw key must not outlive its last legitimate use in
//! readable form. These wrappers overwrite such a buffer in place; every
//! function of this library that consumes a secret calls one of them on
//! every exit path.

use vstd::prelude::*;
use zeroize::Zeroize;

verus! {

/// Relies on `zeroize::Zeroize for String`: the buffer's bytes (spare
/// capacity included) are overwritten with zeroes and the string is then
/// cleared, so the string left behind is empty.
#[verifier::external_body]
pub(crate) fn wipe_string(s: &mut String)
    ensures
        final(s)@.len() == 0,
{
    s.zeroize();
}

/// Relies on `zeroize::Zeroize for Vec<u8>`: every byte (spare capacity
/// included) is overwritten with zero and the vector is then cleared, so
/// the vector left behind is empty.
#[verifier::external_body]
pub(crate) fn wipe_bytes(b: &mut Vec<u8>)
    ensures
        final(b)@.len() == 0,
{
    b.zeroize();
}

} // verus!
