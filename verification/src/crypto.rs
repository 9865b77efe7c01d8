//! The random-fill bridge.
//!
//! Script code hands the bridge a byte buffer together with an untrusted
//! offset and length.  After the window is validated, exactly that many
//! bytes from the host entropy source overwrite it, and the filled window
//! comes back as a fresh owned byte sequence.  An out-of-range window is
//! rejected before the entropy source is touched, leaving the buffer
//! untouched.

use vstd::prelude::*;

use crate::errors::BridgeError;
use crate::slice::{copy_view, validate, write_view, SliceView};

verus! {

/// The cryptography capability: its one native entry point is
/// [`get_random_values`].
#[derive(Debug, Clone, Copy, PartialEq, Eq, Structural)]
pub struct Crypto;

/// Relies on `rand::rngs::OsRng` with `rand::RngCore::fill_bytes`: fills
/// the whole slice with bytes drawn from the operating system's entropy
/// source.  Nothing is promised of the values; every outcome is possible.
#[verifier::external_body]
fn fill_random(buf: &mut Vec<u8>)
    ensures
        final(buf)@.len() == old(buf)@.len(),
{
    rand::RngCore::fill_bytes(&mut rand::rngs::OsRng, buf.as_mut_slice());
}

/// Fills `[offset, offset + length)` of `buffer` with bytes from the host
/// entropy source and returns the filled window as a fresh byte sequence.
///
/// An out-of-range window (including an `offset + length` that overflows)
/// fails with `OutOfBounds` and leaves the buffer exactly as it was: there
/// is no partial fill.
pub fn get_random_values(buffer: &mut Vec<u8>, offset: usize, length: usize) -> (r: Result<
    Vec<u8>,
    BridgeError,
>)
    ensures
        offset + length > old(buffer)@.len() ==> r == Err::<Vec<u8>, BridgeError>(
            BridgeError::OutOfBounds,
        ) && final(buffer)@ == old(buffer)@,
        offset + length <= old(buffer)@.len() ==> (r matches Ok(out) && {
            &&& out@.len() == length
            &&& final(buffer)@.len() == old(buffer)@.len()
            &&& final(buffer)@.subrange(offset as int, offset + length) == out@
            &&& forall|j: int|
                0 <= j < old(buffer)@.len() && !(offset <= j < offset + length)
                    ==> final(buffer)@[j] == old(buffer)@[j]
        }),
{
    let view: SliceView = match validate(buffer.len(), offset, length) {
        Ok(v) => v,
        Err(e) => {
            return Err(e);
        },
    };
    let mut filled = copy_view(buffer, view);
    fill_random(&mut filled);
    write_view(buffer, view, &filled);
    Ok(filled)
}

} // verus!
