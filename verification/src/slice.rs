//! Bounds-checked windows into script-supplied byte buffers.
//!
//! Offsets and lengths arrive from a dynamically-typed caller and are
//! untrusted: the validator is the mandatory gate every bridge entry point
//! passes before any byte of the buffer is touched.  The bounds check uses
//! overflow-safe arithmetic, so an `offset + length` that wraps is rejected
//! like any other out-of-range pair.

use vstd::prelude::*;

use crate::errors::BridgeError;

verus! {

/// A validated window `[offset, offset + length)` into a byte buffer.
///
/// A `SliceView` is only handed out by [`validate`], so holding one over a
/// buffer of the checked length means the whole window is in bounds.
#[derive(Debug, Clone, Copy, PartialEq, Eq, Structural)]
pub struct SliceView {
    pub offset: usize,
    pub length: usize,
}

impl SliceView {
    /// The window lies entirely inside a buffer of `buffer_len` bytes.
    pub open spec fn in_bounds(self, buffer_len: nat) -> bool {
        self.offset + self.length <= buffer_len
    }

    /// One past the last index of the window.
    pub open spec fn end(self) -> int {
        self.offset + self.length
    }
}

/// Checks that `[offset, offset + length)` lies inside a buffer of
/// `buffer_len` bytes and returns the window, or fails with `OutOfBounds`.
///
/// The check never overflows: it compares against the remaining room after
/// `offset` instead of forming the sum.
pub fn validate(buffer_len: usize, offset: usize, length: usize) -> (r: Result<
    SliceView,
    BridgeError,
>)
    ensures
        offset + length <= buffer_len ==> r == Ok::<SliceView, BridgeError>(
            SliceView { offset, length },
        ),
        offset + length > buffer_len ==> r == Err::<SliceView, BridgeError>(
            BridgeError::OutOfBounds,
        ),
{
    if offset <= buffer_len && length <= buffer_len - offset {
        Ok(SliceView { offset, length })
    } else {
        Err(BridgeError::OutOfBounds)
    }
}

/// Copies the bytes of a validated window out of `buffer` into a fresh,
/// owned byte sequence.
pub fn copy_view(buffer: &Vec<u8>, view: SliceView) -> (r: Vec<u8>)
    requires
        view.in_bounds(buffer@.len()),
    ensures
        r@ == buffer@.subrange(view.offset as int, view.end()),
{
    let blen: usize = buffer.len();
    let mut out: Vec<u8> = Vec::new();
    let mut i: usize = 0;
    while i < view.length
        invariant
            i <= view.length,
            view.in_bounds(buffer@.len()),
            buffer@.len() == blen,
            out@ == buffer@.subrange(view.offset as int, view.offset + i),
        decreases view.length - i,
    {
        out.push(buffer[view.offset + i]);
        i = i + 1;
        proof {
            assert(out@ =~= buffer@.subrange(view.offset as int, view.offset + i));
        }
    }
    proof {
        assert(out@ =~= buffer@.subrange(view.offset as int, view.end()));
    }
    out
}

/// Overwrites the validated window of `buffer` with `bytes`, leaving every
/// byte outside the window untouched.
pub fn write_view(buffer: &mut Vec<u8>, view: SliceView, bytes: &Vec<u8>)
    requires
        view.in_bounds(old(buffer)@.len()),
        bytes@.len() == view.length,
    ensures
        final(buffer)@.len() == old(buffer)@.len(),
        final(buffer)@.subrange(view.offset as int, view.end()) == bytes@,
        forall|j: int|
            0 <= j < old(buffer)@.len() && !(view.offset <= j < view.end())
                ==> final(buffer)@[j] == old(buffer)@[j],
{
    let blen: usize = buffer.len();
    let mut i: usize = 0;
    while i < view.length
        invariant
            i <= view.length,
            view.in_bounds(buffer@.len()),
            bytes@.len() == view.length,
            buffer@.len() == blen,
            buffer@.len() == old(buffer)@.len(),
            forall|j: int|
                view.offset <= j < view.offset + i ==> buffer@[j] == bytes@[j - view.offset],
            forall|j: int|
                0 <= j < old(buffer)@.len() && !(view.offset <= j < view.offset + i)
                    ==> buffer@[j] == old(buffer)@[j],
        decreases view.length - i,
    {
        buffer.set(view.offset + i, bytes[i]);
        i = i + 1;
    }
    proof {
        assert(final(buffer)@.subrange(view.offset as int, view.end()) =~= bytes@);
    }
}

} // verus!
