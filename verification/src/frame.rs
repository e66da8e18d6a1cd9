use vstd::prelude::*;

use crate::decode::{
    lemma_view_outs_push, spec_token_to_py, token_to_py, view_outs, PyOut, ToPyError,
};
use crate::token::Token;

verus! {

pub open spec fn min(a: int, b: int) -> int {
    if a <= b {
        a
    } else {
        b
    }
}

/// Copies `bytes` into the two free regions of a ring buffer: as much as fits
/// into `first`, then as much of the rest as fits into `second`. Bytes that fit in
/// neither are dropped. Returns how many bytes went into each region.
pub fn fill_writable(bytes: &[u8], first: &mut [u8], second: &mut [u8]) -> (r: (usize, usize))
    ensures
        r.0 == min(bytes@.len() as int, old(first)@.len() as int),
        r.1 == if r.0 < bytes@.len() {
            min(bytes@.len() - r.0, old(second)@.len() as int)
        } else {
            0
        },
        final(first)@ == bytes@.subrange(0, r.0 as int) + old(first)@.subrange(
            r.0 as int,
            old(first)@.len() as int,
        ),
        final(second)@ == bytes@.subrange(r.0 as int, r.0 + r.1) + old(second)@.subrange(
            r.1 as int,
            old(second)@.len() as int,
        ),
        // Together the regions take the longest prefix of `bytes` that fits, in order.
        r.0 + r.1 == min(bytes@.len() as int, (old(first)@.len() + old(second)@.len()) as int),
        final(first)@.subrange(0, r.0 as int) + final(second)@.subrange(0, r.1 as int)
            == bytes@.subrange(0, r.0 + r.1),
{
    let n: usize = if bytes.len() < first.len() {
        bytes.len()
    } else {
        first.len()
    };
    let mut i: usize = 0;
    while i < n
        invariant
            n <= bytes@.len(),
            n <= first@.len(),
            first@.len() == old(first)@.len(),
            i <= n,
            forall|j: int| 0 <= j < i ==> first@[j] == bytes@[j],
            forall|j: int| i <= j < first@.len() ==> first@[j] == old(first)@[j],
        decreases n - i,
    {
        first[i] = bytes[i];
        i += 1;
    }
    let mut m: usize = 0;
    if n < bytes.len() {
        let rest = bytes.len() - n;
        m = if rest < second.len() {
            rest
        } else {
            second.len()
        };
        let mut j: usize = 0;
        while j < m
            invariant
                n + m <= bytes.len(),
                m <= second@.len(),
                second@.len() == old(second)@.len(),
                j <= m,
                forall|k: int| 0 <= k < j ==> second@[k] == bytes@[n + k],
                forall|k: int| j <= k < second@.len() ==> second@[k] == old(second)@[k],
            decreases m - j,
        {
            second[j] = bytes[n + j];
            j += 1;
        }
    }
    assert(first@ =~= bytes@.subrange(0, n as int) + old(first)@.subrange(
        n as int,
        old(first)@.len() as int,
    ));
    assert(second@ =~= bytes@.subrange(n as int, n + m) + old(second)@.subrange(
        m as int,
        old(second)@.len() as int,
    ));
    assert(first@.subrange(0, n as int) + second@.subrange(0, m as int) =~= bytes@.subrange(
        0,
        n + m,
    ));
    (n, m)
}

/// The decoding side of a byte stream: how large a buffer one frame is copied
/// out into, and the sync marker that starts each frame.
pub struct StreamDecoder {
    capacity: usize,
    out_buf_size: usize,
    sync: Vec<u8>,
}

impl StreamDecoder {
    pub closed spec fn spec_capacity(&self) -> usize {
        self.capacity
    }

    pub closed spec fn spec_out_buf_size(&self) -> usize {
        self.out_buf_size
    }

    pub closed spec fn spec_sync(&self) -> Seq<u8> {
        self.sync@
    }

    /// A decoder over a ring buffer of `capacity` bytes, whose frames start with
    /// `sync`; a frame is copied out into a buffer of half the capacity.
    pub fn new(capacity: usize, sync: &[u8]) -> (r: Self)
        ensures
            r.spec_capacity() == capacity,
            r.spec_out_buf_size() == capacity / 2,
            r.spec_sync() == sync@,
    {
        let mut v: Vec<u8> = Vec::new();
        let mut i: usize = 0;
        while i < sync.len()
            invariant
                i <= sync@.len(),
                v@ == sync@.subrange(0, i as int),
            decreases sync.len() - i,
        {
            v.push(sync[i]);
            i += 1;
            assert(v@ =~= sync@.subrange(0, i as int));
        }
        assert(sync@.subrange(0, sync@.len() as int) =~= sync@);
        StreamDecoder { capacity, out_buf_size: capacity / 2, sync: v }
    }

    /// The capacity of the ring buffer.
    pub fn capacity(&self) -> (r: usize)
        ensures
            r == self.spec_capacity(),
    {
        self.capacity
    }

    /// The size of the buffer one frame is copied out into.
    pub fn out_buf_size(&self) -> (r: usize)
        ensures
            r == self.spec_out_buf_size(),
    {
        self.out_buf_size
    }

    /// The sync marker that starts each frame.
    pub fn sync(&self) -> (r: &[u8])
        ensures
            r@ == self.spec_sync(),
    {
        self.sync.as_slice()
    }

    /// Feeds `bytes` into the two free regions of the ring buffer (see
    /// `fill_writable`) and returns the zeroed buffer that frames are copied out into.
    pub fn push(&self, bytes: &[u8], first: &mut [u8], second: &mut [u8]) -> (r: (
        usize,
        usize,
        Vec<u8>,
    ))
        ensures
            r.0 == min(bytes@.len() as int, old(first)@.len() as int),
            r.1 == if r.0 < bytes@.len() {
                min(bytes@.len() - r.0, old(second)@.len() as int)
            } else {
                0
            },
            final(first)@ == bytes@.subrange(0, r.0 as int) + old(first)@.subrange(
                r.0 as int,
                old(first)@.len() as int,
            ),
            final(second)@ == bytes@.subrange(r.0 as int, r.0 + r.1) + old(second)@.subrange(
                r.1 as int,
                old(second)@.len() as int,
            ),
            r.2@ == Seq::new(self.spec_out_buf_size() as nat, |i: int| 0u8),
    {
        let (n, m) = fill_writable(bytes, first, second);
        let mut out: Vec<u8> = Vec::new();
        let mut i: usize = 0;
        while i < self.out_buf_size
            invariant
                i <= self.out_buf_size,
                out@ == Seq::new(i as nat, |k: int| 0u8),
            decreases self.out_buf_size - i,
        {
            out.push(0u8);
            i += 1;
            assert(out@ =~= Seq::new(i as nat, |k: int| 0u8));
        }
        (n, m, out)
    }

    /// Takes one decoded frame: its Python value is appended to `frames`; a frame
    /// that cannot be shown as a Python value is an error and `frames` is kept.
    pub fn take_frame(&self, frames: &mut Vec<PyOut>, token: &Token) -> (r: Result<(), ToPyError>)
        ensures
            match spec_token_to_py(token@) {
                Ok(o) => r is Ok && view_outs(final(frames)@) == view_outs(old(frames)@).push(o),
                Err(e) => r == Err::<(), ToPyError>(e) && final(frames)@ == old(frames)@,
            },
    {
        match token_to_py(token) {
            Ok(o) => {
                proof {
                    lemma_view_outs_push(frames@, o);
                }
                frames.push(o);
                Ok(())
            },
            Err(e) => Err(e),
        }
    }
}

} // verus!
