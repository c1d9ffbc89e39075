//! A pool of pre-allocated, zero-filled byte buffers for received datagrams and
//! encoded audio.
use vstd::prelude::*;
use bytes::BytesMut;

verus! {

#[verifier::external_type_specification]
#[verifier::external_body]
pub struct ExBytesMut(BytesMut);

/// The bytes a `BytesMut` holds.
pub uninterp spec fn bytes_mut_contents(b: BytesMut) -> Seq<u8>;

/// `n` zero bytes.
pub open spec fn zeros(n: nat) -> Seq<u8> {
    Seq::new(n, |i: int| 0u8)
}

/// `BytesMut::zeroed`: the contract claims the buffer holds exactly `len` zero bytes,
/// which is what its source builds (`vec![0; len]`).
#[verifier::external_body]
fn zeroed_bytes(len: usize) -> (b: BytesMut)
    ensures
        bytes_mut_contents(b) == zeros(len as nat),
{
    BytesMut::zeroed(len)
}

/// Buffers of `bytes_capacity` zero bytes, refilled by `pool_size + 1` at a time.
pub struct BytesPool {
    pool_size: usize,
    bytes_capacity: usize,
    reserve: Vec<BytesMut>,
}

impl BytesPool {
    pub closed spec fn spec_pool_size(&self) -> usize {
        self.pool_size
    }

    pub closed spec fn spec_bytes_capacity(&self) -> usize {
        self.bytes_capacity
    }

    /// Number of buffers ready to hand out.
    pub closed spec fn spec_reserve_len(&self) -> nat {
        self.reserve@.len()
    }

    /// Every buffer in reserve is zero-filled and `bytes_capacity` long.
    pub closed spec fn wf(&self) -> bool {
        forall|i: int| 0 <= i < self.reserve@.len() ==> bytes_mut_contents(#[trigger] self.reserve@[i]) == zeros(
            self.bytes_capacity as nat,
        )
    }

    /// A pool holding `pool_size` buffers of `bytes_capacity` zero bytes.
    pub fn new(pool_size: usize, bytes_capacity: usize) -> (p: Self)
        ensures
            p.wf(),
            p.spec_pool_size() == pool_size,
            p.spec_bytes_capacity() == bytes_capacity,
            p.spec_reserve_len() == pool_size,
    {
        let mut reserve: Vec<BytesMut> = Vec::new();
        let mut i: usize = 0;
        while i < pool_size
            invariant
                i <= pool_size,
                reserve@.len() == i,
                forall|k: int| 0 <= k < reserve@.len() ==> bytes_mut_contents(#[trigger] reserve@[k]) == zeros(
                    bytes_capacity as nat,
                ),
            decreases pool_size - i,
        {
            reserve.push(zeroed_bytes(bytes_capacity));
            i = i + 1;
        }
        BytesPool { pool_size, bytes_capacity, reserve }
    }

    /// Hands out a zero-filled buffer of `bytes_capacity` bytes: one from the reserve
    /// when there is one; otherwise the reserve is refilled with `pool_size + 1`
    /// buffers and a fresh one is returned.
    pub fn get_bytes_mut(&mut self) -> (b: BytesMut)
        requires
            old(self).wf(),
        ensures
            final(self).wf(),
            bytes_mut_contents(b) == zeros(old(self).spec_bytes_capacity() as nat),
            final(self).spec_pool_size() == old(self).spec_pool_size(),
            final(self).spec_bytes_capacity() == old(self).spec_bytes_capacity(),
            final(self).spec_reserve_len() == (if old(self).spec_reserve_len() > 0 {
                old(self).spec_reserve_len() - 1
            } else {
                old(self).spec_pool_size() + 1
            }),
    {
        match self.reserve.pop() {
            Some(bytes) => {
                proof {
                    assert(bytes == old(self).reserve@[old(self).reserve@.len() - 1]);
                }
                bytes
            },
            None => {
                let mut k: usize = 0;
                loop
                    invariant_except_break
                        k <= self.pool_size,
                        self.reserve@.len() == k,
                    invariant
                        self.pool_size == old(self).pool_size,
                        self.bytes_capacity == old(self).bytes_capacity,
                        self.wf(),
                    ensures
                        self.reserve@.len() == self.pool_size + 1,
                    decreases self.pool_size - k,
                {
                    self.reserve.push(zeroed_bytes(self.bytes_capacity));
                    if k == self.pool_size {
                        break;
                    }
                    k = k + 1;
                }
                zeroed_bytes(self.bytes_capacity)
            },
        }
    }
}

} // verus!
