//! The unit of relayed data: between one and 512 opaque bytes.

use vstd::prelude::*;

verus! {

/// The size of the ingress read buffer, and so the largest chunk.
pub const MAX_CHUNK: usize = 512;

/// Whether `len` is a length that a chunk may have.
pub open spec fn valid_len(len: nat) -> bool {
    1 <= len <= MAX_CHUNK
}

/// An immutable run of bytes, handed to every subscriber unchanged.
pub struct Chunk {
    bytes: Vec<u8>,
}

impl View for Chunk {
    type V = Seq<u8>;

    closed spec fn view(&self) -> Seq<u8> {
        self.bytes@
    }
}

impl Chunk {
    /// Every chunk holds between one and 512 bytes.
    #[verifier::type_invariant]
    closed spec fn bounded(self) -> bool {
        valid_len(self.bytes@.len())
    }

    /// The first `n` bytes of a read buffer as a chunk. A read of no bytes, or
    /// a count that the buffer or the chunk limit cannot hold, gives no chunk.
    pub fn from_read(buf: &[u8], n: usize) -> (out: Option<Chunk>)
        ensures
            out.is_some() <==> (valid_len(n as nat) && n <= buf@.len()),
            out.is_some() ==> out.unwrap()@ == buf@.subrange(0, n as int),
    {
        if n == 0 || n > MAX_CHUNK || n > buf.len() {
            return None;
        }
        let mut bytes: Vec<u8> = Vec::new();
        let mut i: usize = 0;
        while i < n
            invariant
                i <= n <= buf@.len(),
                bytes@ == buf@.subrange(0, i as int),
            decreases n - i,
        {
            bytes.push(buf[i]);
            i += 1;
        }
        Some(Chunk { bytes })
    }

    /// The number of bytes held.
    pub fn len(&self) -> (n: usize)
        ensures
            n == self@.len(),
            valid_len(n as nat),
    {
        proof {
            use_type_invariant(self);
        }
        self.bytes.len()
    }

    /// The bytes held.
    pub fn as_slice(&self) -> (s: &[u8])
        ensures
            s@ == self@,
    {
        self.bytes.as_slice()
    }

    /// A copy of the chunk, byte for byte.
    pub fn duplicate(&self) -> (out: Chunk)
        ensures
            out@ == self@,
    {
        proof {
            use_type_invariant(self);
        }
        Chunk { bytes: self.bytes.clone() }
    }
}

} // verus!
