//! A small builder that folds fixed-size byte segments into a 32-byte
//! buffer and digests the buffer, used to derive account identifiers.
//!
//! Each folded segment keeps the upper half of the incoming segment and the
//! lower half of the buffer so far; the final digest is the blake2b-256 of
//! the buffer.

use vstd::prelude::*;

verus! {

/// What the digest of the accumulated buffer is: the blake2b-256 hash, a
/// function of the input bytes alone.
pub uninterp spec fn blake2b256_of(input: Seq<u8>) -> Seq<u8>;

/// Relies on `ink::env::hash_bytes::<Blake2x256>`: it computes the
/// blake2b-256 digest of the input, 32 bytes that depend on the input bytes
/// alone.
#[verifier::external_body]
fn blake2b_256(input: &Vec<u8>) -> (r: Vec<u8>)
    ensures
        r@ == blake2b256_of(input@),
        r@.len() == 32,
{
    let mut output = <ink::env::hash::Blake2x256 as ink::env::hash::HashOutput>::Type::default();
    ink::env::hash_bytes::<ink::env::hash::Blake2x256>(input.as_slice(), &mut output);
    output.to_vec()
}

/// An accumulator of 32-byte segments that can be finished into a digest.
pub trait Builder: Sized {
    type OutputType;

    /// The bytes the builder has accumulated.
    spec fn segments(self) -> Seq<u8>;

    /// Folds one 32-byte segment into the accumulator: the upper half of
    /// the segment followed by the lower half of the buffer so far.
    fn add_segment(self, input: &[u8]) -> (r: Self)
        requires
            input@.len() == 32,
            self.segments().len() == 32,
        ensures
            r.segments() == input@.subrange(16, 32) + self.segments().subrange(0, 16),
    ;

    /// Finishes the accumulator into its output.
    fn build(self) -> Self::OutputType
        requires
            self.segments().len() == 32,
    ;
}

/// A [`Builder`] whose output is the blake2b-256 digest of its buffer.
pub struct HashBuilder {
    buffer: Vec<u8>,
}

impl HashBuilder {
    /// The buffer always holds exactly 32 bytes.
    pub closed spec fn wf(self) -> bool {
        self.buffer@.len() == 32
    }
}

impl Default for HashBuilder {
    /// A builder over an all-zero buffer.
    fn default() -> (r: Self)
        ensures
            r.wf(),
            r.segments() == Seq::new(32, |i: int| 0u8),
    {
        let mut buffer: Vec<u8> = Vec::new();
        let mut i: usize = 0;
        while i < 32
            invariant
                i <= 32,
                buffer@ =~= Seq::new(i as nat, |j: int| 0u8),
            decreases 32 - i,
        {
            buffer.push(0u8);
            i += 1;
        }
        proof {
            assert(buffer@ =~= Seq::new(32, |i: int| 0u8));
        }
        HashBuilder { buffer }
    }
}

impl Builder for HashBuilder {
    type OutputType = Vec<u8>;

    closed spec fn segments(self) -> Seq<u8> {
        self.buffer@
    }

    fn add_segment(self, input: &[u8]) -> (r: Self) {
        let mut buffer: Vec<u8> = Vec::new();
        let mut i: usize = 0;
        while i < 16
            invariant
                i <= 16,
                input@.len() == 32,
                buffer@ =~= input@.subrange(16, 16 + i as int),
            decreases 16 - i,
        {
            buffer.push(input[16 + i]);
            i += 1;
        }
        let mut j: usize = 0;
        while j < 16
            invariant
                j <= 16,
                input@.len() == 32,
                self.buffer@.len() == 32,
                buffer@ =~= input@.subrange(16, 32) + self.buffer@.subrange(0, j as int),
            decreases 16 - j,
        {
            buffer.push(self.buffer[j]);
            j += 1;
        }
        proof {
            assert(buffer@ =~= input@.subrange(16, 32) + self.buffer@.subrange(0, 16));
        }
        HashBuilder { buffer }
    }

    /// The blake2b-256 digest of the accumulated buffer.
    fn build(self) -> Self::OutputType {
        blake2b_256(&self.buffer)
    }
}

/// The blake2b-256 digest of a builder's buffer, 32 bytes.
pub fn digest_of_builder(builder: HashBuilder) -> (r: Vec<u8>)
    requires
        builder.segments().len() == 32,
    ensures
        r@ == blake2b256_of(builder.segments()),
        r@.len() == 32,
{
    blake2b_256(&builder.buffer)
}

} // verus!
