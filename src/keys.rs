//! Seeds, the byte buffers that keypairs are derived from, and the
//! generator of consecutive seeds.

use byteorder::ByteOrder;
use vstd::prelude::*;

verus! {

/// Width of the buffer that a keypair is derived from.
pub const SEED_LENGTH: usize = 32;

/// Byte `i` of `n` in little-endian order.
pub open spec fn le_byte(n: u64, i: int) -> u8 {
    ((n >> ((8 * i) as u64)) & 0xff) as u8
}

/// The eight bytes of `n`, least significant first.
pub open spec fn le_bytes(n: u64) -> Seq<u8> {
    Seq::new(8, |i: int| le_byte(n, i))
}

/// The key-derivation buffer of `seed`: its little-endian bytes, padded
/// with zeros to `SEED_LENGTH`.
pub open spec fn seed_bytes(seed: u64) -> Seq<u8> {
    le_bytes(seed) + Seq::new((SEED_LENGTH - 8) as nat, |i: int| 0u8)
}

/// Relies on byteorder's `LittleEndian::write_u64`: it copies the
/// little-endian bytes of `n` into the first eight bytes of `buf` and leaves
/// the rest alone.
#[verifier::external_body]
pub(crate) fn write_u64_le<const N: usize>(buf: &mut [u8; N], n: u64)
    requires
        N >= 8,
    ensures
        final(buf)@ == le_bytes(n) + old(buf)@.subrange(8, N as int),
{
    byteorder::LittleEndian::write_u64(buf, n)
}

/// The buffer that the keypair of `seed` is derived from.
pub fn seed_buffer(seed: u64) -> (r: [u8; SEED_LENGTH])
    ensures
        r@ == seed_bytes(seed),
{
    let mut buf = [0u8; SEED_LENGTH];
    let ghost zeros = buf@;
    write_u64_le(&mut buf, seed);
    assert(zeros.subrange(8, 32) =~= Seq::new((SEED_LENGTH - 8) as nat, |i: int| 0u8));
    buf
}


/// Distinct seeds give distinct key-derivation buffers: the encoding loses
/// nothing, so two different seeds never feed the same input to the
/// derivation of a keypair.
pub proof fn lemma_seed_bytes_injective(a: u64, b: u64)
    requires
        a != b,
    ensures
        seed_bytes(a) != seed_bytes(b),
{
    if seed_bytes(a) == seed_bytes(b) {
        assert forall|i: int| 0 <= i < 8 implies le_byte(a, i) == le_byte(b, i) by {
            assert(seed_bytes(a)[i] == seed_bytes(b)[i]);
        }
        let (a0, a1, a2, a3) = (le_byte(a, 0), le_byte(a, 1), le_byte(a, 2), le_byte(a, 3));
        let (a4, a5, a6, a7) = (le_byte(a, 4), le_byte(a, 5), le_byte(a, 6), le_byte(a, 7));
        assert(a0 == le_byte(b, 0) && a1 == le_byte(b, 1) && a2 == le_byte(b, 2));
        assert(a3 == le_byte(b, 3) && a4 == le_byte(b, 4) && a5 == le_byte(b, 5));
        assert(a6 == le_byte(b, 6) && a7 == le_byte(b, 7));
        assert(a >> 0u64 == a && b >> 0u64 == b) by (bit_vector);
        assert(a == b) by (bit_vector)
            requires
                (a & 0xff) as u8 == (b & 0xff) as u8,
                ((a >> 8) & 0xff) as u8 == ((b >> 8) & 0xff) as u8,
                ((a >> 16) & 0xff) as u8 == ((b >> 16) & 0xff) as u8,
                ((a >> 24) & 0xff) as u8 == ((b >> 24) & 0xff) as u8,
                ((a >> 32) & 0xff) as u8 == ((b >> 32) & 0xff) as u8,
                ((a >> 40) & 0xff) as u8 == ((b >> 40) & 0xff) as u8,
                ((a >> 48) & 0xff) as u8 == ((b >> 48) & 0xff) as u8,
                ((a >> 56) & 0xff) as u8 == ((b >> 56) & 0xff) as u8,
        ;
    }
}


/// One step of the seed counter: the next seed, wrapping to zero after
/// `u64::MAX`.
pub open spec fn step(seed: u64) -> u64 {
    if seed == u64::MAX {
        0
    } else {
        (seed + 1) as u64
    }
}

/// The seed that `i` steps of the counter reach from `start`.
pub open spec fn advance(start: u64, i: nat) -> u64
    decreases i,
{
    if i == 0 {
        start
    } else {
        step(advance(start, (i - 1) as nat))
    }
}

/// `start + i`, modulo 2^64.
pub open spec fn seed_at(start: u64, i: nat) -> u64 {
    ((start as int + i as int) % 0x1_0000_0000_0000_0000) as u64
}

/// An endless, deterministic sequence of keypair seeds: each step hands out
/// the current seed and moves on to the next one.
pub struct KeypairGenerator {
    seed: u64,
}

impl KeypairGenerator {
    /// The seed that the next step hands out.
    pub closed spec fn current(&self) -> u64 {
        self.seed
    }

    pub fn new(seed: u64) -> (r: Self)
        ensures
            r.current() == seed,
    {
        Self { seed }
    }

    /// Hands out the current seed and advances the counter by one, wrapping
    /// on overflow.
    pub fn next_seed(&mut self) -> (r: u64)
        ensures
            r == old(self).current(),
            final(self).current() == step(old(self).current()),
    {
        let r = self.seed;
        self.seed = self.seed.wrapping_add(1);
        r
    }

    /// The key-derivation buffer of the next keypair in the sequence.
    pub fn next(&mut self) -> (r: [u8; SEED_LENGTH])
        ensures
            r@ == seed_bytes(old(self).current()),
            final(self).current() == step(old(self).current()),
    {
        let seed = self.next_seed();
        seed_buffer(seed)
    }
}

/// A generator started at `start` hands out, at its step `i`, the seed
/// `start + i` (modulo 2^64): the sequence is the same as deriving a keypair
/// independently from each of `start, start + 1, ...`.
pub proof fn lemma_generator_sequence(start: u64, i: nat)
    ensures
        advance(start, i) == seed_at(start, i),
        seed_bytes(advance(start, i)) == seed_bytes(seed_at(start, i)),
    decreases i,
{
    if i > 0 {
        lemma_generator_sequence(start, (i - 1) as nat);
    }
}


/// Deriving twice from one seed gives the same buffer, so the same keypair.
pub proof fn lemma_seed_buffer_deterministic(seed: u64, a: [u8; SEED_LENGTH], b: [u8; SEED_LENGTH])
    requires
        a@ == seed_bytes(seed),
        b@ == seed_bytes(seed),
    ensures
        a@ == b@,
{
}

} // verus!
