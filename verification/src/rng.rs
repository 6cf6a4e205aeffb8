//! The random number generator, seeded from a 64-bit seed.
use vstd::prelude::*;
use rand::{RngCore, SeedableRng};

verus! {

#[verifier::external_type_specification]
#[verifier::external_body]
pub struct ExStdRng(rand::rngs::StdRng);

/// The 32-byte seed that stands for a 64-bit seed: its eight bytes, most significant
/// first, then zeros.
pub open spec fn seed_bytes(seed: u64) -> Seq<u8> {
    seq![
        (seed / 0x100_0000_0000_0000) as u8,
        (seed / 0x1_0000_0000_0000 % 0x100) as u8,
        (seed / 0x100_0000_0000 % 0x100) as u8,
        (seed / 0x1_0000_0000 % 0x100) as u8,
        (seed / 0x100_0000 % 0x100) as u8,
        (seed / 0x1_0000 % 0x100) as u8,
        (seed / 0x100 % 0x100) as u8,
        (seed % 0x100) as u8,
    ] + Seq::new(24, |i: int| 0u8)
}

/// The 32-byte seed of `seed_bytes`.
pub fn seed256(seed: u64) -> (res: [u8; 32])
    ensures
        res@ == seed_bytes(seed),
{
    let res: [u8; 32] = [
        (seed / 0x100_0000_0000_0000) as u8,
        (seed / 0x1_0000_0000_0000 % 0x100) as u8,
        (seed / 0x100_0000_0000 % 0x100) as u8,
        (seed / 0x1_0000_0000 % 0x100) as u8,
        (seed / 0x100_0000 % 0x100) as u8,
        (seed / 0x1_0000 % 0x100) as u8,
        (seed / 0x100 % 0x100) as u8,
        (seed % 0x100) as u8,
        0, 0, 0, 0, 0, 0, 0, 0,
        0, 0, 0, 0, 0, 0, 0, 0,
        0, 0, 0, 0, 0, 0, 0, 0,
    ];
    assert(res@ =~= seed_bytes(seed));
    res
}

/// Calls `rand::rngs::StdRng::from_seed`: the generator whose state starts from `seed`.
/// Its state is not visible here, so nothing is stated of the result.
#[verifier::external_body]
fn std_rng_from_seed(seed: [u8; 32]) -> rand::rngs::StdRng {
    rand::rngs::StdRng::from_seed(seed)
}

/// Calls `RngCore::next_u32` of `StdRng`: the next random number; any `u32` may come.
#[verifier::external_body]
fn std_rng_next_u32(rng: &mut rand::rngs::StdRng) -> u32 {
    rng.next_u32()
}

/// Calls `RngCore::next_u64` of `StdRng`: the next random number; any `u64` may come.
#[verifier::external_body]
fn std_rng_next_u64(rng: &mut rand::rngs::StdRng) -> u64 {
    rng.next_u64()
}

/// Calls `RngCore::fill_bytes` of `StdRng`: fills `dest` with random bytes, keeping
/// its length; which bytes come is not stated.
#[verifier::external_body]
fn std_rng_fill_bytes(rng: &mut rand::rngs::StdRng, dest: &mut Vec<u8>)
    ensures
        final(dest)@.len() == old(dest)@.len(),
{
    rng.fill_bytes(dest.as_mut_slice())
}

/// The random number generator of the benchmarks.
pub struct ArcRng {
    inner: rand::rngs::StdRng,
    /// The 32 bytes that the standard generator was seeded with.
    seed: Ghost<Seq<u8>>,
}

impl ArcRng {
    /// The 32 bytes that the standard generator inside was seeded with.
    pub closed spec fn seed(&self) -> Seq<u8> {
        self.seed@
    }

    /// Makes a new generator with the given random seed: the standard generator seeded with
    /// the 32 bytes of `seed_bytes(seed)`.
    pub fn new(seed: u64) -> (res: Self)
        ensures
            res.seed() == seed_bytes(seed),
    {
        let bytes = seed256(seed);
        let ghost used = bytes@;
        ArcRng { inner: std_rng_from_seed(bytes), seed: Ghost(used) }
    }

    /// The next random `u32`.
    pub fn next_u32(&mut self) -> u32 {
        std_rng_next_u32(&mut self.inner)
    }

    /// The next random `u64`.
    pub fn next_u64(&mut self) -> u64 {
        std_rng_next_u64(&mut self.inner)
    }

    /// Fills `dest` with random bytes.
    pub fn fill_bytes(&mut self, dest: &mut Vec<u8>)
        ensures
            final(dest)@.len() == old(dest)@.len(),
    {
        std_rng_fill_bytes(&mut self.inner, dest)
    }
}

} // verus!
