//! Deterministic random number generation.

use std::collections::hash_map::DefaultHasher;
use std::collections::HashMap;
use std::hash::Hasher;
use vstd::prelude::*;
use vstd::std_specs::hash::DefaultHasherAdditionalSpecFns;

verus! {

/// The little-endian bytes of a 32-bit value.
pub open spec fn spec_u32_bytes(x: u32) -> Seq<u8> {
    seq![
        (x % 256) as u8,
        ((x / 256) % 256) as u8,
        ((x / 0x10000) % 256) as u8,
        ((x / 0x1000000) % 256) as u8,
    ]
}

/// The little-endian bytes of a 64-bit value.
pub open spec fn spec_u64_bytes(x: u64) -> Seq<u8> {
    seq![
        (x % 256) as u8,
        ((x / 256) % 256) as u8,
        ((x / 0x10000) % 256) as u8,
        ((x / 0x1000000) % 256) as u8,
        ((x / 0x100000000) % 256) as u8,
        ((x / 0x10000000000) % 256) as u8,
        ((x / 0x1000000000000) % 256) as u8,
        ((x / 0x100000000000000) % 256) as u8,
    ]
}

/// The 64-bit draw that the hash-based generator derives from one
/// `(year, index, usage)` tuple: the stable hash of the three values,
/// written in that order. Identical tuples always yield identical draws.
pub open spec fn spec_hash_draw(year: u32, index: usize, usage: u32) -> u64 {
    DefaultHasher::spec_finish(
        seq![spec_u32_bytes(year), spec_u64_bytes(index as u64), spec_u32_bytes(usage)],
    )
}

fn u32_le_bytes(x: u32) -> (bytes: Vec<u8>)
    ensures
        bytes@ == spec_u32_bytes(x),
{
    let mut bytes: Vec<u8> = Vec::new();
    bytes.push((x % 256) as u8);
    bytes.push(((x / 256) % 256) as u8);
    bytes.push(((x / 0x10000) % 256) as u8);
    bytes.push(((x / 0x1000000) % 256) as u8);
    proof {
        assert(bytes@ =~= spec_u32_bytes(x));
    }
    bytes
}

fn u64_le_bytes(x: u64) -> (bytes: Vec<u8>)
    ensures
        bytes@ == spec_u64_bytes(x),
{
    let mut bytes: Vec<u8> = Vec::new();
    bytes.push((x % 256) as u8);
    bytes.push(((x / 256) % 256) as u8);
    bytes.push(((x / 0x10000) % 256) as u8);
    bytes.push(((x / 0x1000000) % 256) as u8);
    bytes.push(((x / 0x100000000) % 256) as u8);
    bytes.push(((x / 0x10000000000) % 256) as u8);
    bytes.push(((x / 0x1000000000000) % 256) as u8);
    bytes.push(((x / 0x100000000000000) % 256) as u8);
    proof {
        assert(bytes@ =~= spec_u64_bytes(x));
    }
    bytes
}

/// A deterministic source of random numbers: identical inputs always yield
/// identical draws, which makes simulation runs reproducible.
#[derive(Clone, Debug)]
pub enum RandomNumberGenerator {
    /// Derives each draw from the tuple `(year, index, usage)` via a stable,
    /// order-sensitive hash. `usage` disambiguates independent rolls against
    /// the same index within one year.
    Hash { year: u32, usage: u32 },
    /// An explicit lookup table plus a default value, for deterministic tests.
    Mock { values: HashMap<usize, u64>, default: u64 },
}

impl RandomNumberGenerator {
    /// The raw 64-bit draw for `index`.
    pub open spec fn spec_next(&self, index: usize) -> u64 {
        match self {
            RandomNumberGenerator::Hash { year, usage } => spec_hash_draw(*year, index, *usage),
            RandomNumberGenerator::Mock { values, default } => if values@.contains_key(index) {
                values@[index]
            } else {
                *default
            },
        }
    }

    /// The draw for `index`, reduced modulo `max`.
    pub open spec fn spec_generate(&self, index: usize, max: nat) -> nat {
        self.spec_next(index) as nat % max
    }

    pub fn new_hash(year: u32, usage: u32) -> (rng: Self)
        ensures
            rng == (RandomNumberGenerator::Hash { year, usage }),
    {
        Self::Hash { year, usage }
    }

    /// Generates a number between 0 and exclusive the maximum.
    pub fn generate(&self, index: usize, max: u32) -> (number: u32)
        requires
            max > 0,
        ensures
            number == self.spec_generate(index, max as nat),
            number < max,
    {
        let number = self.next(index) % (max as u64);
        number as u32
    }

    fn next(&self, index: usize) -> (draw: u64)
        ensures
            draw == self.spec_next(index),
    {
        match self {
            Self::Hash { year, usage } => {
                let mut hasher = DefaultHasher::new();
                let year_bytes = u32_le_bytes(*year);
                let index_bytes = u64_le_bytes(index as u64);
                let usage_bytes = u32_le_bytes(*usage);
                hasher.write(year_bytes.as_slice());
                hasher.write(index_bytes.as_slice());
                hasher.write(usage_bytes.as_slice());
                proof {
                    assert(hasher@ =~= seq![
                        spec_u32_bytes(*year),
                        spec_u64_bytes(index as u64),
                        spec_u32_bytes(*usage),
                    ]);
                }
                hasher.finish()
            },
            Self::Mock { values, default } => {
                match values.get(&index) {
                    Some(value) => *value,
                    None => *default,
                }
            },
        }
    }
}

} // verus!
