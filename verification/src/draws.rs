//! Reproducible draws from seeded substreams.

use crate::deterministic::derive_seed;
use crate::single::Single;
use crate::types::{FloatRange, U32Range};
use rand::{Rng, SeedableRng};
use rand_chacha::ChaCha20Rng;
use vstd::prelude::*;

verus! {

/// The word at a position of the ChaCha20 stream of a seed.
pub uninterp spec fn chacha_word(seed: u64, position: u64) -> u32;

/// The number that `random_range(0..total)` gives at a position of the ChaCha20 stream
/// of a seed, and the position after it.
pub uninterp spec fn chacha_below(seed: u64, position: u64, total: u64) -> (u64, u64);

/// The number that `random_range(low..=high)` gives at a position of the ChaCha20 stream
/// of a seed, and the position after it.
pub uninterp spec fn chacha_between(seed: u64, position: u64, low: u32, high: u32) -> (u32, u64);

/// Calls `rand::Rng::fill` on the generator that `ChaCha20Rng::seed_from_u64` and
/// `set_word_pos` give. It hands out the words of the stream in their order, and what they
/// are depends on seed and position alone: the stream is the keystream of a block cipher,
/// and nothing more is said of it here.
#[verifier::external_body]
fn words_at(seed: u64, position: u64) -> (r: [u32; 16])
    ensures
        forall|i: int|
            0 <= i < 16 && position + i <= u64::MAX ==> #[trigger] r@[i] == chacha_word(
                seed,
                (position + i) as u64,
            ),
{
    let mut rng = ChaCha20Rng::seed_from_u64(seed);
    rng.set_word_pos(position as u128);
    let mut words = [0u32; 16];
    rng.fill(&mut words);
    words
}

/// Calls `rand::Rng::random_range(0..total)` on the generator that `seed_from_u64` and
/// `set_word_pos` give, and then `get_word_pos`. The number lies in the range, and number
/// and new position depend on seed, position and range alone. An empty range would panic.
#[verifier::external_body]
fn below_at(seed: u64, position: u64, total: u64) -> (r: (u64, u64))
    requires
        total > 0,
    ensures
        r == chacha_below(seed, position, total),
        r.0 < total,
{
    let mut rng = ChaCha20Rng::seed_from_u64(seed);
    rng.set_word_pos(position as u128);
    let value = rng.random_range(0..total);
    (value, rng.get_word_pos() as u64)
}

/// Calls `rand::Rng::random_range(low..=high)` on the generator that `seed_from_u64` and
/// `set_word_pos` give, and then `get_word_pos`. The number lies in the range, and number
/// and new position depend on seed, position and range alone. An empty range would panic.
#[verifier::external_body]
fn between_at(seed: u64, position: u64, low: u32, high: u32) -> (r: (u32, u64))
    requires
        low <= high,
    ensures
        r == chacha_between(seed, position, low, high),
        low <= r.0 <= high,
{
    let mut rng = ChaCha20Rng::seed_from_u64(seed);
    rng.set_word_pos(position as u128);
    let value = rng.random_range(low..=high);
    (value, rng.get_word_pos() as u64)
}

/// A number in `[0, 1)` on a grid of `2^-24`, from the upper bits of a word.
pub open spec fn spec_unit_of(word: u32) -> Single {
    Single::ratio(1, 16_777_216).times(Single::from_u32(word >> 8))
}

/// A number in `[0, 1)` on a grid of `2^-24`, from the upper bits of a word.
#[verifier::when_used_as_spec(spec_unit_of)]
pub fn unit_of(word: u32) -> (r: Single)
    ensures
        r == spec_unit_of(word),
{
    Single::ratio(1, 16_777_216).times(Single::from_u32(word >> 8))
}

/// A fair coin, from the highest bit of a word.
pub open spec fn spec_coin_of(word: u32) -> bool {
    word >= 0x8000_0000
}

/// A fair coin, from the highest bit of a word.
#[verifier::when_used_as_spec(spec_coin_of)]
pub fn coin_of(word: u32) -> (r: bool)
    ensures
        r == spec_coin_of(word),
{
    word >= 0x8000_0000
}

/// One for heads and minus one for tails.
pub open spec fn spec_sign_of(coin: bool) -> Single {
    if coin {
        Single::one()
    } else {
        Single::ratio((-1) as i32, 1)
    }
}

/// One for heads and minus one for tails.
#[verifier::when_used_as_spec(spec_sign_of)]
pub fn sign_of(coin: bool) -> (r: Single)
    ensures
        r == spec_sign_of(coin),
{
    if coin {
        Single::one()
    } else {
        Single::ratio((-1) as i32, 1)
    }
}

/// A place in the ChaCha20 stream of a seed.
#[derive(Clone, Copy, Debug, PartialEq, Eq, Structural)]
pub struct Draws {
    /// Seed of the stream.
    pub seed: u64,
    /// Words of the stream that are used up.
    pub position: u64,
}

impl Draws {
    /// The start of a named substream of a root seed.
    pub open spec fn spec_of(root_seed: u64, domain: &str) -> Draws {
        Draws { seed: crate::deterministic::derived_seed(root_seed, domain@), position: 0 }
    }

    /// The start of a named substream of a root seed.
    #[verifier::when_used_as_spec(spec_of)]
    pub fn of(root_seed: u64, domain: &str) -> (r: Draws)
        ensures
            r == Draws::spec_of(root_seed, domain),
    {
        Draws { seed: derive_seed(root_seed, domain), position: 0 }
    }

    /// The place after `count` more words.
    pub open spec fn spec_skip(self, count: u64) -> Draws {
        Draws { seed: self.seed, position: self.position.wrapping_add(count) }
    }

    /// The place after `count` more words.
    #[verifier::when_used_as_spec(spec_skip)]
    pub fn skip(self, count: u64) -> (r: Draws)
        ensures
            r == self.spec_skip(count),
    {
        Draws { seed: self.seed, position: self.position.wrapping_add(count) }
    }

    /// The next word.
    pub open spec fn spec_word(self) -> u32 {
        chacha_word(self.seed, self.position)
    }

    /// The next word.
    #[verifier::when_used_as_spec(spec_word)]
    pub fn word(self) -> (r: u32)
        ensures
            r == self.spec_word(),
    {
        let words = words_at(self.seed, self.position);
        words[0]
    }

    /// The next sixteen words.
    pub fn words(self) -> (r: [u32; 16])
        ensures
            r@[0] == self.word(),
            forall|k: u64| k < 16 ==> r@[k as int] == #[trigger] self.skip(k).word(),
    {
        if self.position <= u64::MAX - 16 {
            return words_at(self.seed, self.position);
        }
        let mut r: [u32; 16] = [0; 16];
        let mut i: usize = 0;
        while i < 16
            invariant
                i <= 16,
                forall|k: u64| k < i ==> r@[k as int] == #[trigger] self.skip(k).word(),
            decreases 16 - i,
        {
            r[i] = self.skip(i as u64).word();
            i = i + 1;
        }
        assert(self.skip(0) == self);
        r
    }

    /// A number in `[0, 1)` on a grid of `2^-24`, from the next word.
    pub open spec fn spec_unit(self) -> Single {
        unit_of(self.word())
    }

    /// A number in `[0, 1)` on a grid of `2^-24`, from the next word.
    #[verifier::when_used_as_spec(spec_unit)]
    pub fn unit(self) -> (r: Single)
        ensures
            r == self.spec_unit(),
    {
        unit_of(self.word())
    }

    /// A fair coin, from the next word.
    pub open spec fn spec_coin(self) -> bool {
        coin_of(self.word())
    }

    /// A fair coin, from the next word.
    #[verifier::when_used_as_spec(spec_coin)]
    pub fn coin(self) -> (r: bool)
        ensures
            r == self.spec_coin(),
    {
        coin_of(self.word())
    }

    /// One or minus one, from the next word.
    pub open spec fn spec_sign(self) -> Single {
        sign_of(self.coin())
    }

    /// One or minus one, from the next word.
    #[verifier::when_used_as_spec(spec_sign)]
    pub fn sign(self) -> (r: Single)
        ensures
            r == self.spec_sign(),
    {
        sign_of(self.coin())
    }

    /// A number between the limits of a range, from the next word.
    pub open spec fn spec_ranged(self, range: FloatRange) -> Single {
        range.at(self.unit())
    }

    /// A number between the limits of a range, from the next word.
    #[verifier::when_used_as_spec(spec_ranged)]
    pub fn ranged(self, range: FloatRange) -> (r: Single)
        ensures
            r == self.spec_ranged(range),
    {
        range.at(self.unit())
    }

    /// A number below `total`, and the place after it.
    pub open spec fn spec_below(self, total: u64) -> (u64, Draws) {
        let drawn = chacha_below(self.seed, self.position, total);
        (drawn.0, Draws { seed: self.seed, position: drawn.1 })
    }

    /// A number below `total`, and the place after it.
    #[verifier::when_used_as_spec(spec_below)]
    pub fn below(self, total: u64) -> (r: (u64, Draws))
        requires
            total > 0,
        ensures
            r == self.spec_below(total),
            r.0 < total,
    {
        let drawn = below_at(self.seed, self.position, total);
        (drawn.0, Draws { seed: self.seed, position: drawn.1 })
    }

    /// A number between two others, and the place after it.
    pub open spec fn spec_between(self, low: u32, high: u32) -> (u32, Draws) {
        let drawn = chacha_between(self.seed, self.position, low, high);
        (drawn.0, Draws { seed: self.seed, position: drawn.1 })
    }

    /// A number between two others, and the place after it.
    #[verifier::when_used_as_spec(spec_between)]
    pub fn between(self, low: u32, high: u32) -> (r: (u32, Draws))
        requires
            low <= high,
        ensures
            r == self.spec_between(low, high),
            low <= r.0 <= high,
    {
        let drawn = between_at(self.seed, self.position, low, high);
        (drawn.0, Draws { seed: self.seed, position: drawn.1 })
    }

    /// A number inside an integer range, and the place after it. A range of one number
    /// uses no word up.
    pub open spec fn spec_counted(self, range: U32Range) -> (u32, Draws) {
        if range.min == range.max {
            (range.min, self)
        } else {
            self.between(range.min, range.max)
        }
    }

    /// A number inside an integer range, and the place after it. A range of one number
    /// uses no word up.
    #[verifier::when_used_as_spec(spec_counted)]
    pub fn counted(self, range: U32Range) -> (r: (u32, Draws))
        requires
            range.is_valid(),
        ensures
            r == self.spec_counted(range),
            range.min <= r.0 <= range.max,
    {
        if range.min == range.max {
            (range.min, self)
        } else {
            self.between(range.min, range.max)
        }
    }
}

} // verus!
