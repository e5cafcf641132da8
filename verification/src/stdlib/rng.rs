use vstd::prelude::*;

verus! {

/// The bits that every seeded state has set.
pub const BIT_MASK: u64 = 0xffff_ffff_0000_0000u64;

/// The multiplier of the xorshift* generator.
pub const MULTIPLIER: u64 = 2685821657736338717u64;

/// The state that follows `x`: three xorshift steps, then a multiplication
/// modulo 2^64.
pub open spec fn next_state(x: u64) -> u64 {
    let a = x ^ (x >> 12u64);
    let b = a ^ (a >> 25u64);
    let c = b ^ (b >> 27u64);
    ((c as nat * MULTIPLIER as nat) % 0x1_0000_0000_0000_0000nat) as u64
}

/// The state after seeding with `seed`: the seed's 64-bit sign extension with
/// the high half forced to ones.
pub open spec fn seeded_state(seed: i32) -> u64 {
    (seed as u64) | BIT_MASK
}

/// The remainder of Rust's truncating `%` on integers: it has the sign of
/// `a` and the magnitude of `|a|` modulo `|b|`.
pub open spec fn trunc_rem(a: int, b: int) -> int {
    let m = if b >= 0 { b } else { -b };
    if a >= 0 { a % m } else { -((-a) % m) }
}

/// The number of values in `low..=high`, which `rand` divides by.
pub open spec fn rand_range(low: i32, high: i32) -> int {
    high - low + 1
}

/// Whether `rand(low, high)` from state `x` stays within `i32` arithmetic.
pub open spec fn rand_defined(x: u64, low: i32, high: i32) -> bool {
    let range = rand_range(low, high);
    let sample = next_state(x) as i32;
    &&& i32::MIN <= high - low
    &&& range <= i32::MAX
    &&& range != 0
    &&& !(sample == i32::MIN && range == -1)
    &&& i32::MIN <= trunc_rem(sample as int, range) + low <= i32::MAX
}

/// What `rand(low, high)` returns from state `x`.
pub open spec fn rand_result(x: u64, low: i32, high: i32) -> int {
    trunc_rem(next_state(x) as i32 as int, rand_range(low, high)) + low
}

/// The xorshift* pseudo-random number generator of the runtime library.
pub struct Rng {
    state: u64,
}

impl Rng {
    /// The generator's current state.
    pub closed spec fn state(&self) -> u64 {
        self.state
    }

    /// A generator in the state that seeding with 0 gives.
    pub fn new() -> (r: Rng)
        ensures
            r.state() == BIT_MASK,
    {
        Rng { state: BIT_MASK }
    }

    /// Seeds the generator.
    pub fn seed_rnd(&mut self, seed: i32)
        ensures
            final(self).state() == seeded_state(seed),
    {
        self.state = (seed as u64) | BIT_MASK;
    }

    /// Whether `rand(low, high)` is defined in the current state.
    pub fn can_rand(&self, low: i32, high: i32) -> (b: bool)
        ensures
            b == rand_defined(self.state(), low, high),
    {
        let range: i64 = high as i64 - low as i64 + 1;
        if range - 1 < i32::MIN as i64 || range > i32::MAX as i64 || range == 0 {
            return false;
        }
        let sample: i32 = Self::step(self.state) as i32;
        if sample == i32::MIN && range == -1 {
            return false;
        }
        let m: i64 = if range > 0 { range } else { -range };
        let rem: i64 = sample as i64 % m;
        let r: i64 = rem + low as i64;
        i32::MIN as i64 <= r && r <= i32::MAX as i64
    }

    fn step(x: u64) -> (y: u64)
        ensures
            y == next_state(x),
    {
        let mut x = x;
        x = x ^ (x >> 12u64);
        x = x ^ (x >> 25u64);
        x = x ^ (x >> 27u64);
        x.wrapping_mul(MULTIPLIER)
    }

    /// Advances the generator and returns a number computed from the new state
    /// as `(state as i32) % (high - low + 1) + low`, with `%` truncating: the
    /// result lies strictly between `low - (high - low + 1)` and `high + 1`.
    pub fn rand(&mut self, low: i32, high: i32) -> (r: i32)
        requires
            rand_defined(old(self).state(), low, high),
        ensures
            final(self).state() == next_state(old(self).state()),
            r == rand_result(old(self).state(), low, high),
    {
        let x = Self::step(self.state);
        self.state = x;
        let range: i32 = high - low + 1;
        let sample: i32 = x as i32;
        // `%` by a negative divisor equals `%` by its magnitude.
        let m: i32 = if range > 0 { range } else { -range };
        let rem: i32 = sample % m;
        rem + low
    }
}

/// A new generator is in the state that seeding with 0 gives.
pub proof fn new_is_seeded_with_zero()
    ensures
        seeded_state(0) == BIT_MASK,
{
    assert((0i32 as u64) | 0xffff_ffff_0000_0000u64 == 0xffff_ffff_0000_0000u64) by (bit_vector);
}

/// When `low <= high`, `rand(low, high)` lies strictly between
/// `low - (high - low + 1)` and `high + 1`: within `low..=high` when the
/// sample taken from the state is not negative.
pub proof fn rand_result_bounds(x: u64, low: i32, high: i32)
    requires
        low <= high,
        rand_defined(x, low, high),
    ensures
        low - rand_range(low, high) < rand_result(x, low, high) < high + 1,
        next_state(x) as i32 >= 0 ==> low <= rand_result(x, low, high) <= high,
{
    let m = rand_range(low, high);
    let a = next_state(x) as i32 as int;
    if a >= 0 {
        assert(0 <= a % m < m);
    } else {
        assert(0 <= (-a) % m < m);
    }
}

} // verus!
