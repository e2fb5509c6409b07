//! The two generator families, their splitters, and the tagged variants
//! over both.
use vstd::prelude::*;
use vstd::utf8::encode_utf8;
use vstd::wrapping::i64_specs;
use crate::hash::{BlockPos, block_hash, block_hash_spec, java_hash, java_hash_spec, ushr, unsigned_shr};

verus! {

/// Bits of state that the 48-bit generator keeps.
pub const SEED_MASK: i64 = 281474976710655;

/// Multiplier of the 48-bit linear congruential generator.
pub const MULTIPLIER: i64 = 25214903917;

/// Increment of the 48-bit linear congruential generator.
pub const INCREMENT: i64 = 11;

/// First word that replaces an all-zero Xoroshiro state.
pub const XORO_DEFAULT_LO: i64 = -7046029254386353131;

/// Second word that replaces an all-zero Xoroshiro state.
pub const XORO_DEFAULT_HI: i64 = 7640891576956012809;

// ---------------------------------------------------------------------------
// Family A: 48-bit linear congruential generator.

/// The state that a 48-bit generator seeded with `seed` starts from.
pub open spec fn lcg_scramble(seed: i64) -> i64 {
    (seed ^ MULTIPLIER) & SEED_MASK
}

/// One step of the linear congruential generator.
pub open spec fn lcg_advance(s: i64) -> i64 {
    i64_specs::wrapping_add(i64_specs::wrapping_mul(s, MULTIPLIER), INCREMENT) & SEED_MASK
}

/// The top `bits` bits of a 48-bit state, read as a signed 32-bit value and
/// sign-extended.
pub open spec fn lcg_output(s: i64, bits: u32) -> i64 {
    ((s >> (48 - bits) as u32) as i32) as i64
}

/// `(i << 32) + j` in 64-bit wraparound arithmetic.
pub open spec fn join_halves(i: i64, j: i64) -> i64 {
    i64_specs::wrapping_add((((i as u64) << 32u64) as i64), j)
}

/// The draw `next(bits)` of a 48-bit generator in state `s`.
pub open spec fn lcg_next(s: i64, bits: u32) -> i64 {
    lcg_output(lcg_advance(s), bits)
}

/// The draw `next_long()` of a 48-bit generator in state `s`.
pub open spec fn lcg_next_long(s: i64) -> i64 {
    join_halves(lcg_next(s, 32), lcg_next(lcg_advance(s), 32))
}

/// A 48-bit linear congruential generator.
pub struct CheckedRandom {
    seed: i64,
}

impl View for CheckedRandom {
    type V = i64;

    /// The current 48-bit state.
    closed spec fn view(&self) -> i64 {
        self.seed
    }
}

impl CheckedRandom {
    /// Seeds a generator: the state is `(seed ^ MULTIPLIER) & SEED_MASK`.
    pub fn new(seed: i64) -> (r: CheckedRandom)
        ensures
            r@ == lcg_scramble(seed),
    {
        CheckedRandom { seed: (seed ^ MULTIPLIER) & SEED_MASK }
    }

    /// Same as `new`.
    pub fn from_long(seed: i64) -> (r: CheckedRandom)
        ensures
            r@ == lcg_scramble(seed),
    {
        CheckedRandom::new(seed)
    }

    /// Advances the state one step and returns its top `bits` bits.
    pub fn next(&mut self, bits: u32) -> (r: i64)
        requires
            1 <= bits <= 32,
        ensures
            final(self)@ == lcg_advance(old(self)@),
            r == lcg_output(final(self)@, bits),
    {
        let m = self.seed.wrapping_mul(MULTIPLIER).wrapping_add(INCREMENT) & SEED_MASK;
        self.seed = m;
        ((m >> (48 - bits)) as i32) as i64
    }

    /// Two 32-bit draws joined as `(first << 32) + second`.
    pub fn next_long(&mut self) -> (r: i64)
        ensures
            final(self)@ == lcg_advance(lcg_advance(old(self)@)),
            r == lcg_next_long(old(self)@),
    {
        let i = self.next(32);
        let j = self.next(32);
        (((i as u64) << 32u64) as i64).wrapping_add(j)
    }

    /// Splitter seeded with the next 64-bit draw.
    pub fn next_splitter(&mut self) -> (r: CheckedRandomSplitter)
        ensures
            final(self)@ == lcg_advance(lcg_advance(old(self)@)),
            r.seed == lcg_next_long(old(self)@),
    {
        CheckedRandomSplitter { seed: self.next_long() }
    }
}

// ---------------------------------------------------------------------------
// Family B: Xoroshiro128++.

/// Rotates the 64 bits of `x` left by `k`.
pub open spec fn rotl(x: i64, k: u64) -> i64 {
    (((x as u64) << k) | ((x as u64) >> (64 - k) as u64)) as i64
}

fn rotate_left(x: i64, k: u64) -> (r: i64)
    requires
        1 <= k < 64,
    ensures
        r == rotl(x, k),
{
    (((x as u64) << k) | ((x as u64) >> (64 - k))) as i64
}

/// The state words after replacing an all-zero state by the defaults.
pub open spec fn xoro_init(lo: i64, hi: i64) -> (i64, i64) {
    if lo | hi == 0 {
        (XORO_DEFAULT_LO, XORO_DEFAULT_HI)
    } else {
        (lo, hi)
    }
}

/// The output of one core step from state `(lo, hi)`.
pub open spec fn xoro_output(lo: i64, hi: i64) -> i64 {
    i64_specs::wrapping_add(rotl(i64_specs::wrapping_add(lo, hi), 17), lo)
}

/// The state after one core step from `(lo, hi)`.
pub open spec fn xoro_advance(lo: i64, hi: i64) -> (i64, i64) {
    let m = hi ^ lo;
    (rotl(lo, 49) ^ m ^ (((m as u64) << 21u64) as i64), rotl(m, 28))
}

/// One round of the stafford13 mix: xor with a logical shift, then multiply.
pub open spec fn mix_round(n: i64, shift: u32, k: i64) -> i64 {
    i64_specs::wrapping_mul(n ^ ushr(n, shift), k)
}

/// The stafford13 avalanche mix of a 64-bit value.
pub open spec fn stafford13(n: i64) -> i64 {
    let n = mix_round(n, 30, -4658895280553007687i64);
    let n = mix_round(n, 27, -7723592293110705685i64);
    n ^ ushr(n, 31)
}

/// The state that `from_long(seed)` starts from.
pub open spec fn xoro_from_long(seed: i64) -> (i64, i64) {
    let l = seed ^ XORO_DEFAULT_HI;
    let m = i64_specs::wrapping_add(l, XORO_DEFAULT_LO);
    xoro_init(stafford13(l), stafford13(m))
}

fn mix_stafford13(n: i64) -> (r: i64)
    ensures
        r == stafford13(n),
{
    let n = (n ^ unsigned_shr(n, 30)).wrapping_mul(-4658895280553007687i64);
    let n = (n ^ unsigned_shr(n, 27)).wrapping_mul(-7723592293110705685i64);
    n ^ unsigned_shr(n, 31)
}

/// A Xoroshiro128++ generator.
pub struct Xoroshiro128PlusPlus {
    seed_lo: i64,
    seed_hi: i64,
}

impl View for Xoroshiro128PlusPlus {
    type V = (i64, i64);

    /// The two state words `(lo, hi)`.
    closed spec fn view(&self) -> (i64, i64) {
        (self.seed_lo, self.seed_hi)
    }
}

impl Xoroshiro128PlusPlus {
    /// A generator with the given state words, or the defaults where both
    /// are zero.
    pub fn new(seed_lo: i64, seed_hi: i64) -> (r: Xoroshiro128PlusPlus)
        ensures
            r@ == xoro_init(seed_lo, seed_hi),
    {
        if seed_lo | seed_hi == 0 {
            Xoroshiro128PlusPlus { seed_lo: XORO_DEFAULT_LO, seed_hi: XORO_DEFAULT_HI }
        } else {
            Xoroshiro128PlusPlus { seed_lo, seed_hi }
        }
    }

    /// A generator whose two words are the stafford13 mixes of
    /// `seed ^ C1` and `(seed ^ C1) + C2`.
    pub fn from_long(seed: i64) -> (r: Xoroshiro128PlusPlus)
        ensures
            r@ == xoro_from_long(seed),
    {
        let l = seed ^ XORO_DEFAULT_HI;
        let m = l.wrapping_add(XORO_DEFAULT_LO);
        Xoroshiro128PlusPlus::new(mix_stafford13(l), mix_stafford13(m))
    }

    /// The core step: returns `rotl(lo + hi, 17) + lo` and advances.
    pub fn next_raw(&mut self) -> (r: i64)
        ensures
            final(self)@ == xoro_advance(old(self)@.0, old(self)@.1),
            r == xoro_output(old(self)@.0, old(self)@.1),
    {
        let l = self.seed_lo;
        let m = self.seed_hi;
        let n = rotate_left(l.wrapping_add(m), 17).wrapping_add(l);
        let m = m ^ l;
        self.seed_lo = rotate_left(l, 49) ^ m ^ (((m as u64) << 21u64) as i64);
        self.seed_hi = rotate_left(m, 28);
        n
    }

    /// The top `bits` bits of one core step, as a non-negative value.
    pub fn next(&mut self, bits: u32) -> (r: i64)
        requires
            1 <= bits <= 64,
        ensures
            final(self)@ == xoro_advance(old(self)@.0, old(self)@.1),
            r == ushr(xoro_output(old(self)@.0, old(self)@.1), (64 - bits) as u32),
    {
        let n = self.next_raw();
        unsigned_shr(n, 64 - bits)
    }

    /// One core step, whole.
    pub fn next_long(&mut self) -> (r: i64)
        ensures
            final(self)@ == xoro_advance(old(self)@.0, old(self)@.1),
            r == xoro_output(old(self)@.0, old(self)@.1),
    {
        self.next_raw()
    }

    /// Splitter whose words are the next two core steps, in that order.
    pub fn next_splitter(&mut self) -> (r: XoroSplitter)
        ensures
            ({
                let s1 = xoro_advance(old(self)@.0, old(self)@.1);
                &&& final(self)@ == xoro_advance(s1.0, s1.1)
                &&& r.seed_lo == xoro_output(old(self)@.0, old(self)@.1)
                &&& r.seed_hi == xoro_output(s1.0, s1.1)
            }),
    {
        let seed_lo = self.next_raw();
        let seed_hi = self.next_raw();
        XoroSplitter { seed_lo, seed_hi }
    }
}

// ---------------------------------------------------------------------------
// Splitters.

/// Splitter of the 48-bit family: one stored seed.
#[derive(Clone, Copy)]
pub struct CheckedRandomSplitter {
    pub seed: i64,
}

impl CheckedRandomSplitter {
    /// The generator for a position: seeded with `block_hash(pos) ^ seed`.
    pub fn split(&self, pos: &BlockPos) -> (r: CheckedRandom)
        ensures
            r@ == lcg_scramble(block_hash_spec(*pos) ^ self.seed),
    {
        CheckedRandom::new(block_hash(pos) ^ self.seed)
    }

    /// The generator for a string: seeded with its Java hash, sign-extended,
    /// xor the stored seed.
    pub fn split_string(&self, s: String) -> (r: CheckedRandom)
        ensures
            r@ == lcg_scramble((java_hash_spec(s@) as i64) ^ self.seed),
    {
        let h = java_hash(s.as_str()) as i64;
        CheckedRandom::new(h ^ self.seed)
    }
}

/// Splitter of the Xoroshiro family: two stored words.
#[derive(Clone, Copy)]
pub struct XoroSplitter {
    pub seed_lo: i64,
    pub seed_hi: i64,
}

/// The MD5 digest of a byte sequence (sixteen bytes).
pub uninterp spec fn md5_digest(data: Seq<u8>) -> Seq<u8>;

/// Relies on `md5::compute`: the MD5 digest of the bytes, which depends on
/// the bytes alone.
#[verifier::external_body]
fn md5_of(data: &[u8]) -> (r: [u8; 16])
    ensures
        r@ == md5_digest(data@),
{
    md5::compute(data).0
}

/// Eight bytes read as a big-endian signed 64-bit integer.
pub open spec fn be_i64(b: Seq<u8>, start: int) -> i64
    recommends
        0 <= start && start + 8 <= b.len(),
{
    (((b[start] as u64) << 56u64) | ((b[start + 1] as u64) << 48u64) | ((b[start + 2] as u64)
        << 40u64) | ((b[start + 3] as u64) << 32u64) | ((b[start + 4] as u64) << 24u64) | ((b[start
        + 5] as u64) << 16u64) | ((b[start + 6] as u64) << 8u64) | (b[start + 7] as u64)) as i64
}

fn read_be_i64(b: &[u8; 16], start: usize) -> (r: i64)
    requires
        start + 8 <= 16,
    ensures
        r == be_i64(b@, start as int),
{
    (((b[start] as u64) << 56u64) | ((b[start + 1] as u64) << 48u64) | ((b[start + 2] as u64)
        << 40u64) | ((b[start + 3] as u64) << 32u64) | ((b[start + 4] as u64) << 24u64) | ((b[start
        + 5] as u64) << 16u64) | ((b[start + 6] as u64) << 8u64) | (b[start + 7] as u64)) as i64
}

impl XoroSplitter {
    /// The generator for a position: words `(block_hash(pos) ^ lo, hi)`.
    pub fn split(&self, pos: &BlockPos) -> (r: Xoroshiro128PlusPlus)
        ensures
            r@ == xoro_init(block_hash_spec(*pos) ^ self.seed_lo, self.seed_hi),
    {
        Xoroshiro128PlusPlus::new(block_hash(pos) ^ self.seed_lo, self.seed_hi)
    }

    /// The generator for a string: the MD5 digest of its UTF-8 bytes, read
    /// as two big-endian words, xor the stored words.
    pub fn split_string(&self, s: String) -> (r: Xoroshiro128PlusPlus)
        ensures
            ({
                let d = md5_digest(encode_utf8(s@));
                r@ == xoro_init(be_i64(d, 0) ^ self.seed_lo, be_i64(d, 8) ^ self.seed_hi)
            }),
    {
        let bytes = s.as_str().as_bytes();
        let d = md5_of(bytes);
        self.split_digest(&d)
    }

    /// The generator for a 16-byte digest: its two big-endian halves xor
    /// the stored words.
    pub fn split_digest(&self, d: &[u8; 16]) -> (r: Xoroshiro128PlusPlus)
        ensures
            r@ == xoro_init(be_i64(d@, 0) ^ self.seed_lo, be_i64(d@, 8) ^ self.seed_hi),
    {
        let lo = read_be_i64(d, 0);
        let hi = read_be_i64(d, 8);
        Xoroshiro128PlusPlus::new(lo ^ self.seed_lo, hi ^ self.seed_hi)
    }
}


// ---------------------------------------------------------------------------
// Tagged variants over both families.

/// The state of a generator of either family.
pub enum EngineState {
    Lcg(i64),
    Xoro(i64, i64),
}

/// The state after a draw of `next`, and the value drawn.
pub open spec fn state_next(s: EngineState, bits: u32) -> (EngineState, i64) {
    match s {
        EngineState::Lcg(v) => (EngineState::Lcg(lcg_advance(v)), lcg_next(v, bits)),
        EngineState::Xoro(lo, hi) => {
            let n = xoro_advance(lo, hi);
            (EngineState::Xoro(n.0, n.1), ushr(xoro_output(lo, hi), (64 - bits) as u32))
        },
    }
}

/// The state after a draw of `next_long`, and the value drawn.
pub open spec fn state_next_long(s: EngineState) -> (EngineState, i64) {
    match s {
        EngineState::Lcg(v) => (EngineState::Lcg(lcg_advance(lcg_advance(v))), lcg_next_long(v)),
        EngineState::Xoro(lo, hi) => {
            let n = xoro_advance(lo, hi);
            (EngineState::Xoro(n.0, n.1), xoro_output(lo, hi))
        },
    }
}

/// The state after `next_splitter`, and the splitter made.
pub open spec fn state_next_splitter(s: EngineState) -> (EngineState, MinecraftRandomSplitter) {
    match s {
        EngineState::Lcg(v) => (
            EngineState::Lcg(lcg_advance(lcg_advance(v))),
            MinecraftRandomSplitter::CheckedRandom(CheckedRandomSplitter { seed: lcg_next_long(v) }),
        ),
        EngineState::Xoro(lo, hi) => {
            let s1 = xoro_advance(lo, hi);
            let s2 = xoro_advance(s1.0, s1.1);
            (
                EngineState::Xoro(s2.0, s2.1),
                MinecraftRandomSplitter::Xoroshiro128PlusPlus(
                    XoroSplitter { seed_lo: xoro_output(lo, hi), seed_hi: xoro_output(s1.0, s1.1) },
                ),
            )
        },
    }
}

/// The generator that a splitter derives for a position.
pub open spec fn split_state(sp: MinecraftRandomSplitter, pos: BlockPos) -> EngineState {
    match sp {
        MinecraftRandomSplitter::CheckedRandom(c) => EngineState::Lcg(
            lcg_scramble(block_hash_spec(pos) ^ c.seed),
        ),
        MinecraftRandomSplitter::Xoroshiro128PlusPlus(x) => {
            let s = xoro_init(block_hash_spec(pos) ^ x.seed_lo, x.seed_hi);
            EngineState::Xoro(s.0, s.1)
        },
    }
}

/// The generator that a splitter derives for a string.
pub open spec fn split_string_state(sp: MinecraftRandomSplitter, s: Seq<char>) -> EngineState {
    match sp {
        MinecraftRandomSplitter::CheckedRandom(c) => EngineState::Lcg(
            lcg_scramble((java_hash_spec(s) as i64) ^ c.seed),
        ),
        MinecraftRandomSplitter::Xoroshiro128PlusPlus(x) => {
            let d = md5_digest(encode_utf8(s));
            let st = xoro_init(be_i64(d, 0) ^ x.seed_lo, be_i64(d, 8) ^ x.seed_hi);
            EngineState::Xoro(st.0, st.1)
        },
    }
}

/// The first `k` draws of `next(bits)` from a generator in state `s`.
pub open spec fn draw_seq(s: EngineState, bits: u32, k: nat) -> Seq<i64>
    decreases k,
{
    if k == 0 {
        Seq::empty()
    } else {
        let (next, v) = state_next(s, bits);
        seq![v] + draw_seq(next, bits, (k - 1) as nat)
    }
}

/// Splitting is repeatable: two generators that a splitter derives for the
/// same position give the same draws, however many are taken.
pub proof fn lemma_split_repeatable(
    sp: MinecraftRandomSplitter,
    pos: BlockPos,
    a: MinecraftRandom,
    b: MinecraftRandom,
    bits: u32,
    k: nat,
)
    requires
        a@ == split_state(sp, pos),
        b@ == split_state(sp, pos),
    ensures
        draw_seq(a@, bits, k) == draw_seq(b@, bits, k),
{
}

/// A splitter of either family.
#[derive(Clone, Copy)]
pub enum MinecraftRandomSplitter {
    Xoroshiro128PlusPlus(XoroSplitter),
    CheckedRandom(CheckedRandomSplitter),
}

impl MinecraftRandomSplitter {
    /// A fresh generator for a position; the splitter is left as it was.
    pub fn split(&self, pos: &BlockPos) -> (r: MinecraftRandom)
        ensures
            r@ == split_state(*self, *pos),
    {
        match self {
            MinecraftRandomSplitter::Xoroshiro128PlusPlus(x) => MinecraftRandom::Xoroshiro128PlusPlus(
                x.split(pos),
            ),
            MinecraftRandomSplitter::CheckedRandom(x) => MinecraftRandom::CheckedRandom(
                x.split(pos),
            ),
        }
    }

    /// A fresh generator for a string; the splitter is left as it was.
    pub fn split_string(&self, s: String) -> (r: MinecraftRandom)
        ensures
            r@ == split_string_state(*self, s@),
    {
        match self {
            MinecraftRandomSplitter::Xoroshiro128PlusPlus(x) => MinecraftRandom::Xoroshiro128PlusPlus(
                x.split_string(s),
            ),
            MinecraftRandomSplitter::CheckedRandom(x) => MinecraftRandom::CheckedRandom(
                x.split_string(s),
            ),
        }
    }
}

/// A generator of either family.
pub enum MinecraftRandom {
    Xoroshiro128PlusPlus(Xoroshiro128PlusPlus),
    CheckedRandom(CheckedRandom),
}

impl View for MinecraftRandom {
    type V = EngineState;

    open spec fn view(&self) -> EngineState {
        match self {
            MinecraftRandom::Xoroshiro128PlusPlus(x) => EngineState::Xoro(x@.0, x@.1),
            MinecraftRandom::CheckedRandom(c) => EngineState::Lcg(c@),
        }
    }
}

impl MinecraftRandom {
    /// Draws `bits` random bits.
    pub fn next(&mut self, bits: u32) -> (r: i64)
        requires
            1 <= bits <= 32,
        ensures
            (final(self)@, r) == state_next(old(self)@, bits),
    {
        match self {
            MinecraftRandom::Xoroshiro128PlusPlus(x) => x.next(bits),
            MinecraftRandom::CheckedRandom(x) => x.next(bits),
        }
    }

    /// Draws a 64-bit value.
    pub fn next_long(&mut self) -> (r: i64)
        ensures
            (final(self)@, r) == state_next_long(old(self)@),
    {
        match self {
            MinecraftRandom::Xoroshiro128PlusPlus(x) => x.next_long(),
            MinecraftRandom::CheckedRandom(x) => x.next_long(),
        }
    }

    /// Derives a splitter of the same family from the next draws.
    pub fn next_splitter(&mut self) -> (r: MinecraftRandomSplitter)
        ensures
            (final(self)@, r) == state_next_splitter(old(self)@),
    {
        match self {
            MinecraftRandom::Xoroshiro128PlusPlus(x) => MinecraftRandomSplitter::Xoroshiro128PlusPlus(
                x.next_splitter(),
            ),
            MinecraftRandom::CheckedRandom(x) => MinecraftRandomSplitter::CheckedRandom(
                x.next_splitter(),
            ),
        }
    }
}

} // verus!
