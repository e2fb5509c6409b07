//! Position and string hashes that seed child generators.
use vstd::prelude::*;
use vstd::wrapping::i32_specs;
use vstd::wrapping::i64_specs;
use vstd::wrapping::u32_specs;

verus! {

/// A block coordinate: three signed 32-bit integers (x, y, z).
#[derive(Debug, Clone, Copy, PartialEq, Eq, Structural)]
pub struct BlockPos(pub i32, pub i32, pub i32);

/// Component-wise wraparound sum of two positions.
pub open spec fn pos_add(a: BlockPos, b: BlockPos) -> BlockPos {
    BlockPos(
        i32_specs::wrapping_add(a.0, b.0),
        i32_specs::wrapping_add(a.1, b.1),
        i32_specs::wrapping_add(a.2, b.2),
    )
}

impl BlockPos {
    /// Adds two positions component by component, wrapping on overflow.
    pub fn add(self, rhs: BlockPos) -> (r: BlockPos)
        ensures
            r == pos_add(self, rhs),
    {
        BlockPos(self.0.wrapping_add(rhs.0), self.1.wrapping_add(rhs.1), self.2.wrapping_add(rhs.2))
    }
}

/// The position hash: `x * 3129871` in 32 bits, xor `z * 116129781` in 64
/// bits, xor `y`; then `l * l * 42317861 + l * 11`, shifted right logically
/// by 16 bits.
pub open spec fn block_hash_spec(p: BlockPos) -> i64 {
    let x = i32_specs::wrapping_mul(p.0, 3129871i32) as i64;
    let z = i64_specs::wrapping_mul(p.2 as i64, 116129781i64);
    let l = x ^ z ^ (p.1 as i64);
    let l = i64_specs::wrapping_add(
        i64_specs::wrapping_mul(i64_specs::wrapping_mul(l, l), 42317861i64),
        i64_specs::wrapping_mul(l, 11i64),
    );
    ushr(l, 16)
}

/// Logical (unsigned) right shift of a signed 64-bit value.
pub open spec fn ushr(v: i64, amount: u32) -> i64 {
    ((v as u64) >> amount) as i64
}

/// Logical right shift of a signed 64-bit value, as Java's `>>>`.
pub fn unsigned_shr(v: i64, amount: u32) -> (r: i64)
    requires
        amount < 64,
    ensures
        r == ushr(v, amount),
{
    ((v as u64) >> amount) as i64
}

/// Hashes a block position into a 64-bit seed contribution.
pub fn block_hash(p: &BlockPos) -> (r: i64)
    ensures
        r == block_hash_spec(*p),
{
    let x = p.0.wrapping_mul(3129871i32) as i64;
    let z = (p.2 as i64).wrapping_mul(116129781i64);
    let l = x ^ z ^ (p.1 as i64);
    let l = l.wrapping_mul(l).wrapping_mul(42317861i64).wrapping_add(l.wrapping_mul(11i64));
    unsigned_shr(l, 16)
}

/// Folds one character into a Java string hash: one UTF-16 code unit for
/// a character of the basic plane, a surrogate pair for any other.
pub open spec fn java_hash_step(h: u32, c: char) -> u32 {
    let v = c as u32;
    if v < 0x10000 {
        u32_specs::wrapping_add(u32_specs::wrapping_mul(h, 31u32), v)
    } else {
        let high = 0xD800u32 + ((v - 0x10000u32) as u32 >> 10u32);
        let low = 0xDC00u32 + ((v - 0x10000u32) as u32 & 0x3FFu32);
        let h1 = u32_specs::wrapping_add(u32_specs::wrapping_mul(h, 31u32), high as u32);
        u32_specs::wrapping_add(u32_specs::wrapping_mul(h1, 31u32), low as u32)
    }
}

/// Java's `String.hashCode` over the UTF-16 code units of `s`, as raw bits.
pub open spec fn java_hash_bits(s: Seq<char>) -> u32
    decreases s.len(),
{
    if s.len() == 0 {
        0
    } else {
        java_hash_step(java_hash_bits(s.drop_last()), s.last())
    }
}

/// Java's `String.hashCode` of `s`, as a signed 32-bit value.
pub open spec fn java_hash_spec(s: Seq<char>) -> i32 {
    java_hash_bits(s) as i32
}

fn hash_char(h: u32, c: char) -> (r: u32)
    ensures
        r == java_hash_step(h, c),
{
    let v = c as u32;
    if v < 0x10000 {
        h.wrapping_mul(31).wrapping_add(v)
    } else {
        assert(v <= 0x10FFFF);
        let off: u32 = v - 0x10000u32;
        assert(off >> 10u32 <= 0x3FF) by (bit_vector)
            requires
                off <= 0xFFFFF,
        ;
        assert(off & 0x3FFu32 <= 0x3FF) by (bit_vector);
        let high = 0xD800u32 + (off >> 10u32);
        let low = 0xDC00u32 + (off & 0x3FFu32);
        h.wrapping_mul(31).wrapping_add(high).wrapping_mul(31).wrapping_add(low)
    }
}

/// Java's `String.hashCode` of `s`: `r = r * 31 + unit` over the UTF-16
/// code units, in 32-bit wraparound arithmetic.
pub fn java_hash(s: &str) -> (r: i32)
    ensures
        r == java_hash_spec(s@),
{
    let n = s.unicode_len();
    let mut h: u32 = 0;
    let mut i: usize = 0;
    while i < n
        invariant
            n == s@.len(),
            i <= n,
            h == java_hash_bits(s@.subrange(0, i as int)),
        decreases n - i,
    {
        let c = s.get_char(i);
        proof {
            let pre = s@.subrange(0, i as int + 1);
            assert(pre.drop_last() =~= s@.subrange(0, i as int));
        }
        h = hash_char(h, c);
        i = i + 1;
    }
    proof {
        assert(s@.subrange(0, n as int) =~= s@);
    }
    h as i32
}

} // verus!
