use bedrock_finder::fraction::threshold;
use bedrock_finder::hash::{block_hash, java_hash, BlockPos};
use bedrock_finder::random::{
    CheckedRandom, CheckedRandomSplitter, MinecraftRandom, MinecraftRandomSplitter, XoroSplitter,
    Xoroshiro128PlusPlus,
};

fn float_of(draw: i64) -> f32 {
    draw as f32 * 5.9604645E-8
}

#[test]
fn lcg_first_int_matches_java_random_seed_zero() {
    let mut r = CheckedRandom::new(0);
    assert_eq!(r.next(32), -1155484576);
}

#[test]
fn lcg_first_int_matches_java_random_seed_42() {
    let mut r = CheckedRandom::new(42);
    assert_eq!(r.next(32), -1170105035);
}

#[test]
fn lcg_next_long_matches_java_random_seed_zero() {
    let mut r = CheckedRandom::from_long(0);
    assert_eq!(r.next_long(), -4962768465676381896);
}

#[test]
fn lcg_float_matches_java_random_seed_zero() {
    let mut r = CheckedRandom::new(0);
    assert_eq!(float_of(r.next(24)), 0.73096776f32);
}

#[test]
fn lcg_next_splitter_takes_next_long() {
    let mut r = CheckedRandom::new(0);
    let sp = r.next_splitter();
    assert_eq!(sp.seed, -4962768465676381896);
}

#[test]
fn xoro_from_long_zero_draws() {
    let mut r = Xoroshiro128PlusPlus::from_long(0);
    assert_eq!(r.next_long(), 3038984756725240190);
    assert_eq!(r.next_long(), -3694039286755638414);
}

#[test]
fn xoro_next_bits_is_top_of_step() {
    let mut r = Xoroshiro128PlusPlus::from_long(12345);
    assert_eq!(r.next(24), 9393496);
}

#[test]
fn xoro_zero_state_uses_defaults() {
    let mut r = Xoroshiro128PlusPlus::new(0, 0);
    assert_eq!(r.next_long(), 6807859099481836695);
}

#[test]
fn xoro_next_splitter_takes_two_steps() {
    let mut r = Xoroshiro128PlusPlus::from_long(-1);
    let sp = r.next_splitter();
    assert_eq!(sp.seed_lo, -8676505878415342125);
    assert_eq!(sp.seed_hi, -868585888688873692);
}

#[test]
fn java_hash_reference_values() {
    assert_eq!(java_hash(""), 0);
    assert_eq!(java_hash("a"), 97);
    assert_eq!(java_hash("minecraft:bedrock_floor"), 2042456806);
    assert_eq!(java_hash("minecraft:bedrock_roof"), 343340730);
}

#[test]
fn java_hash_uses_surrogate_pairs() {
    assert_eq!(java_hash("\u{1F600}"), 1772899);
}

#[test]
fn block_hash_values() {
    assert_eq!(block_hash(&BlockPos(0, 0, 0)), 0);
    assert_eq!(block_hash(&BlockPos(1, 2, 3)), 247800846432760);
    assert_eq!(block_hash(&BlockPos(-5, -60, 7)), 109174571119058);
    assert_eq!(block_hash(&BlockPos(100, -60, -200)), 205156045876553);
}

#[test]
fn block_pos_add_wraps() {
    let p = BlockPos(i32::MAX, -3, 4).add(BlockPos(1, 5, i32::MIN));
    assert_eq!(p, BlockPos(i32::MIN, 2, i32::MIN + 4));
}

#[test]
fn lcg_split_by_position() {
    let sp = MinecraftRandomSplitter::CheckedRandom(CheckedRandomSplitter { seed: 987654321 });
    let mut r = sp.split(&BlockPos(1, 2, 3));
    assert_eq!(r.next(24), 9864597);
    assert_eq!(r.next_long(), 8513706650919199898);
}

#[test]
fn xoro_split_by_position() {
    let sp = MinecraftRandomSplitter::Xoroshiro128PlusPlus(XoroSplitter { seed_lo: 111, seed_hi: 222 });
    let mut r = sp.split(&BlockPos(1, 2, 3));
    assert_eq!(r.next(24), 12763172);
    assert_eq!(r.next_long(), -7352545450059947658);
}

#[test]
fn split_floats_per_family() {
    let a = MinecraftRandomSplitter::CheckedRandom(CheckedRandomSplitter { seed: 5 });
    let b = MinecraftRandomSplitter::Xoroshiro128PlusPlus(XoroSplitter { seed_lo: 5, seed_hi: 6 });
    assert_eq!(float_of(a.split(&BlockPos(3, 4, 5)).next(24)), 0.397044f32);
    assert_eq!(float_of(b.split(&BlockPos(3, 4, 5)).next(24)), 0.35937262f32);
}

#[test]
fn split_is_repeatable() {
    let sps = [
        MinecraftRandomSplitter::CheckedRandom(CheckedRandomSplitter { seed: -42 }),
        MinecraftRandomSplitter::Xoroshiro128PlusPlus(XoroSplitter { seed_lo: 7, seed_hi: -8 }),
    ];
    for sp in sps.iter() {
        let mut a = sp.split(&BlockPos(10, -20, 30));
        let mut b = sp.split(&BlockPos(10, -20, 30));
        for _ in 0..20 {
            assert_eq!(a.next(24), b.next(24));
            assert_eq!(a.next_long(), b.next_long());
        }
    }
}

#[test]
fn xoro_split_string_uses_md5() {
    let sp = MinecraftRandomSplitter::Xoroshiro128PlusPlus(XoroSplitter { seed_lo: 0, seed_hi: 0 });
    let mut r = sp.split_string("minecraft:bedrock_floor".to_string());
    assert_eq!(r.next_long(), -2665947749250968531);
    assert_eq!(r.next(24), 12259642);
    let other = MinecraftRandomSplitter::Xoroshiro128PlusPlus(XoroSplitter { seed_lo: 5, seed_hi: -9 });
    assert_eq!(other.split_string("abc".to_string()).next_long(), -5604878746440449397);
}

#[test]
fn lcg_split_string_uses_java_hash() {
    let sp = MinecraftRandomSplitter::CheckedRandom(CheckedRandomSplitter { seed: 0 });
    assert_eq!(sp.split_string("minecraft:bedrock_floor".to_string()).next(32), -863986655);
    let other = MinecraftRandomSplitter::CheckedRandom(CheckedRandomSplitter { seed: 77 });
    assert_eq!(other.split_string("minecraft:bedrock_roof".to_string()).next_long(), -1590746506049276988);
}

#[test]
fn tagged_next_splitter_keeps_family() {
    let mut r = MinecraftRandom::CheckedRandom(CheckedRandom::new(0));
    match r.next_splitter() {
        MinecraftRandomSplitter::CheckedRandom(s) => assert_eq!(s.seed, -4962768465676381896),
        MinecraftRandomSplitter::Xoroshiro128PlusPlus(_) => panic!("family changed"),
    }
}

#[test]
fn threshold_matches_single_precision() {
    assert_eq!(threshold(1, 5), 13421773);
    assert_eq!(threshold(2, 5), 10066330);
    assert_eq!(threshold(3, 5), 6710886);
    assert_eq!(threshold(4, 5), 3355443);
    for a in 1..5u64 {
        let d = 1.0f32 + (a as f32 / 5.0f32) * (0.0f32 - 1.0f32);
        let n = threshold(a, 5);
        assert!(float_of(n as i64) >= d);
        assert!(float_of(n as i64 - 1) < d);
    }
}

#[test]
fn split_digest_reads_big_endian_halves() {
    let sp = XoroSplitter { seed_lo: 3, seed_hi: 4 };
    let d: [u8; 16] = [1, 2, 3, 4, 5, 6, 7, 8, 9, 10, 11, 12, 13, 14, 15, 16];
    let mut r = sp.split_digest(&d);
    assert_eq!(r.next_long(), 2099283447066663715);
    let mut same = Xoroshiro128PlusPlus::new(72623859790382856 ^ 3, 651345242494996240 ^ 4);
    assert_eq!(same.next_long(), 2099283447066663715);
}
