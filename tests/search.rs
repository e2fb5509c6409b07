use bedrock_finder::hash::BlockPos;
use bedrock_finder::search::BedrockCondition;
use bedrock_finder::unix_millis;
use bedrock_finder::world::{BedrockLocation, BedrockSupplier, World};

const SEED: i64 = 123456789;

fn supplier(loc: BedrockLocation) -> BedrockSupplier {
    BedrockSupplier::new(&World::new(SEED), loc)
}

#[test]
fn world_keeps_seed() {
    assert_eq!(World::new(SEED).get_seed(), SEED);
    assert_eq!(World::new(-5).get_seed(), -5);
}

#[test]
fn nether_roof_presence() {
    let s = supplier(BedrockLocation::NetherRoof);
    let expect = [
        (BlockPos(0, 123, 0), true),
        (BlockPos(0, 124, 0), true),
        (BlockPos(0, 125, 0), false),
        (BlockPos(0, 126, 0), true),
        (BlockPos(5, 124, -7), false),
        (BlockPos(-100, 125, 33), true),
    ];
    for (p, v) in expect.iter() {
        assert_eq!(s.test(*p), *v);
    }
}

#[test]
fn nether_floor_presence() {
    let s = supplier(BedrockLocation::NetherFloor);
    let expect = [
        (BlockPos(0, 1, 0), true),
        (BlockPos(0, 2, 0), true),
        (BlockPos(0, 3, 0), false),
        (BlockPos(0, 4, 0), false),
        (BlockPos(5, 2, -7), true),
        (BlockPos(-100, 3, 33), false),
    ];
    for (p, v) in expect.iter() {
        assert_eq!(s.test(*p), *v);
    }
}

#[test]
fn overworld_presence() {
    let s = supplier(BedrockLocation::Overworld);
    let expect = [
        (BlockPos(0, -63, 0), true),
        (BlockPos(0, -62, 0), true),
        (BlockPos(0, -61, 0), true),
        (BlockPos(0, -60, 0), false),
        (BlockPos(5, -62, -7), true),
        (BlockPos(-100, -61, 33), true),
    ];
    for (p, v) in expect.iter() {
        assert_eq!(s.test(*p), *v);
    }
}

#[test]
fn presence_is_repeatable() {
    let s = supplier(BedrockLocation::Overworld);
    for x in -5..5 {
        let p = BlockPos(x, -61, 3 * x);
        let first = s.test(p);
        for _ in 0..3 {
            assert_eq!(s.test(p), first);
        }
    }
}

#[test]
fn presence_at_and_below_lower_bound() {
    assert!(supplier(BedrockLocation::Overworld).test(BlockPos(7, -64, 9)));
    assert!(supplier(BedrockLocation::Overworld).test(BlockPos(7, i32::MIN, 9)));
    assert!(supplier(BedrockLocation::NetherFloor).test(BlockPos(1, 0, 1)));
    assert!(!supplier(BedrockLocation::NetherRoof).test(BlockPos(1, 122, 1)));
    assert!(!supplier(BedrockLocation::NetherRoof).test(BlockPos(1, -500, 1)));
}

#[test]
fn presence_at_and_above_upper_bound() {
    assert!(!supplier(BedrockLocation::Overworld).test(BlockPos(7, -59, 9)));
    assert!(!supplier(BedrockLocation::NetherFloor).test(BlockPos(1, 5, 1)));
    assert!(!supplier(BedrockLocation::NetherFloor).test(BlockPos(1, i32::MAX, 1)));
    assert!(supplier(BedrockLocation::NetherRoof).test(BlockPos(1, 127, 1)));
}

#[test]
fn condition_test_follows_presence() {
    let s = supplier(BedrockLocation::Overworld);
    let c = BedrockCondition::new(BlockPos(0, -2, 0), true);
    assert!(c.test(&s, BlockPos(0, -60, 0)));
    let c = BedrockCondition::new(BlockPos(0, 0, 0), true);
    assert!(!c.test(&s, BlockPos(0, -60, 0)));
    let c = BedrockCondition::new(BlockPos(0, 0, 0), false);
    assert!(c.test(&s, BlockPos(0, -60, 0)));
}

#[test]
fn single_condition_search_matches_brute_force() {
    let s = supplier(BedrockLocation::Overworld);
    let found = s.find(vec![BedrockCondition::new(BlockPos(0, 0, 0), true)], false, 8, -60, false);
    let mut brute = Vec::new();
    for z in -8..=8 {
        for x in -8..=8 {
            if s.test(BlockPos(x, -60, z)) {
                brute.push(BlockPos(x, -60, z));
            }
        }
    }
    assert_eq!(found, brute);
    assert_eq!(found.len(), 71);
    assert_eq!(found[0], BlockPos(-3, -60, -8));
    assert_eq!(found[70], BlockPos(7, -60, 7));
}

fn pattern() -> Vec<BedrockCondition> {
    vec![
        BedrockCondition::new(BlockPos(0, 0, 0), true),
        BedrockCondition::new(BlockPos(1, 0, 0), false),
        BedrockCondition::new(BlockPos(0, 0, 1), true),
    ]
}

#[test]
fn multi_condition_search() {
    let s = supplier(BedrockLocation::Overworld);
    let found = s.find(pattern(), false, 16, -60, false);
    assert_eq!(found.len(), 33);
    assert_eq!(found[0], BlockPos(9, -60, -14));
    assert_eq!(found[1], BlockPos(-14, -60, -13));
    assert_eq!(found[32], BlockPos(8, -60, 16));
}

#[test]
fn break_on_match_returns_first() {
    let s = supplier(BedrockLocation::Overworld);
    let all = s.find(pattern(), false, 16, -60, false);
    let one = s.find(pattern(), true, 16, -60, false);
    assert_eq!(one, vec![BlockPos(9, -60, -14)]);
    assert!(one.len() <= 1);
    assert!(all.contains(&one[0]));
}

#[test]
fn break_on_match_without_match_is_empty() {
    let s = supplier(BedrockLocation::Overworld);
    let conds = vec![BedrockCondition::new(BlockPos(0, 10, 0), true)];
    assert!(s.find(conds, true, 4, -60, false).is_empty());
}

#[test]
fn strips_agree_with_whole_search() {
    let s = supplier(BedrockLocation::Overworld);
    let conds = pattern();
    let all = s.find(pattern(), false, 16, -60, false);
    for cut in -17..=16 {
        let mut parts = s.find_strip(&conds, false, 16, -60, false, i32::MIN, cut);
        parts.extend(s.find_strip(&conds, false, 16, -60, false, cut + 1, i32::MAX));
        assert_eq!(parts, all);
    }
    let mut pairs = Vec::new();
    for z in (-16..=16).step_by(2) {
        pairs.extend(s.find_strip(&conds, false, 16, -60, false, z, z + 1));
    }
    assert_eq!(pairs, all);
}

#[test]
fn chunk_origin_search() {
    let s = supplier(BedrockLocation::NetherFloor);
    let found = s.find(vec![BedrockCondition::new(BlockPos(0, 0, 0), true)], false, 64, 1, true);
    assert_eq!(found.len(), 67);
    assert_eq!(found[0], BlockPos(-64, 1, -64));
    assert_eq!(found[66], BlockPos(64, 1, 64));
    for p in found.iter() {
        assert_eq!(p.0 % 16, 0);
        assert_eq!(p.2 % 16, 0);
    }
}

#[test]
fn empty_conditions_match_everything() {
    let s = supplier(BedrockLocation::NetherRoof);
    assert_eq!(s.find(Vec::new(), false, 2, 0, false).len(), 25);
    assert!(s.find(Vec::new(), false, -1, 0, false).is_empty());
    assert_eq!(s.find(Vec::new(), false, 0, 0, false), vec![BlockPos(0, 0, 0)]);
}

#[test]
fn clock_reads_after_epoch() {
    assert!(unix_millis() > 0);
}
