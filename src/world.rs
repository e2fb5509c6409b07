//! The world seed, the generation domains, and the block-presence model.
use vstd::prelude::*;
use crate::hash::BlockPos;
use crate::fraction::{presence_threshold, threshold};
use crate::random::{
    CheckedRandom, CheckedRandomSplitter, EngineState, MinecraftRandomSplitter, XoroSplitter,
    Xoroshiro128PlusPlus, lcg_next_long, lcg_scramble, split_state, split_string_state, state_next,
    state_next_splitter, xoro_advance, xoro_from_long, xoro_output,
};

verus! {

/// The top-level splitter of the Xoroshiro family for a world seed.
pub open spec fn overworld_splitter_of(seed: i64) -> XoroSplitter {
    let s0 = xoro_from_long(seed);
    let s1 = xoro_advance(s0.0, s0.1);
    XoroSplitter { seed_lo: xoro_output(s0.0, s0.1), seed_hi: xoro_output(s1.0, s1.1) }
}

/// The top-level splitter of the 48-bit family for a world seed.
pub open spec fn nether_splitter_of(seed: i64) -> CheckedRandomSplitter {
    CheckedRandomSplitter { seed: lcg_next_long(lcg_scramble(seed)) }
}

/// A world: its seed and one top-level splitter per generator family.
pub struct World {
    seed: i64,
    overworld_random_splitter: XoroSplitter,
    nether_random_splitter: CheckedRandomSplitter,
}

impl View for World {
    type V = i64;

    /// The world seed; the splitters follow from it.
    closed spec fn view(&self) -> i64 {
        self.seed
    }
}

impl World {
    /// The splitters are those that the seed determines.
    pub closed spec fn wf(&self) -> bool {
        &&& self.overworld_random_splitter == overworld_splitter_of(self.seed)
        &&& self.nether_random_splitter == nether_splitter_of(self.seed)
    }

    /// Derives both top-level splitters from the seed.
    pub fn new(seed: i64) -> (r: World)
        ensures
            r@ == seed,
            r.wf(),
    {
        let mut x = Xoroshiro128PlusPlus::from_long(seed);
        let mut c = CheckedRandom::from_long(seed);
        World {
            seed,
            overworld_random_splitter: x.next_splitter(),
            nether_random_splitter: c.next_splitter(),
        }
    }

    /// The world seed.
    pub fn get_seed(&self) -> (r: i64)
        ensures
            r == self@,
    {
        self.seed
    }
}

/// A generation domain.
#[derive(Clone, Copy, PartialEq, Eq, Structural)]
pub enum BedrockLocation {
    NetherRoof,
    NetherFloor,
    Overworld,
}

/// The lower bound of a domain.
pub open spec fn domain_min(loc: BedrockLocation) -> i32 {
    match loc {
        BedrockLocation::NetherRoof => 122,
        BedrockLocation::NetherFloor => 0,
        BedrockLocation::Overworld => -64i32,
    }
}

/// The upper bound of a domain.
pub open spec fn domain_max(loc: BedrockLocation) -> i32 {
    match loc {
        BedrockLocation::NetherRoof => 127,
        BedrockLocation::NetherFloor => 5,
        BedrockLocation::Overworld => -59i32,
    }
}

/// Whether presence is inverted in a domain.
pub open spec fn domain_reversed(loc: BedrockLocation) -> bool {
    loc == BedrockLocation::NetherRoof
}

/// The feature splitter of a domain: the world's top-level splitter of the
/// domain's family, split by the domain's name, then one `next_splitter`.
pub open spec fn domain_splitter(seed: i64, loc: BedrockLocation) -> MinecraftRandomSplitter {
    let (top, name) = match loc {
        BedrockLocation::NetherRoof => (
            MinecraftRandomSplitter::CheckedRandom(nether_splitter_of(seed)),
            "minecraft:bedrock_roof"@,
        ),
        BedrockLocation::NetherFloor => (
            MinecraftRandomSplitter::CheckedRandom(nether_splitter_of(seed)),
            "minecraft:bedrock_floor"@,
        ),
        BedrockLocation::Overworld => (
            MinecraftRandomSplitter::Xoroshiro128PlusPlus(overworld_splitter_of(seed)),
            "minecraft:bedrock_floor"@,
        ),
    };
    state_next_splitter(split_string_state(top, name)).1
}

/// The 24-bit draw of the generator that a splitter derives for `pos`.
pub open spec fn draw24(sp: MinecraftRandomSplitter, pos: BlockPos) -> i64 {
    state_next(split_state(sp, pos), 24).1
}

/// Whether a block is present at `pos`: always at or below `min`, never at
/// or above `max`, and in between when the position's 24-bit draw falls
/// below the single-precision fraction `1 - (y - min) / (max - min)`; the
/// whole inverted where `rev` holds.
pub open spec fn presence(
    min: i32,
    max: i32,
    rev: bool,
    sp: MinecraftRandomSplitter,
    pos: BlockPos,
) -> bool {
    if pos.1 <= min {
        !rev
    } else if pos.1 >= max {
        rev
    } else {
        (draw24(sp, pos) < presence_threshold((pos.1 - min) as nat, (max - min) as nat)) != rev
    }
}

/// The block-presence model of one domain in one world.
pub struct BedrockSupplier {
    min: i32,
    max: i32,
    reverse: bool,
    random_splitter: MinecraftRandomSplitter,
}

/// What a presence model holds: bounds, inversion, and its splitter.
pub struct SupplierView {
    pub min: i32,
    pub max: i32,
    pub reverse: bool,
    pub splitter: MinecraftRandomSplitter,
}

impl View for BedrockSupplier {
    type V = SupplierView;

    closed spec fn view(&self) -> SupplierView {
        SupplierView {
            min: self.min,
            max: self.max,
            reverse: self.reverse,
            splitter: self.random_splitter,
        }
    }
}

impl SupplierView {
    /// Bounds that single precision holds exactly, lower below upper.
    pub open spec fn wf(self) -> bool {
        -0x80_0000 <= self.min < self.max <= 0x80_0000
    }

    /// Whether a block is present at `pos` under this model.
    pub open spec fn present(self, pos: BlockPos) -> bool {
        presence(self.min, self.max, self.reverse, self.splitter, pos)
    }
}

impl BedrockSupplier {
    /// The model of a domain: its fixed bounds and inversion, and the
    /// domain's feature splitter derived from the world.
    pub fn new(world: &World, location: BedrockLocation) -> (r: BedrockSupplier)
        requires
            world.wf(),
        ensures
            r@.wf(),
            r@.min == domain_min(location),
            r@.max == domain_max(location),
            r@.reverse == domain_reversed(location),
            r@.splitter == domain_splitter(world@, location),
    {
        match location {
            BedrockLocation::NetherRoof => {
                let top = MinecraftRandomSplitter::CheckedRandom(world.nether_random_splitter);
                let mut child = top.split_string("minecraft:bedrock_roof".to_string());
                BedrockSupplier { min: 122, max: 127, reverse: true, random_splitter: child.next_splitter() }
            },
            BedrockLocation::NetherFloor => {
                let top = MinecraftRandomSplitter::CheckedRandom(world.nether_random_splitter);
                let mut child = top.split_string("minecraft:bedrock_floor".to_string());
                BedrockSupplier { min: 0, max: 5, reverse: false, random_splitter: child.next_splitter() }
            },
            BedrockLocation::Overworld => {
                let top = MinecraftRandomSplitter::Xoroshiro128PlusPlus(world.overworld_random_splitter);
                let mut child = top.split_string("minecraft:bedrock_floor".to_string());
                BedrockSupplier { min: -64, max: -59, reverse: false, random_splitter: child.next_splitter() }
            },
        }
    }

    /// Whether a block is present at `pos`. Reads the model only: the
    /// generator it draws from is derived afresh for the position.
    pub fn test(&self, pos: BlockPos) -> (r: bool)
        requires
            self@.wf(),
        ensures
            r == self@.present(pos),
            pos.1 <= self@.min ==> r == !self@.reverse,
            pos.1 >= self@.max ==> r == self@.reverse,
    {
        let y = pos.1;
        if y <= self.min {
            true ^ self.reverse
        } else if y >= self.max {
            false ^ self.reverse
        } else {
            let a = (y as i64 - self.min as i64) as u64;
            let w = (self.max as i64 - self.min as i64) as u64;
            let n = threshold(a, w);
            let mut random = self.random_splitter.split(&pos);
            let b = random.next(24);
            (b < n as i64) ^ self.reverse
        }
    }
}

} // verus!
