//! The brute-force search for anchors where every condition holds.
use vstd::prelude::*;
use crate::hash::{BlockPos, pos_add};
use crate::world::{BedrockSupplier, SupplierView};

verus! {

/// A relative position and whether a block must be present there.
#[derive(Clone, Copy)]
pub struct BedrockCondition {
    pub relative_pos: BlockPos,
    pub is_there: bool,
}

/// Whether condition `c` holds at `anchor` under model `m`.
pub open spec fn condition_holds(m: SupplierView, c: BedrockCondition, anchor: BlockPos) -> bool {
    m.present(pos_add(c.relative_pos, anchor)) == c.is_there
}

/// Whether every condition holds at `anchor`.
pub open spec fn anchor_matches(m: SupplierView, conds: Seq<BedrockCondition>, anchor: BlockPos) -> bool {
    forall|i: int| 0 <= i < conds.len() ==> condition_holds(m, #[trigger] conds[i], anchor)
}

/// Whether `(x, z)` is scanned: always, or only on multiples of 16 when
/// restricted to chunk origins.
pub open spec fn is_candidate(x: int, z: int, at_chunk_0: bool) -> bool {
    !at_chunk_0 || (x % 16 == 0 && z % 16 == 0)
}

/// The matching anchors `(x, y, z)` for `x` from `x_lo` up to `x_hi`, in order.
pub open spec fn row_matches(
    m: SupplierView,
    conds: Seq<BedrockCondition>,
    y: i32,
    at_chunk_0: bool,
    z: int,
    x_lo: int,
    x_hi: int,
) -> Seq<BlockPos>
    decreases x_hi - x_lo + 1,
{
    if x_hi < x_lo {
        Seq::empty()
    } else {
        let prev = row_matches(m, conds, y, at_chunk_0, z, x_lo, x_hi - 1);
        let anchor = BlockPos(x_hi as i32, y, z as i32);
        if is_candidate(x_hi, z, at_chunk_0) && anchor_matches(m, conds, anchor) {
            prev.push(anchor)
        } else {
            prev
        }
    }
}

/// The matching anchors with `z` from `z_lo` up to `z_hi` and `x` in
/// `[-scale, scale]`, row after row, each row by increasing `x`.
pub open spec fn strip_matches(
    m: SupplierView,
    conds: Seq<BedrockCondition>,
    scale: int,
    y: i32,
    at_chunk_0: bool,
    z_lo: int,
    z_hi: int,
) -> Seq<BlockPos>
    decreases z_hi - z_lo + 1,
{
    if z_hi < z_lo {
        Seq::empty()
    } else {
        strip_matches(m, conds, scale, y, at_chunk_0, z_lo, z_hi - 1) + row_matches(
            m,
            conds,
            y,
            at_chunk_0,
            z_hi,
            -scale,
            scale,
        )
    }
}

/// What a search returns: all matches, or only the first where it stops
/// at the first match.
pub open spec fn search_result(all: Seq<BlockPos>, break_on_match: bool) -> Seq<BlockPos> {
    if break_on_match && all.len() > 0 {
        seq![all[0]]
    } else {
        all
    }
}

/// A row splits at any column into the part up to it and the rest.
pub proof fn lemma_row_split(
    m: SupplierView,
    conds: Seq<BedrockCondition>,
    y: i32,
    at_chunk_0: bool,
    z: int,
    x_lo: int,
    k: int,
    x_hi: int,
)
    requires
        x_lo - 1 <= k <= x_hi,
    ensures
        row_matches(m, conds, y, at_chunk_0, z, x_lo, x_hi) == row_matches(
            m,
            conds,
            y,
            at_chunk_0,
            z,
            x_lo,
            k,
        ) + row_matches(m, conds, y, at_chunk_0, z, k + 1, x_hi),
    decreases x_hi - k,
{
    if k == x_hi {
        assert(row_matches(m, conds, y, at_chunk_0, z, k + 1, x_hi) =~= Seq::<BlockPos>::empty());
        assert(row_matches(m, conds, y, at_chunk_0, z, x_lo, x_hi) =~= row_matches(
            m,
            conds,
            y,
            at_chunk_0,
            z,
            x_lo,
            k,
        ) + Seq::<BlockPos>::empty());
    } else {
        lemma_row_split(m, conds, y, at_chunk_0, z, x_lo, k, x_hi - 1);
        let a = row_matches(m, conds, y, at_chunk_0, z, x_lo, k);
        let b = row_matches(m, conds, y, at_chunk_0, z, k + 1, x_hi - 1);
        let anchor = BlockPos(x_hi as i32, y, z as i32);
        if is_candidate(x_hi, z, at_chunk_0) && anchor_matches(m, conds, anchor) {
            assert((a + b).push(anchor) =~= a + b.push(anchor));
        }
    }
}

/// Sequential and partitioned search agree: the matches over a range of
/// rows are the matches over its first part followed by those over the
/// rest, for any point at which the range is cut.
pub proof fn lemma_strip_split(
    m: SupplierView,
    conds: Seq<BedrockCondition>,
    scale: int,
    y: i32,
    at_chunk_0: bool,
    z_lo: int,
    k: int,
    z_hi: int,
)
    requires
        z_lo - 1 <= k <= z_hi,
    ensures
        strip_matches(m, conds, scale, y, at_chunk_0, z_lo, z_hi) == strip_matches(
            m,
            conds,
            scale,
            y,
            at_chunk_0,
            z_lo,
            k,
        ) + strip_matches(m, conds, scale, y, at_chunk_0, k + 1, z_hi),
    decreases z_hi - k,
{
    if k == z_hi {
        assert(strip_matches(m, conds, scale, y, at_chunk_0, k + 1, z_hi) =~= Seq::<BlockPos>::empty());
        assert(strip_matches(m, conds, scale, y, at_chunk_0, z_lo, z_hi) =~= strip_matches(
            m,
            conds,
            scale,
            y,
            at_chunk_0,
            z_lo,
            k,
        ) + Seq::<BlockPos>::empty());
    } else {
        lemma_strip_split(m, conds, scale, y, at_chunk_0, z_lo, k, z_hi - 1);
        let a = strip_matches(m, conds, scale, y, at_chunk_0, z_lo, k);
        let b = strip_matches(m, conds, scale, y, at_chunk_0, k + 1, z_hi - 1);
        let r = row_matches(m, conds, y, at_chunk_0, z_hi, -scale, scale);
        assert((a + b) + r =~= a + (b + r));
    }
}

/// Stopping at the first match returns at most one anchor, and one that
/// the full search returns too.
pub proof fn lemma_break_subset(all: Seq<BlockPos>)
    ensures
        search_result(all, false) == all,
        search_result(all, true).len() <= 1,
        search_result(all, true).len() == 1 <==> all.len() > 0,
        search_result(all, true) == all.take(search_result(all, true).len() as int),
        forall|i: int|
            0 <= i < search_result(all, true).len() ==> all.contains(
                #[trigger] search_result(all, true)[i],
            ),
{
    if all.len() > 0 {
        assert(all.contains(search_result(all, true)[0]));
        assert(search_result(all, true) =~= all.take(1));
    } else {
        assert(all.take(0) =~= all);
    }
}

/// Searching for one condition "present at the anchor itself" finds exactly
/// the anchors where the model says a block is present.
pub proof fn lemma_single_condition_is_presence(m: SupplierView, anchor: BlockPos)
    ensures
        anchor_matches(m, seq![BedrockCondition { relative_pos: BlockPos(0, 0, 0), is_there: true }], anchor)
            == m.present(anchor),
{
    let c = BedrockCondition { relative_pos: BlockPos(0, 0, 0), is_there: true };
    assert(pos_add(c.relative_pos, anchor) == anchor);
    assert(seq![c][0] == c);
}

impl BedrockCondition {
    /// A condition on the block at `relative_pos` from the anchor.
    pub fn new(relative_pos: BlockPos, is_there: bool) -> (r: BedrockCondition)
        ensures
            r.relative_pos == relative_pos,
            r.is_there == is_there,
    {
        BedrockCondition { relative_pos, is_there }
    }

    /// Whether presence at `relative_pos + search_pos` is as required.
    pub fn test(&self, supplier: &BedrockSupplier, search_pos: BlockPos) -> (r: bool)
        requires
            supplier@.wf(),
        ensures
            r == condition_holds(supplier@, *self, search_pos),
    {
        supplier.test(self.relative_pos.add(search_pos)) ^ !self.is_there
    }
}

fn all_conditions_hold(supplier: &BedrockSupplier, conditions: &Vec<BedrockCondition>, anchor: BlockPos) -> (r: bool)
    requires
        supplier@.wf(),
    ensures
        r == anchor_matches(supplier@, conditions@, anchor),
{
    let mut i: usize = 0;
    while i < conditions.len()
        invariant
            supplier@.wf(),
            i <= conditions@.len(),
            forall|j: int| 0 <= j < i ==> condition_holds(supplier@, #[trigger] conditions@[j], anchor),
        decreases conditions@.len() - i,
    {
        if !conditions[i].test(supplier, anchor) {
            return false;
        }
        i = i + 1;
    }
    true
}

impl BedrockSupplier {
    /// Appends the matches of row `z` to `results`; stops after the first
    /// one when `break_on_match` is set, and then says so.
    fn scan_row(
        &self,
        conditions: &Vec<BedrockCondition>,
        results: &mut Vec<BlockPos>,
        break_on_match: bool,
        s: i64,
        scan_y: i32,
        at_chunk_0: bool,
        z: i64,
    ) -> (stopped: bool)
        requires
            self@.wf(),
            0 <= s <= i32::MAX,
            -s <= z <= s,
        ensures
            ({
                let row = row_matches(self@, conditions@, scan_y, at_chunk_0, z as int, -s as int, s as int);
                &&& stopped ==> break_on_match && row.len() > 0 && final(results)@ == old(results)@.push(row[0])
                &&& !stopped ==> final(results)@ == old(results)@ + row && (break_on_match ==> row.len() == 0)
            }),
    {
        let ghost m = self@;
        let ghost conds = conditions@;
        let ghost before = results@;
        let mut x: i64 = -s;
        while x <= s
            invariant
                before == old(results)@,
                self@ == m,
                conditions@ == conds,
                m.wf(),
                0 <= s <= i32::MAX,
                -s <= z <= s,
                -s <= x <= s + 1,
                results@ == before + row_matches(m, conds, scan_y, at_chunk_0, z as int, -s as int, x - 1),
                break_on_match ==> row_matches(m, conds, scan_y, at_chunk_0, z as int, -s as int, x - 1).len() == 0,
            decreases s - x + 1,
        {
            let anchor = BlockPos(x as i32, scan_y, z as i32);
            let candidate = !at_chunk_0 || (x % 16 == 0 && z % 16 == 0);
            let ghost prev = row_matches(m, conds, scan_y, at_chunk_0, z as int, -s as int, x - 1);
            if candidate && all_conditions_hold(self, conditions, anchor) {
                results.push(anchor);
                proof {
                    assert(row_matches(m, conds, scan_y, at_chunk_0, z as int, -s as int, x as int) == prev.push(anchor));
                    assert(results@ =~= before + prev.push(anchor));
                }
                if break_on_match {
                    proof {
                        lemma_row_split(m, conds, scan_y, at_chunk_0, z as int, -s as int, x as int, s as int);
                        let row = row_matches(m, conds, scan_y, at_chunk_0, z as int, -s as int, s as int);
                        assert(prev.push(anchor) =~= seq![anchor]);
                        assert(row[0] == anchor);
                        assert(row.len() > 0);
                        assert(results@ =~= before.push(row[0]));
                    }
                    return true;
                }
            }
            x = x + 1;
        }
        false
    }

    /// Scans the anchors `(x, scan_y, z)` with `z` in `[z_start, z_end]` and
    /// both `x` and `z` in `[-scale, scale]`, row by row and each row by
    /// increasing `x`, and returns those where every condition holds; only
    /// the first of them when `break_on_match` is set.
    #[verifier::rlimit(30)]
    pub fn find_strip(
        &self,
        conditions: &Vec<BedrockCondition>,
        break_on_match: bool,
        scale: i32,
        scan_y: i32,
        at_chunk_0: bool,
        z_start: i32,
        z_end: i32,
    ) -> (r: Vec<BlockPos>)
        requires
            self@.wf(),
        ensures
            r@ == search_result(
                strip_matches(
                    self@,
                    conditions@,
                    scale as int,
                    scan_y,
                    at_chunk_0,
                    if z_start < -scale { -scale } else { z_start as int },
                    if z_end > scale { scale as int } else { z_end as int },
                ),
                break_on_match,
            ),
    {
        let s: i64 = scale as i64;
        let z_lo: i64 = if (z_start as i64) < -s { -s } else { z_start as i64 };
        let z_hi: i64 = if (z_end as i64) > s { s } else { z_end as i64 };
        let ghost m = self@;
        let ghost conds = conditions@;
        let mut results: Vec<BlockPos> = Vec::new();
        if s < 0 {
            proof {
                assert(strip_matches(m, conds, s as int, scan_y, at_chunk_0, z_lo as int, z_hi as int) =~= Seq::<BlockPos>::empty());
            }
            return results;
        }
        let mut z: i64 = z_lo;
        while z <= z_hi
            invariant
                self@ == m,
                conditions@ == conds,
                m.wf(),
                0 <= s <= i32::MAX,
                s == scale,
                z_lo >= -s,
                z_hi <= s,
                z_lo as int == (if z_start < -scale { -scale } else { z_start as int }),
                z_hi as int == (if z_end > scale { scale as int } else { z_end as int }),
                z_lo <= z,
                z <= z_hi + 1 || z == z_lo,
                results@ == strip_matches(m, conds, s as int, scan_y, at_chunk_0, z_lo as int, z - 1),
                break_on_match ==> results@.len() == 0,
            decreases z_hi - z + 1,
        {
            let ghost before = results@;
            let stopped = self.scan_row(conditions, &mut results, break_on_match, s, scan_y, at_chunk_0, z);
            let ghost row = row_matches(m, conds, scan_y, at_chunk_0, z as int, -s as int, s as int);
            if stopped {
                proof {
                    lemma_strip_split(m, conds, s as int, scan_y, at_chunk_0, z_lo as int, z as int, z_hi as int);
                    let all = strip_matches(m, conds, s as int, scan_y, at_chunk_0, z_lo as int, z_hi as int);
                    let upto = strip_matches(m, conds, s as int, scan_y, at_chunk_0, z_lo as int, z as int);
                    assert(upto == before + row);
                    assert(before.len() == 0);
                    assert(all[0] == row[0]);
                    assert(all.len() > 0);
                    assert(results@ =~= seq![all[0]]);
                    assert(search_result(all, break_on_match) == seq![all[0]]);
                }
                return results;
            }
            proof {
                assert(strip_matches(m, conds, s as int, scan_y, at_chunk_0, z_lo as int, z as int)
                    == before + row);
            }
            z = z + 1;
        }
        proof {
            if z_hi < z_lo {
                assert(strip_matches(m, conds, s as int, scan_y, at_chunk_0, z_lo as int, z_hi as int) =~= Seq::<BlockPos>::empty());
                assert(strip_matches(m, conds, s as int, scan_y, at_chunk_0, z_lo as int, z_lo - 1) =~= Seq::<BlockPos>::empty());
            }
        }
        results
    }

    /// Scans every anchor `(x, scan_y, z)` with `x` and `z` in
    /// `[-scale, scale]`, as `find_strip` does over the whole range.
    pub fn find(
        &self,
        conditions: Vec<BedrockCondition>,
        break_on_match: bool,
        scale: i32,
        scan_y: i32,
        at_chunk_0: bool,
    ) -> (r: Vec<BlockPos>)
        requires
            self@.wf(),
        ensures
            r@ == search_result(
                strip_matches(self@, conditions@, scale as int, scan_y, at_chunk_0, -scale, scale as int),
                break_on_match,
            ),
    {
        self.find_strip(&conditions, break_on_match, scale, scan_y, at_chunk_0, i32::MIN, i32::MAX)
    }
}

} // verus!
