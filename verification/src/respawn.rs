//! Where a fallen player comes back: next to a teammate picked at random,
//! on the first fitting block of a search around that teammate.

use vstd::prelude::*;

verus! {

/// How far the search for a block to stand on reaches from the teammate,
/// along each axis.
pub const SEARCH_RADIUS: i16 = 15;

/// How many blocks the search looks at along each axis.
pub const SEARCH_SPAN: u32 = 30;

/// How many blocks the search looks at in all.
pub const SEARCH_STEPS: u32 = 27000;

/// A player as the choice of a teammate sees them.
#[derive(Debug, Copy, Clone, PartialEq, Eq, Structural)]
pub struct Candidate {
    pub entity: u64,
    pub team: u8,
}

/// The block a teammate stands on.
#[derive(Debug, Copy, Clone, PartialEq, Eq, Structural)]
pub struct Anchor {
    pub x: i16,
    pub y: i16,
    pub z: i16,
}

/// A block of the world.
#[derive(Debug, Copy, Clone, PartialEq, Eq, Structural)]
pub struct BlockPos {
    pub x: i32,
    pub y: i32,
    pub z: i32,
}

/// Whether `candidate` is someone else on the team.
pub open spec fn is_mate(candidate: Candidate, client: u64, team: u8) -> bool {
    candidate.team == team && candidate.entity != client
}

/// The places in `candidates` of the client's teammates, in order.
pub open spec fn mates_of(candidates: Seq<Candidate>, client: u64, team: u8) -> Seq<usize>
    decreases candidates.len(),
{
    if candidates.len() == 0 {
        Seq::empty()
    } else {
        let before = mates_of(candidates.drop_last(), client, team);
        if is_mate(candidates.last(), client, team) {
            before.push((candidates.len() - 1) as usize)
        } else {
            before
        }
    }
}

/// Whether the search can run around `anchor` without leaving the range of
/// its coordinates.
pub open spec fn anchor_in_range(anchor: Anchor) -> bool {
    &&& i16::MIN + SEARCH_RADIUS <= anchor.x <= i16::MAX - SEARCH_RADIUS
    &&& i16::MIN + SEARCH_RADIUS <= anchor.y <= i16::MAX - SEARCH_RADIUS
    &&& i16::MIN + SEARCH_RADIUS <= anchor.z <= i16::MAX - SEARCH_RADIUS
}

/// Whether `pos` is one of the blocks the search around `anchor` looks at.
pub open spec fn in_search_box(anchor: Anchor, pos: BlockPos) -> bool {
    &&& anchor.x - SEARCH_RADIUS <= pos.x < anchor.x + SEARCH_RADIUS
    &&& anchor.y - SEARCH_RADIUS <= pos.y < anchor.y + SEARCH_RADIUS
    &&& anchor.z - SEARCH_RADIUS <= pos.z < anchor.z + SEARCH_RADIUS
}

/// The block looked at in the given step of the search: `z` runs fastest,
/// then `y`, then `x`, each from 15 below the anchor to 14 above.
pub open spec fn probe_at(anchor: Anchor, step: int) -> BlockPos {
    BlockPos {
        x: (anchor.x - SEARCH_RADIUS + step / 900) as i32,
        y: (anchor.y - SEARCH_RADIUS + (step / 30) % 30) as i32,
        z: (anchor.z - SEARCH_RADIUS + step % 30) as i32,
    }
}

/// The step in which the search looks at `pos`.
pub open spec fn step_of(anchor: Anchor, pos: BlockPos) -> int {
    (pos.x - anchor.x + SEARCH_RADIUS) * 900 + (pos.y - anchor.y + SEARCH_RADIUS) * 30 + (pos.z
        - anchor.z + SEARCH_RADIUS)
}

/// Whether `a` comes before `b` when blocks are ordered by `x`, then `y`,
/// then `z`.
pub open spec fn scanned_before(a: BlockPos, b: BlockPos) -> bool {
    a.x < b.x || (a.x == b.x && (a.y < b.y || (a.y == b.y && a.z < b.z)))
}

/// Every entry of `mates_of` is the place of a teammate, the entries rise,
/// and no teammate is left out.
pub proof fn lemma_mates_of(candidates: Seq<Candidate>, client: u64, team: u8)
    requires
        candidates.len() <= usize::MAX,
    ensures
        mates_of(candidates, client, team).len() <= candidates.len(),
        forall|k: int|
            0 <= k < mates_of(candidates, client, team).len() ==> {
                let i = #[trigger] mates_of(candidates, client, team)[k];
                i < candidates.len() && is_mate(candidates[i as int], client, team)
            },
        forall|j: int, k: int|
            0 <= j < k < mates_of(candidates, client, team).len() ==> mates_of(
                candidates,
                client,
                team,
            )[j] < mates_of(candidates, client, team)[k],
        forall|i: int|
            0 <= i < candidates.len() && is_mate(#[trigger] candidates[i], client, team)
                ==> mates_of(candidates, client, team).contains(i as usize),
    decreases candidates.len(),
{
    if candidates.len() > 0 {
        let init = candidates.drop_last();
        lemma_mates_of(init, client, team);
        let before = mates_of(init, client, team);
        let all = mates_of(candidates, client, team);
        let last = (candidates.len() - 1) as usize;
        assert forall|i: int|
            0 <= i < candidates.len() && is_mate(
                #[trigger] candidates[i],
                client,
                team,
            ) implies all.contains(i as usize) by {
            if i < init.len() {
                assert(init[i] == candidates[i]);
                assert(before.contains(i as usize));
                let k = choose|k: int| 0 <= k < before.len() && before[k] == i as usize;
                assert(all[k] == i as usize);
            } else {
                assert(all[all.len() - 1] == last);
            }
        }
        assert forall|k: int| 0 <= k < all.len() implies {
            let i = #[trigger] all[k];
            i < candidates.len() && is_mate(candidates[i as int], client, team)
        } by {
            if k < before.len() {
                assert(all[k] == before[k]);
                assert(init[before[k] as int] == candidates[before[k] as int]);
            }
        }
    }
}

/// The search looks at every block of its box exactly once, and at the
/// blocks in the order of their coordinates.
pub proof fn lemma_probe_order(anchor: Anchor, s: int, t: int)
    requires
        anchor_in_range(anchor),
        0 <= s < SEARCH_STEPS,
        0 <= t < SEARCH_STEPS,
    ensures
        in_search_box(anchor, probe_at(anchor, s)),
        step_of(anchor, probe_at(anchor, s)) == s,
        s < t <==> scanned_before(probe_at(anchor, s), probe_at(anchor, t)),
{
}

/// Every block of the box is looked at in some step.
pub proof fn lemma_probe_covers(anchor: Anchor, pos: BlockPos)
    requires
        anchor_in_range(anchor),
        in_search_box(anchor, pos),
    ensures
        0 <= step_of(anchor, pos) < SEARCH_STEPS,
        probe_at(anchor, step_of(anchor, pos)) == pos,
{
}

/// A random number below `bound`, from `fastrand::usize` over the range
/// that ends before `bound`. Of the result only its range is claimed; an
/// empty range, on which that function panics, is left out.
#[verifier::external_body]
fn random_below(bound: usize) -> (r: usize)
    requires
        bound > 0,
    ensures
        r < bound,
{
    fastrand::usize(..bound)
}

/// The places in `candidates` of everyone on `team` but the client.
pub fn teammates(candidates: &Vec<Candidate>, client: u64, team: u8) -> (mates: Vec<usize>)
    ensures
        mates@ == mates_of(candidates@, client, team),
{
    let mut mates: Vec<usize> = Vec::new();
    let mut i: usize = 0;
    while i < candidates.len()
        invariant
            i <= candidates.len(),
            mates@ == mates_of(candidates@.take(i as int), client, team),
        decreases candidates.len() - i,
    {
        let candidate = candidates[i];
        assert(candidates@.take(i + 1).drop_last() =~= candidates@.take(i as int));
        if !(team != candidate.team || candidate.entity == client) {
            mates.push(i);
        }
        i += 1;
    }
    assert(candidates@.take(i as int) =~= candidates@);
    mates
}

/// The teammate at place `index` of `mates`, if there is one.
pub fn mate_at(mates: &Vec<usize>, index: usize) -> (r: Option<usize>)
    ensures
        index < mates.len() ==> r == Some(mates[index as int]),
        index >= mates.len() ==> r.is_none(),
{
    if index < mates.len() {
        Some(mates[index])
    } else {
        None
    }
}

/// Picks one of `mates` at random. Whatever the draw, a teammate comes
/// back.
pub fn choose_mate(mates: &Vec<usize>) -> (r: Option<usize>)
    requires
        mates.len() > 0,
    ensures
        r.is_some(),
        mates@.contains(r.unwrap()),
{
    let index = random_below(mates.len());
    mate_at(mates, index)
}

/// The block to look at in the given step of the search around `anchor`,
/// or `None` once every block has been looked at and the player is to come
/// back where the teammate stands.
pub fn respawn_probe(anchor: Anchor, step: u32) -> (r: Option<BlockPos>)
    requires
        anchor_in_range(anchor),
    ensures
        step < SEARCH_STEPS ==> r == Some(probe_at(anchor, step as int)),
        step >= SEARCH_STEPS ==> r.is_none(),
{
    if step >= SEARCH_STEPS {
        return None;
    }
    let dx: u32 = step / (SEARCH_SPAN * SEARCH_SPAN);
    let dy: u32 = (step / SEARCH_SPAN) % SEARCH_SPAN;
    let dz: u32 = step % SEARCH_SPAN;
    Some(
        BlockPos {
            x: low_corner(anchor.x) + offset(dx),
            y: low_corner(anchor.y) + offset(dy),
            z: low_corner(anchor.z) + offset(dz),
        },
    )
}

/// Where the search starts along one axis.
fn low_corner(coordinate: i16) -> (r: i32)
    requires
        i16::MIN + SEARCH_RADIUS <= coordinate,
    ensures
        r == coordinate - SEARCH_RADIUS,
{
    let start: i16 = coordinate - SEARCH_RADIUS;
    start as i32
}

/// A distance from the low corner, as a coordinate difference.
fn offset(distance: u32) -> (r: i32)
    requires
        distance < SEARCH_SPAN,
    ensures
        r == distance,
{
    distance as i32
}

} // verus!
