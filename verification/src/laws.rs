//! Global guarantees of the engine, stated and proved once: the pool
//! invariant, the freshness and monotonicity of the spiral growth, the
//! one-bound-per-advance rule, the forced-loss rule, and the independence
//! of the recomputed economy from the pre-turn pool.

use vstd::prelude::*;

use crate::buildings::{spec_building_count, spec_can_afford, Building};
use crate::grid::{grid_map_of, key_of, seq_has_key};
use crate::resources::GlobalResources;
use crate::states::{
    in_box, is_ahead, spec_advance, spec_next_position, Direction, State,
};

verus! {

/// In every well-formed state, no more workers are occupied than people
/// exist.
pub proof fn lemma_pool_invariant(s: State)
    requires
        s.wf(),
    ensures
        s.owned_resources.occupied_people <= s.owned_resources.total_people,
{
}

/// The cell the navigator will fill next is never occupied yet: the next
/// position is strictly ahead of the navigator, and ahead cells inside the
/// box are free while cells outside the box hold nothing at all.
pub proof fn lemma_pending_cell_fresh(s: State)
    requires
        s.wf(),
    ensures
        !s.spiral.as_map().dom().contains(spec_next_position(s.current_position, s.direction)),
{
    let np = spec_next_position(s.current_position, s.direction);
    assert(is_ahead(np, s.current_position, s.direction));
}

/// `seq_has_key` on the cells and key membership in the derived map agree.
proof fn lemma_has_key_map(cells: Seq<((i32, i32), Building)>, p: (i32, i32))
    ensures
        seq_has_key(cells, p) == grid_map_of(cells).dom().contains(key_of(p)),
{
    crate::grid::lemma_seq_lookup_is_map_get(cells, p);
    crate::grid::lemma_seq_lookup_has_key(cells, p);
}

/// Appending a cell counts one more of its variant and leaves the other
/// counts alone.
proof fn lemma_count_push(
    cells: Seq<((i32, i32), Building)>,
    c: ((i32, i32), Building),
    b: Building,
)
    ensures
        spec_building_count(cells.push(c), b) == spec_building_count(cells, b) + (if c.1 == b {
            1int
        } else {
            0int
        }),
{
    assert(cells.push(c).drop_last() =~= cells);
}

/// A committed turn takes a well-formed state to a well-formed state: the
/// pool invariant, the House-count population, the unique grid keys and the
/// spiral-growth invariant are all preserved. Together with
/// [`State::initialize`], which establishes `wf`, this makes them hold in
/// every reachable state.
pub proof fn lemma_turn_preserves_wf(s: State, b: Building, s2: State)
    requires
        s.turn_ready(),
        s.wf(),
        spec_can_afford(b, s.owned_resources),
        s.spec_turn_result(b, s2),
    ensures
        s2.wf(),
{
    let np = spec_next_position(s.current_position, s.direction);
    let npos = s2.current_position;
    lemma_pending_cell_fresh(s);
    lemma_has_key_map(s.spiral@, npos);
    assert(!seq_has_key(s.spiral@, npos));
    assert(s2.spiral@ == s.spiral@.push((npos, b)));
    lemma_count_push(s.spiral@, (npos, b), Building::House);
    // The pool: the worker charge stays within the (possibly grown) House
    // count, and the clamped totals stay within range.
    assert(s2.owned_resources.wf());
    // The box: it only ever grows, the new cell and the navigator lie
    // inside it, and everything ahead of the new position is still free.
    assert(s2.spiral@.last() == ((npos, b)));
    assert(grid_map_of(s2.spiral@) == grid_map_of(s.spiral@).insert(key_of(npos), b)) by {
        assert(s2.spiral@.drop_last() =~= s.spiral@);
    }
    let xb = s.x_bounds;
    let yb = s.y_bounds;
    let xb2 = s2.x_bounds;
    let yb2 = s2.y_bounds;
    assert forall|q: (int, int)| s2.spiral.as_map().dom().contains(q) implies in_box(
        q,
        xb2,
        yb2,
    ) by {
        if q != key_of(npos) {
            assert(s.spiral.as_map().dom().contains(q));
            assert(in_box(q, xb, yb));
        }
    }
    assert forall|q: (int, int)|
        is_ahead(q, s2.current_position, s2.direction) && in_box(q, xb2, yb2) implies !s2
        .spiral
        .as_map()
        .dom()
        .contains(q) by {
        assert(q != key_of(npos));
        if s2.direction == s.direction && xb2 == xb && yb2 == yb {
            assert(is_ahead(q, s.current_position, s.direction));
        } else {
            if s.spiral.as_map().dom().contains(q) {
                assert(in_box(q, xb, yb));
            }
        }
    }
    assert(s2.spiral_wf());
}

/// The grid only grows: a committed turn keeps every placed building where
/// it was, and adds exactly the one new cell.
pub proof fn lemma_grid_monotone(s: State, b: Building, s2: State)
    requires
        s.wf(),
        s.spec_turn_result(b, s2),
    ensures
        forall|q: (int, int)|
            s.spiral.as_map().dom().contains(q) ==> s2.spiral.as_map().dom().contains(q)
                && s2.spiral.as_map()[q] == s.spiral.as_map()[q],
        s2.spiral.as_map().dom() =~= s.spiral.as_map().dom().insert(
            spec_next_position(s.current_position, s.direction),
        ),
{
    let npos = s2.current_position;
    lemma_pending_cell_fresh(s);
    lemma_has_key_map(s.spiral@, npos);
    assert(s2.spiral@ == s.spiral@.push((npos, b)));
    assert(grid_map_of(s2.spiral@) == grid_map_of(s.spiral@).insert(key_of(npos), b)) by {
        assert(s2.spiral@.drop_last() =~= s.spiral@);
    }
}

/// One `advance` call moves at most one bound, the first one in the fixed
/// priority order x-low, x-high, y-low, y-high, and sets the direction that
/// matches the moved bound; when no bound moves, the direction is kept.
pub proof fn lemma_advance_updates_one_bound(
    np: (i32, i32),
    xb: (i32, i32),
    yb: (i32, i32),
    d: Direction,
)
    ensures
        ({
            let (xb2, yb2, d2) = spec_advance(np, xb, yb, d);
            &&& xb2.0 != xb.0 ==> xb2.1 == xb.1 && yb2 == yb && d2 == Direction::Up && np.0
                < xb.0 && xb2.0 == np.0
            &&& xb2.1 != xb.1 ==> xb2.0 == xb.0 && yb2 == yb && d2 == Direction::Down && np.0
                > xb.1 && xb2.1 == np.0
            &&& yb2.0 != yb.0 ==> xb2 == xb && yb2.1 == yb.1 && d2 == Direction::Left && np.1
                < yb.0 && yb2.0 == np.1
            &&& yb2.1 != yb.1 ==> xb2 == xb && yb2.0 == yb.0 && d2 == Direction::Right && np.1
                > yb.1 && yb2.1 == np.1
            &&& (xb2 == xb && yb2 == yb) ==> d2 == d
        }),
{
}

/// With no free worker, no wood and no rock, no building is affordable: any
/// candidate pair loses the game.
pub proof fn lemma_forced_loss(res: GlobalResources)
    requires
        res.total_people == res.occupied_people,
        res.wood == 0,
        res.rock == 0,
    ensures
        forall|b: Building| !spec_can_afford(b, res),
{
    assert forall|b: Building| !spec_can_afford(b, res) by {
        match b {
            Building::House => {},
            Building::Forest => {},
            Building::Quarry => {},
            Building::Workshop => {},
        }
    }
}

/// A turn is a function: whatever produced them, two successor states of
/// the same state and the same chosen building agree on every engine
/// field. With a fixed candidate source and a fixed selection sequence,
/// repeated runs therefore pass through identical states.
pub proof fn lemma_turn_deterministic(s: State, b: Building, t1: State, t2: State)
    requires
        s.spec_turn_result(b, t1),
        s.spec_turn_result(b, t2),
    ensures
        t1.turn == t2.turn,
        t1.spiral@ == t2.spiral@,
        t1.x_bounds == t2.x_bounds,
        t1.y_bounds == t2.y_bounds,
        t1.current_position == t2.current_position,
        t1.direction == t2.direction,
        t1.owned_resources == t2.owned_resources,
        t1.delta_production@ == t2.delta_production@,
{
    assert(key_of(t1.current_position) == key_of(t2.current_position));
    assert(t1.current_position == t2.current_position);
    if !seq_has_key(s.spiral@, t1.current_position) {
        assert(t1.spiral@ == t2.spiral@);
    } else {
        assert(t1.spiral@ =~= t2.spiral@);
    }
}

/// The recomputed wood and rock totals of a turn depend only on the grid
/// and the navigator, never on the pre-turn wood and rock: charging the
/// cost before the recomputation cannot change the final totals.
pub proof fn lemma_recompute_ignores_pool(s1: State, s2: State, b: Building, t1: State, t2: State)
    requires
        s1.spiral@ == s2.spiral@,
        s1.current_position == s2.current_position,
        s1.direction == s2.direction,
        s1.spec_turn_result(b, t1),
        s2.spec_turn_result(b, t2),
    ensures
        t1.owned_resources.wood == t2.owned_resources.wood,
        t1.owned_resources.rock == t2.owned_resources.rock,
{
    assert(key_of(t1.current_position) == key_of(t2.current_position));
    assert(t1.current_position == t2.current_position);
    if !seq_has_key(s1.spiral@, t1.current_position) {
        assert(t1.spiral@ == t2.spiral@);
    } else {
        assert(t1.spiral@ =~= t2.spiral@);
    }
}

} // verus!

