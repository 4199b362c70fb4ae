//! The city grid: a mapping from positions to buildings with unique keys.
//!
//! Positions are pairs `(x, y)` of `i32`. The grid only ever grows: the
//! engine inserts one building per turn and never removes one. The concrete
//! store is a vector of `(position, building)` cells whose keys are kept
//! unique; its mathematical reading is both the cell sequence (the view) and
//! the finite map [`grid_map_of`] derived from it.

use vstd::prelude::*;

use crate::buildings::Building;

verus! {

/// The spec-level key of a cell position: the pair of coordinates as
/// mathematical integers.
pub open spec fn key_of(p: (i32, i32)) -> (int, int) {
    (p.0 as int, p.1 as int)
}

/// The contents of a cell sequence read as a finite map; a later cell with
/// the same key overrides an earlier one (uniqueness makes that moot).
pub open spec fn grid_map_of(cells: Seq<((i32, i32), Building)>) -> Map<(int, int), Building>
    decreases cells.len(),
{
    if cells.len() == 0 {
        Map::empty()
    } else {
        grid_map_of(cells.drop_last()).insert(key_of(cells.last().0), cells.last().1)
    }
}

/// No two cells share a position.
pub open spec fn keys_unique(cells: Seq<((i32, i32), Building)>) -> bool {
    forall|i: int, j: int| 0 <= i < j < cells.len() ==> cells[i].0 != cells[j].0
}

/// Whether some cell of the sequence sits at position `p`.
pub open spec fn seq_has_key(cells: Seq<((i32, i32), Building)>, p: (i32, i32)) -> bool {
    exists|i: int| 0 <= i < cells.len() && cells[i].0 == p
}

/// The last-match lookup of position `p` in a cell sequence.
pub open spec fn seq_lookup(cells: Seq<((i32, i32), Building)>, p: (i32, i32)) -> Option<
    Building,
>
    decreases cells.len(),
{
    if cells.len() == 0 {
        None
    } else if cells.last().0 == p {
        Some(cells.last().1)
    } else {
        seq_lookup(cells.drop_last(), p)
    }
}

/// How an insertion rewrites the cell sequence: a fresh key is appended, an
/// existing key has its building replaced in place.
pub open spec fn inserted(
    old_cells: Seq<((i32, i32), Building)>,
    new_cells: Seq<((i32, i32), Building)>,
    p: (i32, i32),
    b: Building,
) -> bool {
    if !seq_has_key(old_cells, p) {
        new_cells == old_cells.push((p, b))
    } else {
        &&& new_cells.len() == old_cells.len()
        &&& forall|i: int|
            0 <= i < old_cells.len() ==> new_cells[i] == (if old_cells[i].0 == p {
                (p, b)
            } else {
                old_cells[i]
            })
    }
}

/// The city grid. Keys stay unique at all times.
#[derive(Debug)]
pub struct Grid {
    cells: Vec<((i32, i32), Building)>,
}

impl View for Grid {
    type V = Seq<((i32, i32), Building)>;

    closed spec fn view(&self) -> Seq<((i32, i32), Building)> {
        self.cells@
    }
}

impl Grid {
    #[verifier::type_invariant]
    spec fn type_inv(self) -> bool {
        keys_unique(self.cells@)
    }

    /// The grid contents as a finite map from integer positions to buildings.
    pub open spec fn as_map(self) -> Map<(int, int), Building> {
        grid_map_of(self@)
    }

    /// An empty grid.
    pub fn new() -> (g: Grid)
        ensures
            g@ == Seq::<((i32, i32), Building)>::empty(),
            keys_unique(g@),
    {
        Grid { cells: Vec::new() }
    }

    /// The number of placed buildings.
    pub fn len(&self) -> (n: usize)
        ensures
            n == self@.len(),
    {
        self.cells.len()
    }

    /// The `i`-th cell, in insertion order.
    pub fn cell(&self, i: usize) -> (c: ((i32, i32), Building))
        requires
            i < self@.len(),
        ensures
            c == self@[i as int],
    {
        self.cells[i]
    }

    /// Looks the position up in the grid.
    #[verifier::loop_isolation(false)]
    pub fn get(&self, p: (i32, i32)) -> (r: Option<Building>)
        ensures
            r == seq_lookup(self@, p),
            r == (if self.as_map().dom().contains(key_of(p)) {
                Some(self.as_map()[key_of(p)])
            } else {
                None::<Building>
            }),
    {
        proof {
            lemma_seq_lookup_is_map_get(self.cells@, p);
            assert(self.cells@.take(self.cells@.len() as int) =~= self.cells@);
        }
        let mut i: usize = self.cells.len();
        while i > 0
            invariant
                i <= self.cells.len(),
                seq_lookup(self.cells@, p) == seq_lookup(self.cells@.take(i as int), p),
            decreases i,
        {
            i = i - 1;
            let c = self.cells[i];
            proof {
                assert(self.cells@.take(i + 1).last() == self.cells@[i as int]);
                assert(self.cells@.take(i + 1).drop_last() =~= self.cells@.take(i as int));
            }
            if c.0.0 == p.0 && c.0.1 == p.1 {
                proof {
                    assert(c.0 == p);
                    assert(seq_lookup(self.cells@.take(i + 1), p) == Some(c.1));
                }
                return Some(c.1);
            }
        }
        proof {
            assert(self.cells@.take(0) =~= Seq::<((i32, i32), Building)>::empty());
        }
        None
    }

    /// Whether the position is occupied.
    pub fn contains_key(&self, p: (i32, i32)) -> (r: bool)
        ensures
            r == seq_has_key(self@, p),
            r == self.as_map().dom().contains(key_of(p)),
    {
        proof {
            lemma_seq_lookup_is_map_get(self@, p);
            lemma_seq_lookup_has_key(self@, p);
        }
        self.get(p).is_some()
    }

    /// Places `b` at `p`: appends a fresh key, or replaces the building at an
    /// existing one.
    #[verifier::loop_isolation(false)]
    pub fn insert(&mut self, p: (i32, i32), b: Building)
        ensures
            inserted(old(self)@, final(self)@, p, b),
            final(self).as_map() == old(self).as_map().insert(key_of(p), b),
            keys_unique(final(self)@),
    {
        proof {
            use_type_invariant(&*self);
        }
        let ghost orig = self.cells@;
        let mut v: Vec<((i32, i32), Building)> = Vec::new();
        core::mem::swap(&mut self.cells, &mut v);
        let n = v.len();
        let mut i: usize = 0;
        while i < n
            invariant
                n == v.len(),
                i <= n,
                v@ == orig,
                keys_unique(orig),
                forall|j: int| 0 <= j < i ==> orig[j].0 != p,
            decreases n - i,
        {
            let ck = v[i].0;
            if ck.0 == p.0 && ck.1 == p.1 {
                proof {
                    assert(ck == p);
                    assert(orig[i as int].0 == p);
                }
                v[i] = (p, b);
                proof {
                    assert(seq_has_key(orig, p));
                    assert(v@ =~= orig.update(i as int, (p, b)));
                    assert forall|j: int| 0 <= j < orig.len() implies v@[j] == (
                    if orig[j].0 == p {
                        (p, b)
                    } else {
                        orig[j]
                    }) by {
                        if j != i as int && orig[j].0 == p {
                            if j < i as int {
                                assert(orig[j].0 != orig[i as int].0);
                            } else {
                                assert(orig[i as int].0 != orig[j].0);
                            }
                        }
                    }
                    assert(inserted(orig, v@, p, b));
                    lemma_grid_map_update(orig, v@, p, b);
                }
                self.cells = v;
                return ;
            }
            i = i + 1;
        }
        v.push((p, b));
        proof {
            assert(!seq_has_key(orig, p));
            assert(v@.drop_last() =~= orig);
            assert(keys_unique(v@));
        }
        self.cells = v;
    }

    /// A copy of the grid with the same contents.
    #[verifier::loop_isolation(false)]
    pub fn duplicate(&self) -> (g: Grid)
        ensures
            g@ == self@,
            keys_unique(g@),
    {
        proof {
            use_type_invariant(&*self);
        }
        let mut v: Vec<((i32, i32), Building)> = Vec::new();
        let mut i: usize = 0;
        while i < self.cells.len()
            invariant
                i <= self.cells.len(),
                v@ =~= self.cells@.take(i as int),
            decreases self.cells.len() - i,
        {
            v.push(self.cells[i]);
            i = i + 1;
        }
        proof {
            assert(v@ =~= self.cells@);
        }
        Grid { cells: v }
    }

    /// Keys are unique in every grid that can be built; the other methods
    /// preserve that, so it holds of every grid for all time.
    pub fn check_keys_unique(&self)
        ensures
            keys_unique(self@),
    {
        proof {
            use_type_invariant(&*self);
        }
    }
}

/// The last-match lookup agrees with the derived map.
pub proof fn lemma_seq_lookup_is_map_get(cells: Seq<((i32, i32), Building)>, p: (i32, i32))
    ensures
        seq_lookup(cells, p) == (if grid_map_of(cells).dom().contains(key_of(p)) {
            Some(grid_map_of(cells)[key_of(p)])
        } else {
            None::<Building>
        }),
    decreases cells.len(),
{
    if cells.len() > 0 {
        lemma_seq_lookup_is_map_get(cells.drop_last(), p);
    }
}

/// A position has a cell exactly when the derived map contains its key.
pub proof fn lemma_seq_lookup_has_key(cells: Seq<((i32, i32), Building)>, p: (i32, i32))
    ensures
        seq_has_key(cells, p) == seq_lookup(cells, p).is_some(),
    decreases cells.len(),
{
    if cells.len() > 0 {
        lemma_seq_lookup_has_key(cells.drop_last(), p);
        if seq_has_key(cells.drop_last(), p) {
            assert(seq_has_key(cells, p)) by {
                let i = choose|i: int|
                    0 <= i < cells.drop_last().len() && cells.drop_last()[i].0 == p;
                assert(cells[i].0 == p);
            }
        }
        if cells.last().0 == p {
            assert(cells[cells.len() - 1].0 == p);
        }
        if seq_has_key(cells, p) && cells.last().0 != p {
            let i = choose|i: int| 0 <= i < cells.len() && cells[i].0 == p;
            assert(cells.drop_last()[i].0 == p);
        }
    }
}

/// Replacing the building at the (unique) cell with key `p` rewrites the
/// derived map by an insert at that key.
proof fn lemma_grid_map_update(
    old_cells: Seq<((i32, i32), Building)>,
    new_cells: Seq<((i32, i32), Building)>,
    p: (i32, i32),
    b: Building,
)
    requires
        keys_unique(old_cells),
        seq_has_key(old_cells, p),
        new_cells.len() == old_cells.len(),
        forall|i: int|
            0 <= i < old_cells.len() ==> new_cells[i] == (if old_cells[i].0 == p {
                (p, b)
            } else {
                old_cells[i]
            }),
    ensures
        keys_unique(new_cells),
        grid_map_of(new_cells) == grid_map_of(old_cells).insert(key_of(p), b),
    decreases old_cells.len(),
{
    assert(keys_unique(new_cells)) by {
        assert forall|i: int, j: int| 0 <= i < j < new_cells.len() implies new_cells[i].0
            != new_cells[j].0 by {
            assert(old_cells[i].0 != old_cells[j].0);
        }
    }
    if old_cells.last().0 == p {
        assert forall|i: int| 0 <= i < old_cells.len() - 1 implies old_cells[i].0 != p by {
            assert(old_cells[i].0 != old_cells[old_cells.len() - 1].0);
        }
        assert(new_cells.drop_last() =~= old_cells.drop_last());
        assert(grid_map_of(new_cells) == grid_map_of(old_cells.drop_last()).insert(
            key_of(p),
            b,
        ));
        assert(grid_map_of(old_cells).insert(key_of(p), b) =~= grid_map_of(
            old_cells.drop_last(),
        ).insert(key_of(p), b));
    } else {
        assert(seq_has_key(old_cells.drop_last(), p)) by {
            let i = choose|i: int| 0 <= i < old_cells.len() && old_cells[i].0 == p;
            assert(old_cells.drop_last()[i].0 == p);
        }
        assert(forall|i: int|
            0 <= i < old_cells.drop_last().len() ==> new_cells.drop_last()[i] == (
            if old_cells.drop_last()[i].0 == p {
                (p, b)
            } else {
                old_cells.drop_last()[i]
            }));
        lemma_grid_map_update(old_cells.drop_last(), new_cells.drop_last(), p, b);
        assert(new_cells.last() == old_cells.last());
        assert(key_of(old_cells.last().0) != key_of(p)) by {
            let i = choose|i: int| 0 <= i < old_cells.len() && old_cells[i].0 == p;
            assert(old_cells[i].0 != old_cells[old_cells.len() - 1].0);
        }
        assert(grid_map_of(new_cells) =~= grid_map_of(old_cells).insert(key_of(p), b));
    }
}

} // verus!
