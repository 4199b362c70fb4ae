//! The game state and the per-turn transition: the spiral navigator, the
//! commit of a chosen building, and the full economy recomputation.

use vstd::prelude::*;

use crate::buildings::{
    adjacency_yield, building_count, spec_building_count, spec_can_afford, spec_forest_yield,
    spec_glyph_str, spec_quarry_yield, spec_worker_cost, Building,
};
use crate::grid::{inserted, key_of, keys_unique, Grid};
use crate::resources::{GlobalResources, Resources};

verus! {

/// The navigator's travel direction along the spiral.
#[derive(Debug, Clone, Copy, PartialEq, Eq, Structural)]
pub enum Direction {
    Right,
    Left,
    Up,
    Down,
}

/// What the player answered when offered a candidate pair.
#[derive(Debug, Clone, Copy, PartialEq, Eq, Structural)]
pub enum Selection {
    First,
    Second,
    Quit,
}

/// The engine's reaction to a selection: commit this building, ask again
/// on the same pair, or end the session at the player's wish.
#[derive(Debug, Clone, Copy, PartialEq, Eq, Structural)]
pub enum ChoiceOutcome {
    Build(Building),
    Reject,
    Exit,
}

/// One immutable snapshot of the game: turn counter, grid, bounding box,
/// navigator position and direction, resource pool, and the last turn's
/// delta report.
#[derive(Debug)]
pub struct State {
    pub turn: u32,
    pub spiral: Grid,
    pub x_bounds: (i32, i32),
    pub y_bounds: (i32, i32),
    pub owned_resources: GlobalResources,
    pub current_position: (i32, i32),
    pub direction: Direction,
    pub delta_production: Vec<Resources>,
}

/// One step from `p` in direction `d`, as integer coordinates.
pub open spec fn spec_next_position(p: (i32, i32), d: Direction) -> (int, int) {
    match d {
        Direction::Right => (p.0 + 1, p.1 as int),
        Direction::Left => (p.0 - 1, p.1 as int),
        Direction::Up => (p.0 as int, p.1 + 1),
        Direction::Down => (p.0 as int, p.1 - 1),
    }
}

/// Whether integer coordinates fit the machine's position type.
pub open spec fn pos_in_range(q: (int, int)) -> bool {
    &&& i32::MIN <= q.0 <= i32::MAX
    &&& i32::MIN <= q.1 <= i32::MAX
}

/// The bounding-box and direction update of the spiral navigator, checked in
/// the fixed priority order x-low, x-high, y-low, y-high. The first matching
/// condition extends exactly that one bound and turns the walk; when none
/// matches everything is unchanged. This order defines the outward
/// rectangular spiral and must not be reordered.
pub open spec fn spec_advance(
    np: (i32, i32),
    xb: (i32, i32),
    yb: (i32, i32),
    d: Direction,
) -> ((i32, i32), (i32, i32), Direction) {
    if np.0 < xb.0 {
        ((np.0, xb.1), yb, Direction::Up)
    } else if np.0 > xb.1 {
        ((xb.0, np.0), yb, Direction::Down)
    } else if np.1 < yb.0 {
        (xb, (np.1, yb.1), Direction::Left)
    } else if np.1 > yb.1 {
        (xb, (yb.0, np.1), Direction::Right)
    } else {
        (xb, yb, d)
    }
}

/// Executable spiral-navigator advance; see [`spec_advance`].
pub fn advance(np: (i32, i32), xb: (i32, i32), yb: (i32, i32), d: Direction) -> (r: (
    (i32, i32),
    (i32, i32),
    Direction,
))
    ensures
        r == spec_advance(np, xb, yb, d),
{
    if np.0 < xb.0 {
        ((np.0, xb.1), yb, Direction::Up)
    } else if np.0 > xb.1 {
        ((xb.0, np.0), yb, Direction::Down)
    } else if np.1 < yb.0 {
        (xb, (np.1, yb.1), Direction::Left)
    } else if np.1 > yb.1 {
        (xb, (yb.0, np.1), Direction::Right)
    } else {
        (xb, yb, d)
    }
}

/// Whether integer coordinates lie strictly inside the machine range, so
/// that all four neighbours are computable.
pub open spec fn pos_strict(q: (int, int)) -> bool {
    &&& i32::MIN < q.0 < i32::MAX
    &&& i32::MIN < q.1 < i32::MAX
}

/// Total wood produced per turn: the sum of the adjacency-dependent yields
/// of all Forest cells, each read against the full map `m`.
pub open spec fn spec_wood_sum(
    cells: Seq<((i32, i32), Building)>,
    m: Map<(int, int), Building>,
) -> int
    decreases cells.len(),
{
    if cells.len() == 0 {
        0
    } else {
        spec_wood_sum(cells.drop_last(), m) + (if cells.last().1 == Building::Forest {
            spec_forest_yield(m, cells.last().0.0 as int, cells.last().0.1 as int)
        } else {
            0int
        })
    }
}

/// Total rock produced per turn: the sum over all Quarry cells.
pub open spec fn spec_rock_sum(
    cells: Seq<((i32, i32), Building)>,
    m: Map<(int, int), Building>,
) -> int
    decreases cells.len(),
{
    if cells.len() == 0 {
        0
    } else {
        spec_rock_sum(cells.drop_last(), m) + (if cells.last().1 == Building::Quarry {
            spec_quarry_yield(m, cells.last().0.0 as int, cells.last().0.1 as int)
        } else {
            0int
        })
    }
}

/// How a production total lands in the pool: a negative aggregate is cut
/// off at zero (the pool never goes negative), and the top is saturated at
/// `i32::MAX` so that a signed per-turn difference always fits the delta
/// report.
pub open spec fn clamp_amount(n: int) -> int {
    if n < 0 {
        0
    } else if n > i32::MAX {
        i32::MAX as int
    } else {
        n
    }
}

/// The delta report of a turn: `+1` people when a House was built, then a
/// signed wood entry when the wood total moved, then a signed rock entry
/// when the rock total moved. A zero difference is never reported.
pub open spec fn spec_delta_report(
    chosen: Building,
    old_wood: int,
    new_wood: int,
    old_rock: int,
    new_rock: int,
) -> Seq<Resources> {
    (if chosen == Building::House {
        seq![Resources::WorkingPeople(1)]
    } else {
        Seq::<Resources>::empty()
    }) + (if new_wood != old_wood {
        seq![Resources::Wood((new_wood - old_wood) as i32)]
    } else {
        Seq::<Resources>::empty()
    }) + (if new_rock != old_rock {
        seq![Resources::Rock((new_rock - old_rock) as i32)]
    } else {
        Seq::<Resources>::empty()
    })
}

/// Sums the Forest yields over the whole grid and clamps the aggregate into
/// the pool's range.
#[verifier::loop_isolation(false)]
fn total_wood(g: &Grid) -> (w: u32)
    requires
        g@.len() <= u32::MAX,
        forall|i: int| 0 <= i < g@.len() ==> pos_strict(key_of(#[trigger] g@[i].0)),
    ensures
        w == clamp_amount(spec_wood_sum(g@, g.as_map())),
{
    let n = g.len();
    let mut acc: i64 = 0;
    let mut i: usize = 0;
    while i < n
        invariant
            i <= n,
            acc == spec_wood_sum(g@.take(i as int), g.as_map()),
            -2 * (i as int) <= acc <= 6 * (i as int),
        decreases n - i,
    {
        let c = g.cell(i);
        proof {
            assert(g@.take(i + 1).last() == g@[i as int]);
            assert(g@.take(i + 1).drop_last() =~= g@.take(i as int));
        }
        if c.1 == Building::Forest {
            let y = adjacency_yield(c.0, g, Building::Quarry, Building::Workshop);
            acc = acc + y as i64;
        }
        i = i + 1;
    }
    proof {
        assert(g@.take(n as int) =~= g@);
    }
    if acc < 0 {
        0
    } else if acc > i32::MAX as i64 {
        i32::MAX as u32
    } else {
        acc as u32
    }
}

/// Sums the Quarry yields over the whole grid and clamps the aggregate into
/// the pool's range.
#[verifier::loop_isolation(false)]
fn total_rock(g: &Grid) -> (w: u32)
    requires
        g@.len() <= u32::MAX,
        forall|i: int| 0 <= i < g@.len() ==> pos_strict(key_of(#[trigger] g@[i].0)),
    ensures
        w == clamp_amount(spec_rock_sum(g@, g.as_map())),
{
    let n = g.len();
    let mut acc: i64 = 0;
    let mut i: usize = 0;
    while i < n
        invariant
            i <= n,
            acc == spec_rock_sum(g@.take(i as int), g.as_map()),
            -2 * (i as int) <= acc <= 6 * (i as int),
        decreases n - i,
    {
        let c = g.cell(i);
        proof {
            assert(g@.take(i + 1).last() == g@[i as int]);
            assert(g@.take(i + 1).drop_last() =~= g@.take(i as int));
        }
        if c.1 == Building::Quarry {
            let y = adjacency_yield(c.0, g, Building::Forest, Building::Workshop);
            acc = acc + y as i64;
        }
        i = i + 1;
    }
    proof {
        assert(g@.take(n as int) =~= g@);
    }
    if acc < 0 {
        0
    } else if acc > i32::MAX as i64 {
        i32::MAX as u32
    } else {
        acc as u32
    }
}

/// The glyph of one cell in the rendered view: the pending spiral cell is
/// marked with a placeholder tile, a placed building shows its own glyph,
/// and an empty cell a black tile.
pub open spec fn spec_cell_str(s: State, x: int, y: int) -> Seq<char> {
    if (x, y) == spec_next_position(s.current_position, s.direction) {
        "\u{1F7EA}"@
    } else if s.spiral.as_map().dom().contains((x, y)) {
        spec_glyph_str(s.spiral.as_map()[(x, y)])
    } else {
        "\u{2B1B}"@
    }
}

/// One rendered row: the cells at height `y`, from `x` through `x_hi`.
pub open spec fn spec_row_str(s: State, y: int, x: int, x_hi: int) -> Seq<char>
    decreases x_hi + 1 - x,
{
    if x > x_hi {
        Seq::<char>::empty()
    } else {
        spec_cell_str(s, x, y) + spec_row_str(s, y, x + 1, x_hi)
    }
}

/// The rendered rows from `y` down through `y_lo`, each ended by a newline.
pub open spec fn spec_rows_str(s: State, y: int, y_lo: int, x_lo: int, x_hi: int) -> Seq<char>
    decreases y + 1 - y_lo,
{
    if y < y_lo {
        Seq::<char>::empty()
    } else {
        spec_row_str(s, y, x_lo, x_hi) + "\n"@ + spec_rows_str(s, y - 1, y_lo, x_lo, x_hi)
    }
}

/// The whole rendered view: rows from `y_max + 1` down to `y_min - 1`, and
/// columns `x_min - 1` through `x_max + 1` — the grid with a one-cell
/// border all around.
pub open spec fn spec_spiral_string(s: State) -> Seq<char> {
    spec_rows_str(
        s,
        s.y_bounds.1 + 1,
        s.y_bounds.0 - 1,
        s.x_bounds.0 - 1,
        s.x_bounds.1 + 1,
    )
}

/// Whether `q` lies inside the bounding box.
pub open spec fn in_box(q: (int, int), xb: (i32, i32), yb: (i32, i32)) -> bool {
    &&& xb.0 <= q.0 <= xb.1
    &&& yb.0 <= q.1 <= yb.1
}

/// Whether `q` lies strictly ahead of position `p` walking in direction `d`.
pub open spec fn is_ahead(q: (int, int), p: (i32, i32), d: Direction) -> bool {
    match d {
        Direction::Right => q.1 == p.1 && q.0 > p.0,
        Direction::Left => q.1 == p.1 && q.0 < p.0,
        Direction::Up => q.0 == p.0 && q.1 > p.1,
        Direction::Down => q.0 == p.0 && q.1 < p.1,
    }
}

impl State {
    /// The spiral-growth invariant: every building lies inside the bounding
    /// box, the box stays strictly inside the position type's range, the
    /// navigator stands inside the box, and every in-box cell strictly ahead
    /// of the navigator is still free. It makes the next spiral cell always
    /// a fresh one.
    pub open spec fn spiral_wf(self) -> bool {
        &&& i32::MIN < self.x_bounds.0 <= self.x_bounds.1 < i32::MAX
        &&& i32::MIN < self.y_bounds.0 <= self.y_bounds.1 < i32::MAX
        &&& forall|q: (int, int)|
            self.spiral.as_map().dom().contains(q) ==> in_box(q, self.x_bounds, self.y_bounds)
        &&& in_box(key_of(self.current_position), self.x_bounds, self.y_bounds)
        &&& forall|q: (int, int)|
            is_ahead(q, self.current_position, self.direction) && in_box(
                q,
                self.x_bounds,
                self.y_bounds,
            ) ==> !self.spiral.as_map().dom().contains(q)
    }

    /// Well-formedness of a reachable game state: a sound pool whose
    /// population equals the number of Houses on the grid, unique grid keys,
    /// and the spiral-growth invariant.
    pub open spec fn wf(self) -> bool {
        &&& self.owned_resources.wf()
        &&& keys_unique(self.spiral@)
        &&& self.owned_resources.total_people == spec_building_count(
            self.spiral@,
            Building::House,
        )
        &&& self.spiral_wf()
    }

    /// The starting state: one House at the origin, bounds covering only the
    /// origin, the navigator at the origin walking right, one free
    /// inhabitant, and an empty delta report.
    pub fn initialize() -> (s: State)
        ensures
            s.turn == 0,
            s.spiral@ == seq![((0i32, 0i32), Building::House)],
            s.x_bounds == (0i32, 0i32),
            s.y_bounds == (0i32, 0i32),
            s.owned_resources == (GlobalResources {
                total_people: 1,
                occupied_people: 0,
                wood: 0,
                rock: 0,
            }),
            s.current_position == (0i32, 0i32),
            s.direction == Direction::Right,
            s.delta_production@ == Seq::<Resources>::empty(),
            s.wf(),
    {
        let mut initial_spiral = Grid::new();
        initial_spiral.insert((0, 0), Building::House);
        let initial_resources = GlobalResources::initialize();
        let s = State {
            turn: 0,
            spiral: initial_spiral,
            x_bounds: (0, 0),
            y_bounds: (0, 0),
            owned_resources: initial_resources,
            current_position: (0, 0),
            direction: Direction::Right,
            delta_production: Vec::new(),
        };
        proof {
            assert(s.spiral@ =~= seq![((0i32, 0i32), Building::House)]);
            assert(s.spiral.as_map() =~= map![key_of((0i32, 0i32)) => Building::House]);
            assert(spec_building_count(s.spiral@, Building::House) == 1) by {
                assert(s.spiral@.drop_last() =~= Seq::<((i32, i32), Building)>::empty());
                assert(spec_building_count(
                    Seq::<((i32, i32), Building)>::empty(),
                    Building::House,
                ) == 0);
                assert(s.spiral@.last().1 == Building::House);
            }
        }
        s
    }

    /// The next insertion cell: one step from the current position in the
    /// current direction. Pure; the grid is not consulted.
    pub fn get_next_position(&self) -> (r: (i32, i32))
        requires
            pos_in_range(spec_next_position(self.current_position, self.direction)),
        ensures
            (r.0 as int, r.1 as int) == spec_next_position(self.current_position, self.direction),
    {
        let (cx, cy) = self.current_position;
        match self.direction {
            Direction::Right => (cx + 1, cy),
            Direction::Left => (cx - 1, cy),
            Direction::Up => (cx, cy + 1),
            Direction::Down => (cx, cy - 1),
        }
    }

    /// Renders the grid with a one-cell border: rows from top to bottom,
    /// the pending spiral cell marked with a placeholder tile.
    #[verifier::loop_isolation(false)]
    pub fn spiral_to_string(&self) -> (r: String)
        requires
            i32::MIN < self.x_bounds.0 <= self.x_bounds.1 < i32::MAX,
            i32::MIN < self.y_bounds.0 <= self.y_bounds.1 < i32::MAX,
            pos_in_range(spec_next_position(self.current_position, self.direction)),
        ensures
            r@ == spec_spiral_string(*self),
    {
        let (x_min, x_max) = self.x_bounds;
        let (y_min, y_max) = self.y_bounds;
        let np = self.get_next_position();
        let ghost y_lo: int = y_min as int - 1;
        let ghost x_lo: int = x_min as int - 1;
        let ghost x_hi: int = x_max as int + 1;
        let mut spiral_string = String::new();
        let nrows: i64 = y_max as i64 - y_min as i64 + 3;
        let ncols: i64 = x_max as i64 - x_min as i64 + 3;
        let mut row: i64 = 0;
        while row < nrows
            invariant
                0 <= row <= nrows,
                spec_spiral_string(*self) == spiral_string@ + spec_rows_str(
                    *self,
                    y_max as int + 1 - row,
                    y_lo,
                    x_lo,
                    x_hi,
                ),
            decreases nrows - row,
        {
            let y: i32 = (y_max as i64 + 1 - row) as i32;
            let mut new_line = String::new();
            let mut col: i64 = 0;
            while col < ncols
                invariant
                    0 <= col <= ncols,
                    spec_row_str(*self, y as int, x_lo, x_hi) == new_line@ + spec_row_str(
                        *self,
                        y as int,
                        x_lo + col,
                        x_hi,
                    ),
                decreases ncols - col,
            {
                let x: i32 = (x_min as i64 - 1 + col) as i32;
                let ghost nl0 = new_line@;
                if x == np.0 && y == np.1 {
                    new_line.append("\u{1F7EA}");
                } else {
                    let found = self.spiral.get((x, y));
                    match found {
                        Some(b) => {
                            let g = b.glyph();
                            new_line.append(g);
                        },
                        None => {
                            new_line.append("\u{2B1B}");
                        },
                    }
                }
                proof {
                    assert(new_line@ =~= nl0 + spec_cell_str(*self, x as int, y as int));
                    assert(new_line@ + spec_row_str(*self, y as int, x_lo + col + 1, x_hi)
                        =~= nl0 + spec_row_str(*self, y as int, x_lo + col, x_hi));
                }
                col = col + 1;
            }
            let ghost ss0 = spiral_string@;
            new_line.append("\n");
            spiral_string.append(new_line.as_str());
            proof {
                assert(spiral_string@ + spec_rows_str(
                    *self,
                    y_max as int + 1 - (row + 1),
                    y_lo,
                    x_lo,
                    x_hi,
                ) =~= ss0 + spec_rows_str(*self, y_max as int + 1 - row, y_lo, x_lo, x_hi));
            }
            row = row + 1;
        }
        spiral_string
    }

    /// Whether neither candidate of the offered pair is affordable — the
    /// designed loss outcome: the turn ends the game and the state stays
    /// untouched.
    pub fn no_affordable_candidate(&self, building1: Building, building2: Building) -> (r: bool)
        requires
            self.owned_resources.occupied_people <= self.owned_resources.total_people,
        ensures
            r == (!spec_can_afford(building1, self.owned_resources) && !spec_can_afford(
                building2,
                self.owned_resources,
            )),
    {
        !building1.can_be_built(self) && !building2.can_be_built(self)
    }

    /// The reaction to one selection against the offered pair: quitting
    /// ends the session, an affordable selection is committed, and an
    /// unaffordable one is rejected locally so the same pair is offered
    /// again — never surfaced as an error.
    pub fn resolve_selection(
        &self,
        building1: Building,
        building2: Building,
        selection: Selection,
    ) -> (r: ChoiceOutcome)
        requires
            self.owned_resources.occupied_people <= self.owned_resources.total_people,
        ensures
            r == (match selection {
                Selection::Quit => ChoiceOutcome::Exit,
                Selection::First => if spec_can_afford(building1, self.owned_resources) {
                    ChoiceOutcome::Build(building1)
                } else {
                    ChoiceOutcome::Reject
                },
                Selection::Second => if spec_can_afford(building2, self.owned_resources) {
                    ChoiceOutcome::Build(building2)
                } else {
                    ChoiceOutcome::Reject
                },
            }),
    {
        match selection {
            Selection::Quit => ChoiceOutcome::Exit,
            Selection::First => {
                if building1.can_be_built(self) {
                    ChoiceOutcome::Build(building1)
                } else {
                    ChoiceOutcome::Reject
                }
            },
            Selection::Second => {
                if building2.can_be_built(self) {
                    ChoiceOutcome::Build(building2)
                } else {
                    ChoiceOutcome::Reject
                }
            },
        }
    }

    /// Machine-limit bounds under which a turn can be taken: a sound pool,
    /// room in the turn counter and the population counter, and coordinates
    /// far enough from the ends of the `i32` range that every cell's
    /// neighbours and the next spiral step are computable. Every reachable
    /// state of a game short enough to fit the counters satisfies this.
    pub open spec fn turn_ready(self) -> bool {
        &&& self.owned_resources.wf()
        &&& self.turn < u32::MAX
        &&& self.spiral@.len() < u32::MAX
        &&& forall|i: int| 0 <= i < self.spiral@.len() ==> pos_strict(key_of(#[trigger] self.spiral@[i].0))
        &&& pos_strict(spec_next_position(self.current_position, self.direction))
    }

    /// The exact relation between a state and its successor when a turn
    /// commits `b`: the turn counter steps, the chosen building is placed on
    /// the next spiral cell, the bounding box and direction advance, the
    /// worker cost is charged, and the economy is recomputed from the
    /// post-insertion grid — population as the House count, wood and rock
    /// as the clamped production sums; the delta report describes the move
    /// of the totals.
    pub open spec fn spec_turn_result(self, b: Building, s2: State) -> bool {
        &&& s2.turn == self.turn + 1
        &&& key_of(s2.current_position) == spec_next_position(self.current_position, self.direction)
        &&& inserted(self.spiral@, s2.spiral@, s2.current_position, b)
        &&& keys_unique(s2.spiral@)
        &&& (s2.x_bounds, s2.y_bounds, s2.direction) == spec_advance(
            s2.current_position,
            self.x_bounds,
            self.y_bounds,
            self.direction,
        )
        &&& s2.owned_resources.occupied_people == self.owned_resources.occupied_people
            + spec_worker_cost(b)
        &&& s2.owned_resources.total_people == spec_building_count(s2.spiral@, Building::House)
        &&& s2.owned_resources.wood == clamp_amount(spec_wood_sum(s2.spiral@, s2.spiral.as_map()))
        &&& s2.owned_resources.rock == clamp_amount(spec_rock_sum(s2.spiral@, s2.spiral.as_map()))
        &&& s2.delta_production@ == spec_delta_report(
            b,
            self.owned_resources.wood as int,
            s2.owned_resources.wood as int,
            self.owned_resources.rock as int,
            s2.owned_resources.rock as int,
        )
    }

    /// One committed turn: places `new_building` on the next spiral cell and
    /// returns the successor state, or `None` — and no change at all — when
    /// the pool cannot pay for it. The cost is checked and charged against
    /// the same unmutated pool, so the charge can never underflow; wood and
    /// rock are then recomputed from the post-insertion grid as a whole,
    /// which overwrites the charged amounts, while the occupied workers
    /// carry forward.
    pub fn turn(&self, new_building: Building) -> (r: Option<State>)
        requires
            self.turn_ready(),
        ensures
            r.is_some() == spec_can_afford(new_building, self.owned_resources),
            r.is_some() ==> self.spec_turn_result(new_building, r.unwrap()),
    {
        if !new_building.can_be_built(self) {
            return None;
        }
        // Pay the cost against the pool that was just checked.
        let mut pool = self.owned_resources;
        match new_building {
            Building::House => {
                pool.wood = pool.wood - 1;
            },
            Building::Forest => {
                pool.occupied_people = pool.occupied_people + 1;
            },
            Building::Quarry => {
                pool.occupied_people = pool.occupied_people + 1;
            },
            Building::Workshop => {
                pool.occupied_people = pool.occupied_people + 2;
                pool.wood = pool.wood - 1;
                pool.rock = pool.rock - 1;
            },
        }
        // Place the building on the next spiral cell and advance the box.
        let np = self.get_next_position();
        let mut spiral2 = self.spiral.duplicate();
        spiral2.insert(np, new_building);
        let (xb2, yb2, dir2) = advance(np, self.x_bounds, self.y_bounds, self.direction);
        // Recompute the whole economy from the post-insertion grid; the
        // wood and rock totals ignore the pre-turn pool entirely.
        proof {
            assert forall|i: int| 0 <= i < spiral2@.len() implies pos_strict(
                key_of(#[trigger] spiral2@[i].0),
            ) by {
                if crate::grid::seq_has_key(self.spiral@, np) {
                    assert(spiral2@[i] == (if self.spiral@[i].0 == np {
                        (np, new_building)
                    } else {
                        self.spiral@[i]
                    }));
                } else {
                    if i < self.spiral@.len() {
                        assert(spiral2@[i] == self.spiral@[i]);
                    } else {
                        assert(spiral2@[i] == (np, new_building));
                    }
                }
            }
        }
        let total2 = building_count(&spiral2, Building::House);
        let wood2 = total_wood(&spiral2);
        let rock2 = total_rock(&spiral2);
        pool.total_people = total2;
        pool.wood = wood2;
        pool.rock = rock2;
        // Build the delta report from the move of the totals.
        let mut delta: Vec<Resources> = Vec::new();
        if new_building == Building::House {
            delta.push(Resources::WorkingPeople(1));
        }
        if wood2 != self.owned_resources.wood {
            let d = wood2 as i64 - self.owned_resources.wood as i64;
            delta.push(Resources::Wood(d as i32));
        }
        if rock2 != self.owned_resources.rock {
            let d = rock2 as i64 - self.owned_resources.rock as i64;
            delta.push(Resources::Rock(d as i32));
        }
        let s2 = State {
            turn: self.turn + 1,
            spiral: spiral2,
            x_bounds: xb2,
            y_bounds: yb2,
            owned_resources: pool,
            current_position: np,
            direction: dir2,
            delta_production: delta,
        };
        proof {
            assert(s2.delta_production@ =~= spec_delta_report(
                new_building,
                self.owned_resources.wood as int,
                s2.owned_resources.wood as int,
                self.owned_resources.rock as int,
                s2.owned_resources.rock as int,
            ));
        }
        Some(s2)
    }
}

} // verus!
