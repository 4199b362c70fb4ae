//! The building catalog: the closed set of building variants with their
//! cost, affordability and adjacency-production rules.

use vstd::prelude::*;

use crate::grid::Grid;
use crate::resources::{GlobalResources, Resources};
use crate::states::State;

verus! {

/// The four building variants of the game.
#[derive(Debug, Clone, Copy, PartialEq, Eq, Structural)]
pub enum Building {
    House,
    Forest,
    Quarry,
    Workshop,
}

/// Workers a variant occupies when built.
pub open spec fn spec_worker_cost(b: Building) -> int {
    match b {
        Building::House => 0,
        Building::Forest => 1,
        Building::Quarry => 1,
        Building::Workshop => 2,
    }
}

/// Wood a variant consumes when built.
pub open spec fn spec_wood_cost(b: Building) -> int {
    match b {
        Building::House => 1,
        Building::Forest => 0,
        Building::Quarry => 0,
        Building::Workshop => 1,
    }
}

/// Rock a variant consumes when built.
pub open spec fn spec_rock_cost(b: Building) -> int {
    match b {
        Building::House => 0,
        Building::Forest => 0,
        Building::Quarry => 0,
        Building::Workshop => 1,
    }
}

/// The ordered cost list of a variant, as the catalog presents it.
pub open spec fn spec_cost_list(b: Building) -> Seq<Resources> {
    match b {
        Building::House => seq![Resources::Wood(1)],
        Building::Forest => seq![Resources::WorkingPeople(1)],
        Building::Quarry => seq![Resources::WorkingPeople(1)],
        Building::Workshop => seq![
            Resources::WorkingPeople(2),
            Resources::Wood(1),
            Resources::Rock(1),
        ],
    }
}

/// How many cells of the sequence hold the given variant.
pub open spec fn spec_building_count(cells: Seq<((i32, i32), Building)>, b: Building) -> int
    decreases cells.len(),
{
    if cells.len() == 0 {
        0
    } else {
        spec_building_count(cells.drop_last(), b) + (if cells.last().1 == b {
            1int
        } else {
            0int
        })
    }
}

/// Counts the buildings of the given variant on the grid; population is the
/// count of Houses.
#[verifier::loop_isolation(false)]
pub fn building_count(grid: &Grid, variant: Building) -> (r: u32)
    requires
        grid@.len() <= u32::MAX,
    ensures
        r == spec_building_count(grid@, variant),
{
    let n = grid.len();
    let mut count: u32 = 0;
    let mut i: usize = 0;
    while i < n
        invariant
            i <= n,
            count == spec_building_count(grid@.take(i as int), variant),
            count <= i,
        decreases n - i,
    {
        let c = grid.cell(i);
        proof {
            assert(grid@.take(i + 1).last() == grid@[i as int]);
            assert(grid@.take(i + 1).drop_last() =~= grid@.take(i as int));
        }
        if c.1 == variant {
            count = count + 1;
        }
        i = i + 1;
    }
    proof {
        assert(grid@.take(n as int) =~= grid@);
    }
    count
}

/// Whether the pool can pay one cost entry.
pub open spec fn spec_entry_ok(e: Resources, res: GlobalResources) -> bool {
    match e {
        Resources::WorkingPeople(n) => res.total_people - res.occupied_people >= n,
        Resources::Wood(n) => res.wood >= n,
        Resources::Rock(n) => res.rock >= n,
    }
}

/// Whether the pool can pay the whole cost of a variant: enough free
/// workers, wood and rock.
pub open spec fn spec_can_afford(b: Building, res: GlobalResources) -> bool {
    &&& res.total_people - res.occupied_people >= spec_worker_cost(b)
    &&& res.wood >= spec_wood_cost(b)
    &&& res.rock >= spec_rock_cost(b)
}

/// Whether the map holds variant `b` at `(x, y)`.
pub open spec fn spec_has_at(
    m: Map<(int, int), Building>,
    x: int,
    y: int,
    b: Building,
) -> bool {
    m.dom().contains((x, y)) && m[(x, y)] == b
}

/// How many of the four orthogonal neighbours of `(x, y)` hold variant `b`;
/// diagonals are excluded and absent cells ignored.
pub open spec fn spec_adjacent_count(
    m: Map<(int, int), Building>,
    x: int,
    y: int,
    b: Building,
) -> int {
    (if spec_has_at(m, x - 1, y, b) {
        1int
    } else {
        0int
    }) + (if spec_has_at(m, x + 1, y, b) {
        1int
    } else {
        0int
    }) + (if spec_has_at(m, x, y - 1, b) {
        1int
    } else {
        0int
    }) + (if spec_has_at(m, x, y + 1, b) {
        1int
    } else {
        0int
    })
}

/// A Forest's per-turn wood yield: base 2, minus one per adjacent Quarry,
/// plus one per adjacent Workshop. May be negative; no clamping here.
pub open spec fn spec_forest_yield(m: Map<(int, int), Building>, x: int, y: int) -> int {
    2 - spec_adjacent_count(m, x, y, Building::Quarry) + spec_adjacent_count(
        m,
        x,
        y,
        Building::Workshop,
    )
}

/// A Quarry's per-turn rock yield: base 2, minus one per adjacent Forest,
/// plus one per adjacent Workshop. May be negative; no clamping here.
pub open spec fn spec_quarry_yield(m: Map<(int, int), Building>, x: int, y: int) -> int {
    2 - spec_adjacent_count(m, x, y, Building::Forest) + spec_adjacent_count(
        m,
        x,
        y,
        Building::Workshop,
    )
}

/// The recurring production of a variant placed at `c` on grid `m`: only
/// Forest and Quarry produce; House and Workshop never do.
pub open spec fn spec_production(
    b: Building,
    c: (i32, i32),
    m: Map<(int, int), Building>,
) -> Option<Resources> {
    match b {
        Building::Forest => Some(
            Resources::Wood(spec_forest_yield(m, c.0 as int, c.1 as int) as i32),
        ),
        Building::Quarry => Some(
            Resources::Rock(spec_quarry_yield(m, c.0 as int, c.1 as int) as i32),
        ),
        _ => None,
    }
}

/// Base yield 2, minus one per orthogonal neighbour of variant `minus`,
/// plus one per orthogonal neighbour of variant `plus`.
pub(crate) fn adjacency_yield(c: (i32, i32), grid: &Grid, minus: Building, plus: Building) -> (r: i32)
    requires
        i32::MIN < c.0 < i32::MAX,
        i32::MIN < c.1 < i32::MAX,
        minus != plus,
    ensures
        r == 2 - spec_adjacent_count(grid.as_map(), c.0 as int, c.1 as int, minus)
            + spec_adjacent_count(grid.as_map(), c.0 as int, c.1 as int, plus),
{
    let (x, y) = c;
    let mut n: i32 = 2;
    let west = grid.get((x - 1, y));
    if let Some(b) = west {
        if b == minus {
            n = n - 1;
        } else if b == plus {
            n = n + 1;
        }
    }
    let east = grid.get((x + 1, y));
    if let Some(b) = east {
        if b == minus {
            n = n - 1;
        } else if b == plus {
            n = n + 1;
        }
    }
    let south = grid.get((x, y - 1));
    if let Some(b) = south {
        if b == minus {
            n = n - 1;
        } else if b == plus {
            n = n + 1;
        }
    }
    let north = grid.get((x, y + 1));
    if let Some(b) = north {
        if b == minus {
            n = n - 1;
        } else if b == plus {
            n = n + 1;
        }
    }
    n
}

/// The map glyph of a variant.
pub open spec fn spec_glyph_char(b: Building) -> char {
    match b {
        Building::House => '\u{1F3E0}',
        Building::Forest => '\u{1F332}',
        Building::Quarry => '\u{1FAA8}',
        Building::Workshop => '\u{1FA9A}',
    }
}

/// The map glyph of a variant, as a character sequence.
pub open spec fn spec_glyph_str(b: Building) -> Seq<char> {
    match b {
        Building::House => "\u{1F3E0}"@,
        Building::Forest => "\u{1F332}"@,
        Building::Quarry => "\u{1FAA8}"@,
        Building::Workshop => "\u{1FA9A}"@,
    }
}

/// The catalog card of a variant: cost, production and special effect,
/// one indented line each.
pub open spec fn spec_characteristics(b: Building) -> Seq<char> {
    match b {
        Building::House => "    Cost           : -1 wood \u{1FAB5}\n    Production     : +1 people \u{1F465} (once when built)\n    Special effect : none\n"@,
        Building::Forest => "    Cost           : 1 working people \u{1F465}\n    Production     : +2 wood \u{1FAB5} / turn\n    Special effect : -1 wood \u{1FAB5} if next to a quarry \u{1FAA8}\n"@,
        Building::Quarry => "    Cost           : 1 working people \u{1F465}\n    Production     : +rocks \u{1FAA8} / turn\n    Special effect : -1 rock \u{1FAA8} if next to a forest \u{1F332}\n"@,
        Building::Workshop => "    Cost           : 2 working people \u{1F465} | -1 wood \u{1FAB5} | -1 rock \u{1FAA8}\n    Production     : none\n    Special effect : adjacent buildings produce +1 resource\n"@,
    }
}

/// The display name of a variant.
pub open spec fn spec_name(b: Building) -> Seq<char> {
    match b {
        Building::House => "House"@,
        Building::Forest => "Forest"@,
        Building::Quarry => "Quarry"@,
        Building::Workshop => "Workshop"@,
    }
}

impl Building {
    /// The one-character map glyph of this variant.
    pub fn convert_to_char(&self) -> (r: char)
        ensures
            r == spec_glyph_char(*self),
    {
        match *self {
            Building::House => '\u{1F3E0}',
            Building::Forest => '\u{1F332}',
            Building::Quarry => '\u{1FAA8}',
            Building::Workshop => '\u{1FA9A}',
        }
    }

    /// The map glyph of this variant as a string slice.
    pub fn glyph(&self) -> (r: &'static str)
        ensures
            r@ == spec_glyph_str(*self),
    {
        match *self {
            Building::House => "\u{1F3E0}",
            Building::Forest => "\u{1F332}",
            Building::Quarry => "\u{1FAA8}",
            Building::Workshop => "\u{1FA9A}",
        }
    }

    /// The display name of this variant.
    pub fn get_name(&self) -> (r: String)
        ensures
            r@ == spec_name(*self),
    {
        match *self {
            Building::House => "House".to_owned(),
            Building::Forest => "Forest".to_owned(),
            Building::Quarry => "Quarry".to_owned(),
            Building::Workshop => "Workshop".to_owned(),
        }
    }

    /// Glyph, a space, and the display name.
    pub fn building_to_string(&self) -> (r: String)
        ensures
            r@ == spec_glyph_str(*self) + " "@ + spec_name(*self),
    {
        let mut res = String::new();
        res.append(self.glyph());
        res.append(" ");
        let name = self.get_name();
        res.append(name.as_str());
        res
    }

    /// The catalog card of this variant, as shown beside a candidate.
    pub fn characteristics_to_string(&self) -> (r: String)
        ensures
            r@ == spec_characteristics(*self),
    {
        match *self {
            Building::House => "    Cost           : -1 wood \u{1FAB5}\n    Production     : +1 people \u{1F465} (once when built)\n    Special effect : none\n".to_owned(),
            Building::Forest => "    Cost           : 1 working people \u{1F465}\n    Production     : +2 wood \u{1FAB5} / turn\n    Special effect : -1 wood \u{1FAB5} if next to a quarry \u{1FAA8}\n".to_owned(),
            Building::Quarry => "    Cost           : 1 working people \u{1F465}\n    Production     : +rocks \u{1FAA8} / turn\n    Special effect : -1 rock \u{1FAA8} if next to a forest \u{1F332}\n".to_owned(),
            Building::Workshop => "    Cost           : 2 working people \u{1F465} | -1 wood \u{1FAB5} | -1 rock \u{1FAA8}\n    Production     : none\n    Special effect : adjacent buildings produce +1 resource\n".to_owned(),
        }
    }

    /// The ordered cost list of this variant.
    pub fn cost(&self) -> (r: Vec<Resources>)
        ensures
            r@ == spec_cost_list(*self),
    {
        let mut r: Vec<Resources> = Vec::new();
        match *self {
            Building::House => {
                r.push(Resources::Wood(1));
            },
            Building::Forest => {
                r.push(Resources::WorkingPeople(1));
            },
            Building::Quarry => {
                r.push(Resources::WorkingPeople(1));
            },
            Building::Workshop => {
                r.push(Resources::WorkingPeople(2));
                r.push(Resources::Wood(1));
                r.push(Resources::Rock(1));
            },
        }
        proof {
            assert(r@ =~= spec_cost_list(*self));
        }
        r
    }

    /// Whether the state's pool can pay this variant's cost; checked entry
    /// by entry, failing on the first insufficient one.
    #[verifier::loop_isolation(false)]
    pub fn can_be_built(&self, state: &State) -> (r: bool)
        requires
            state.owned_resources.occupied_people <= state.owned_resources.total_people,
        ensures
            r == spec_can_afford(*self, state.owned_resources),
    {
        let cost = self.cost();
        let n = cost.len();
        let mut i: usize = 0;
        while i < n
            invariant
                i <= n,
                n == cost@.len(),
                cost@ == spec_cost_list(*self),
                forall|j: int| 0 <= j < i ==> spec_entry_ok(cost@[j], state.owned_resources),
            decreases n - i,
        {
            let entry = cost[i];
            match entry {
                Resources::WorkingPeople(k) => {
                    if state.owned_resources.total_people - state.owned_resources.occupied_people
                        < k as u32 {
                        return false;
                    }
                },
                Resources::Wood(k) => {
                    if state.owned_resources.wood < k as u32 {
                        return false;
                    }
                },
                Resources::Rock(k) => {
                    if state.owned_resources.rock < k as u32 {
                        return false;
                    }
                },
            }
            i = i + 1;
        }
        proof {
            let res = state.owned_resources;
            assert(spec_entry_ok(cost@[0], res));
            if cost@.len() > 1 {
                assert(spec_entry_ok(cost@[1], res));
                assert(spec_entry_ok(cost@[2], res));
            }
        }
        true
    }

    /// The recurring production of this variant at `coordinates` on the
    /// state's grid; `None` for House and Workshop.
    pub fn production(&self, coordinates: (i32, i32), state: &State) -> (r: Option<Resources>)
        requires
            i32::MIN < coordinates.0 < i32::MAX,
            i32::MIN < coordinates.1 < i32::MAX,
        ensures
            r == spec_production(*self, coordinates, state.spiral.as_map()),
    {
        match *self {
            Building::Forest => {
                let w = adjacency_yield(
                    coordinates,
                    &state.spiral,
                    Building::Quarry,
                    Building::Workshop,
                );
                Some(Resources::Wood(w))
            },
            Building::Quarry => {
                let q = adjacency_yield(
                    coordinates,
                    &state.spiral,
                    Building::Forest,
                    Building::Workshop,
                );
                Some(Resources::Rock(q))
            },
            _ => None,
        }
    }
}

} // verus!
