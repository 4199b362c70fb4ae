use spiral_city::buildings::{building_count, Building};
use spiral_city::grid::Grid;
use spiral_city::random::{correct_proposition, draw_candidates, RandomSource, ScriptedSource};
use spiral_city::resources::{GlobalResources, Resources};
use spiral_city::states::{advance, ChoiceOutcome, Direction, Selection, State};

fn grid_of(cells: &[((i32, i32), Building)]) -> Grid {
    let mut g = Grid::new();
    for c in cells {
        g.insert(c.0, c.1);
    }
    g
}

fn example_grid() -> Grid {
    grid_of(&[
        ((0, 0), Building::House),
        ((1, 0), Building::Forest),
        ((1, -1), Building::House),
        ((0, -1), Building::House),
        ((-1, -1), Building::Quarry),
        ((-1, 0), Building::Workshop),
        ((-1, 1), Building::House),
    ])
}

fn pool(total: u32, occupied: u32, wood: u32, rock: u32) -> GlobalResources {
    GlobalResources { total_people: total, occupied_people: occupied, wood, rock }
}

/// A readable signature of a whole state, for comparing runs.
fn signature(s: &State) -> String {
    format!(
        "turn={} pos={:?} dir={:?} xb={:?} yb={:?} pool={:?} delta={} grid:\n{}",
        s.turn,
        s.current_position,
        s.direction,
        s.x_bounds,
        s.y_bounds,
        s.owned_resources,
        Resources::delta_to_string(&s.delta_production),
        s.spiral_to_string()
    )
}

#[test]
fn test_spiral_print() {
    // Test spiral print
    let example = State {
        turn: 6,
        spiral: example_grid(),
        x_bounds: (-1, 1),
        y_bounds: (-1, 1),
        owned_resources: pool(4, 3, 8, 4),
        current_position: (-1, 1),
        direction: Direction::Right,
        delta_production: vec![],
    };
    let res = example.spiral_to_string();
    assert_eq!(
        res,
        String::from("⬛⬛⬛⬛⬛\n⬛🏠🟪⬛⬛\n⬛🪚🏠🌲⬛\n⬛🪨🏠🏠⬛\n⬛⬛⬛⬛⬛\n")
    );
}

#[test]
fn test_get_next_position() {
    // Test get next position
    let mut example_coordinates = State::initialize();
    assert_eq!(example_coordinates.get_next_position(), (1, 0));
    example_coordinates.current_position = (1, 0);
    example_coordinates.direction = Direction::Down;
    assert_eq!(example_coordinates.get_next_position(), (1, -1));
    example_coordinates.current_position = (1, -1);
    example_coordinates.direction = Direction::Left;
    assert_eq!(example_coordinates.get_next_position(), (0, -1));
    example_coordinates.current_position = (0, -1);
    example_coordinates.direction = Direction::Left;
    assert_eq!(example_coordinates.get_next_position(), (-1, -1));
    example_coordinates.current_position = (-1, -1);
    example_coordinates.direction = Direction::Up;
    assert_eq!(example_coordinates.get_next_position(), (-1, 0));
    example_coordinates.current_position = (-1, 0);
    example_coordinates.direction = Direction::Up;
    assert_eq!(example_coordinates.get_next_position(), (-1, 1));
}

#[test]
fn scenario_a_initial_state() {
    let s = State::initialize();
    assert_eq!(s.turn, 0);
    assert_eq!(s.x_bounds, (0, 0));
    assert_eq!(s.y_bounds, (0, 0));
    assert_eq!(s.current_position, (0, 0));
    assert!(matches!(s.direction, Direction::Right));
    assert_eq!(s.owned_resources, pool(1, 0, 0, 0));
    assert!(s.delta_production.is_empty());
    assert_eq!(s.spiral.len(), 1);
    assert_eq!(s.spiral.get((0, 0)), Some(Building::House));
}

#[test]
fn scenario_b_first_forest() {
    let s = State::initialize();
    let s1 = s.turn(Building::Forest).expect("Forest is affordable at start");
    assert_eq!(s1.turn, 1);
    assert_eq!(s1.current_position, (1, 0));
    assert!(matches!(s1.direction, Direction::Down));
    assert_eq!(s1.x_bounds, (0, 1));
    assert_eq!(s1.y_bounds, (0, 0));
    assert_eq!(s1.spiral.get((1, 0)), Some(Building::Forest));
    assert_eq!(s1.spiral.get((0, 0)), Some(Building::House));
    assert_eq!(s1.spiral.len(), 2);
    assert_eq!(s1.owned_resources, pool(1, 1, 2, 0));
    assert_eq!(s1.delta_production, vec![Resources::Wood(2)]);
}

#[test]
fn scenario_c_pending_cell_of_worked_example() {
    let example = State {
        turn: 6,
        spiral: example_grid(),
        x_bounds: (-1, 1),
        y_bounds: (-1, 1),
        owned_resources: pool(4, 3, 8, 4),
        current_position: (-1, 1),
        direction: Direction::Right,
        delta_production: vec![],
    };
    let next = example.get_next_position();
    assert_eq!(next, (0, 1));
    assert_eq!(example.spiral.get(next), None);
}

#[test]
fn scenario_d_forced_loss() {
    let broke = State {
        turn: 3,
        spiral: grid_of(&[((0, 0), Building::House), ((1, 0), Building::House)]),
        x_bounds: (-1, 1),
        y_bounds: (0, 1),
        owned_resources: pool(2, 2, 0, 0),
        current_position: (1, 1),
        direction: Direction::Left,
        delta_production: vec![],
    };
    let pairs = [
        (Building::House, Building::Forest),
        (Building::Quarry, Building::Workshop),
        (Building::Forest, Building::Quarry),
        (Building::House, Building::Workshop),
    ];
    for (b1, b2) in pairs {
        assert!(broke.no_affordable_candidate(b1, b2));
        assert!(broke.turn(b1).is_none());
        assert!(broke.turn(b2).is_none());
    }
    // the state itself was never touched
    assert_eq!(broke.owned_resources, pool(2, 2, 0, 0));
    assert_eq!(broke.spiral.len(), 2);
}

#[test]
fn determinism_fixed_script_and_selections() {
    fn run() -> Vec<String> {
        let mut source = ScriptedSource::new(vec![
            Building::Forest,
            Building::Quarry,
            Building::House,
            Building::Workshop,
            Building::Forest,
        ]);
        let selections = [
            Selection::First,
            Selection::Second,
            Selection::First,
            Selection::Second,
            Selection::First,
            Selection::Second,
        ];
        let mut state = State::initialize();
        let mut trace = vec![signature(&state)];
        let mut sel = selections.iter();
        'game: loop {
            let (b1, b2) = draw_candidates(state.turn, &mut source);
            if state.no_affordable_candidate(b1, b2) {
                trace.push(String::from("loss"));
                break;
            }
            // a rejected selection re-prompts against the same pair
            loop {
                let choice = match sel.next() {
                    Some(c) => *c,
                    None => break 'game,
                };
                match state.resolve_selection(b1, b2, choice) {
                    ChoiceOutcome::Build(b) => {
                        state = state.turn(b).expect("resolved selections are affordable");
                        trace.push(signature(&state));
                        break;
                    }
                    ChoiceOutcome::Reject => {}
                    ChoiceOutcome::Exit => {
                        trace.push(String::from("exit"));
                        break 'game;
                    }
                }
            }
        }
        trace
    }
    let first = run();
    let second = run();
    assert!(first.len() > 2);
    assert_eq!(first, second);
}

#[test]
fn candidate_pair_rules() {
    assert!(correct_proposition(0, Building::House, Building::Forest));
    assert!(!correct_proposition(0, Building::House, Building::House));
    assert!(!correct_proposition(0, Building::Workshop, Building::Forest));
    assert!(!correct_proposition(0, Building::House, Building::Workshop));
    assert!(correct_proposition(1, Building::House, Building::Workshop));
    assert!(!correct_proposition(5, Building::Quarry, Building::Quarry));
}

#[test]
fn no_workshop_in_first_turn_pairs() {
    let mut source = ScriptedSource::new(vec![
        Building::Workshop,
        Building::Workshop,
        Building::Workshop,
        Building::Quarry,
        Building::Forest,
    ]);
    for _ in 0..20 {
        let (b1, b2) = draw_candidates(0, &mut source);
        assert_ne!(b1, b2);
        assert_ne!(b1, Building::Workshop);
        assert_ne!(b2, Building::Workshop);
    }
    let mut later = ScriptedSource::new(vec![Building::Workshop, Building::House]);
    let (b1, b2) = draw_candidates(3, &mut later);
    assert_eq!(b1, Building::Workshop);
    assert_eq!(b2, Building::House);
}

#[test]
fn drawing_falls_back_on_a_barren_source() {
    let mut source = ScriptedSource::new(vec![Building::House]);
    let (b1, b2) = draw_candidates(0, &mut source);
    assert_eq!(b1, Building::House);
    assert_eq!(b2, Building::Forest);
    let mut empty = ScriptedSource::new(vec![]);
    let (c1, c2) = draw_candidates(7, &mut empty);
    assert_eq!(c1, Building::House);
    assert_eq!(c2, Building::Forest);
}

#[test]
fn scripted_source_cycles() {
    let mut source = ScriptedSource::new(vec![Building::Quarry, Building::Workshop]);
    assert_eq!(source.next_building(), Building::Quarry);
    assert_eq!(source.next_building(), Building::Workshop);
    assert_eq!(source.next_building(), Building::Quarry);
    assert_eq!(source.next_building(), Building::Workshop);
}

#[test]
fn cost_lists() {
    assert_eq!(Building::House.cost(), vec![Resources::Wood(1)]);
    assert_eq!(Building::Forest.cost(), vec![Resources::WorkingPeople(1)]);
    assert_eq!(Building::Quarry.cost(), vec![Resources::WorkingPeople(1)]);
    assert_eq!(
        Building::Workshop.cost(),
        vec![
            Resources::WorkingPeople(2),
            Resources::Wood(1),
            Resources::Rock(1),
        ]
    );
}

#[test]
fn affordability_boundaries() {
    let mut s = State::initialize();
    // one free worker, no wood, no rock
    assert!(!Building::House.can_be_built(&s));
    assert!(Building::Forest.can_be_built(&s));
    assert!(Building::Quarry.can_be_built(&s));
    assert!(!Building::Workshop.can_be_built(&s));
    // exactly the workshop cost
    s.owned_resources = pool(3, 1, 1, 1);
    assert!(Building::Workshop.can_be_built(&s));
    // one worker short
    s.owned_resources = pool(3, 2, 1, 1);
    assert!(!Building::Workshop.can_be_built(&s));
    // wood short
    s.owned_resources = pool(3, 1, 0, 1);
    assert!(!Building::Workshop.can_be_built(&s));
    // rock short
    s.owned_resources = pool(3, 1, 1, 0);
    assert!(!Building::Workshop.can_be_built(&s));
}

#[test]
fn production_rules() {
    let example = State {
        turn: 6,
        spiral: example_grid(),
        x_bounds: (-1, 1),
        y_bounds: (-1, 1),
        owned_resources: pool(4, 3, 8, 4),
        current_position: (-1, 1),
        direction: Direction::Right,
        delta_production: vec![],
    };
    // the forest at (1, 0): neighbours House and House — plain base yield
    assert_eq!(
        Building::Forest.production((1, 0), &example),
        Some(Resources::Wood(2))
    );
    // the quarry at (-1, -1): one adjacent Workshop at (-1, 0)
    assert_eq!(
        Building::Quarry.production((-1, -1), &example),
        Some(Resources::Rock(3))
    );
    // houses and workshops never produce
    assert_eq!(Building::House.production((0, 0), &example), None);
    assert_eq!(Building::Workshop.production((-1, 0), &example), None);
}

#[test]
fn production_can_go_negative() {
    // a forest hemmed in by three quarries yields 2 - 3 = -1
    let hemmed = State {
        turn: 4,
        spiral: grid_of(&[
            ((0, 0), Building::Forest),
            ((1, 0), Building::Quarry),
            ((-1, 0), Building::Quarry),
            ((0, -1), Building::Quarry),
        ]),
        x_bounds: (-1, 1),
        y_bounds: (-1, 0),
        owned_resources: pool(5, 0, 5, 0),
        current_position: (1, -1),
        direction: Direction::Up,
        delta_production: vec![],
    };
    assert_eq!(
        Building::Forest.production((0, 0), &hemmed),
        Some(Resources::Wood(-1))
    );
}

#[test]
fn negative_wood_total_is_clamped_to_zero() {
    // same hemmed-in forest; committing a House elsewhere recomputes the
    // economy: the aggregate wood yield of -1 lands in the pool as 0
    let hemmed = State {
        turn: 4,
        spiral: grid_of(&[
            ((0, 0), Building::Forest),
            ((1, 0), Building::Quarry),
            ((-1, 0), Building::Quarry),
            ((0, -1), Building::Quarry),
        ]),
        x_bounds: (-1, 1),
        y_bounds: (-1, 0),
        owned_resources: pool(5, 0, 5, 0),
        current_position: (1, -1),
        direction: Direction::Right,
        delta_production: vec![],
    };
    // the House lands on the free cell (2, -1)
    let next = hemmed.turn(Building::House).expect("a House costs one wood");
    assert_eq!(next.turn, 5);
    assert_eq!(next.current_position, (2, -1));
    assert_eq!(next.spiral.get((2, -1)), Some(Building::House));
    // population: exactly the one new House
    assert_eq!(next.owned_resources.total_people, 1);
    assert_eq!(next.owned_resources.occupied_people, 0);
    // wood: clamped at zero; rock: three quarries, each next to the forest
    assert_eq!(next.owned_resources.wood, 0);
    assert_eq!(next.owned_resources.rock, 3);
    assert_eq!(
        next.delta_production,
        vec![
            Resources::WorkingPeople(1),
            Resources::Wood(-5),
            Resources::Rock(3),
        ]
    );
}

#[test]
fn advance_priority_and_single_bound() {
    // x below the box wins over everything and turns the walk up
    let r = advance((-2, 5), (-1, 1), (-1, 1), Direction::Left);
    assert_eq!(r, ((-2, 1), (-1, 1), Direction::Up));
    // x above the box turns the walk down
    let r = advance((2, 0), (-1, 1), (-1, 1), Direction::Right);
    assert_eq!(r, ((-1, 2), (-1, 1), Direction::Down));
    // y below the box turns the walk left
    let r = advance((0, -2), (-1, 1), (-1, 1), Direction::Down);
    assert_eq!(r, ((-1, 1), (-2, 1), Direction::Left));
    // y above the box turns the walk right
    let r = advance((0, 2), (-1, 1), (-1, 1), Direction::Up);
    assert_eq!(r, ((-1, 1), (-1, 2), Direction::Right));
    // inside the box nothing changes
    let r = advance((0, 0), (-1, 1), (-1, 1), Direction::Left);
    assert_eq!(r, ((-1, 1), (-1, 1), Direction::Left));
}

#[test]
fn resolve_selection_outcomes() {
    let s = State::initialize();
    // one free worker: Forest affordable, Workshop not
    assert_eq!(
        s.resolve_selection(Building::Forest, Building::Workshop, Selection::First),
        ChoiceOutcome::Build(Building::Forest)
    );
    assert_eq!(
        s.resolve_selection(Building::Forest, Building::Workshop, Selection::Second),
        ChoiceOutcome::Reject
    );
    assert_eq!(
        s.resolve_selection(Building::Forest, Building::Workshop, Selection::Quit),
        ChoiceOutcome::Exit
    );
}

#[test]
fn grid_semantics() {
    let mut g = Grid::new();
    assert_eq!(g.len(), 0);
    assert_eq!(g.get((2, 3)), None);
    assert!(!g.contains_key((2, 3)));
    g.insert((2, 3), Building::Quarry);
    assert_eq!(g.len(), 1);
    assert_eq!(g.get((2, 3)), Some(Building::Quarry));
    assert!(g.contains_key((2, 3)));
    // inserting at an occupied key replaces in place, never duplicates
    g.insert((2, 3), Building::House);
    assert_eq!(g.len(), 1);
    assert_eq!(g.get((2, 3)), Some(Building::House));
    let copy = g.duplicate();
    assert_eq!(copy.len(), 1);
    assert_eq!(copy.get((2, 3)), Some(Building::House));
    g.check_keys_unique();
}

#[test]
fn building_counts() {
    let g = example_grid();
    assert_eq!(building_count(&g, Building::House), 4);
    assert_eq!(building_count(&g, Building::Forest), 1);
    assert_eq!(building_count(&g, Building::Quarry), 1);
    assert_eq!(building_count(&g, Building::Workshop), 1);
}

#[test]
fn building_display_helpers() {
    assert_eq!(Building::House.convert_to_char(), '🏠');
    assert_eq!(Building::Forest.convert_to_char(), '🌲');
    assert_eq!(Building::Quarry.convert_to_char(), '🪨');
    assert_eq!(Building::Workshop.convert_to_char(), '🪚');
    assert_eq!(Building::House.get_name(), "House");
    assert_eq!(Building::Forest.building_to_string(), "🌲 Forest");
    assert!(Building::Workshop
        .characteristics_to_string()
        .contains("2 working people"));
}

#[test]
fn delta_report_rendering() {
    assert_eq!(Resources::delta_to_string(&[]), "no changes");
    assert_eq!(Resources::delta_to_string(&[Resources::Wood(2)]), "🪵 +2 ⬆️");
    assert_eq!(
        Resources::delta_to_string(&[Resources::WorkingPeople(1), Resources::Wood(-3)]),
        "👥 +1 ⬆️ | 🪵 -3 🔽"
    );
    assert_eq!(
        Resources::delta_to_string(&[
            Resources::WorkingPeople(12),
            Resources::Wood(-10),
            Resources::Rock(305),
        ]),
        "👥 +12 ⬆️ | 🪵 -10 🔽 | 🪨 +305 ⬆️"
    );
    // the extreme negative amount still renders
    assert_eq!(
        Resources::delta_to_string(&[Resources::Rock(i32::MIN)]),
        "🪨 -2147483648 🔽"
    );
    assert_eq!(Resources::WorkingPeople(7).resource_to_symbol(), '👥');
    assert_eq!(Resources::Wood(7).resource_to_symbol(), '🪵');
    assert_eq!(Resources::Rock(7).resource_to_symbol(), '🪨');
}

#[test]
fn pool_invariant_along_a_run() {
    // along any run, never more occupied workers than people, and the grid
    // only grows with the pending cell always free
    let mut source = ScriptedSource::new(vec![
        Building::Forest,
        Building::House,
        Building::Quarry,
        Building::Workshop,
        Building::House,
        Building::Forest,
    ]);
    let mut state = State::initialize();
    for _ in 0..30 {
        let pending = state.get_next_position();
        assert_eq!(state.spiral.get(pending), None);
        let (b1, b2) = draw_candidates(state.turn, &mut source);
        if state.no_affordable_candidate(b1, b2) {
            break;
        }
        let pick = if b1.can_be_built(&state) { b1 } else { b2 };
        let before = state.spiral.len();
        state = state.turn(pick).expect("picked an affordable candidate");
        assert_eq!(state.spiral.len(), before + 1);
        assert!(
            state.owned_resources.occupied_people <= state.owned_resources.total_people
        );
        assert_eq!(state.spiral.get(pending), Some(pick));
    }
    assert!(state.turn > 0);
}
