use space_core::colony::Colony;
use space_core::error::{ErrorKind, GameError};
use space_core::game_state::GameState;
use space_core::research::{Research, ResearchField, ResearchGraph};

fn names(v: &[&str]) -> Vec<String> {
    v.iter().map(|s| s.to_string()).collect()
}

fn field(name: &str) -> ResearchField {
    ResearchField::new(name.to_string())
}

fn research(name: &str, f: &str, cost: u32, all_of: &[&str], any_of: &[&str]) -> Research {
    Research::new(name.to_string(), field(f), cost, names(all_of), names(any_of))
}

/// Researches A, B and C with no prerequisites, and X needing A and one
/// of B or C.
fn scenario_state() -> GameState {
    let graph = ResearchGraph::new(
        vec![field("Physics"), field("Chemistry")],
        vec![
            research("A", "Physics", 2, &[], &[]),
            research("B", "Chemistry", 1, &[], &[]),
            research("C", "Physics", 3, &[], &[]),
            research("X", "Physics", 4, &["A"], &["B", "C"]),
        ],
    );
    GameState::new(graph, vec![Colony::new("Alpha".to_string())], Vec::new())
}

fn run(s: &mut GameState, ticks: u32) {
    for _ in 0..ticks {
        s.tick();
    }
}

#[test]
fn x_needs_a_and_one_of_b_or_c() {
    let x = "X".to_string();
    let mut s = scenario_state();
    assert_eq!(s.start_research(&x), Err(GameError::IneligibleResearch("X".to_string())));
    assert_eq!(s.start_research(&"A".to_string()), Ok(()));
    run(&mut s, 2);
    assert!(s.is_research_completed(&"A".to_string()));
    let r = s.start_research(&x);
    assert_eq!(r, Err(GameError::IneligibleResearch("X".to_string())));
    assert_eq!(r.unwrap_err().kind(), ErrorKind::InvalidState);
    assert_eq!(s.start_research(&"B".to_string()), Ok(()));
    run(&mut s, 1);
    assert!(s.is_research_completed(&"B".to_string()));
    assert!(!s.is_research_completed(&"C".to_string()));
    assert_eq!(s.start_research(&x), Ok(()));
}

#[test]
fn eligibility_by_index() {
    let mut g = ResearchGraph::new(
        Vec::new(),
        vec![
            research("A", "Physics", 1, &[], &[]),
            research("B", "Physics", 1, &[], &[]),
            research("X", "Physics", 1, &["A"], &["B"]),
        ],
    );
    assert!(g.is_eligible(0));
    assert!(!g.is_eligible(2));
    g.start_research(&"B".to_string()).unwrap();
    g.tick(1);
    assert!(!g.is_eligible(2));
    g.start_research(&"A".to_string()).unwrap();
    g.tick(1);
    assert!(g.is_eligible(2));
}

#[test]
fn empty_any_of_group_is_satisfied() {
    let mut g = ResearchGraph::new(
        Vec::new(),
        vec![research("A", "Physics", 1, &[], &[]), research("Y", "Physics", 1, &["A"], &[])],
    );
    assert!(!g.is_eligible(1));
    g.start_research(&"A".to_string()).unwrap();
    g.tick(5);
    assert!(g.is_eligible(1));
}

#[test]
fn starting_twice_or_unknown_is_refused() {
    let mut s = scenario_state();
    let a = "A".to_string();
    assert_eq!(s.start_research(&a), Ok(()));
    assert_eq!(s.start_research(&a), Err(GameError::IneligibleResearch("A".to_string())));
    let r = s.start_research(&"Warp".to_string());
    assert_eq!(r, Err(GameError::ResearchNotFound("Warp".to_string())));
    assert_eq!(r.unwrap_err().kind(), ErrorKind::NotFound);
}

#[test]
fn tick_advances_only_started_research_and_clamps() {
    let mut s = scenario_state();
    s.start_research(&"C".to_string()).unwrap();
    run(&mut s, 1);
    assert_eq!(s.get_research(&"C".to_string()).unwrap().get_progress(), 1);
    assert_eq!(s.get_research(&"A".to_string()).unwrap().get_progress(), 0);
    assert_eq!(s.get_research_progress(&"C".to_string()), Ok(33));
    run(&mut s, 5);
    let c = s.get_research(&"C".to_string()).unwrap();
    assert_eq!(c.get_progress(), 3);
    assert!(c.is_completed());
    assert!(c.is_started());
    assert_eq!(s.get_research_progress(&"C".to_string()), Ok(100));
    assert_eq!(s.get_research_progress(&"A".to_string()), Ok(0));
    assert!(s.get_research_progress(&"Warp".to_string()).is_err());
}

#[test]
fn zero_cost_counts_as_complete() {
    let g = ResearchGraph::new(
        Vec::new(),
        vec![research("Free", "Physics", 0, &[], &[]), research("Next", "Physics", 5, &["Free"], &[])],
    );
    assert!(g.is_completed(&"Free".to_string()));
    assert_eq!(g.progress(&"Free".to_string()), Ok(100));
    assert!(g.is_eligible(1));
}

#[test]
fn researches_by_field_keep_catalog_order() {
    let s = scenario_state();
    let fields = s.get_research_fields();
    assert_eq!(fields.len(), 2);
    assert_eq!(fields[0].get_name(), "Physics");
    assert_eq!(fields[1].get_name(), "Chemistry");
    let physics: Vec<String> =
        s.get_researches_by_field(&fields[0]).iter().map(|r| r.get_name()).collect();
    assert_eq!(physics, names(&["A", "C", "X"]));
    let chemistry: Vec<String> =
        s.get_researches_by_field(&fields[1]).iter().map(|r| r.get_name()).collect();
    assert_eq!(chemistry, names(&["B"]));
    assert!(s.get_researches_by_field(&field("Biology")).is_empty());
}

#[test]
fn dependency_info_lists_both_groups() {
    let mut s = scenario_state();
    let x = "X".to_string();
    let (all, any) = s.get_research_dependency_info(&x).unwrap();
    assert_eq!(all, vec![("A".to_string(), false)]);
    assert_eq!(any, vec![("B".to_string(), false), ("C".to_string(), false)]);
    s.start_research(&"C".to_string()).unwrap();
    run(&mut s, 3);
    let (all, any) = s.get_research_dependency_info(&x).unwrap();
    assert_eq!(all, vec![("A".to_string(), false)]);
    assert_eq!(any, vec![("B".to_string(), false), ("C".to_string(), true)]);
    assert_eq!(
        s.get_research_dependency_info(&"Warp".to_string()),
        Err(GameError::ResearchNotFound("Warp".to_string()))
    );
}

#[test]
fn research_accessors() {
    let r = research("X", "Physics", 4, &["A"], &["B", "C"]);
    assert_eq!(r.get_name(), "X");
    assert_eq!(r.get_field().get_name(), "Physics");
    assert_eq!(r.get_cost(), 4);
    assert_eq!(r.all_of(), names(&["A"]));
    assert_eq!(r.any_of(), names(&["B", "C"]));
    assert!(!r.is_started());
    assert_eq!(r.get_percentage(), 0);
    let d = r.duplicate();
    assert_eq!(d.get_name(), "X");
    assert_eq!(d.any_of(), names(&["B", "C"]));
}

#[test]
fn queries_repeat_identically() {
    let mut s = scenario_state();
    s.start_research(&"A".to_string()).unwrap();
    s.start_construction(&"Alpha".to_string(), space_core::building::BuildingType::Mine).unwrap();
    run(&mut s, 1);
    let x = "X".to_string();
    assert_eq!(s.get_research_dependency_info(&x), s.get_research_dependency_info(&x));
    assert_eq!(s.get_research_progress(&"A".to_string()), s.get_research_progress(&"A".to_string()));
    let f = field("Physics");
    let a: Vec<String> = s.get_researches_by_field(&f).iter().map(|r| r.get_name()).collect();
    let b: Vec<String> = s.get_researches_by_field(&f).iter().map(|r| r.get_name()).collect();
    assert_eq!(a, b);
    assert_eq!(s.colony_names(), s.colony_names());
    let alpha = "Alpha".to_string();
    assert_eq!(
        s.get_colony_by_name(&alpha).unwrap().get_construction(),
        s.get_colony_by_name(&alpha).unwrap().get_construction()
    );
}

#[test]
fn progress_text_shows_percentage() {
    let mut s = scenario_state();
    let c = "C".to_string();
    assert_eq!(s.get_research_progress_text(&c), Ok("0%".to_string()));
    s.start_research(&c).unwrap();
    run(&mut s, 2);
    assert_eq!(s.get_research_progress_text(&c), Ok("66%".to_string()));
    run(&mut s, 1);
    assert_eq!(s.get_research_progress_text(&c), Ok("100%".to_string()));
    assert_eq!(
        s.get_research_progress_text(&"Warp".to_string()),
        Err(GameError::ResearchNotFound("Warp".to_string()))
    );
}
