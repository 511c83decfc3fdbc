use space_core::error::GameError;
use space_core::pacing::TickPacer;
use space_core::planetary_system::{first_flagged, planet_count, PlanetarySystem};
use space_core::tabs::{select_next_in_list, select_prev_in_list, Tabs};

#[test]
fn empty_system_reports_no_planets() {
    let s: PlanetarySystem<u32, u32> = PlanetarySystem::new(7);
    assert_eq!(s.get_n_planets(), 0);
    assert_eq!(s.first_planet(), Err(GameError::NoPlanets));
    assert_eq!(s.last_planet(), Err(GameError::NoPlanets));
    assert_eq!(*s.get_star(), 7);
}

#[test]
fn planets_keep_their_order() {
    let mut s: PlanetarySystem<&str, u32> = PlanetarySystem::new("Sol");
    s.push_planet(1);
    s.push_planet(4);
    s.push_planet(9);
    assert_eq!(s.get_n_planets(), 3);
    assert_eq!(s.first_planet(), Ok(&1));
    assert_eq!(s.last_planet(), Ok(&9));
    assert_eq!(s.planets(), &vec![1, 4, 9]);
}

#[test]
fn planet_count_truncates_negative_to_zero() {
    assert_eq!(planet_count(-3), 0);
    assert_eq!(planet_count(0), 0);
    assert_eq!(planet_count(5), 5);
}

#[test]
fn first_flagged_picks_earliest() {
    assert_eq!(first_flagged(&vec![false, true, true]), Some(1));
    assert_eq!(first_flagged(&vec![false, false]), None);
    assert_eq!(first_flagged(&vec![]), None);
}

#[test]
fn tab_names_and_navigation() {
    assert_eq!(Tabs::SystemView.get_name(), "System View");
    assert_eq!(Tabs::Research.get_name(), "Research");
    assert_eq!(Tabs::Colonies.get_name(), "Colonies");
    assert_eq!(Tabs::ShipModules.get_name(), "Ship modules");
    assert_eq!(select_next_in_list(0, 4), 1);
    assert_eq!(select_next_in_list(3, 4), 0);
    assert_eq!(select_prev_in_list(0, 4), 3);
    assert_eq!(select_prev_in_list(2, 4), 1);
}

#[test]
fn pacer_ticks_once_per_ratio_plus_one_frames() {
    let mut p = TickPacer::new(2);
    let fired: Vec<bool> = (0..7).map(|_| p.on_frame()).collect();
    assert_eq!(fired, vec![false, false, true, false, false, true, false]);
    p.toggle_pause();
    assert!(!p.on_frame());
    assert!(!p.on_frame());
    assert_eq!(p.counter, 1);
}
