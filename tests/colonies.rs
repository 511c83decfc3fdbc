use space_core::building::{BuildingType, FactoryType, MenuColor};
use space_core::colony::Colony;
use space_core::error::{ErrorKind, GameError};
use space_core::game_state::GameState;
use space_core::research::ResearchGraph;
use space_core::ship_module::ShipModuleType;

fn state_with(colonies: Vec<Colony>) -> GameState {
    GameState::new(ResearchGraph::new(Vec::new(), Vec::new()), colonies, Vec::new())
}

#[test]
fn mine_in_alpha_completes_after_five_ticks() {
    let mut s = state_with(vec![Colony::new("Alpha".to_string())]);
    let alpha = "Alpha".to_string();
    assert_eq!(s.start_construction(&alpha, BuildingType::Mine), Ok(()));
    let second = s.start_construction(&alpha, BuildingType::Spaceport);
    assert_eq!(second, Err(GameError::ColonyBusy("Alpha".to_string())));
    assert_eq!(second.unwrap_err().kind(), ErrorKind::InvalidState);
    for _ in 0..4 {
        s.tick();
        assert!(s.get_colony_by_name(&alpha).unwrap().get_buildings().is_empty());
    }
    let c = s.get_colony_by_name(&alpha).unwrap();
    assert_eq!(c.get_construction().unwrap().progress(), 4);
    assert_eq!(c.get_construction().unwrap().building_type(), BuildingType::Mine);
    s.tick();
    let c = s.get_colony_by_name(&alpha).unwrap();
    assert_eq!(c.get_buildings(), vec![BuildingType::Mine]);
    assert!(c.get_construction().is_none());
    assert!(!c.is_busy());
}

#[test]
fn colony_slot_frees_after_completion() {
    let mut c = Colony::new("Beta".to_string());
    let f = BuildingType::Factory(FactoryType::ElectronicsFactory);
    assert_eq!(c.start_construction(f), Ok(()));
    assert_eq!(c.tick(4), None);
    assert_eq!(c.tick(4), None);
    assert_eq!(c.tick(4), Some(f));
    assert!(c.get_construction().is_none());
    assert_eq!(c.tick(4), None);
    assert_eq!(c.get_buildings(), vec![f]);
    assert_eq!(c.start_construction(BuildingType::Mine), Ok(()));
}

#[test]
fn producing_buildings_are_the_factories() {
    let f = BuildingType::Factory(FactoryType::SensorsFactory);
    let g = BuildingType::Factory(FactoryType::FuelRodsFactory);
    let c = Colony::with_buildings(
        "Gamma".to_string(),
        vec![BuildingType::Mine, f, BuildingType::Spaceport, g, BuildingType::DryDock],
    );
    assert_eq!(c.producing_buildings(), vec![f, g]);
    assert_eq!(c.get_name(), "Gamma");
}

#[test]
fn unknown_colony_is_reported() {
    let mut s = state_with(vec![Colony::new("Alpha".to_string())]);
    let r = s.start_construction(&"Nowhere".to_string(), BuildingType::Mine);
    assert_eq!(r, Err(GameError::ColonyNotFound("Nowhere".to_string())));
    assert_eq!(r.unwrap_err().kind(), ErrorKind::NotFound);
    assert!(s.get_colony_by_name(&"Nowhere".to_string()).is_err());
    assert!(!s.get_colony_by_name(&"Alpha".to_string()).unwrap().is_busy());
}

#[test]
fn construction_by_display_name() {
    let mut s = state_with(vec![Colony::new("Alpha".to_string()), Colony::new("Beta".to_string())]);
    let beta = "Beta".to_string();
    assert_eq!(
        s.start_construction_by_name(&beta, &"Shipyard".to_string()),
        Err(GameError::BuildingTypeNotFound("Shipyard".to_string()))
    );
    assert_eq!(
        s.start_construction_by_name(&"Delta".to_string(), &"Mine".to_string()),
        Err(GameError::ColonyNotFound("Delta".to_string()))
    );
    assert_eq!(s.start_construction_by_name(&beta, &"Dry dock".to_string()), Ok(()));
    let c = s.get_colony_by_name(&beta).unwrap();
    assert_eq!(c.get_construction().unwrap().building_type(), BuildingType::DryDock);
    assert!(!s.get_colony_by_name(&"Alpha".to_string()).unwrap().is_busy());
    assert_eq!(
        s.start_construction_by_name(&beta, &"Mine".to_string()),
        Err(GameError::ColonyBusy("Beta".to_string()))
    );
}

#[test]
fn colony_names_and_modules_in_order() {
    let s = GameState::new(
        ResearchGraph::new(Vec::new(), Vec::new()),
        vec![Colony::new("Alpha".to_string()), Colony::new("Beta".to_string())],
        vec![
            ShipModuleType::new("Engine".to_string(), MenuColor::LightRed),
            ShipModuleType::new("Hull".to_string(), MenuColor::LightBlue),
        ],
    );
    assert_eq!(s.colony_names(), vec!["Alpha".to_string(), "Beta".to_string()]);
    assert_eq!(
        s.get_ship_module_types(),
        vec![("Engine".to_string(), MenuColor::LightRed), ("Hull".to_string(), MenuColor::LightBlue)]
    );
}
