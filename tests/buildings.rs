use space_core::building::{BuildingType, FactoryType, MenuColor};
use space_core::construction_process::ConstructionProcess;

#[test]
fn construction_times_follow_catalog() {
    assert_eq!(BuildingType::Mine.get_construction_time(), 5);
    assert_eq!(BuildingType::Spaceport.get_construction_time(), 150);
    assert_eq!(BuildingType::DryDock.get_construction_time(), 130);
    assert_eq!(BuildingType::Factory(FactoryType::ElectronicsFactory).get_construction_time(), 10);
    assert_eq!(BuildingType::Factory(FactoryType::KeroseneFactory).get_construction_time(), 75);
    assert_eq!(BuildingType::Factory(FactoryType::CompositesFactory).get_construction_time(), 100);
    assert_eq!(FactoryType::FuelRodsFactory.get_construction_time(), 130);
}

#[test]
fn only_factories_produce_resources() {
    assert!(!BuildingType::Mine.is_producing_resources());
    assert!(!BuildingType::Spaceport.is_producing_resources());
    assert!(!BuildingType::DryDock.is_producing_resources());
    assert!(BuildingType::Factory(FactoryType::SensorsFactory).is_producing_resources());
}

#[test]
fn names_and_colors() {
    assert_eq!(BuildingType::Mine.get_name(), "Mine");
    assert_eq!(BuildingType::DryDock.get_name(), "Dry dock");
    assert_eq!(
        BuildingType::Factory(FactoryType::HeatResistantAlloyFactory).get_name(),
        "Heat resistant alloy factory"
    );
    assert_eq!(BuildingType::Mine.get_menu_color(), MenuColor::LightYellow);
    assert_eq!(BuildingType::Factory(FactoryType::PlasticsFactory).get_menu_color(), MenuColor::LightRed);
    assert_eq!(BuildingType::Spaceport.get_menu_color(), MenuColor::LightCyan);
    assert_eq!(BuildingType::DryDock.get_menu_color(), MenuColor::LightMagenta);
}

#[test]
fn variants_list_every_type_once_in_menu_order() {
    let v = BuildingType::get_variants();
    assert_eq!(v.len(), 14);
    assert_eq!(v[0], (BuildingType::Mine, MenuColor::LightYellow));
    assert_eq!(v[1], (BuildingType::Spaceport, MenuColor::LightCyan));
    assert_eq!(v[2], (BuildingType::DryDock, MenuColor::LightMagenta));
    assert_eq!(v[3], (BuildingType::Factory(FactoryType::ElectronicsFactory), MenuColor::LightRed));
    assert_eq!(v[13], (BuildingType::Factory(FactoryType::FuelRodsFactory), MenuColor::LightRed));
    for i in 0..v.len() {
        for j in (i + 1)..v.len() {
            assert_ne!(v[i].0, v[j].0);
        }
    }
}

#[test]
fn from_name_finds_each_variant() {
    for (b, _) in BuildingType::get_variants() {
        assert_eq!(BuildingType::from_name(&b.get_name()), Some(b));
    }
    assert_eq!(
        BuildingType::from_name(&"Kerosene factory".to_string()),
        Some(BuildingType::Factory(FactoryType::KeroseneFactory))
    );
    assert_eq!(BuildingType::from_name(&"Shipyard".to_string()), None);
    assert_eq!(BuildingType::from_name(&"mine".to_string()), None);
}

#[test]
fn electronics_factory_completes_on_third_update() {
    let mut p = ConstructionProcess::new(BuildingType::Factory(FactoryType::ElectronicsFactory));
    assert_eq!(p.construction_time(), 10);
    assert_eq!(p.progress(), 0);
    assert!(!p.update(4));
    assert_eq!(p.progress(), 4);
    assert!(!p.update(4));
    assert_eq!(p.progress(), 8);
    assert!(p.update(4));
    assert_eq!(p.progress(), 10);
    assert_eq!(p.get_percentage(), 100);
}

#[test]
fn progress_stays_within_construction_time() {
    let mut p = ConstructionProcess::new(BuildingType::Mine);
    let speeds = [0u32, 1, 2, 0, 7, u32::MAX, 3];
    for s in speeds {
        let done = p.update(s);
        assert!(p.progress() <= p.construction_time());
        assert_eq!(done, p.progress() == p.construction_time());
    }
    assert_eq!(p.progress(), 5);
    assert_eq!(p.building_type(), BuildingType::Mine);
}

#[test]
fn percentage_rounds_down() {
    let mut p = ConstructionProcess::new(BuildingType::Factory(FactoryType::KeroseneFactory));
    assert_eq!(p.get_percentage(), 0);
    p.update(1);
    assert_eq!(p.get_percentage(), 1);
    p.update(49);
    assert_eq!(p.get_percentage(), 66);
    let mut m = ConstructionProcess::new(BuildingType::Mine);
    m.update(2);
    assert_eq!(m.get_percentage(), 40);
}
