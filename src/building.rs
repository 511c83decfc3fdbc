use vstd::prelude::*;

verus! {

/// The colour a catalog entry is shown with in menus.
#[derive(Debug, Clone, Copy, PartialEq, Eq, Structural, Hash)]
pub enum MenuColor {
    LightYellow,
    LightRed,
    LightCyan,
    LightMagenta,
    LightGreen,
    LightBlue,
}

/// The kinds of factory a colony can build.
#[derive(Debug, Clone, Copy, PartialEq, Eq, Structural, Hash)]
pub enum FactoryType {
    // Primary resources to secondary resources
    ElectronicsFactory,
    KeroseneFactory,
    HeatResistantAlloyFactory,
    SuperconductorsFactory,
    PlasticsFactory,
    CompositesFactory,
    RadioactivePelletsFactory,
    // Secondary resources to components
    EngineNozzlesFactory,
    MicroprocessorsFactory,
    SensorsFactory,
    FuelRodsFactory,
}

/// Number of ticks needed to build a factory of the given kind.
pub open spec fn factory_construction_time(f: FactoryType) -> u32 {
    match f {
        FactoryType::ElectronicsFactory => 10,
        FactoryType::KeroseneFactory => 75,
        FactoryType::HeatResistantAlloyFactory => 75,
        FactoryType::SuperconductorsFactory => 75,
        FactoryType::PlasticsFactory => 75,
        FactoryType::CompositesFactory => 100,
        FactoryType::RadioactivePelletsFactory => 75,
        FactoryType::EngineNozzlesFactory => 130,
        FactoryType::MicroprocessorsFactory => 130,
        FactoryType::SensorsFactory => 130,
        FactoryType::FuelRodsFactory => 130,
    }
}

/// Display name of a factory kind.
pub open spec fn factory_name(f: FactoryType) -> Seq<char> {
    match f {
        FactoryType::ElectronicsFactory => "Electronics factory"@,
        FactoryType::KeroseneFactory => "Kerosene factory"@,
        FactoryType::HeatResistantAlloyFactory => "Heat resistant alloy factory"@,
        FactoryType::SuperconductorsFactory => "Superconductors factory"@,
        FactoryType::PlasticsFactory => "Plastics factory"@,
        FactoryType::CompositesFactory => "Composites factory"@,
        FactoryType::RadioactivePelletsFactory => "Radioactive pellets factory"@,
        FactoryType::EngineNozzlesFactory => "Engine nozzles factory"@,
        FactoryType::MicroprocessorsFactory => "Microprocessors factory"@,
        FactoryType::SensorsFactory => "Sensors factory"@,
        FactoryType::FuelRodsFactory => "Fuel rods factory"@,
    }
}

impl FactoryType {
    pub fn get_construction_time(&self) -> (r: u32)
        ensures
            r == factory_construction_time(*self),
    {
        match self {
            FactoryType::ElectronicsFactory => 10,
            FactoryType::KeroseneFactory => 75,
            FactoryType::HeatResistantAlloyFactory => 75,
            FactoryType::SuperconductorsFactory => 75,
            FactoryType::PlasticsFactory => 75,
            FactoryType::CompositesFactory => 100,
            FactoryType::RadioactivePelletsFactory => 75,
            FactoryType::EngineNozzlesFactory => 130,
            FactoryType::MicroprocessorsFactory => 130,
            FactoryType::SensorsFactory => 130,
            FactoryType::FuelRodsFactory => 130,
        }
    }

    pub fn get_name(&self) -> (r: String)
        ensures
            r@ == factory_name(*self),
    {
        let s = match self {
            FactoryType::ElectronicsFactory => "Electronics factory",
            FactoryType::KeroseneFactory => "Kerosene factory",
            FactoryType::HeatResistantAlloyFactory => "Heat resistant alloy factory",
            FactoryType::SuperconductorsFactory => "Superconductors factory",
            FactoryType::PlasticsFactory => "Plastics factory",
            FactoryType::CompositesFactory => "Composites factory",
            FactoryType::RadioactivePelletsFactory => "Radioactive pellets factory",
            FactoryType::EngineNozzlesFactory => "Engine nozzles factory",
            FactoryType::MicroprocessorsFactory => "Microprocessors factory",
            FactoryType::SensorsFactory => "Sensors factory",
            FactoryType::FuelRodsFactory => "Fuel rods factory",
        };
        s.to_owned()
    }
}


/// A building a colony can construct.
#[derive(Debug, Clone, Copy, PartialEq, Eq, Structural, Hash)]
pub enum BuildingType {
    Mine,
    Factory(FactoryType),
    Spaceport,
    DryDock,
}

/// Number of ticks needed to construct a building of the given type.
pub open spec fn construction_time(b: BuildingType) -> u32 {
    match b {
        BuildingType::Mine => 5,
        BuildingType::Factory(f) => factory_construction_time(f),
        BuildingType::Spaceport => 150,
        BuildingType::DryDock => 130,
    }
}

/// Whether a completed building of the given type produces resources.
pub open spec fn producing_resources(b: BuildingType) -> bool {
    b is Factory
}

/// Display name of a building type.
pub open spec fn building_name(b: BuildingType) -> Seq<char> {
    match b {
        BuildingType::Mine => "Mine"@,
        BuildingType::Factory(f) => factory_name(f),
        BuildingType::Spaceport => "Spaceport"@,
        BuildingType::DryDock => "Dry dock"@,
    }
}

/// Menu colour of a building type.
pub open spec fn building_color(b: BuildingType) -> MenuColor {
    match b {
        BuildingType::Mine => MenuColor::LightYellow,
        BuildingType::Factory(_) => MenuColor::LightRed,
        BuildingType::Spaceport => MenuColor::LightCyan,
        BuildingType::DryDock => MenuColor::LightMagenta,
    }
}

/// Every building type, in menu order.
pub open spec fn all_building_types() -> Seq<BuildingType> {
    seq![
        BuildingType::Mine,
        BuildingType::Spaceport,
        BuildingType::DryDock,
        BuildingType::Factory(FactoryType::ElectronicsFactory),
        BuildingType::Factory(FactoryType::KeroseneFactory),
        BuildingType::Factory(FactoryType::HeatResistantAlloyFactory),
        BuildingType::Factory(FactoryType::SuperconductorsFactory),
        BuildingType::Factory(FactoryType::PlasticsFactory),
        BuildingType::Factory(FactoryType::CompositesFactory),
        BuildingType::Factory(FactoryType::RadioactivePelletsFactory),
        BuildingType::Factory(FactoryType::EngineNozzlesFactory),
        BuildingType::Factory(FactoryType::MicroprocessorsFactory),
        BuildingType::Factory(FactoryType::SensorsFactory),
        BuildingType::Factory(FactoryType::FuelRodsFactory),
    ]
}

/// Every building type occurs in the menu list.
pub proof fn lemma_all_building_types_complete(b: BuildingType)
    ensures
        all_building_types().contains(b),
{
    let s = all_building_types();
    match b {
        BuildingType::Mine => assert(s[0] == b),
        BuildingType::Spaceport => assert(s[1] == b),
        BuildingType::DryDock => assert(s[2] == b),
        BuildingType::Factory(f) => match f {
            FactoryType::ElectronicsFactory => assert(s[3] == b),
            FactoryType::KeroseneFactory => assert(s[4] == b),
            FactoryType::HeatResistantAlloyFactory => assert(s[5] == b),
            FactoryType::SuperconductorsFactory => assert(s[6] == b),
            FactoryType::PlasticsFactory => assert(s[7] == b),
            FactoryType::CompositesFactory => assert(s[8] == b),
            FactoryType::RadioactivePelletsFactory => assert(s[9] == b),
            FactoryType::EngineNozzlesFactory => assert(s[10] == b),
            FactoryType::MicroprocessorsFactory => assert(s[11] == b),
            FactoryType::SensorsFactory => assert(s[12] == b),
            FactoryType::FuelRodsFactory => assert(s[13] == b),
        },
    }
}

impl BuildingType {
    pub fn get_construction_time(&self) -> (r: u32)
        ensures
            r == construction_time(*self),
    {
        match self {
            BuildingType::Mine => 5,
            BuildingType::Factory(ft) => ft.get_construction_time(),
            BuildingType::Spaceport => 150,
            BuildingType::DryDock => 130,
        }
    }

    pub fn is_producing_resources(&self) -> (r: bool)
        ensures
            r == producing_resources(*self),
    {
        match self {
            BuildingType::Mine => false,
            BuildingType::Factory(_) => true,
            BuildingType::Spaceport => false,
            BuildingType::DryDock => false,
        }
    }

    pub fn get_name(&self) -> (r: String)
        ensures
            r@ == building_name(*self),
    {
        match self {
            BuildingType::Mine => "Mine".to_owned(),
            BuildingType::Factory(ft) => ft.get_name(),
            BuildingType::Spaceport => "Spaceport".to_owned(),
            BuildingType::DryDock => "Dry dock".to_owned(),
        }
    }

    pub fn get_menu_color(&self) -> (r: MenuColor)
        ensures
            r == building_color(*self),
    {
        match self {
            BuildingType::Mine => MenuColor::LightYellow,
            BuildingType::Factory(_) => MenuColor::LightRed,
            BuildingType::Spaceport => MenuColor::LightCyan,
            BuildingType::DryDock => MenuColor::LightMagenta,
        }
    }

    /// Every building type with its menu colour, in menu order.
    pub fn get_variants() -> (r: Vec<(BuildingType, MenuColor)>)
        ensures
            r@.len() == all_building_types().len(),
            forall|i: int|
                0 <= i < r@.len() ==> r@[i] == (all_building_types()[i], building_color(
                    all_building_types()[i],
                )),
    {
        let variants = vec![
            BuildingType::Mine,
            BuildingType::Spaceport,
            BuildingType::DryDock,
            BuildingType::Factory(FactoryType::ElectronicsFactory),
            BuildingType::Factory(FactoryType::KeroseneFactory),
            BuildingType::Factory(FactoryType::HeatResistantAlloyFactory),
            BuildingType::Factory(FactoryType::SuperconductorsFactory),
            BuildingType::Factory(FactoryType::PlasticsFactory),
            BuildingType::Factory(FactoryType::CompositesFactory),
            BuildingType::Factory(FactoryType::RadioactivePelletsFactory),
            BuildingType::Factory(FactoryType::EngineNozzlesFactory),
            BuildingType::Factory(FactoryType::MicroprocessorsFactory),
            BuildingType::Factory(FactoryType::SensorsFactory),
            BuildingType::Factory(FactoryType::FuelRodsFactory),
        ];
        assert(variants@ == all_building_types());
        let mut result: Vec<(BuildingType, MenuColor)> = Vec::new();
        let mut i: usize = 0;
        while i < variants.len()
            invariant
                variants@ == all_building_types(),
                i <= variants@.len(),
                result@.len() == i,
                forall|k: int|
                    0 <= k < i ==> result@[k] == (variants@[k], building_color(variants@[k])),
            decreases variants@.len() - i,
        {
            let bt = variants[i];
            result.push((bt, bt.get_menu_color()));
            i += 1;
        }
        result
    }

    /// Looks a building type up by its display name.
    pub fn from_name(value: &String) -> (r: Option<BuildingType>)
        ensures
            match r {
                Some(b) => building_name(b) == value@,
                None => forall|b: BuildingType| building_name(b) != value@,
            },
    {
        let variants = BuildingType::get_variants();
        let mut i: usize = 0;
        while i < variants.len()
            invariant
                variants@.len() == all_building_types().len(),
                forall|k: int|
                    0 <= k < variants@.len() ==> variants@[k].0 == all_building_types()[k],
                i <= variants@.len(),
                forall|k: int| 0 <= k < i ==> building_name(all_building_types()[k]) != value@,
            decreases variants@.len() - i,
        {
            let bt = variants[i].0;
            let name = bt.get_name();
            if name == *value {
                return Some(bt);
            }
            i += 1;
        }
        assert forall|b: BuildingType| building_name(b) != value@ by {
            lemma_all_building_types_complete(b);
            let k = choose|k: int| 0 <= k < all_building_types().len() && all_building_types()[k] == b;
        }
        None
    }
}

} // verus!
