use vstd::prelude::*;

verus! {

/// How an engine stores its fuel.
#[derive(Debug, Clone, Copy, PartialEq, Eq, Structural)]
pub enum FuelStorage {
    /// The engine carries its own tank, holding at most `capacity` kilograms.
    Internal { capacity: u32 },
    /// The fuel is held in separate fuel tank modules.
    ExternalTank,
}

#[derive(Debug, Clone, Copy, PartialEq, Eq, Structural)]
pub enum FuelTankKind {
    LargeLiquid,
}

/// The fixed figures of a fuel tank; `capacity` is in kilograms.
#[derive(Debug, Clone, Copy)]
pub struct FuelTankSpec {
    pub id: &'static str,
    pub name: &'static str,
    pub capacity: u32,
    pub burden: u32,
    pub height: u32,
}

impl FuelTankKind {
    /// The table entry of this kind of fuel tank.
    pub open spec fn entry(self) -> FuelTankSpec {
        match self {
            FuelTankKind::LargeLiquid => FuelTankSpec {
                id: "LargeLiquidFuelTank",
                name: "大型液体燃料舱",
                capacity: 900,
                burden: 5,
                height: 5,
            },
        }
    }

    pub fn spec(self) -> (s: FuelTankSpec)
        ensures
            s == self.entry(),
    {
        match self {
            FuelTankKind::LargeLiquid => FuelTankSpec {
                id: "LargeLiquidFuelTank",
                name: "大型液体燃料舱",
                capacity: 900,
                burden: 5,
                height: 5,
            },
        }
    }
}


/// The fixed figures of an engine.
///
/// `fuel_per_hex_hundredths` is the fuel burnt per hex of flight, in hundredths
/// of a kilogram (5625 stands for 56.25 kg).
#[derive(Debug, Clone, Copy)]
pub struct EngineSpec {
    pub id: &'static str,
    pub name: &'static str,
    pub fuel_name: &'static str,
    pub fuel_per_hex_hundredths: u32,
    pub fuel_storage: FuelStorage,
    pub requires_oxidizer: bool,
    pub height: u32,
    pub max_rocket_height: u32,
    pub engine_power: u32,
    pub burden: u32,
}

#[derive(Debug, Clone, Copy, PartialEq, Eq, Structural)]
pub enum EngineKind {
    Hydrogen,
    Steam,
    Petroleum,
}

impl EngineKind {
    /// Every kind of engine, in the order in which they are offered.
    pub const ALL: [EngineKind; 3] = [EngineKind::Hydrogen, EngineKind::Petroleum, EngineKind::Steam];

    /// The table entry of this kind of engine.
    pub open spec fn entry(self) -> EngineSpec {
        match self {
            EngineKind::Hydrogen => EngineSpec {
                id: "HydrogenEngineCluster",
                name: "液氢引擎",
                fuel_name: "液氢",
                fuel_per_hex_hundredths: 5625,
                fuel_storage: FuelStorage::ExternalTank,
                requires_oxidizer: true,
                height: 5,
                max_rocket_height: 35,
                engine_power: 55,
                burden: 7,
            },
            EngineKind::Steam => EngineSpec {
                id: "SteamEngine",
                name: "蒸汽引擎",
                fuel_name: "蒸汽",
                fuel_per_hex_hundredths: 1500,
                fuel_storage: FuelStorage::Internal { capacity: 150 },
                requires_oxidizer: false,
                height: 5,
                max_rocket_height: 25,
                engine_power: 27,
                burden: 15,
            },
            EngineKind::Petroleum => EngineSpec {
                id: "PetroleumEngine",
                name: "石油引擎",
                fuel_name: "石油",
                fuel_per_hex_hundredths: 9000,
                fuel_storage: FuelStorage::ExternalTank,
                requires_oxidizer: true,
                height: 5,
                max_rocket_height: 35,
                engine_power: 48,
                burden: 6,
            },
        }
    }

    pub fn spec(self) -> (s: EngineSpec)
        ensures
            s == self.entry(),
    {
        match self {
            EngineKind::Hydrogen => EngineSpec {
                id: "HydrogenEngineCluster",
                name: "液氢引擎",
                fuel_name: "液氢",
                fuel_per_hex_hundredths: 5625,
                fuel_storage: FuelStorage::ExternalTank,
                requires_oxidizer: true,
                height: 5,
                max_rocket_height: 35,
                engine_power: 55,
                burden: 7,
            },
            EngineKind::Steam => EngineSpec {
                id: "SteamEngine",
                name: "蒸汽引擎",
                fuel_name: "蒸汽",
                fuel_per_hex_hundredths: 1500,
                fuel_storage: FuelStorage::Internal { capacity: 150 },
                requires_oxidizer: false,
                height: 5,
                max_rocket_height: 25,
                engine_power: 27,
                burden: 15,
            },
            EngineKind::Petroleum => EngineSpec {
                id: "PetroleumEngine",
                name: "石油引擎",
                fuel_name: "石油",
                fuel_per_hex_hundredths: 9000,
                fuel_storage: FuelStorage::ExternalTank,
                requires_oxidizer: true,
                height: 5,
                max_rocket_height: 35,
                engine_power: 48,
                burden: 6,
            },
        }
    }
}

/// The fixed figures of an oxidizer: one kilogram of it burns `efficiency`
/// kilograms of fuel.
#[derive(Debug, Clone, Copy)]
pub struct OxidizerSpec {
    pub id: &'static str,
    pub name: &'static str,
    pub efficiency: u32,
}

#[derive(Debug, Clone, Copy, PartialEq, Eq, Structural)]
pub enum OxidizerKind {
    Fertilizer,
    OxyRock,
    LiquidOxygen,
}

#[derive(Debug, Clone, Copy, PartialEq, Eq, Structural)]
pub enum OxidizerStorageKind {
    Liquid,
    Solid,
}

impl OxidizerKind {
    /// Every kind of oxidizer, in the order in which they are offered.
    pub const ALL: [OxidizerKind; 3] = [OxidizerKind::LiquidOxygen, OxidizerKind::OxyRock, OxidizerKind::Fertilizer];

    /// The table entry of this kind of oxidizer.
    pub open spec fn entry(self) -> OxidizerSpec {
        match self {
            OxidizerKind::Fertilizer => OxidizerSpec { id: "fertilizer", name: "肥料", efficiency: 1 },
            OxidizerKind::OxyRock => OxidizerSpec { id: "OxyRock", name: "氧石", efficiency: 2 },
            OxidizerKind::LiquidOxygen => OxidizerSpec {
                id: "LiquidOxygen",
                name: "液氧",
                efficiency: 4,
            },
        }
    }

    pub fn spec(self) -> (s: OxidizerSpec)
        ensures
            s == self.entry(),
    {
        match self {
            OxidizerKind::Fertilizer => OxidizerSpec { id: "fertilizer", name: "肥料", efficiency: 1 },
            OxidizerKind::OxyRock => OxidizerSpec { id: "OxyRock", name: "氧石", efficiency: 2 },
            OxidizerKind::LiquidOxygen => OxidizerSpec {
                id: "LiquidOxygen",
                name: "液氧",
                efficiency: 4,
            },
        }
    }

    /// Solid oxidizers go in solid tanks, liquid ones in liquid tanks.
    pub open spec fn storage(self) -> OxidizerStorageKind {
        match self {
            OxidizerKind::Fertilizer => OxidizerStorageKind::Solid,
            OxidizerKind::OxyRock => OxidizerStorageKind::Solid,
            OxidizerKind::LiquidOxygen => OxidizerStorageKind::Liquid,
        }
    }

    pub fn storage_kind(self) -> (k: OxidizerStorageKind)
        ensures
            k == self.storage(),
    {
        match self {
            OxidizerKind::Fertilizer => OxidizerStorageKind::Solid,
            OxidizerKind::OxyRock => OxidizerStorageKind::Solid,
            OxidizerKind::LiquidOxygen => OxidizerStorageKind::Liquid,
        }
    }
}

/// The fixed figures of an oxidizer tank; `capacity` is in kilograms.
#[derive(Debug, Clone, Copy)]
pub struct OxidizerTankSpec {
    pub id: &'static str,
    pub name: &'static str,
    pub capacity: u32,
    pub burden: u32,
    pub height: u32,
    pub storage_kind: OxidizerStorageKind,
}

#[derive(Debug, Clone, Copy, PartialEq, Eq, Structural)]
pub enum OxidizerTankKind {
    SmallSolid,
    LargeSolid,
    Liquid,
}

impl OxidizerTankKind {
    /// Every kind of oxidizer tank, in the order in which they are offered.
    pub const ALL: [OxidizerTankKind; 3] = [OxidizerTankKind::SmallSolid, OxidizerTankKind::LargeSolid, OxidizerTankKind::Liquid];

    /// The table entry of this kind of oxidizer tank.
    pub open spec fn entry(self) -> OxidizerTankSpec {
        match self {
            OxidizerTankKind::SmallSolid => OxidizerTankSpec {
                id: "SmallSolidOxidizerTank",
                name: "小型固体氧化剂舱",
                capacity: 450,
                burden: 2,
                height: 2,
                storage_kind: OxidizerStorageKind::Solid,
            },
            OxidizerTankKind::LargeSolid => OxidizerTankSpec {
                id: "LargeSolidOxidizerTank",
                name: "大型固体氧化剂舱",
                capacity: 900,
                burden: 5,
                height: 5,
                storage_kind: OxidizerStorageKind::Solid,
            },
            OxidizerTankKind::Liquid => OxidizerTankSpec {
                id: "LiquidOxidizerTank",
                name: "液体氧化剂舱",
                capacity: 450,
                burden: 5,
                height: 2,
                storage_kind: OxidizerStorageKind::Liquid,
            },
        }
    }

    pub fn spec(self) -> (s: OxidizerTankSpec)
        ensures
            s == self.entry(),
    {
        match self {
            OxidizerTankKind::SmallSolid => OxidizerTankSpec {
                id: "SmallSolidOxidizerTank",
                name: "小型固体氧化剂舱",
                capacity: 450,
                burden: 2,
                height: 2,
                storage_kind: OxidizerStorageKind::Solid,
            },
            OxidizerTankKind::LargeSolid => OxidizerTankSpec {
                id: "LargeSolidOxidizerTank",
                name: "大型固体氧化剂舱",
                capacity: 900,
                burden: 5,
                height: 5,
                storage_kind: OxidizerStorageKind::Solid,
            },
            OxidizerTankKind::Liquid => OxidizerTankSpec {
                id: "LiquidOxidizerTank",
                name: "液体氧化剂舱",
                capacity: 450,
                burden: 5,
                height: 2,
                storage_kind: OxidizerStorageKind::Liquid,
            },
        }
    }
}

/// The fixed figures of a command module (a module that carries the crew).
#[derive(Debug, Clone, Copy)]
pub struct SpacefarerSpec {
    pub id: &'static str,
    pub name: &'static str,
    pub burden: u32,
    pub height: u32,
}

#[derive(Debug, Clone, Copy, PartialEq, Eq, Structural)]
pub enum SpacefarerKind {
    /// A one-seat command module that is also the rocket's nosecone.
    SoloSpacefarerNosecone,
    /// A command module that needs a separate nosecone.
    SpacefarerModule,
}

impl SpacefarerKind {
    /// Every kind of command module, in the order in which they are offered.
    pub const ALL: [SpacefarerKind; 2] = [SpacefarerKind::SoloSpacefarerNosecone, SpacefarerKind::SpacefarerModule];

    /// The table entry of this kind of command module.
    pub open spec fn entry(self) -> SpacefarerSpec {
        match self {
            SpacefarerKind::SoloSpacefarerNosecone => SpacefarerSpec {
                id: "HabitatModuleSmall",
                name: "单人太空舱",
                burden: 3,
                height: 3,
            },
            SpacefarerKind::SpacefarerModule => SpacefarerSpec {
                id: "HabitatModuleMedium",
                name: "太空舱",
                burden: 6,
                height: 4,
            },
        }
    }

    pub fn spec(self) -> (s: SpacefarerSpec)
        ensures
            s == self.entry(),
    {
        match self {
            SpacefarerKind::SoloSpacefarerNosecone => SpacefarerSpec {
                id: "HabitatModuleSmall",
                name: "单人太空舱",
                burden: 3,
                height: 3,
            },
            SpacefarerKind::SpacefarerModule => SpacefarerSpec {
                id: "HabitatModuleMedium",
                name: "太空舱",
                burden: 6,
                height: 4,
            },
        }
    }
}

/// The fixed figures of a nosecone.
#[derive(Debug, Clone, Copy)]
pub struct NoseconeSpec {
    pub id: &'static str,
    pub name: &'static str,
    pub burden: u32,
    pub height: u32,
}

#[derive(Debug, Clone, Copy, PartialEq, Eq, Structural)]
pub enum NoseconeKind {
    BasicNosecone,
    Drillcone,
}

impl NoseconeKind {
    /// Every kind of nosecone, in the order in which they are offered.
    pub const ALL: [NoseconeKind; 2] = [NoseconeKind::BasicNosecone, NoseconeKind::Drillcone];

    /// The table entry of this kind of nosecone.
    pub open spec fn entry(self) -> NoseconeSpec {
        match self {
            NoseconeKind::BasicNosecone => NoseconeSpec {
                id: "NoseconeBasic",
                name: "基础前锥",
                burden: 2,
                height: 2,
            },
            NoseconeKind::Drillcone => NoseconeSpec {
                id: "NoseconeHarvest",
                name: "钻头前锥",
                burden: 2,
                height: 4,
            },
        }
    }

    pub fn spec(self) -> (s: NoseconeSpec)
        ensures
            s == self.entry(),
    {
        match self {
            NoseconeKind::BasicNosecone => NoseconeSpec {
                id: "NoseconeBasic",
                name: "基础前锥",
                burden: 2,
                height: 2,
            },
            NoseconeKind::Drillcone => NoseconeSpec {
                id: "NoseconeHarvest",
                name: "钻头前锥",
                burden: 2,
                height: 4,
            },
        }
    }
}

/// One module stacked on the engine.
#[derive(Debug, Clone, Copy, PartialEq, Eq, Structural)]
pub enum RocketModule {
    FuelTank(FuelTankKind),
    OxidizerTank(OxidizerTankKind),
    Spacefarer(SpacefarerKind),
    Nosecone(NoseconeKind),
}

impl RocketModule {
    /// The height of the module, as its kind's table entry gives it.
    pub open spec fn module_height(self) -> u32 {
        match self {
            RocketModule::FuelTank(tank) => tank.entry().height,
            RocketModule::OxidizerTank(tank) => tank.entry().height,
            RocketModule::Spacefarer(kind) => kind.entry().height,
            RocketModule::Nosecone(kind) => kind.entry().height,
        }
    }

    /// The burden of the module, as its kind's table entry gives it.
    pub open spec fn module_burden(self) -> u32 {
        match self {
            RocketModule::FuelTank(tank) => tank.entry().burden,
            RocketModule::OxidizerTank(tank) => tank.entry().burden,
            RocketModule::Spacefarer(kind) => kind.entry().burden,
            RocketModule::Nosecone(kind) => kind.entry().burden,
        }
    }

    pub fn height(self) -> (h: u32)
        ensures
            h == self.module_height(),
    {
        match self {
            RocketModule::FuelTank(tank) => tank.spec().height,
            RocketModule::OxidizerTank(tank) => tank.spec().height,
            RocketModule::Spacefarer(kind) => kind.spec().height,
            RocketModule::Nosecone(kind) => kind.spec().height,
        }
    }

    pub fn burden(self) -> (b: u32)
        ensures
            b == self.module_burden(),
    {
        match self {
            RocketModule::FuelTank(tank) => tank.spec().burden,
            RocketModule::OxidizerTank(tank) => tank.spec().burden,
            RocketModule::Spacefarer(kind) => kind.spec().burden,
            RocketModule::Nosecone(kind) => kind.spec().burden,
        }
    }
}


/// Every engine fed from separate fuel tanks burns oxidizer, and the one that carries its
/// own tank (150 kg) burns none; the engines that burn oxidizer allow rockets up to 35 high,
/// the other up to 25. Every engine is 5 high.
pub proof fn lemma_engine_table(engine: EngineKind)
    ensures
        engine.entry().requires_oxidizer <==> engine.entry().fuel_storage is ExternalTank,
        !engine.entry().requires_oxidizer ==> engine.entry().fuel_storage == (FuelStorage::Internal {
            capacity: 150,
        }),
        engine.entry().max_rocket_height == (if engine.entry().requires_oxidizer {
            35u32
        } else {
            25u32
        }),
        engine.entry().height == 5,
        engine.entry().requires_oxidizer <==> engine != EngineKind::Steam,
{
}

/// Liquid oxygen is the only liquid oxidizer and burns four kilograms of fuel per
/// kilogram; the solid ones burn at most two.
pub proof fn lemma_oxidizer_table(oxidizer: OxidizerKind)
    ensures
        oxidizer.storage() == OxidizerStorageKind::Liquid <==> oxidizer == OxidizerKind::LiquidOxygen,
        oxidizer.storage() == OxidizerStorageKind::Liquid <==> oxidizer.entry().efficiency == 4,
        oxidizer.storage() == OxidizerStorageKind::Solid ==> oxidizer.entry().efficiency <= 2,
{
}

/// Only the liquid oxidizer tank holds liquid oxidizer; every oxidizer tank holds 450 kg
/// except the large solid one, which holds twice that.
pub proof fn lemma_oxidizer_tank_table(tank: OxidizerTankKind)
    ensures
        tank.entry().storage_kind == OxidizerStorageKind::Liquid <==> tank == OxidizerTankKind::Liquid,
        tank.entry().capacity == (if tank == OxidizerTankKind::LargeSolid {
            2 * 450int
        } else {
            450int
        }),
{
}

} // verus!
