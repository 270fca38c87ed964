use rocket_calculator::calculator::{
    calculate, CalculatorError, CalculatorInput, CalculatorResult, LimitingResource, OxidizerInput,
    Quantity, RocketInput,
};
use rocket_calculator::messages::{error_message_text, limiting_resource_message};
use rocket_calculator::models::{
    EngineKind, FuelTankKind, NoseconeKind, OxidizerKind, OxidizerStorageKind, OxidizerTankKind,
    RocketModule, SpacefarerKind,
};

fn input(
    engine: EngineKind,
    fuel: Quantity,
    oxidizer_input: Option<OxidizerInput>,
    modules: Vec<RocketModule>,
) -> CalculatorInput {
    CalculatorInput { rocket: RocketInput { engine, fuel_amount: fuel, oxidizer_input, modules } }
}

fn kg(amount: i64) -> Quantity {
    Quantity::Finite { floor: amount, ceil: amount }
}

fn solo() -> Vec<RocketModule> {
    vec![RocketModule::Spacefarer(SpacefarerKind::SoloSpacefarerNosecone)]
}

#[test]
fn fractional_fuel_above_capacity_is_refused() {
    // 150.5 kg lies between 150 and 151.
    let fuel = Quantity::Finite { floor: 150, ceil: 151 };
    let out = calculate(input(EngineKind::Steam, fuel, None, solo()));
    assert_eq!(out, Err(CalculatorError::FuelExceedsCapacity));
}

#[test]
fn fractional_negative_fuel_is_refused() {
    // -0.5 kg lies between -1 and 0.
    let fuel = Quantity::Finite { floor: -1, ceil: 0 };
    let out = calculate(input(EngineKind::Steam, fuel, None, solo()));
    assert_eq!(out, Err(CalculatorError::NegativeFuel));
}

#[test]
fn fuel_just_at_capacity_is_accepted() {
    let out = calculate(input(EngineKind::Steam, kg(150), None, solo()));
    assert_eq!(out, Ok(CalculatorResult { total_height: 8, total_burden: 18 }));
}

#[test]
fn infinite_amounts() {
    let out = calculate(input(EngineKind::Steam, Quantity::PositiveInfinity, None, solo()));
    assert_eq!(out, Err(CalculatorError::FuelExceedsCapacity));
    let out = calculate(input(EngineKind::Steam, Quantity::NegativeInfinity, None, solo()));
    assert_eq!(out, Err(CalculatorError::NegativeFuel));
}

#[test]
fn unordered_amount_passes_the_comparisons() {
    let out = calculate(input(EngineKind::Steam, Quantity::NotANumber, None, solo()));
    assert_eq!(out, Ok(CalculatorResult { total_height: 8, total_burden: 18 }));
}

#[test]
fn negative_fuel_is_found_before_module_errors() {
    let out = calculate(input(EngineKind::Steam, kg(-1), None, vec![]));
    assert_eq!(out, Err(CalculatorError::NegativeFuel));
}

#[test]
fn petroleum_rocket_with_solid_oxidizer() {
    let modules = vec![
        RocketModule::FuelTank(FuelTankKind::LargeLiquid),
        RocketModule::OxidizerTank(OxidizerTankKind::SmallSolid),
        RocketModule::OxidizerTank(OxidizerTankKind::SmallSolid),
        RocketModule::Spacefarer(SpacefarerKind::SpacefarerModule),
        RocketModule::Nosecone(NoseconeKind::Drillcone),
    ];
    let ox = OxidizerInput { oxidizer: OxidizerKind::Fertilizer, oxidizer_amount: kg(900) };
    let out = calculate(input(EngineKind::Petroleum, kg(900), Some(ox), modules));
    // heights 5 + 5 + 2 + 2 + 4 + 4, burdens 6 + 5 + 2 + 2 + 6 + 2
    assert_eq!(out, Ok(CalculatorResult { total_height: 22, total_burden: 23 }));
}

#[test]
fn module_order_does_not_change_the_verdict() {
    let modules = vec![
        RocketModule::FuelTank(FuelTankKind::LargeLiquid),
        RocketModule::OxidizerTank(OxidizerTankKind::Liquid),
        RocketModule::Spacefarer(SpacefarerKind::SoloSpacefarerNosecone),
    ];
    let mut reversed = modules.clone();
    reversed.reverse();
    let ox = OxidizerInput { oxidizer: OxidizerKind::LiquidOxygen, oxidizer_amount: kg(200) };
    let a = calculate(input(EngineKind::Hydrogen, kg(800), Some(ox), modules));
    let b = calculate(input(EngineKind::Hydrogen, kg(800), Some(ox), reversed));
    assert_eq!(a, b);
    assert_eq!(a, Ok(CalculatorResult { total_height: 15, total_burden: 20 }));
}

#[test]
fn steam_engine_ignores_oxidizer() {
    let ox = OxidizerInput { oxidizer: OxidizerKind::OxyRock, oxidizer_amount: kg(-5) };
    let with = calculate(input(EngineKind::Steam, kg(100), Some(ox), solo()));
    let without = calculate(input(EngineKind::Steam, kg(100), None, solo()));
    assert_eq!(with, without);
    assert_eq!(with, Ok(CalculatorResult { total_height: 8, total_burden: 18 }));
}

#[test]
fn oxidizer_storage_kinds() {
    assert_eq!(OxidizerKind::Fertilizer.storage_kind(), OxidizerStorageKind::Solid);
    assert_eq!(OxidizerKind::OxyRock.storage_kind(), OxidizerStorageKind::Solid);
    assert_eq!(OxidizerKind::LiquidOxygen.storage_kind(), OxidizerStorageKind::Liquid);
    assert_eq!(OxidizerTankKind::Liquid.spec().storage_kind, OxidizerStorageKind::Liquid);
    assert_eq!(OxidizerTankKind::SmallSolid.spec().storage_kind, OxidizerStorageKind::Solid);
}

#[test]
fn table_entries() {
    assert_eq!(FuelTankKind::LargeLiquid.spec().capacity, 900);
    assert_eq!(OxidizerTankKind::SmallSolid.spec().capacity, 450);
    assert_eq!(OxidizerTankKind::LargeSolid.spec().capacity, 900);
    assert_eq!(OxidizerKind::LiquidOxygen.spec().efficiency, 4);
    assert_eq!(OxidizerKind::OxyRock.spec().efficiency, 2);
    assert_eq!(OxidizerKind::Fertilizer.spec().efficiency, 1);
    assert_eq!(EngineKind::Hydrogen.spec().fuel_per_hex_hundredths, 5625);
    assert_eq!(EngineKind::Steam.spec().engine_power, 27);
    assert_eq!(EngineKind::Hydrogen.spec().burden, 7);
    assert_eq!(EngineKind::Hydrogen.spec().id, "HydrogenEngineCluster");
    assert_eq!(SpacefarerKind::SpacefarerModule.spec().height, 4);
    assert_eq!(NoseconeKind::Drillcone.spec().burden, 2);
    assert_eq!(EngineKind::ALL.len(), 3);
    assert_eq!(OxidizerKind::ALL[0], OxidizerKind::LiquidOxygen);
}

#[test]
fn every_error_has_its_own_message() {
    let errors = [
        (CalculatorError::NegativeFuel, "燃料量不能为负数"),
        (CalculatorError::MissingOxidizer, "缺少氧化剂"),
        (CalculatorError::NegativeOxidizer, "氧化剂量不能为负数"),
        (CalculatorError::FuelExceedsCapacity, "燃料超过容量"),
        (CalculatorError::OxidizerExceedsCapacity, "氧化剂超过容量"),
        (CalculatorError::IncompatibleOxidizerTank, "氧化剂舱类型不兼容"),
        (CalculatorError::RocketExceedsMaxHeight, "火箭超过最大高度"),
        (CalculatorError::CommandModuleTooLess, "指挥舱数量不能为0"),
        (CalculatorError::CommandModuleTooMuch, "指挥舱数量不能多于1个"),
        (CalculatorError::ConeModuleTooLess, "前锥数量不能为0"),
        (CalculatorError::ConeModuleTooMuch, "前锥数量不能多于1个"),
    ];
    for (error, text) in errors {
        assert_eq!(error_message_text(&error), text);
    }
    for (a, _) in errors {
        for (b, _) in errors {
            if a != b {
                assert_ne!(error_message_text(&a), error_message_text(&b));
            }
        }
    }
}

#[test]
fn limiting_resource_labels() {
    assert_eq!(limiting_resource_message(&LimitingResource::Balance), "刚好平衡");
    assert_eq!(limiting_resource_message(&LimitingResource::Fuel), "燃料");
    assert_eq!(limiting_resource_message(&LimitingResource::Oxidizer), "氧化剂");
}
