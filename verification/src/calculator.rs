use vstd::prelude::*;
use vstd::seq_lib::{commutative_foldl, lemma_fold_left_permutation};

use crate::models::{
    EngineKind, FuelStorage, OxidizerKind, OxidizerStorageKind, RocketModule, SpacefarerKind,
};

verus! {

/// An amount of fuel or oxidizer, in kilograms, as the checks read it.
///
/// A finite amount is given by its integer floor and ceiling (`floor <= ceil <= floor + 1`
/// for any real amount): every limit the calculator compares an amount with is a whole
/// number of kilograms, so these two integers decide each comparison exactly.
#[derive(Debug, Clone, Copy, PartialEq, Eq, Structural)]
pub enum Quantity {
    Finite { floor: i64, ceil: i64 },
    PositiveInfinity,
    NegativeInfinity,
    /// An amount that compares as neither smaller nor larger than anything.
    NotANumber,
}

impl Quantity {
    /// The amount is smaller than zero.
    pub open spec fn is_below_zero(self) -> bool {
        match self {
            Quantity::Finite { floor, .. } => floor < 0,
            Quantity::NegativeInfinity => true,
            _ => false,
        }
    }

    /// The amount is larger than the whole number `limit`.
    pub open spec fn is_above(self, limit: int) -> bool {
        match self {
            Quantity::Finite { ceil, .. } => ceil > limit,
            Quantity::PositiveInfinity => true,
            _ => false,
        }
    }

    fn below_zero(&self) -> (b: bool)
        ensures
            b == self.is_below_zero(),
    {
        match self {
            Quantity::Finite { floor, .. } => *floor < 0,
            Quantity::NegativeInfinity => true,
            _ => false,
        }
    }

    fn above(&self, limit: u64) -> (b: bool)
        ensures
            b == self.is_above(limit as int),
    {
        match self {
            Quantity::Finite { ceil, .. } => *ceil >= 0 && (*ceil as u64) > limit,
            Quantity::PositiveInfinity => true,
            _ => false,
        }
    }
}

/// Which resource runs out first.
#[derive(Debug, PartialEq, Eq, Clone, Copy, Structural)]
pub enum LimitingResource {
    Fuel,
    Oxidizer,
    Balance,
}

/// Why a rocket cannot be flown.
#[derive(Debug, PartialEq, Eq, Clone, Copy, Structural)]
pub enum CalculatorError {
    NegativeFuel,
    MissingOxidizer,
    NegativeOxidizer,
    FuelExceedsCapacity,
    OxidizerExceedsCapacity,
    IncompatibleOxidizerTank,
    RocketExceedsMaxHeight,
    CommandModuleTooMuch,
    CommandModuleTooLess,
    ConeModuleTooMuch,
    ConeModuleTooLess,
}

/// The oxidizer loaded into a rocket.
#[derive(Debug, Clone, Copy, PartialEq, Eq, Structural)]
pub struct OxidizerInput {
    pub oxidizer: OxidizerKind,
    pub oxidizer_amount: Quantity,
}

/// A rocket: its engine, its loads and the modules stacked on the engine.
pub struct RocketInput {
    pub engine: EngineKind,
    pub fuel_amount: Quantity,
    pub oxidizer_input: Option<OxidizerInput>,
    pub modules: Vec<RocketModule>,
}

pub struct CalculatorInput {
    pub rocket: RocketInput,
}

/// The whole-number figures of a rocket that passed every check.
#[derive(Debug, PartialEq, Eq, Clone, Copy, Structural)]
pub struct CalculatorResult {
    pub total_height: u32,
    pub total_burden: u32,
}

/// A figure that is added up over the modules of a rocket.
#[derive(Debug, PartialEq, Eq, Clone, Copy, Structural)]
pub enum Tally {
    Height,
    Burden,
    CommandModules,
    Nosecones,
    FuelCapacity,
    OxidizerCapacity,
}

/// What one module adds to a tally.
pub open spec fn tally_of(m: RocketModule, t: Tally) -> int {
    match t {
        Tally::Height => m.module_height() as int,
        Tally::Burden => m.module_burden() as int,
        Tally::CommandModules => if m is Spacefarer { 1 } else { 0 },
        Tally::Nosecones => match m {
            RocketModule::Nosecone(_) => 1,
            RocketModule::Spacefarer(SpacefarerKind::SoloSpacefarerNosecone) => 1,
            _ => 0,
        },
        Tally::FuelCapacity => match m {
            RocketModule::FuelTank(tank) => tank.entry().capacity as int,
            _ => 0,
        },
        Tally::OxidizerCapacity => match m {
            RocketModule::OxidizerTank(tank) => tank.entry().capacity as int,
            _ => 0,
        },
    }
}

pub open spec fn tally_step(t: Tally) -> spec_fn(int, RocketModule) -> int {
    |acc: int, m: RocketModule| acc + tally_of(m, t)
}

/// The sum of a tally over a sequence of modules.
pub open spec fn tally(s: Seq<RocketModule>, t: Tally) -> int {
    s.fold_left(0, tally_step(t))
}

/// Every oxidizer tank among the modules holds oxidizer of the given storage kind.
pub open spec fn tanks_hold(s: Seq<RocketModule>, kind: OxidizerStorageKind) -> bool {
    forall|i: int|
        0 <= i < s.len() ==> match #[trigger] s[i] {
            RocketModule::OxidizerTank(tank) => tank.entry().storage_kind == kind,
            _ => true,
        }
}

/// How much fuel a rocket can hold: the engine's own tank, or the sum of its fuel tanks.
pub open spec fn fuel_capacity(storage: FuelStorage, modules: Seq<RocketModule>) -> int {
    match storage {
        FuelStorage::Internal { capacity } => capacity as int,
        FuelStorage::ExternalTank => tally(modules, Tally::FuelCapacity),
    }
}

/// The height of the rocket: its engine and every module.
pub open spec fn rocket_height(engine: EngineKind, modules: Seq<RocketModule>) -> int {
    engine.entry().height + tally(modules, Tally::Height)
}

/// The burden of the rocket: its engine and every module.
pub open spec fn rocket_burden(engine: EngineKind, modules: Seq<RocketModule>) -> int {
    engine.entry().burden + tally(modules, Tally::Burden)
}

/// The verdict on a rocket. The checks are made in this order, and the first that fails
/// gives the error.
pub open spec fn rocket_outcome(
    engine: EngineKind,
    fuel: Quantity,
    oxidizer: Option<OxidizerInput>,
    modules: Seq<RocketModule>,
) -> Result<CalculatorResult, CalculatorError> {
    let e = engine.entry();
    if fuel.is_below_zero() {
        Err(CalculatorError::NegativeFuel)
    } else if tally(modules, Tally::CommandModules) == 0 {
        Err(CalculatorError::CommandModuleTooLess)
    } else if tally(modules, Tally::CommandModules) > 1 {
        Err(CalculatorError::CommandModuleTooMuch)
    } else if tally(modules, Tally::Nosecones) == 0 {
        Err(CalculatorError::ConeModuleTooLess)
    } else if tally(modules, Tally::Nosecones) > 1 {
        Err(CalculatorError::ConeModuleTooMuch)
    } else if rocket_height(engine, modules) > e.max_rocket_height {
        Err(CalculatorError::RocketExceedsMaxHeight)
    } else if fuel.is_above(fuel_capacity(e.fuel_storage, modules)) {
        Err(CalculatorError::FuelExceedsCapacity)
    } else if e.requires_oxidizer && oxidizer is None {
        Err(CalculatorError::MissingOxidizer)
    } else if e.requires_oxidizer && oxidizer.unwrap().oxidizer_amount.is_below_zero() {
        Err(CalculatorError::NegativeOxidizer)
    } else if e.requires_oxidizer && !tanks_hold(modules, oxidizer.unwrap().oxidizer.storage()) {
        Err(CalculatorError::IncompatibleOxidizerTank)
    } else if e.requires_oxidizer && oxidizer.unwrap().oxidizer_amount.is_above(
        tally(modules, Tally::OxidizerCapacity),
    ) {
        Err(CalculatorError::OxidizerExceedsCapacity)
    } else {
        Ok(
            CalculatorResult {
                total_height: rocket_height(engine, modules) as u32,
                total_burden: rocket_burden(engine, modules) as u32,
            },
        )
    }
}

/// The input on which `calculate` is defined: unless the fuel is found negative first,
/// the heights must add up within `u32` (the sum overflows otherwise).
pub open spec fn height_fits(engine: EngineKind, fuel: Quantity, modules: Seq<RocketModule>) -> bool {
    !fuel.is_below_zero() ==> rocket_height(engine, modules) <= u32::MAX
}

proof fn lemma_tally_push(s: Seq<RocketModule>, m: RocketModule, t: Tally)
    ensures
        tally(s.push(m), t) == tally(s, t) + tally_of(m, t),
{
    assert(s.push(m).drop_last() =~= s);
}

proof fn lemma_tally_take_step(s: Seq<RocketModule>, i: int, t: Tally)
    requires
        0 <= i < s.len(),
    ensures
        tally(s.take(i + 1), t) == tally(s.take(i), t) + tally_of(s[i], t),
{
    assert(s.take(i + 1) =~= s.take(i).push(s[i]));
    lemma_tally_push(s.take(i), s[i], t);
}

/// No module adds more than 225 per unit of its height to any tally.
proof fn lemma_tally_of_nonnegative(m: RocketModule, t: Tally)
    ensures
        0 <= tally_of(m, t) <= 225 * tally_of(m, Tally::Height),
{
}

proof fn lemma_tally_prefix(s: Seq<RocketModule>, i: int, t: Tally)
    requires
        0 <= i <= s.len(),
    ensures
        0 <= tally(s.take(i), t) <= tally(s, t),
    decreases s.len(),
{
    if i == s.len() {
        assert(s.take(i) =~= s);
        if s.len() > 0 {
            lemma_tally_prefix(s.drop_last(), 0, t);
            assert(s.drop_last().take(0) =~= s.take(0));
            lemma_tally_of_nonnegative(s.last(), t);
        } else {
            assert(s.take(i) =~= Seq::<RocketModule>::empty());
        }
    } else {
        lemma_tally_prefix(s.drop_last(), i, t);
        assert(s.drop_last().take(i) =~= s.take(i));
        lemma_tally_of_nonnegative(s.last(), t);
    }
}

proof fn lemma_tally_bounded_by_height(s: Seq<RocketModule>, t: Tally)
    ensures
        0 <= tally(s, t) <= 225 * tally(s, Tally::Height),
    decreases s.len(),
{
    if s.len() > 0 {
        lemma_tally_bounded_by_height(s.drop_last(), t);
        lemma_tally_of_nonnegative(s.last(), t);
    }
}

fn module_tally(m: RocketModule, t: Tally) -> (r: u64)
    ensures
        r == tally_of(m, t),
{
    match t {
        Tally::Height => m.height() as u64,
        Tally::Burden => m.burden() as u64,
        Tally::CommandModules => match m {
            RocketModule::Spacefarer(_) => 1,
            _ => 0,
        },
        Tally::Nosecones => match m {
            RocketModule::Nosecone(_) => 1,
            RocketModule::Spacefarer(SpacefarerKind::SoloSpacefarerNosecone) => 1,
            _ => 0,
        },
        Tally::FuelCapacity => match m {
            RocketModule::FuelTank(tank) => tank.spec().capacity as u64,
            _ => 0,
        },
        Tally::OxidizerCapacity => match m {
            RocketModule::OxidizerTank(tank) => tank.spec().capacity as u64,
            _ => 0,
        },
    }
}

fn tally_modules(modules: &Vec<RocketModule>, t: Tally) -> (r: u64)
    requires
        tally(modules@, t) <= u64::MAX,
    ensures
        r == tally(modules@, t),
{
    let mut total: u64 = 0;
    let mut i: usize = 0;
    while i < modules.len()
        invariant
            0 <= i <= modules.len(),
            total == tally(modules@.take(i as int), t),
            tally(modules@, t) <= u64::MAX,
        decreases modules.len() - i,
    {
        proof {
            lemma_tally_take_step(modules@, i as int, t);
            lemma_tally_prefix(modules@, i + 1, t);
        }
        let v = module_tally(modules[i], t);
        total = total + v;
        i = i + 1;
    }
    proof {
        assert(modules@.take(modules.len() as int) =~= modules@);
    }
    total
}

fn tanks_compatible(modules: &Vec<RocketModule>, kind: OxidizerStorageKind) -> (ok: bool)
    ensures
        ok == tanks_hold(modules@, kind),
{
    let mut i: usize = 0;
    while i < modules.len()
        invariant
            0 <= i <= modules.len(),
            forall|j: int|
                0 <= j < i ==> match #[trigger] modules@[j] {
                    RocketModule::OxidizerTank(tank) => tank.entry().storage_kind == kind,
                    _ => true,
                },
        decreases modules.len() - i,
    {
        match modules[i] {
            RocketModule::OxidizerTank(tank) => {
                if tank.spec().storage_kind != kind {
                    return false;
                }
            },
            _ => {},
        }
        i = i + 1;
    }
    true
}

/// Checks a rocket and, when it can fly, gives its total height and burden.
pub fn calculate(input: CalculatorInput) -> (res: Result<CalculatorResult, CalculatorError>)
    requires
        height_fits(input.rocket.engine, input.rocket.fuel_amount, input.rocket.modules@),
    ensures
        res == rocket_outcome(
            input.rocket.engine,
            input.rocket.fuel_amount,
            input.rocket.oxidizer_input,
            input.rocket.modules@,
        ),
{
    let rocket = input.rocket;
    let engine = rocket.engine.spec();
    let fuel = rocket.fuel_amount;
    let modules = &rocket.modules;
    let ghost s = modules@;
    if fuel.below_zero() {
        return Err(CalculatorError::NegativeFuel);
    }
    proof {
        lemma_tally_bounded_by_height(s, Tally::CommandModules);
        lemma_tally_bounded_by_height(s, Tally::Nosecones);
        lemma_tally_bounded_by_height(s, Tally::Burden);
        lemma_tally_bounded_by_height(s, Tally::FuelCapacity);
        lemma_tally_bounded_by_height(s, Tally::OxidizerCapacity);
        lemma_tally_bounded_by_height(s, Tally::Height);
    }
    let module_height = tally_modules(modules, Tally::Height);
    let command_module_count = tally_modules(modules, Tally::CommandModules);
    if command_module_count == 0 {
        return Err(CalculatorError::CommandModuleTooLess);
    }
    if command_module_count > 1 {
        return Err(CalculatorError::CommandModuleTooMuch);
    }
    let nosecone_count = tally_modules(modules, Tally::Nosecones);
    if nosecone_count == 0 {
        return Err(CalculatorError::ConeModuleTooLess);
    }
    if nosecone_count > 1 {
        return Err(CalculatorError::ConeModuleTooMuch);
    }
    let total_height = engine.height as u64 + module_height;
    if total_height > engine.max_rocket_height as u64 {
        return Err(CalculatorError::RocketExceedsMaxHeight);
    }
    let module_burden = tally_modules(modules, Tally::Burden);
    let total_burden = engine.burden as u64 + module_burden;
    let fuel_capacity = match engine.fuel_storage {
        FuelStorage::Internal { capacity } => capacity as u64,
        FuelStorage::ExternalTank => tally_modules(modules, Tally::FuelCapacity),
    };
    if fuel.above(fuel_capacity) {
        return Err(CalculatorError::FuelExceedsCapacity);
    }
    if engine.requires_oxidizer {
        let oxi = match rocket.oxidizer_input {
            Some(oxi) => oxi,
            None => {
                return Err(CalculatorError::MissingOxidizer);
            },
        };
        if oxi.oxidizer_amount.below_zero() {
            return Err(CalculatorError::NegativeOxidizer);
        }
        if !tanks_compatible(modules, oxi.oxidizer.storage_kind()) {
            return Err(CalculatorError::IncompatibleOxidizerTank);
        }
        let oxidizer_capacity = tally_modules(modules, Tally::OxidizerCapacity);
        if oxi.oxidizer_amount.above(oxidizer_capacity) {
            return Err(CalculatorError::OxidizerExceedsCapacity);
        }
    }
    Ok(CalculatorResult { total_height: total_height as u32, total_burden: total_burden as u32 })
}


/// Every check passes: the conditions under which a rocket can fly.
pub open spec fn flight_ready(
    engine: EngineKind,
    fuel: Quantity,
    oxidizer: Option<OxidizerInput>,
    modules: Seq<RocketModule>,
) -> bool {
    let e = engine.entry();
    &&& !fuel.is_below_zero()
    &&& tally(modules, Tally::CommandModules) == 1
    &&& tally(modules, Tally::Nosecones) == 1
    &&& rocket_height(engine, modules) <= e.max_rocket_height
    &&& !fuel.is_above(fuel_capacity(e.fuel_storage, modules))
    &&& e.requires_oxidizer ==> {
        &&& oxidizer is Some
        &&& !oxidizer.unwrap().oxidizer_amount.is_below_zero()
        &&& tanks_hold(modules, oxidizer.unwrap().oxidizer.storage())
        &&& !oxidizer.unwrap().oxidizer_amount.is_above(tally(modules, Tally::OxidizerCapacity))
    }
}

/// A rocket is accepted exactly when every check passes: one command module, one
/// nosecone, a height within the engine's limit, fuel between zero and the capacity,
/// and, for an engine that burns oxidizer, oxidizer between zero and the capacity of
/// oxidizer tanks that all suit it. An accepted rocket's height and burden are those
/// of its engine plus those of all its modules.
pub proof fn lemma_accepted_exactly_when_ready(
    engine: EngineKind,
    fuel: Quantity,
    oxidizer: Option<OxidizerInput>,
    modules: Seq<RocketModule>,
)
    ensures
        rocket_outcome(engine, fuel, oxidizer, modules) is Ok <==> flight_ready(
            engine,
            fuel,
            oxidizer,
            modules,
        ),
        rocket_outcome(engine, fuel, oxidizer, modules) is Ok ==> {
            let r = rocket_outcome(engine, fuel, oxidizer, modules).unwrap();
            &&& r.total_height == rocket_height(engine, modules)
            &&& r.total_burden == rocket_burden(engine, modules)
        },
{
    lemma_tally_bounded_by_height(modules, Tally::CommandModules);
    lemma_tally_bounded_by_height(modules, Tally::Nosecones);
    lemma_tally_bounded_by_height(modules, Tally::Burden);
    lemma_tally_bounded_by_height(modules, Tally::Height);
}

/// Only an engine that burns oxidizer looks at the oxidizer: for the others the
/// verdict is the same whatever oxidizer is loaded, or none.
pub proof fn lemma_oxidizer_ignored_when_not_burnt(
    engine: EngineKind,
    fuel: Quantity,
    first: Option<OxidizerInput>,
    second: Option<OxidizerInput>,
    modules: Seq<RocketModule>,
)
    requires
        !engine.entry().requires_oxidizer,
    ensures
        rocket_outcome(engine, fuel, first, modules) == rocket_outcome(
            engine,
            fuel,
            second,
            modules,
        ),
{
}

proof fn lemma_tally_permutation(s1: Seq<RocketModule>, s2: Seq<RocketModule>, t: Tally)
    requires
        s1.to_multiset() == s2.to_multiset(),
    ensures
        tally(s1, t) == tally(s2, t),
{
    let f = tally_step(t);
    assert(commutative_foldl(f)) by {
        assert forall|x: RocketModule, y: RocketModule, v: int|
            #[trigger] f(f(v, x), y) == f(f(v, y), x) by {}
    }
    lemma_fold_left_permutation(s1, s2, f, 0);
}

proof fn lemma_tanks_hold_permutation(
    s1: Seq<RocketModule>,
    s2: Seq<RocketModule>,
    kind: OxidizerStorageKind,
)
    requires
        s1.to_multiset() == s2.to_multiset(),
        tanks_hold(s1, kind),
    ensures
        tanks_hold(s2, kind),
{
    broadcast use vstd::seq_lib::group_to_multiset_ensures;

    assert forall|i: int| 0 <= i < s2.len() implies match #[trigger] s2[i] {
        RocketModule::OxidizerTank(tank) => tank.entry().storage_kind == kind,
        _ => true,
    } by {
        assert(s2.contains(s2[i]));
        assert(s2.to_multiset().count(s2[i]) > 0);
        assert(s1.contains(s2[i]));
        let j = choose|j: int| 0 <= j < s1.len() && s1[j] == s2[i];
        assert(s1[j] == s2[i]);
    }
}

/// The order in which the modules are stacked does not matter: two rockets whose
/// modules are the same up to their order get the same verdict.
pub proof fn lemma_module_order_irrelevant(
    engine: EngineKind,
    fuel: Quantity,
    oxidizer: Option<OxidizerInput>,
    first: Seq<RocketModule>,
    second: Seq<RocketModule>,
)
    requires
        first.to_multiset() == second.to_multiset(),
    ensures
        rocket_outcome(engine, fuel, oxidizer, first) == rocket_outcome(
            engine,
            fuel,
            oxidizer,
            second,
        ),
{
    lemma_tally_permutation(first, second, Tally::Height);
    lemma_tally_permutation(first, second, Tally::Burden);
    lemma_tally_permutation(first, second, Tally::CommandModules);
    lemma_tally_permutation(first, second, Tally::Nosecones);
    lemma_tally_permutation(first, second, Tally::FuelCapacity);
    lemma_tally_permutation(first, second, Tally::OxidizerCapacity);
    if oxidizer is Some {
        let kind = oxidizer.unwrap().oxidizer.storage();
        if tanks_hold(first, kind) {
            lemma_tanks_hold_permutation(first, second, kind);
        }
        if tanks_hold(second, kind) {
            lemma_tanks_hold_permutation(second, first, kind);
        }
    }
}


proof fn lemma_tally_all_zero(s: Seq<RocketModule>, t: Tally)
    requires
        forall|i: int| 0 <= i < s.len() ==> tally_of(#[trigger] s[i], t) == 0,
    ensures
        tally(s, t) == 0,
    decreases s.len(),
{
    if s.len() > 0 {
        assert(tally_of(s[s.len() - 1], t) == 0);
        lemma_tally_all_zero(s.drop_last(), t);
    }
}

proof fn lemma_tally_at_least_one(s: Seq<RocketModule>, t: Tally, i: int)
    requires
        0 <= i < s.len(),
    ensures
        tally(s, t) >= tally_of(s[i], t),
    decreases s.len(),
{
    lemma_tally_bounded_by_height(s.drop_last(), t);
    lemma_tally_of_nonnegative(s.last(), t);
    if i < s.len() - 1 {
        lemma_tally_at_least_one(s.drop_last(), t, i);
    }
}

proof fn lemma_tally_at_least_two(s: Seq<RocketModule>, t: Tally, i: int, j: int)
    requires
        0 <= i < s.len(),
        0 <= j < s.len(),
        i != j,
    ensures
        tally(s, t) >= tally_of(s[i], t) + tally_of(s[j], t),
    decreases s.len(),
{
    let n = s.len() - 1;
    if i == n {
        lemma_tally_at_least_one(s.drop_last(), t, j);
    } else if j == n {
        lemma_tally_at_least_one(s.drop_last(), t, i);
    } else {
        lemma_tally_of_nonnegative(s.last(), t);
        lemma_tally_at_least_two(s.drop_last(), t, i, j);
    }
}

proof fn lemma_tally_single(s: Seq<RocketModule>, t: Tally, k: int)
    requires
        0 <= k < s.len(),
        forall|i: int| 0 <= i < s.len() && i != k ==> tally_of(#[trigger] s[i], t) == 0,
    ensures
        tally(s, t) == tally_of(s[k], t),
    decreases s.len(),
{
    let n = s.len() - 1;
    if k == n {
        assert forall|i: int| 0 <= i < s.drop_last().len() implies tally_of(
            #[trigger] s.drop_last()[i],
            t,
        ) == 0 by {
            assert(s.drop_last()[i] == s[i]);
        }
        lemma_tally_all_zero(s.drop_last(), t);
    } else {
        assert(tally_of(s[n], t) == 0);
        assert forall|i: int| 0 <= i < s.drop_last().len() && i != k implies tally_of(
            #[trigger] s.drop_last()[i],
            t,
        ) == 0 by {
            assert(s.drop_last()[i] == s[i]);
        }
        lemma_tally_single(s.drop_last(), t, k);
    }
}

/// A module that counts as the rocket's nosecone: a nosecone, or the one-seat
/// command module that is its own nosecone.
pub open spec fn is_cone(m: RocketModule) -> bool {
    m is Nosecone || m == RocketModule::Spacefarer(SpacefarerKind::SoloSpacefarerNosecone)
}

/// Fuel below zero is refused first, whatever else the rocket holds.
pub proof fn lemma_negative_fuel_refused_first(
    engine: EngineKind,
    fuel: Quantity,
    oxidizer: Option<OxidizerInput>,
    modules: Seq<RocketModule>,
)
    requires
        fuel.is_below_zero(),
    ensures
        rocket_outcome(engine, fuel, oxidizer, modules) == Err::<CalculatorResult, CalculatorError>(
            CalculatorError::NegativeFuel,
        ),
{
}

/// Once the fuel is not negative, a rocket without a command module, or with two,
/// is refused for that, whatever its fuel amount, fuel capacity, height or oxidizer.
pub proof fn lemma_command_module_count_checked_before_the_rest(
    engine: EngineKind,
    fuel: Quantity,
    oxidizer: Option<OxidizerInput>,
    modules: Seq<RocketModule>,
)
    requires
        !fuel.is_below_zero(),
    ensures
        (forall|i: int| 0 <= i < modules.len() ==> !(#[trigger] modules[i] is Spacefarer))
            ==> rocket_outcome(engine, fuel, oxidizer, modules) == Err::<
            CalculatorResult,
            CalculatorError,
        >(CalculatorError::CommandModuleTooLess),
        (exists|i: int, j: int|
            0 <= i < modules.len() && 0 <= j < modules.len() && i != j && #[trigger] modules[i] is Spacefarer
                && #[trigger] modules[j] is Spacefarer) ==> rocket_outcome(
            engine,
            fuel,
            oxidizer,
            modules,
        ) == Err::<CalculatorResult, CalculatorError>(CalculatorError::CommandModuleTooMuch),
{
    if forall|i: int| 0 <= i < modules.len() ==> !(#[trigger] modules[i] is Spacefarer) {
        assert forall|i: int| 0 <= i < modules.len() implies tally_of(
            #[trigger] modules[i],
            Tally::CommandModules,
        ) == 0 by {
            assert(!(modules[i] is Spacefarer));
        }
        lemma_tally_all_zero(modules, Tally::CommandModules);
    }
    if exists|i: int, j: int|
        0 <= i < modules.len() && 0 <= j < modules.len() && i != j && #[trigger] modules[i] is Spacefarer
            && #[trigger] modules[j] is Spacefarer {
        let (i, j) = choose|i: int, j: int|
            0 <= i < modules.len() && 0 <= j < modules.len() && i != j && #[trigger] modules[i] is Spacefarer
                && #[trigger] modules[j] is Spacefarer;
        lemma_tally_at_least_two(modules, Tally::CommandModules, i, j);
    }
}

/// With the fuel not negative and exactly one command module (at `k`), a rocket
/// without a nosecone, or with two, is refused for that, whatever its fuel amount,
/// fuel capacity, height or oxidizer.
pub proof fn lemma_nosecone_count_checked_before_the_rest(
    engine: EngineKind,
    fuel: Quantity,
    oxidizer: Option<OxidizerInput>,
    modules: Seq<RocketModule>,
    k: int,
)
    requires
        !fuel.is_below_zero(),
        0 <= k < modules.len(),
        modules[k] is Spacefarer,
        forall|i: int| 0 <= i < modules.len() && i != k ==> !(#[trigger] modules[i] is Spacefarer),
    ensures
        (forall|i: int| 0 <= i < modules.len() ==> !is_cone(#[trigger] modules[i])) ==> rocket_outcome(
            engine,
            fuel,
            oxidizer,
            modules,
        ) == Err::<CalculatorResult, CalculatorError>(CalculatorError::ConeModuleTooLess),
        (exists|i: int, j: int|
            0 <= i < modules.len() && 0 <= j < modules.len() && i != j && is_cone(#[trigger] modules[i])
                && is_cone(#[trigger] modules[j])) ==> rocket_outcome(engine, fuel, oxidizer, modules)
            == Err::<CalculatorResult, CalculatorError>(CalculatorError::ConeModuleTooMuch),
{
    assert forall|i: int| 0 <= i < modules.len() && i != k implies tally_of(
        #[trigger] modules[i],
        Tally::CommandModules,
    ) == 0 by {
        assert(!(modules[i] is Spacefarer));
    }
    lemma_tally_single(modules, Tally::CommandModules, k);
    if forall|i: int| 0 <= i < modules.len() ==> !is_cone(#[trigger] modules[i]) {
        assert forall|i: int| 0 <= i < modules.len() implies tally_of(
            #[trigger] modules[i],
            Tally::Nosecones,
        ) == 0 by {
            assert(!is_cone(modules[i]));
        }
        lemma_tally_all_zero(modules, Tally::Nosecones);
    }
    if exists|i: int, j: int|
        0 <= i < modules.len() && 0 <= j < modules.len() && i != j && is_cone(#[trigger] modules[i])
            && is_cone(#[trigger] modules[j]) {
        let (i, j) = choose|i: int, j: int|
            0 <= i < modules.len() && 0 <= j < modules.len() && i != j && is_cone(#[trigger] modules[i])
                && is_cone(#[trigger] modules[j]);
        lemma_tally_at_least_two(modules, Tally::Nosecones, i, j);
    }
}


/// The kilograms held by the fuel tanks among the modules: each tank's table capacity, added up.
pub open spec fn fuel_tank_kilograms(s: Seq<RocketModule>) -> int
    decreases s.len(),
{
    if s.len() == 0 {
        0
    } else {
        fuel_tank_kilograms(s.drop_last()) + match s.last() {
            RocketModule::FuelTank(tank) => tank.entry().capacity as int,
            _ => 0,
        }
    }
}

/// The kilograms held by the oxidizer tanks among the modules: each tank's table capacity,
/// added up.
pub open spec fn oxidizer_tank_kilograms(s: Seq<RocketModule>) -> int
    decreases s.len(),
{
    if s.len() == 0 {
        0
    } else {
        oxidizer_tank_kilograms(s.drop_last()) + match s.last() {
            RocketModule::OxidizerTank(tank) => tank.entry().capacity as int,
            _ => 0,
        }
    }
}

proof fn lemma_fuel_tally_is_tank_kilograms(s: Seq<RocketModule>)
    ensures
        tally(s, Tally::FuelCapacity) == fuel_tank_kilograms(s),
    decreases s.len(),
{
    if s.len() > 0 {
        lemma_fuel_tally_is_tank_kilograms(s.drop_last());
    }
}

proof fn lemma_oxidizer_tally_is_tank_kilograms(s: Seq<RocketModule>)
    ensures
        tally(s, Tally::OxidizerCapacity) == oxidizer_tank_kilograms(s),
    decreases s.len(),
{
    if s.len() > 0 {
        lemma_oxidizer_tally_is_tank_kilograms(s.drop_last());
    }
}

/// An engine with its own tank is limited by that tank alone, whatever fuel tanks are
/// stacked on it: more fuel than its capacity is never accepted, and fuel within it is
/// never refused as too much.
pub proof fn lemma_own_tank_alone_limits_fuel(
    engine: EngineKind,
    fuel: Quantity,
    oxidizer: Option<OxidizerInput>,
    modules: Seq<RocketModule>,
)
    requires
        engine.entry().fuel_storage is Internal,
    ensures
        fuel.is_above(engine.entry().fuel_storage->capacity as int) ==> !(rocket_outcome(
            engine,
            fuel,
            oxidizer,
            modules,
        ) is Ok),
        !fuel.is_above(engine.entry().fuel_storage->capacity as int) ==> rocket_outcome(
            engine,
            fuel,
            oxidizer,
            modules,
        ) != Err::<CalculatorResult, CalculatorError>(CalculatorError::FuelExceedsCapacity),
{
}

/// An engine fed from fuel tanks is limited by the table capacities of those tanks, added
/// up: more fuel than that is never accepted, and fuel within it is never refused as too much.
pub proof fn lemma_fuel_tanks_limit_fuel(
    engine: EngineKind,
    fuel: Quantity,
    oxidizer: Option<OxidizerInput>,
    modules: Seq<RocketModule>,
)
    requires
        engine.entry().fuel_storage is ExternalTank,
    ensures
        fuel.is_above(fuel_tank_kilograms(modules)) ==> !(rocket_outcome(
            engine,
            fuel,
            oxidizer,
            modules,
        ) is Ok),
        !fuel.is_above(fuel_tank_kilograms(modules)) ==> rocket_outcome(
            engine,
            fuel,
            oxidizer,
            modules,
        ) != Err::<CalculatorResult, CalculatorError>(CalculatorError::FuelExceedsCapacity),
{
    lemma_fuel_tally_is_tank_kilograms(modules);
}

/// For an engine that burns oxidizer, the oxidizer is limited by the table capacities of
/// the oxidizer tanks, added up: more than that is never accepted, and an amount within it
/// is never refused as too much.
pub proof fn lemma_oxidizer_tanks_limit_oxidizer(
    engine: EngineKind,
    fuel: Quantity,
    oxidizer: OxidizerInput,
    modules: Seq<RocketModule>,
)
    requires
        engine.entry().requires_oxidizer,
    ensures
        oxidizer.oxidizer_amount.is_above(oxidizer_tank_kilograms(modules)) ==> !(rocket_outcome(
            engine,
            fuel,
            Some(oxidizer),
            modules,
        ) is Ok),
        !oxidizer.oxidizer_amount.is_above(oxidizer_tank_kilograms(modules)) ==> rocket_outcome(
            engine,
            fuel,
            Some(oxidizer),
            modules,
        ) != Err::<CalculatorResult, CalculatorError>(CalculatorError::OxidizerExceedsCapacity),
{
    lemma_oxidizer_tally_is_tank_kilograms(modules);
}

/// For an engine that burns oxidizer, every oxidizer tank must suit the oxidizer: one tank
/// of the other storage kind (liquid or solid) is enough for the rocket never to be
/// accepted, and when every tank suits, the rocket is never refused as incompatible.
pub proof fn lemma_every_oxidizer_tank_must_suit(
    engine: EngineKind,
    fuel: Quantity,
    oxidizer: OxidizerInput,
    modules: Seq<RocketModule>,
)
    requires
        engine.entry().requires_oxidizer,
    ensures
        (exists|i: int|
            0 <= i < modules.len() && #[trigger] modules[i] is OxidizerTank
                && modules[i]->OxidizerTank_0.entry().storage_kind != oxidizer.oxidizer.storage()) ==> !(rocket_outcome(
            engine,
            fuel,
            Some(oxidizer),
            modules,
        ) is Ok),
        (forall|i: int|
            0 <= i < modules.len() && #[trigger] modules[i] is OxidizerTank
                ==> modules[i]->OxidizerTank_0.entry().storage_kind == oxidizer.oxidizer.storage())
            ==> rocket_outcome(engine, fuel, Some(oxidizer), modules) != Err::<
            CalculatorResult,
            CalculatorError,
        >(CalculatorError::IncompatibleOxidizerTank),
{
    let kind = oxidizer.oxidizer.storage();
    if exists|i: int|
        0 <= i < modules.len() && #[trigger] modules[i] is OxidizerTank
            && modules[i]->OxidizerTank_0.entry().storage_kind != kind {
        let i = choose|i: int|
            0 <= i < modules.len() && #[trigger] modules[i] is OxidizerTank
                && modules[i]->OxidizerTank_0.entry().storage_kind != kind;
        assert(!tanks_hold(modules, kind));
    }
    if forall|i: int|
        0 <= i < modules.len() && #[trigger] modules[i] is OxidizerTank
            ==> modules[i]->OxidizerTank_0.entry().storage_kind == kind {
        assert(tanks_hold(modules, kind));
    }
}


/// Every engine but the steam engine burns oxidizer: a rocket on any other engine is
/// never accepted without oxidizer loaded.
pub proof fn lemma_oxidizer_needed_beyond_steam(
    engine: EngineKind,
    fuel: Quantity,
    modules: Seq<RocketModule>,
)
    requires
        engine != EngineKind::Steam,
    ensures
        !(rocket_outcome(engine, fuel, None, modules) is Ok),
{
}


/// The heights of the modules, each from its kind's table entry, added up.
pub open spec fn module_heights_added(s: Seq<RocketModule>) -> int
    decreases s.len(),
{
    if s.len() == 0 {
        0
    } else {
        module_heights_added(s.drop_last()) + s.last().module_height()
    }
}

/// The burdens of the modules, each from its kind's table entry, added up.
pub open spec fn module_burdens_added(s: Seq<RocketModule>) -> int
    decreases s.len(),
{
    if s.len() == 0 {
        0
    } else {
        module_burdens_added(s.drop_last()) + s.last().module_burden()
    }
}

proof fn lemma_height_and_burden_tallies(s: Seq<RocketModule>)
    ensures
        tally(s, Tally::Height) == module_heights_added(s),
        tally(s, Tally::Burden) == module_burdens_added(s),
    decreases s.len(),
{
    if s.len() > 0 {
        lemma_height_and_burden_tallies(s.drop_last());
    }
}

/// A rocket taller than its engine allows (engine plus every module) is never accepted;
/// an accepted rocket reports as its height and burden those of its engine plus those of
/// every module.
pub proof fn lemma_height_limit_and_totals(
    engine: EngineKind,
    fuel: Quantity,
    oxidizer: Option<OxidizerInput>,
    modules: Seq<RocketModule>,
)
    ensures
        engine.entry().height + module_heights_added(modules) > engine.entry().max_rocket_height
            ==> !(rocket_outcome(engine, fuel, oxidizer, modules) is Ok),
        rocket_outcome(engine, fuel, oxidizer, modules) is Ok ==> {
            let r = rocket_outcome(engine, fuel, oxidizer, modules).unwrap();
            &&& r.total_height == engine.entry().height + module_heights_added(modules)
            &&& r.total_height <= engine.entry().max_rocket_height
            &&& r.total_burden == engine.entry().burden + module_burdens_added(modules)
        },
{
    lemma_height_and_burden_tallies(modules);
    lemma_tally_bounded_by_height(modules, Tally::Burden);
    lemma_tally_bounded_by_height(modules, Tally::Height);
}


/// An amount reads as the number it stands for: a finite amount with floor `f` and
/// ceiling `c` (`f <= c <= f + 1`) is below zero exactly when the real amount is, and above
/// a whole limit exactly when the real amount is; an infinite amount is above every limit
/// or below zero by its sign, and an unordered one neither.
pub proof fn lemma_amount_comparisons(amount: Quantity, limit: int)
    ensures
        amount is Finite && amount->floor <= amount->ceil <= amount->floor + 1 ==> {
            &&& (amount.is_below_zero() <==> amount->floor < 0)
            &&& (amount.is_above(limit) <==> amount->ceil > limit)
            &&& (amount->floor == amount->ceil ==> (amount.is_above(limit) <==> amount->floor > limit))
            &&& (amount->floor < amount->ceil ==> (amount.is_above(limit) <==> amount->floor >= limit))
        },
        amount == Quantity::PositiveInfinity ==> amount.is_above(limit) && !amount.is_below_zero(),
        amount == Quantity::NegativeInfinity ==> !amount.is_above(limit) && amount.is_below_zero(),
        amount == Quantity::NotANumber ==> !amount.is_above(limit) && !amount.is_below_zero(),
{
}

/// For an engine that burns oxidizer, a rocket with no oxidizer loaded, or with a
/// negative amount of it, is never accepted.
pub proof fn lemma_oxidizer_must_be_loaded(
    engine: EngineKind,
    fuel: Quantity,
    oxidizer: Option<OxidizerInput>,
    modules: Seq<RocketModule>,
)
    requires
        engine.entry().requires_oxidizer,
    ensures
        oxidizer is None ==> !(rocket_outcome(engine, fuel, oxidizer, modules) is Ok),
        oxidizer is Some && oxidizer.unwrap().oxidizer_amount.is_below_zero() ==> !(rocket_outcome(
            engine,
            fuel,
            oxidizer,
            modules,
        ) is Ok),
{
}

} // verus!
