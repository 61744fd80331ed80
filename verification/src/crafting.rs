use vstd::prelude::*;
use crate::address::Address;
use crate::config::{calculate_fee, fee_spec, CraftingConfig};
use crate::errors::CraftingError;
use crate::ledger::{batch_failure, batch_fits, debited, Ingredient, MaterialLedger};
use crate::outcome::{
    crafting_success_spec, determine_crafting_success, determine_interesting_failure,
    determine_result_rarity, interesting_failure_spec, result_critical_spec, result_rarity_spec,
    result_type_spec, select_result_type, total_weight_spec,
};
use crate::progression::{after_failure, after_success, failure_fits, success_fits, CrafterStats};
use crate::recipe::{Recipe, RecipeView};
use crate::success::{calculate_success_rate, effective_rate, SuccessFactors};

verus! {

/// Where an attempt stands. An attempt is created, then its materials are
/// verified, then consumed, and then it completes or fails; an attempt whose
/// materials have not been consumed can be cancelled instead.
#[derive(Clone, Copy, Debug, PartialEq, Eq, Structural)]
pub enum CraftingStatus {
    Created,
    MaterialsVerified,
    MaterialsConsumed,
    Completed,
    Failed,
    Cancelled,
}

impl CraftingStatus {
    /// Whether nothing can follow the status.
    pub open spec fn is_terminal(self) -> bool {
        self == CraftingStatus::Completed || self == CraftingStatus::Failed || self
            == CraftingStatus::Cancelled
    }

    /// How far along the status is: 0 for a new attempt, 3 for a finished one.
    pub open spec fn rank(self) -> int {
        match self {
            CraftingStatus::Created => 0,
            CraftingStatus::MaterialsVerified => 1,
            CraftingStatus::MaterialsConsumed => 2,
            CraftingStatus::Completed => 3,
            CraftingStatus::Failed => 3,
            CraftingStatus::Cancelled => 3,
        }
    }

    /// Whether nothing can follow the status.
    pub fn terminal(&self) -> (terminal: bool)
        ensures
            terminal == self.is_terminal(),
    {
        match self {
            CraftingStatus::Completed => true,
            CraftingStatus::Failed => true,
            CraftingStatus::Cancelled => true,
            _ => false,
        }
    }
}

/// A material that a crafter supplies for an attempt.
#[derive(Clone, Copy, Debug, PartialEq, Eq)]
pub struct MaterialInput {
    pub material_mint: Address,
    pub amount: u64,
}

/// What comes from outside into the resolution of an attempt.
#[derive(Clone, Copy, Debug, PartialEq, Eq)]
pub struct CraftEnvironment {
    /// Entropy from outside, such as a recent block hash.
    pub recent_blockhash: Address,
    /// The time of the resolution.
    pub timestamp: i64,
    /// Bonus from the attributes of the materials.
    pub material_bonus: u8,
    /// Boost from the crafter's guild, if any.
    pub guild_boost: Option<u8>,
    /// Bonus for the time of day.
    pub time_of_day_bonus: u8,
    /// Whether a seasonal event is running.
    pub is_seasonal_event: bool,
}

/// The bonus that materials without attributes of their own bring.
pub const STANDARD_MATERIAL_BONUS: u8 = 5;

/// The bonus for the time of day where the hour makes no difference.
pub const STANDARD_TIME_OF_DAY_BONUS: u8 = 2;

/// The bonus from the attributes of the supplied materials.
pub fn get_material_bonus(material_instances: &Vec<MaterialInput>) -> (bonus: u8)
    ensures
        bonus == STANDARD_MATERIAL_BONUS,
{
    STANDARD_MATERIAL_BONUS
}

/// The bonus for the time of day.
pub fn get_time_of_day_bonus() -> (bonus: u8)
    ensures
        bonus == STANDARD_TIME_OF_DAY_BONUS,
{
    STANDARD_TIME_OF_DAY_BONUS
}

/// What is to be minted for a completed attempt.
#[derive(Clone, Copy, Debug, PartialEq, Eq)]
pub struct MintRequest {
    pub owner: Address,
    pub kind: Address,
    pub rarity: u8,
}

/// The record of one attempt, from its start to its outcome.
#[derive(Clone, Debug, PartialEq, Eq)]
pub struct CraftingRecord {
    pub crafter: Address,
    /// Identifier of the recipe.
    pub recipe: u64,
    pub start_time: i64,
    /// When the attempt reached a terminal status.
    pub completion_time: Option<i64>,
    pub status: CraftingStatus,
    pub materials_verified: bool,
    pub materials_consumed: bool,
    /// The materials that the crafter supplied.
    pub input_materials: Vec<MaterialInput>,
    /// The rate that decided the success roll.
    pub calculated_success_rate: u8,
    pub success: bool,
    /// The kind of the result of a success.
    pub result_type: Option<Address>,
    /// The rarity tier of the result of a success, 1 to 5; 0 without one.
    pub result_rarity: u8,
    pub is_critical_success: bool,
    pub is_interesting_failure: bool,
    /// The crafter's guild at the time of the resolution.
    pub guild: Option<Address>,
}

/// The mathematical value of a record.
pub struct CraftingRecordView {
    pub crafter: Address,
    pub recipe: u64,
    pub start_time: i64,
    pub completion_time: Option<i64>,
    pub status: CraftingStatus,
    pub materials_verified: bool,
    pub materials_consumed: bool,
    pub input_materials: Seq<MaterialInput>,
    pub calculated_success_rate: u8,
    pub success: bool,
    pub result_type: Option<Address>,
    pub result_rarity: u8,
    pub is_critical_success: bool,
    pub is_interesting_failure: bool,
    pub guild: Option<Address>,
}

impl View for CraftingRecord {
    type V = CraftingRecordView;

    open spec fn view(&self) -> CraftingRecordView {
        CraftingRecordView {
            crafter: self.crafter,
            recipe: self.recipe,
            start_time: self.start_time,
            completion_time: self.completion_time,
            status: self.status,
            materials_verified: self.materials_verified,
            materials_consumed: self.materials_consumed,
            input_materials: self.input_materials@,
            calculated_success_rate: self.calculated_success_rate,
            success: self.success,
            result_type: self.result_type,
            result_rarity: self.result_rarity,
            is_critical_success: self.is_critical_success,
            is_interesting_failure: self.is_interesting_failure,
            guild: self.guild,
        }
    }
}

impl CraftingRecordView {
    /// Whether the record is sound: its flags agree with its status (a
    /// cancelled record keeps the mark of a verification), it has a
    /// completion time exactly when it is terminal, it has a result exactly
    /// when it completed, and its rate is no higher than 95.
    pub open spec fn well_formed(self) -> bool {
        &&& self.status == CraftingStatus::Created ==> !self.materials_verified
        &&& self.status == CraftingStatus::MaterialsVerified ==> self.materials_verified
        &&& self.materials_consumed ==> self.materials_verified
        &&& self.materials_consumed == (self.status == CraftingStatus::MaterialsConsumed
            || self.status == CraftingStatus::Completed || self.status == CraftingStatus::Failed)
        &&& (self.completion_time is Some) == self.status.is_terminal()
        &&& self.success == (self.status == CraftingStatus::Completed)
        &&& (self.result_type is Some) == self.success
        &&& if self.success {
            1 <= self.result_rarity <= 5
        } else {
            self.result_rarity == 0
        }
        &&& self.is_critical_success ==> self.success && self.result_rarity >= 3
        &&& self.is_interesting_failure ==> self.status == CraftingStatus::Failed
        &&& self.calculated_success_rate <= 95
    }
}

/// Why an attempt cannot be started, if it cannot: the first of these that
/// holds. Crafting is paused; the recipe is not approved; the recipe is
/// disabled; the number of supplied materials differs from the number
/// required; the payment is below the fee.
pub open spec fn start_error(
    config: CraftingConfig,
    recipe: RecipeView,
    supplied: Seq<MaterialInput>,
    payment_amount: u64,
) -> Option<CraftingError> {
    if config.paused {
        Some(CraftingError::CraftingPaused)
    } else if !recipe.approved {
        Some(CraftingError::RecipeNotApproved)
    } else if recipe.disabled {
        Some(CraftingError::RecipeDisabled)
    } else if supplied.len() != recipe.ingredients.len() {
        Some(CraftingError::MaterialMismatch)
    } else if payment_amount < fee_spec(recipe.difficulty, config.fee_percentage) {
        Some(CraftingError::InsufficientFee)
    } else {
        None
    }
}

/// The record of an attempt that has just been started.
pub open spec fn started_record(
    recipe: RecipeView,
    crafter: Address,
    supplied: Seq<MaterialInput>,
    now: i64,
) -> CraftingRecordView {
    CraftingRecordView {
        crafter,
        recipe: recipe.recipe_id,
        start_time: now,
        completion_time: None,
        status: CraftingStatus::Created,
        materials_verified: false,
        materials_consumed: false,
        input_materials: supplied,
        calculated_success_rate: 0,
        success: false,
        result_type: None,
        result_rarity: 0,
        is_critical_success: false,
        is_interesting_failure: false,
        guild: None,
    }
}

/// Starts an attempt at a recipe. The fee that the caller must have paid is
/// `calculate_fee` of the recipe's difficulty and the configured percentage.
pub fn start_crafting(
    config: &CraftingConfig,
    recipe: &Recipe,
    crafter: Address,
    supplied: Vec<MaterialInput>,
    payment_amount: u64,
    now: i64,
) -> (result: Result<CraftingRecord, CraftingError>)
    ensures
        (match start_error(*config, recipe@, supplied@, payment_amount) {
            Some(e) => result == Err::<CraftingRecord, CraftingError>(e),
            None => result is Ok && result->Ok_0@ == started_record(recipe@, crafter, supplied@, now),
        }),
{
    if config.paused {
        return Err(CraftingError::CraftingPaused);
    }
    if !recipe.approved {
        return Err(CraftingError::RecipeNotApproved);
    }
    if recipe.disabled {
        return Err(CraftingError::RecipeDisabled);
    }
    if supplied.len() != recipe.ingredients.len() {
        return Err(CraftingError::MaterialMismatch);
    }
    if payment_amount < calculate_fee(recipe.difficulty, config.fee_percentage) {
        return Err(CraftingError::InsufficientFee);
    }
    Ok(
        CraftingRecord {
            crafter,
            recipe: recipe.recipe_id,
            start_time: now,
            completion_time: None,
            status: CraftingStatus::Created,
            materials_verified: false,
            materials_consumed: false,
            input_materials: supplied,
            calculated_success_rate: 0,
            success: false,
            result_type: None,
            result_rarity: 0,
            is_critical_success: false,
            is_interesting_failure: false,
            guild: None,
        },
    )
}

/// Whether a kind of material is among those supplied.
pub open spec fn supplies(supplied: Seq<MaterialInput>, kind: Address) -> bool {
    exists|i: int| 0 <= i < supplied.len() && (#[trigger] supplied[i]).material_mint == kind
}

/// Why a requirement is not met, if it is not: no supplied entry names its
/// kind, or the crafter owns less of the kind than is required.
pub open spec fn requirement_error(
    supplied: Seq<MaterialInput>,
    balance: spec_fn(Address) -> nat,
    wanted: Ingredient,
) -> Option<CraftingError> {
    if !supplies(supplied, wanted.material_mint) {
        Some(CraftingError::MissingMaterials { kind: wanted.material_mint })
    } else if balance(wanted.material_mint) < wanted.quantity {
        Some(
            CraftingError::InsufficientMaterialBalance {
                kind: wanted.material_mint,
                required: wanted.quantity,
                available: balance(wanted.material_mint) as u64,
            },
        )
    } else {
        None
    }
}

/// The error of the first requirement, from position `from` on, that is not met.
pub open spec fn requirements_error(
    supplied: Seq<MaterialInput>,
    balance: spec_fn(Address) -> nat,
    required: Seq<Ingredient>,
    from: int,
) -> Option<CraftingError>
    decreases required.len() - from,
{
    if from < 0 || from >= required.len() {
        None
    } else {
        match requirement_error(supplied, balance, required[from]) {
            Some(e) => Some(e),
            None => requirements_error(supplied, balance, required, from + 1),
        }
    }
}

/// Why the materials of an attempt cannot be verified, if they cannot: the
/// record is past verification, it belongs to another recipe, or a
/// requirement of the recipe is not met.
pub open spec fn verify_error(
    record: CraftingRecordView,
    recipe: RecipeView,
    balance: spec_fn(Address) -> nat,
) -> Option<CraftingError> {
    if record.status != CraftingStatus::Created && record.status != CraftingStatus::MaterialsVerified {
        Some(CraftingError::InvalidCraftingStatus)
    } else if record.recipe != recipe.recipe_id {
        Some(CraftingError::InvalidRecipe)
    } else {
        requirements_error(record.input_materials, balance, recipe.ingredients, 0)
    }
}

/// The record after its materials have been verified.
pub open spec fn verified_record(record: CraftingRecordView) -> CraftingRecordView {
    CraftingRecordView {
        status: CraftingStatus::MaterialsVerified,
        materials_verified: true,
        ..record
    }
}

/// Whether a step on a record went as expected: without an error the
/// record has the expected value, with one the error is returned
/// and the record is unchanged.
pub open spec fn record_step(
    before: CraftingRecordView,
    after: CraftingRecordView,
    error: Option<CraftingError>,
    expected: CraftingRecordView,
    result: Result<(), CraftingError>,
) -> bool {
    match error {
        None => result is Ok && after == expected,
        Some(e) => result == Err::<(), CraftingError>(e) && after == before,
    }
}

/// Whether a kind of material is among those supplied.
pub fn is_supplied(supplied: &Vec<MaterialInput>, kind: &Address) -> (found: bool)
    ensures
        found == supplies(supplied@, *kind),
{
    let mut i: usize = 0;
    while i < supplied.len()
        invariant
            i <= supplied.len(),
            forall|j: int| 0 <= j < i ==> (#[trigger] supplied@[j]).material_mint != *kind,
        decreases supplied.len() - i,
    {
        if supplied[i].material_mint.same(kind) {
            assert(supplied@[i as int].material_mint == *kind);
            return true;
        }
        i += 1;
    }
    false
}

/// Verifies that the crafter supplies and owns what the recipe requires.
/// The ledger is only read: verifying reserves nothing, and verifying again
/// changes nothing.
pub fn verify_materials(record: &mut CraftingRecord, recipe: &Recipe, ledger: &MaterialLedger) -> (result:
    Result<(), CraftingError>)
    requires
        ledger.well_formed(),
    ensures
        record_step(
            old(record)@,
            final(record)@,
            verify_error(old(record)@, recipe@, ledger.balances_of(old(record).crafter)),
            verified_record(old(record)@),
            result,
        ),
{
    match record.status {
        CraftingStatus::Created => {},
        CraftingStatus::MaterialsVerified => {},
        _ => {
            return Err(CraftingError::InvalidCraftingStatus);
        },
    }
    if record.recipe != recipe.recipe_id {
        return Err(CraftingError::InvalidRecipe);
    }
    let ghost balance = ledger.balances_of(record.crafter);
    let mut j: usize = 0;
    while j < recipe.ingredients.len()
        invariant
            j <= recipe.ingredients.len(),
            ledger.well_formed(),
            balance == ledger.balances_of(record.crafter),
            *record == *old(record),
            record.status == CraftingStatus::Created || record.status
                == CraftingStatus::MaterialsVerified,
            record.recipe == recipe.recipe_id,
            requirements_error(record.input_materials@, balance, recipe.ingredients@, 0)
                == requirements_error(record.input_materials@, balance, recipe.ingredients@, j as int),
        decreases recipe.ingredients.len() - j,
    {
        let wanted = recipe.ingredients[j];
        if !is_supplied(&record.input_materials, &wanted.material_mint) {
            return Err(CraftingError::MissingMaterials { kind: wanted.material_mint });
        }
        let held = ledger.balance(&record.crafter, &wanted.material_mint);
        if held < wanted.quantity {
            return Err(
                CraftingError::InsufficientMaterialBalance {
                    kind: wanted.material_mint,
                    required: wanted.quantity,
                    available: held,
                },
            );
        }
        j += 1;
    }
    record.status = CraftingStatus::MaterialsVerified;
    record.materials_verified = true;
    Ok(())
}

/// Why the materials of an attempt cannot be consumed, whatever the crafter
/// owns: they are not verified yet, the record is past consumption, or it
/// belongs to another recipe.
pub open spec fn consume_status_error(record: CraftingRecordView, recipe: RecipeView) -> Option<
    CraftingError,
> {
    if record.status == CraftingStatus::Created {
        Some(CraftingError::MaterialsNotVerified)
    } else if record.status != CraftingStatus::MaterialsVerified {
        Some(CraftingError::InvalidCraftingStatus)
    } else if record.recipe != recipe.recipe_id {
        Some(CraftingError::InvalidRecipe)
    } else {
        None
    }
}

/// Why the materials of an attempt cannot be consumed, if they cannot: the
/// record does not allow it, or one of the debits, made in the order of the
/// recipe, finds too little.
pub open spec fn consume_error(
    record: CraftingRecordView,
    recipe: RecipeView,
    balance: spec_fn(Address) -> nat,
) -> Option<CraftingError> {
    match consume_status_error(record, recipe) {
        Some(e) => Some(e),
        None => if batch_fits(recipe.ingredients, balance) {
            None
        } else {
            Some(batch_failure(recipe.ingredients, balance))
        },
    }
}

/// The record after its materials have been consumed.
pub open spec fn consumed_record(record: CraftingRecordView) -> CraftingRecordView {
    CraftingRecordView {
        status: CraftingStatus::MaterialsConsumed,
        materials_consumed: true,
        ..record
    }
}

/// Consumes the materials of an attempt: every requirement of the recipe is
/// debited from the crafter, all of them or none. Where a debit finds too
/// little, no balance changes and the record stays as it was.
pub fn consume_materials(record: &mut CraftingRecord, recipe: &Recipe, ledger: &mut MaterialLedger) -> (result:
    Result<(), CraftingError>)
    requires
        old(ledger).well_formed(),
    ensures
        final(ledger).well_formed(),
        record_step(
            old(record)@,
            final(record)@,
            consume_error(old(record)@, recipe@, old(ledger).balances_of(old(record).crafter)),
            consumed_record(old(record)@),
            result,
        ),
        result is Ok ==> debited(old(ledger), final(ledger), old(record).crafter, recipe@.ingredients),
        result is Err ==> final(ledger).same_balances(old(ledger)),
{
    match record.status {
        CraftingStatus::Created => {
            return Err(CraftingError::MaterialsNotVerified);
        },
        CraftingStatus::MaterialsVerified => {},
        _ => {
            return Err(CraftingError::InvalidCraftingStatus);
        },
    }
    if record.recipe != recipe.recipe_id {
        return Err(CraftingError::InvalidRecipe);
    }
    match ledger.debit_batch(record.crafter, &recipe.ingredients) {
        Ok(()) => {},
        Err(e) => {
            return Err(e);
        },
    }
    record.status = CraftingStatus::MaterialsConsumed;
    record.materials_consumed = true;
    Ok(())
}

/// Why an attempt cannot be resolved, whatever the rolls: its materials are
/// not consumed yet, it is resolved or cancelled already, it belongs to
/// another recipe, or the profile is that of another crafter.
pub open spec fn complete_status_error(record: CraftingRecordView, recipe: RecipeView, stats: CrafterStats) -> Option<
    CraftingError,
> {
    if record.status == CraftingStatus::Created || record.status == CraftingStatus::MaterialsVerified {
        Some(CraftingError::MaterialsNotConsumed)
    } else if record.status != CraftingStatus::MaterialsConsumed {
        Some(CraftingError::InvalidCraftingStatus)
    } else if record.recipe != recipe.recipe_id {
        Some(CraftingError::InvalidRecipe)
    } else if stats.crafter != record.crafter {
        Some(CraftingError::UnauthorizedAccess)
    } else {
        None
    }
}

/// The inputs of the success model for an attempt.
pub open spec fn attempt_factors(recipe: RecipeView, stats: CrafterStats, env: CraftEnvironment) -> SuccessFactors {
    SuccessFactors {
        base_rate: recipe.success_rate,
        crafter_level: stats.experience_level,
        crafter_streak: stats.success_streak,
        material_bonus: env.material_bonus,
        guild_boost: env.guild_boost,
        recipe_attempts: recipe.times_crafted,
        time_of_day_bonus: env.time_of_day_bonus,
        is_seasonal_event: env.is_seasonal_event,
    }
}

/// The rate at which an attempt is rolled.
pub open spec fn attempt_rate(recipe: RecipeView, stats: CrafterStats, env: CraftEnvironment) -> u8 {
    effective_rate(attempt_factors(recipe, stats, env)) as u8
}

/// Whether an attempt succeeds.
pub open spec fn attempt_succeeds(recipe: RecipeView, stats: CrafterStats, env: CraftEnvironment) -> bool {
    crafting_success_spec(
        attempt_rate(recipe, stats, env),
        env.recent_blockhash@,
        stats.crafter@,
        env.timestamp,
    )
}

/// Whether a successful attempt is a critical success.
pub open spec fn attempt_critical(stats: CrafterStats, env: CraftEnvironment) -> bool {
    result_critical_spec(env.recent_blockhash@, stats.crafter@, env.timestamp, stats.experience_level)
}

/// Whether the profile can take the outcome of the attempt without a
/// counter leaving its domain.
pub open spec fn outcome_fits(recipe: RecipeView, stats: CrafterStats, env: CraftEnvironment) -> bool {
    if attempt_succeeds(recipe, stats, env) {
        success_fits(stats, recipe.difficulty, attempt_critical(stats, env))
    } else {
        failure_fits(stats, recipe.difficulty)
    }
}

/// The record of a resolved attempt. A success has a kind of result, a
/// rarity tier, and perhaps the mark of a critical success, and the record is
/// completed; a failure has perhaps the mark of an interesting failure, and
/// the record is failed. The rolls for success, for rarity and for the
/// interesting failure are drawn from streams of different salts.
pub open spec fn resolved_record(
    record: CraftingRecordView,
    recipe: RecipeView,
    stats: CrafterStats,
    env: CraftEnvironment,
) -> CraftingRecordView {
    if attempt_succeeds(recipe, stats, env) {
        CraftingRecordView {
            status: CraftingStatus::Completed,
            completion_time: Some(env.timestamp),
            calculated_success_rate: attempt_rate(recipe, stats, env),
            success: true,
            result_type: Some(
                result_type_spec(
                    recipe.results,
                    env.recent_blockhash@,
                    env.timestamp,
                    stats.experience_level,
                ),
            ),
            result_rarity: result_rarity_spec(
                env.recent_blockhash@,
                stats.crafter@,
                env.timestamp,
                stats.experience_level,
                recipe.difficulty,
            ) as u8,
            is_critical_success: attempt_critical(stats, env),
            is_interesting_failure: false,
            guild: stats.guild,
            ..record
        }
    } else {
        CraftingRecordView {
            status: CraftingStatus::Failed,
            completion_time: Some(env.timestamp),
            calculated_success_rate: attempt_rate(recipe, stats, env),
            success: false,
            result_type: None,
            result_rarity: 0,
            is_critical_success: false,
            is_interesting_failure: interesting_failure_spec(
                env.recent_blockhash@,
                stats.crafter@,
                env.timestamp,
                recipe.difficulty,
            ),
            guild: stats.guild,
            ..record
        }
    }
}

/// The profile of the crafter after the attempt is resolved.
pub open spec fn resolved_stats(recipe: RecipeView, stats: CrafterStats, env: CraftEnvironment) -> CrafterStats {
    if attempt_succeeds(recipe, stats, env) {
        after_success(stats, recipe.difficulty, attempt_critical(stats, env))
    } else {
        after_failure(stats, recipe.difficulty)
    }
}

/// Why an attempt cannot be resolved, if it cannot: the record or the
/// profile does not allow it, or a counter of the profile would overflow.
pub open spec fn complete_error(
    record: CraftingRecordView,
    recipe: RecipeView,
    stats: CrafterStats,
    env: CraftEnvironment,
) -> Option<CraftingError> {
    match complete_status_error(record, recipe, stats) {
        Some(e) => Some(e),
        None => if outcome_fits(recipe, stats, env) {
            None
        } else {
            Some(CraftingError::ArithmeticOverflow)
        },
    }
}

/// Resolves an attempt whose record and profile allow it: rolls the
/// success and what follows from it, and brings record and profile up to
/// date, both or neither. The phased and the atomic path share this function.
fn resolve(record: &mut CraftingRecord, recipe: &Recipe, stats: &mut CrafterStats, env: &CraftEnvironment) -> (result:
    Result<(), CraftingError>)
    requires
        total_weight_spec(recipe@.results) > 0,
        old(stats).crafter == old(record).crafter,
    ensures
        outcome_fits(recipe@, *old(stats), *env) ==> result is Ok && final(record)@
            == resolved_record(old(record)@, recipe@, *old(stats), *env) && *final(stats)
            == resolved_stats(recipe@, *old(stats), *env),
        !outcome_fits(recipe@, *old(stats), *env) ==> result == Err::<(), CraftingError>(
            CraftingError::ArithmeticOverflow,
        ) && final(record)@ == old(record)@ && *final(stats) == *old(stats),
{
    let factors = SuccessFactors {
        base_rate: recipe.success_rate,
        crafter_level: stats.experience_level,
        crafter_streak: stats.success_streak,
        material_bonus: env.material_bonus,
        guild_boost: env.guild_boost,
        recipe_attempts: recipe.times_crafted,
        time_of_day_bonus: env.time_of_day_bonus,
        is_seasonal_event: env.is_seasonal_event,
    };
    let rate = calculate_success_rate(factors);
    let level = stats.experience_level;
    let guild = stats.guild;
    let success = determine_crafting_success(rate, env.recent_blockhash, stats.crafter, env.timestamp);
    if success {
        let kind = select_result_type(&recipe.results, env.recent_blockhash, env.timestamp, level);
        let (rarity, critical) = determine_result_rarity(
            env.recent_blockhash,
            stats.crafter,
            env.timestamp,
            level,
            recipe.difficulty,
        );
        match stats.record_success(recipe.difficulty, critical) {
            Ok(()) => {},
            Err(e) => {
                return Err(e);
            },
        }
        record.status = CraftingStatus::Completed;
        record.completion_time = Some(env.timestamp);
        record.calculated_success_rate = rate;
        record.success = true;
        record.result_type = Some(kind);
        record.result_rarity = rarity;
        record.is_critical_success = critical;
        record.is_interesting_failure = false;
        record.guild = guild;
    } else {
        let interesting = determine_interesting_failure(
            env.recent_blockhash,
            stats.crafter,
            env.timestamp,
            recipe.difficulty,
        );
        match stats.record_failure(recipe.difficulty) {
            Ok(()) => {},
            Err(e) => {
                return Err(e);
            },
        }
        record.status = CraftingStatus::Failed;
        record.completion_time = Some(env.timestamp);
        record.calculated_success_rate = rate;
        record.success = false;
        record.result_type = None;
        record.result_rarity = 0;
        record.is_critical_success = false;
        record.is_interesting_failure = interesting;
        record.guild = guild;
    }
    Ok(())
}

/// Resolves an attempt whose materials have been consumed. The record ends
/// completed or failed, and the crafter's profile takes the outcome. Where a
/// counter of the profile would overflow, neither changes.
pub fn complete_crafting(
    record: &mut CraftingRecord,
    recipe: &Recipe,
    stats: &mut CrafterStats,
    env: &CraftEnvironment,
) -> (result: Result<(), CraftingError>)
    requires
        total_weight_spec(recipe@.results) > 0,
    ensures
        record_step(
            old(record)@,
            final(record)@,
            complete_error(old(record)@, recipe@, *old(stats), *env),
            resolved_record(old(record)@, recipe@, *old(stats), *env),
            result,
        ),
        result is Ok ==> *final(stats) == resolved_stats(recipe@, *old(stats), *env),
        result is Err ==> *final(stats) == *old(stats),
{
    match record.status {
        CraftingStatus::Created => {
            return Err(CraftingError::MaterialsNotConsumed);
        },
        CraftingStatus::MaterialsVerified => {
            return Err(CraftingError::MaterialsNotConsumed);
        },
        CraftingStatus::MaterialsConsumed => {},
        _ => {
            return Err(CraftingError::InvalidCraftingStatus);
        },
    }
    if record.recipe != recipe.recipe_id {
        return Err(CraftingError::InvalidRecipe);
    }
    if !stats.crafter.same(&record.crafter) {
        return Err(CraftingError::UnauthorizedAccess);
    }
    resolve(record, recipe, stats, env)
}

/// Why an attempt cannot be made in one step, if it cannot: the error of
/// the first of the four steps (start, verify, consume, complete) that
/// fails, each step being handed what the one before it made.
pub open spec fn craft_error(
    config: CraftingConfig,
    recipe: RecipeView,
    stats: CrafterStats,
    balance: spec_fn(Address) -> nat,
    supplied: Seq<MaterialInput>,
    payment_amount: u64,
    env: CraftEnvironment,
) -> Option<CraftingError> {
    let started = started_record(recipe, stats.crafter, supplied, env.timestamp);
    let verified = verified_record(started);
    let consumed = consumed_record(verified);
    if start_error(config, recipe, supplied, payment_amount) is Some {
        start_error(config, recipe, supplied, payment_amount)
    } else if verify_error(started, recipe, balance) is Some {
        verify_error(started, recipe, balance)
    } else if consume_error(verified, recipe, balance) is Some {
        consume_error(verified, recipe, balance)
    } else {
        complete_error(consumed, recipe, stats, env)
    }
}

/// The record of an attempt made in one step: what the four steps make,
/// one after the other, of a record started at the time of the resolution.
pub open spec fn crafted_record(
    recipe: RecipeView,
    stats: CrafterStats,
    supplied: Seq<MaterialInput>,
    env: CraftEnvironment,
) -> CraftingRecordView {
    resolved_record(
        consumed_record(
            verified_record(started_record(recipe, stats.crafter, supplied, env.timestamp)),
        ),
        recipe,
        stats,
        env,
    )
}

/// Makes an attempt in one step: starts it, verifies and consumes the
/// materials, and resolves it, exactly as the four steps would. Where any
/// step fails, no balance and no profile changes.
pub fn craft(
    config: &CraftingConfig,
    recipe: &Recipe,
    stats: &mut CrafterStats,
    ledger: &mut MaterialLedger,
    supplied: Vec<MaterialInput>,
    payment_amount: u64,
    env: &CraftEnvironment,
) -> (result: Result<CraftingRecord, CraftingError>)
    requires
        total_weight_spec(recipe@.results) > 0,
        old(ledger).well_formed(),
    ensures
        final(ledger).well_formed(),
        (match craft_error(
            *config,
            recipe@,
            *old(stats),
            old(ledger).balances_of(old(stats).crafter),
            supplied@,
            payment_amount,
            *env,
        ) {
            Some(e) => result == Err::<CraftingRecord, CraftingError>(e) && *final(stats) == *old(
                stats,
            ) && final(ledger).same_balances(old(ledger)),
            None => result is Ok && result->Ok_0@ == crafted_record(
                recipe@,
                *old(stats),
                supplied@,
                *env,
            ) && *final(stats) == resolved_stats(recipe@, *old(stats), *env) && debited(
                old(ledger),
                final(ledger),
                old(stats).crafter,
                recipe@.ingredients,
            ),
        }),
{
    let crafter = stats.crafter;
    let ghost balance = ledger.balances_of(crafter);
    let mut record = match start_crafting(config, recipe, crafter, supplied, payment_amount, env.timestamp) {
        Ok(r) => r,
        Err(e) => {
            return Err(e);
        },
    };
    match verify_materials(&mut record, recipe, ledger) {
        Ok(()) => {},
        Err(e) => {
            return Err(e);
        },
    }
    let mut working = ledger.duplicate();
    assert(working.balances_of(crafter) =~= balance);
    match consume_materials(&mut record, recipe, &mut working) {
        Ok(()) => {},
        Err(e) => {
            return Err(e);
        },
    }
    let mut outcome = *stats;
    match complete_crafting(&mut record, recipe, &mut outcome, env) {
        Ok(()) => {},
        Err(e) => {
            return Err(e);
        },
    }
    *ledger = working;
    *stats = outcome;
    Ok(record)
}

/// How long an attempt has been waiting at a given time.
pub open spec fn waited(record: CraftingRecordView, now: i64) -> int {
    now - record.start_time
}

/// Why an attempt cannot be cancelled, if it cannot: its materials have
/// been consumed or it is terminal already, or it has not waited for the
/// timeout yet.
pub open spec fn cancel_error(record: CraftingRecordView, now: i64, timeout: i64) -> Option<CraftingError> {
    if record.status != CraftingStatus::Created && record.status != CraftingStatus::MaterialsVerified {
        Some(CraftingError::InvalidCraftingStatus)
    } else if waited(record, now) < timeout {
        Some(CraftingError::CancelTooEarly)
    } else {
        None
    }
}

/// The record after it has been cancelled.
pub open spec fn cancelled_record(record: CraftingRecordView, now: i64) -> CraftingRecordView {
    CraftingRecordView { status: CraftingStatus::Cancelled, completion_time: Some(now), ..record }
}

/// Cancels an attempt that has waited for the timeout without its
/// materials being consumed. Nothing is released: nothing was taken.
pub fn cancel_crafting(record: &mut CraftingRecord, now: i64, timeout: i64) -> (result: Result<
    (),
    CraftingError,
>)
    ensures
        record_step(
            old(record)@,
            final(record)@,
            cancel_error(old(record)@, now, timeout),
            cancelled_record(old(record)@, now),
            result,
        ),
{
    match record.status {
        CraftingStatus::Created => {},
        CraftingStatus::MaterialsVerified => {},
        _ => {
            return Err(CraftingError::InvalidCraftingStatus);
        },
    }
    let waited_for: i128 = now as i128 - record.start_time as i128;
    if waited_for < timeout as i128 {
        return Err(CraftingError::CancelTooEarly);
    }
    record.status = CraftingStatus::Cancelled;
    record.completion_time = Some(now);
    Ok(())
}

impl CraftingRecord {
    /// What is to be minted for the attempt: the result of a completed
    /// attempt for its crafter, nothing for any other.
    pub fn mint_request(&self) -> (request: Option<MintRequest>)
        ensures
            request == (if self@.status == CraftingStatus::Completed && self@.result_type is Some {
                Some(
                    MintRequest {
                        owner: self@.crafter,
                        kind: self@.result_type->Some_0,
                        rarity: self@.result_rarity,
                    },
                )
            } else {
                None::<MintRequest>
            }),
    {
        match self.status {
            CraftingStatus::Completed => match self.result_type {
                Some(kind) => Some(
                    MintRequest { owner: self.crafter, kind, rarity: self.result_rarity },
                ),
                None => None,
            },
            _ => None,
        }
    }
}

/// Verifying twice is verifying once: where a verification succeeds, a
/// second one with the same balances succeeds too and leaves the record as
/// the first one made it.
pub proof fn lemma_verify_idempotent(
    record: CraftingRecordView,
    recipe: RecipeView,
    balance: spec_fn(Address) -> nat,
)
    requires
        verify_error(record, recipe, balance) is None,
    ensures
        verify_error(verified_record(record), recipe, balance) is None,
        verified_record(verified_record(record)) == verified_record(record),
{
}

/// Consuming twice fails: after a consumption, or in any later status, a
/// consumption is refused with an error of the class of state errors,
/// whatever the crafter owns.
pub proof fn lemma_consume_once(record: CraftingRecordView, recipe: RecipeView, balance: spec_fn(Address) -> nat)
    ensures
        consume_error(consumed_record(record), recipe, balance) == Some(
            CraftingError::InvalidCraftingStatus,
        ),
        record.status.rank() >= 2 ==> consume_error(record, recipe, balance) == Some(
            CraftingError::InvalidCraftingStatus,
        ),
        CraftingError::InvalidCraftingStatus.kind_spec() == crate::errors::ErrorKind::State,
{
}

/// A terminal record is final: every step on it is refused, so that no
/// record is resolved twice and no profile takes an outcome twice.
pub proof fn lemma_terminal_is_final(
    record: CraftingRecordView,
    recipe: RecipeView,
    stats: CrafterStats,
    balance: spec_fn(Address) -> nat,
    env: CraftEnvironment,
    now: i64,
    timeout: i64,
)
    requires
        record.status.is_terminal(),
    ensures
        verify_error(record, recipe, balance) is Some,
        consume_error(record, recipe, balance) is Some,
        complete_error(record, recipe, stats, env) is Some,
        cancel_error(record, now, timeout) is Some,
{
}

/// No step goes back and none skips a phase: verifying keeps or reaches the
/// second status, consuming moves from the second to the third, resolving
/// and cancelling end in a terminal one.
pub proof fn lemma_status_advances(
    record: CraftingRecordView,
    recipe: RecipeView,
    stats: CrafterStats,
    balance: spec_fn(Address) -> nat,
    env: CraftEnvironment,
    now: i64,
    timeout: i64,
)
    ensures
        verify_error(record, recipe, balance) is None ==> record.status.rank() <= 1
            && verified_record(record).status.rank() == 1,
        consume_error(record, recipe, balance) is None ==> record.status.rank() == 1
            && consumed_record(record).status.rank() == 2,
        complete_error(record, recipe, stats, env) is None ==> record.status.rank() == 2
            && resolved_record(record, recipe, stats, env).status.is_terminal(),
        cancel_error(record, now, timeout) is None ==> record.status.rank() <= 1
            && cancelled_record(record, now).status.is_terminal(),
{
}

/// Every step keeps a sound record sound, and a new record is sound.
pub proof fn lemma_steps_keep_records_sound(
    record: CraftingRecordView,
    recipe: RecipeView,
    stats: CrafterStats,
    balance: spec_fn(Address) -> nat,
    env: CraftEnvironment,
    now: i64,
    timeout: i64,
)
    requires
        record.well_formed(),
    ensures
        started_record(recipe, stats.crafter, record.input_materials, now).well_formed(),
        verify_error(record, recipe, balance) is None ==> verified_record(record).well_formed(),
        consume_error(record, recipe, balance) is None ==> consumed_record(record).well_formed(),
        complete_error(record, recipe, stats, env) is None ==> resolved_record(
            record,
            recipe,
            stats,
            env,
        ).well_formed(),
        cancel_error(record, now, timeout) is None ==> cancelled_record(record, now).well_formed(),
{
}

/// The rate of every attempt lies between 0 and 95, and between the
/// recipe's base rate and 95 where the base rate is no higher than 95.
pub proof fn lemma_attempt_rate_bounds(recipe: RecipeView, stats: CrafterStats, env: CraftEnvironment)
    ensures
        attempt_rate(recipe, stats, env) <= 95,
        recipe.success_rate <= 95 ==> recipe.success_rate <= attempt_rate(recipe, stats, env),
{
}

/// The two paths agree: where the four steps succeed one after the other
/// on a record started at the time of the resolution, the attempt in one
/// step succeeds with the same record and the same profile; where one of
/// them fails, the attempt in one step fails with the same error.
pub proof fn lemma_paths_agree(
    config: CraftingConfig,
    recipe: RecipeView,
    stats: CrafterStats,
    balance: spec_fn(Address) -> nat,
    supplied: Seq<MaterialInput>,
    payment_amount: u64,
    env: CraftEnvironment,
)
    ensures
        ({
            let started = started_record(recipe, stats.crafter, supplied, env.timestamp);
            let verified = verified_record(started);
            let consumed = consumed_record(verified);
            let atomic = craft_error(config, recipe, stats, balance, supplied, payment_amount, env);
            &&& start_error(config, recipe, supplied, payment_amount) is Some ==> atomic
                == start_error(config, recipe, supplied, payment_amount)
            &&& start_error(config, recipe, supplied, payment_amount) is None && verify_error(
                started,
                recipe,
                balance,
            ) is Some ==> atomic == verify_error(started, recipe, balance)
            &&& start_error(config, recipe, supplied, payment_amount) is None && verify_error(
                started,
                recipe,
                balance,
            ) is None && consume_error(verified, recipe, balance) is Some ==> atomic
                == consume_error(verified, recipe, balance)
            &&& start_error(config, recipe, supplied, payment_amount) is None && verify_error(
                started,
                recipe,
                balance,
            ) is None && consume_error(verified, recipe, balance) is None ==> atomic
                == complete_error(consumed, recipe, stats, env) && crafted_record(
                recipe,
                stats,
                supplied,
                env,
            ) == resolved_record(consumed, recipe, stats, env)
        }),
{
}

} // verus!
