use vstd::prelude::*;
use crate::address::{contains_address, Address};
use crate::discovery::{
    calculate_discovery_score, calculate_discovery_threshold, discovery_score_spec,
    discovery_threshold_spec,
};
use crate::errors::RecipeError;
use crate::ledger::Ingredient;
use crate::outcome::{total_weight, total_weight_spec, WeightedResult};

verus! {

/// The highest base success rate that a recipe can be given after its creation.
pub const MAX_BASE_RATE: u8 = 100;

/// The longest hint, in bytes.
pub const MAX_HINT_LENGTH: usize = 100;

/// What a creator hands in to define a recipe.
#[derive(Clone, Debug, PartialEq, Eq)]
pub struct RecipeParams {
    pub name: String,
    pub description: String,
    /// Code of the category: 1 basic, 2 advanced, 3 community, 4 legendary.
    pub recipe_type: u8,
    pub difficulty: u8,
    /// Base success rate.
    pub success_rate: u8,
    pub uri: String,
    /// Kinds of the required materials.
    pub material_types: Vec<Address>,
    /// Amounts of the required materials, in the same order.
    pub material_amounts: Vec<u64>,
    /// Kinds of the possible results.
    pub result_types: Vec<Address>,
    /// Weights of the possible results, in the same order.
    pub result_weights: Vec<u8>,
    /// Whether the recipe is hidden until it is discovered.
    pub is_secret: bool,
    /// Hints for its discovery.
    pub hints: Vec<String>,
}

/// A recipe: the materials it requires, the results it can give with their
/// weights, its rates, flags and counters.
#[derive(Clone, Debug, PartialEq, Eq)]
pub struct Recipe {
    pub recipe_id: u64,
    pub name: String,
    pub description: String,
    pub recipe_type: u8,
    pub difficulty: u8,
    pub success_rate: u8,
    pub uri: String,
    pub creator: Address,
    pub approved: bool,
    pub disabled: bool,
    pub created_at: i64,
    pub ingredients: Vec<Ingredient>,
    pub results: Vec<WeightedResult>,
    pub is_secret: bool,
    pub hints: Vec<String>,
    pub discoverers: Vec<Address>,
    pub discovery_threshold: u8,
    pub times_crafted: u64,
    pub successful_crafts: u64,
    pub failed_crafts: u64,
}

/// The mathematical value of a recipe.
pub struct RecipeView {
    pub recipe_id: u64,
    pub name: Seq<char>,
    pub description: Seq<char>,
    pub recipe_type: u8,
    pub difficulty: u8,
    pub success_rate: u8,
    pub uri: Seq<char>,
    pub creator: Address,
    pub approved: bool,
    pub disabled: bool,
    pub created_at: i64,
    pub ingredients: Seq<Ingredient>,
    pub results: Seq<WeightedResult>,
    pub is_secret: bool,
    pub hints: Seq<Seq<char>>,
    pub discoverers: Seq<Address>,
    pub discovery_threshold: u8,
    pub times_crafted: u64,
    pub successful_crafts: u64,
    pub failed_crafts: u64,
}

/// The views of a list of strings.
pub open spec fn string_views(strings: Seq<String>) -> Seq<Seq<char>> {
    Seq::new(strings.len(), |i: int| strings[i]@)
}

impl View for Recipe {
    type V = RecipeView;

    open spec fn view(&self) -> RecipeView {
        RecipeView {
            recipe_id: self.recipe_id,
            name: self.name@,
            description: self.description@,
            recipe_type: self.recipe_type,
            difficulty: self.difficulty,
            success_rate: self.success_rate,
            uri: self.uri@,
            creator: self.creator,
            approved: self.approved,
            disabled: self.disabled,
            created_at: self.created_at,
            ingredients: self.ingredients@,
            results: self.results@,
            is_secret: self.is_secret,
            hints: string_views(self.hints@),
            discoverers: self.discoverers@,
            discovery_threshold: self.discovery_threshold,
            times_crafted: self.times_crafted,
            successful_crafts: self.successful_crafts,
            failed_crafts: self.failed_crafts,
        }
    }
}

impl RecipeView {
    /// Whether the recipe is sound: it requires a material, it has a result
    /// that can be drawn, its discovery threshold is that of its category and
    /// difficulty, nobody discovered it twice, and every attempt counted was
    /// either a success or a failure.
    pub open spec fn well_formed(self) -> bool {
        &&& self.ingredients.len() > 0
        &&& self.results.len() > 0
        &&& total_weight_spec(self.results) > 0
        &&& self.discovery_threshold == discovery_threshold_spec(self.recipe_type, self.difficulty)
        &&& self.discoverers.no_duplicates()
        &&& self.times_crafted == self.successful_crafts + self.failed_crafts
    }

    /// Whether the recipe can be crafted: approved and not disabled.
    pub open spec fn craftable(self) -> bool {
        self.approved && !self.disabled
    }
}

/// The requirements that parallel lists of kinds and amounts describe.
pub open spec fn zip_ingredients(kinds: Seq<Address>, amounts: Seq<u64>) -> Seq<Ingredient> {
    Seq::new(kinds.len(), |i: int| Ingredient { material_mint: kinds[i], quantity: amounts[i] })
}

/// The candidates that parallel lists of kinds and weights describe.
pub open spec fn zip_results(kinds: Seq<Address>, weights: Seq<u8>) -> Seq<WeightedResult> {
    Seq::new(kinds.len(), |i: int| WeightedResult { result_type: kinds[i], weight: weights[i] })
}

/// Why a definition is refused, if it is: the first of these that holds.
/// Kinds and amounts of materials differ in number; kinds and weights of
/// results differ in number; no material; no result; weights that sum to zero.
pub open spec fn creation_error(
    material_types: Seq<Address>,
    material_amounts: Seq<u64>,
    result_types: Seq<Address>,
    result_weights: Seq<u8>,
) -> Option<RecipeError> {
    if material_types.len() != material_amounts.len() {
        Some(RecipeError::InputMismatch)
    } else if result_types.len() != result_weights.len() {
        Some(RecipeError::OutputMismatch)
    } else if material_types.len() == 0 {
        Some(RecipeError::NoMaterials)
    } else if result_types.len() == 0 {
        Some(RecipeError::NoResults)
    } else if total_weight_spec(zip_results(result_types, result_weights)) == 0 {
        Some(RecipeError::ZeroTotalWeight)
    } else {
        None
    }
}

/// The recipe that an accepted definition makes. It is approved from the
/// start exactly when its creator is the registry's authority.
pub open spec fn created_recipe(
    params: RecipeParams,
    recipe_id: u64,
    creator: Address,
    authority: Address,
    created_at: i64,
) -> RecipeView {
    RecipeView {
        recipe_id,
        name: params.name@,
        description: params.description@,
        recipe_type: params.recipe_type,
        difficulty: params.difficulty,
        success_rate: params.success_rate,
        uri: params.uri@,
        creator,
        approved: creator == authority,
        disabled: false,
        created_at,
        ingredients: zip_ingredients(params.material_types@, params.material_amounts@),
        results: zip_results(params.result_types@, params.result_weights@),
        is_secret: params.is_secret,
        hints: string_views(params.hints@),
        discoverers: Seq::empty(),
        discovery_threshold: discovery_threshold_spec(params.recipe_type, params.difficulty) as u8,
        times_crafted: 0,
        successful_crafts: 0,
        failed_crafts: 0,
    }
}

/// Creates a recipe from a definition, or refuses the definition.
pub fn create_recipe(
    params: RecipeParams,
    recipe_id: u64,
    creator: Address,
    authority: Address,
    created_at: i64,
) -> (result: Result<Recipe, RecipeError>)
    ensures
        (match creation_error(
            params.material_types@,
            params.material_amounts@,
            params.result_types@,
            params.result_weights@,
        ) {
            Some(e) => result == Err::<Recipe, RecipeError>(e),
            None => result is Ok && result->Ok_0@ == created_recipe(
                params,
                recipe_id,
                creator,
                authority,
                created_at,
            ) && result->Ok_0@.well_formed(),
        }),
{
    if params.material_types.len() != params.material_amounts.len() {
        return Err(RecipeError::InputMismatch);
    }
    if params.result_types.len() != params.result_weights.len() {
        return Err(RecipeError::OutputMismatch);
    }
    if params.material_types.len() == 0 {
        return Err(RecipeError::NoMaterials);
    }
    if params.result_types.len() == 0 {
        return Err(RecipeError::NoResults);
    }
    let mut ingredients: Vec<Ingredient> = Vec::new();
    let mut i: usize = 0;
    while i < params.material_types.len()
        invariant
            i <= params.material_types.len(),
            params.material_types.len() == params.material_amounts.len(),
            ingredients@.len() == i,
            forall|j: int|
                0 <= j < i ==> ingredients@[j] == zip_ingredients(
                    params.material_types@,
                    params.material_amounts@,
                )[j],
        decreases params.material_types.len() - i,
    {
        ingredients.push(
            Ingredient { material_mint: params.material_types[i], quantity: params.material_amounts[i] },
        );
        i += 1;
    }
    assert(ingredients@ =~= zip_ingredients(params.material_types@, params.material_amounts@));
    let mut results: Vec<WeightedResult> = Vec::new();
    let mut k: usize = 0;
    while k < params.result_types.len()
        invariant
            k <= params.result_types.len(),
            params.result_types.len() == params.result_weights.len(),
            results@.len() == k,
            forall|j: int|
                0 <= j < k ==> results@[j] == zip_results(
                    params.result_types@,
                    params.result_weights@,
                )[j],
        decreases params.result_types.len() - k,
    {
        results.push(
            WeightedResult { result_type: params.result_types[k], weight: params.result_weights[k] },
        );
        k += 1;
    }
    assert(results@ =~= zip_results(params.result_types@, params.result_weights@));
    if total_weight(&results) == 0 {
        return Err(RecipeError::ZeroTotalWeight);
    }
    let approved = creator.same(&authority);
    let discovery_threshold = calculate_discovery_threshold(params.recipe_type, params.difficulty);
    let recipe = Recipe {
        recipe_id,
        name: params.name,
        description: params.description,
        recipe_type: params.recipe_type,
        difficulty: params.difficulty,
        success_rate: params.success_rate,
        uri: params.uri,
        creator,
        approved,
        disabled: false,
        created_at,
        ingredients,
        results,
        is_secret: params.is_secret,
        hints: params.hints,
        discoverers: Vec::new(),
        discovery_threshold,
        times_crafted: 0,
        successful_crafts: 0,
        failed_crafts: 0,
    };
    assert(recipe@.discoverers =~= Seq::empty());
    Ok(recipe)
}

/// Whether a step on a recipe went as expected: on success the recipe has
/// the expected value, on failure the error is the expected
/// one and the recipe is unchanged.
pub open spec fn recipe_step(
    before: RecipeView,
    after: RecipeView,
    expected: Result<RecipeView, RecipeError>,
    result: Result<(), RecipeError>,
) -> bool {
    match expected {
        Ok(v) => result is Ok && after == v,
        Err(e) => result == Err::<(), RecipeError>(e) && after == before,
    }
}

/// Approval of a recipe by a caller: refused to the recipe's own creator,
/// and for a recipe that is approved already.
pub open spec fn approve_spec(recipe: RecipeView, caller: Address) -> Result<RecipeView, RecipeError> {
    if caller == recipe.creator {
        Err(RecipeError::SelfApproval)
    } else if recipe.approved {
        Err(RecipeError::AlreadyApproved)
    } else {
        Ok(RecipeView { approved: true, ..recipe })
    }
}

/// Approves a recipe that somebody other than the caller created.
pub fn approve_recipe(recipe: &mut Recipe, caller: Address) -> (result: Result<(), RecipeError>)
    ensures
        recipe_step(old(recipe)@, final(recipe)@, approve_spec(old(recipe)@, caller), result),
{
    if caller.same(&recipe.creator) {
        return Err(RecipeError::SelfApproval);
    }
    if recipe.approved {
        return Err(RecipeError::AlreadyApproved);
    }
    recipe.approved = true;
    Ok(())
}

/// Whether a caller may manage a recipe: its creator may, and an administrator.
pub open spec fn may_manage(recipe: RecipeView, caller: Address, is_admin: bool) -> bool {
    caller == recipe.creator || is_admin
}

/// Disabling of a recipe by a caller who may manage it.
pub open spec fn disable_spec(recipe: RecipeView, caller: Address, is_admin: bool) -> Result<
    RecipeView,
    RecipeError,
> {
    if !may_manage(recipe, caller, is_admin) {
        Err(RecipeError::UnauthorizedCaller)
    } else {
        Ok(RecipeView { disabled: true, ..recipe })
    }
}

/// Disables a recipe: it can no longer be crafted. Only an administrator
/// can enable it again, with `set_recipe_enabled`.
pub fn disable_recipe(recipe: &mut Recipe, caller: Address, is_admin: bool) -> (result: Result<
    (),
    RecipeError,
>)
    ensures
        recipe_step(old(recipe)@, final(recipe)@, disable_spec(old(recipe)@, caller, is_admin), result),
{
    if !(caller.same(&recipe.creator) || is_admin) {
        return Err(RecipeError::UnauthorizedCaller);
    }
    recipe.disabled = true;
    Ok(())
}

/// Enabling or disabling of a recipe: its creator may disable it, only an
/// administrator may enable it.
pub open spec fn set_enabled_spec(recipe: RecipeView, caller: Address, is_admin: bool, is_enabled: bool) -> Result<
    RecipeView,
    RecipeError,
> {
    if is_enabled && !is_admin {
        Err(RecipeError::UnauthorizedCaller)
    } else if !may_manage(recipe, caller, is_admin) {
        Err(RecipeError::UnauthorizedCaller)
    } else {
        Ok(RecipeView { disabled: !is_enabled, ..recipe })
    }
}

/// Enables or disables a recipe.
pub fn set_recipe_enabled(recipe: &mut Recipe, caller: Address, is_admin: bool, is_enabled: bool) -> (result:
    Result<(), RecipeError>)
    ensures
        recipe_step(
            old(recipe)@,
            final(recipe)@,
            set_enabled_spec(old(recipe)@, caller, is_admin, is_enabled),
            result,
        ),
{
    if is_enabled && !is_admin {
        return Err(RecipeError::UnauthorizedCaller);
    }
    if !(caller.same(&recipe.creator) || is_admin) {
        return Err(RecipeError::UnauthorizedCaller);
    }
    recipe.disabled = !is_enabled;
    Ok(())
}

/// A new base success rate, set by a caller who may manage the recipe; no
/// rate above 100 is accepted.
pub open spec fn update_success_rate_spec(
    recipe: RecipeView,
    caller: Address,
    is_admin: bool,
    new_success_rate: u8,
) -> Result<RecipeView, RecipeError> {
    if !may_manage(recipe, caller, is_admin) {
        Err(RecipeError::UnauthorizedCaller)
    } else if new_success_rate > MAX_BASE_RATE {
        Err(RecipeError::InvalidSuccessRate)
    } else {
        Ok(RecipeView { success_rate: new_success_rate, ..recipe })
    }
}

/// Sets the base success rate of a recipe.
pub fn update_success_rate(recipe: &mut Recipe, caller: Address, is_admin: bool, new_success_rate: u8) -> (result:
    Result<(), RecipeError>)
    ensures
        recipe_step(
            old(recipe)@,
            final(recipe)@,
            update_success_rate_spec(old(recipe)@, caller, is_admin, new_success_rate),
            result,
        ),
{
    if !(caller.same(&recipe.creator) || is_admin) {
        return Err(RecipeError::UnauthorizedCaller);
    }
    if new_success_rate > MAX_BASE_RATE {
        return Err(RecipeError::InvalidSuccessRate);
    }
    recipe.success_rate = new_success_rate;
    Ok(())
}

/// One more attempt at the recipe, counted as a success or as a failure.
/// Only the recorder, the one who runs the attempts, may count one; the
/// count is refused where a counter would overflow.
pub open spec fn record_attempt_spec(recipe: RecipeView, caller: Address, recorder: Address, success: bool) -> Result<
    RecipeView,
    RecipeError,
> {
    if caller != recorder {
        Err(RecipeError::UnauthorizedCaller)
    } else if recipe.times_crafted == u64::MAX {
        Err(RecipeError::CounterOverflow)
    } else if success && recipe.successful_crafts == u64::MAX {
        Err(RecipeError::CounterOverflow)
    } else if !success && recipe.failed_crafts == u64::MAX {
        Err(RecipeError::CounterOverflow)
    } else if success {
        Ok(
            RecipeView {
                times_crafted: (recipe.times_crafted + 1) as u64,
                successful_crafts: (recipe.successful_crafts + 1) as u64,
                ..recipe
            },
        )
    } else {
        Ok(
            RecipeView {
                times_crafted: (recipe.times_crafted + 1) as u64,
                failed_crafts: (recipe.failed_crafts + 1) as u64,
                ..recipe
            },
        )
    }
}

/// Counts one attempt at the recipe.
pub fn record_crafting_attempt(recipe: &mut Recipe, caller: Address, recorder: Address, success: bool) -> (result:
    Result<(), RecipeError>)
    ensures
        recipe_step(
            old(recipe)@,
            final(recipe)@,
            record_attempt_spec(old(recipe)@, caller, recorder, success),
            result,
        ),
{
    if !caller.same(&recorder) {
        return Err(RecipeError::UnauthorizedCaller);
    }
    let times = match recipe.times_crafted.checked_add(1) {
        Some(n) => n,
        None => {
            return Err(RecipeError::CounterOverflow);
        },
    };
    if success {
        let successes = match recipe.successful_crafts.checked_add(1) {
            Some(n) => n,
            None => {
                return Err(RecipeError::CounterOverflow);
            },
        };
        recipe.times_crafted = times;
        recipe.successful_crafts = successes;
    } else {
        let failures = match recipe.failed_crafts.checked_add(1) {
            Some(n) => n,
            None => {
                return Err(RecipeError::CounterOverflow);
            },
        };
        recipe.times_crafted = times;
        recipe.failed_crafts = failures;
    }
    Ok(())
}

/// Whether an attempt to discover a recipe succeeds: its score must reach
/// the recipe's threshold.
pub open spec fn discovery_succeeds(recipe: RecipeView, explorer_level: u8, provided: Seq<Address>) -> bool {
    discovery_score_spec(explorer_level, provided, recipe.ingredients) >= recipe.discovery_threshold
}

/// Discovery of a secret recipe by an explorer who has not discovered it
/// before and whose materials score high enough.
pub open spec fn discover_spec(
    recipe: RecipeView,
    explorer: Address,
    explorer_level: u8,
    provided: Seq<Address>,
) -> Result<RecipeView, RecipeError> {
    if !recipe.is_secret {
        Err(RecipeError::RecipeNotSecret)
    } else if recipe.discoverers.contains(explorer) {
        Err(RecipeError::AlreadyDiscovered)
    } else if !discovery_succeeds(recipe, explorer_level, provided) {
        Err(RecipeError::DiscoveryFailed)
    } else {
        Ok(RecipeView { discoverers: recipe.discoverers.push(explorer), ..recipe })
    }
}

/// Attempts the discovery of a secret recipe. On success the explorer joins
/// the recipe's discoverers, and the result says whether the explorer is the
/// first of them.
pub fn discover_recipe(
    recipe: &mut Recipe,
    explorer: Address,
    explorer_level: u8,
    material_combinations: &Vec<Address>,
) -> (result: Result<bool, RecipeError>)
    ensures
        (match discover_spec(old(recipe)@, explorer, explorer_level, material_combinations@) {
            Ok(v) => result == Ok::<bool, RecipeError>(old(recipe)@.discoverers.len() == 0)
                && final(recipe)@ == v,
            Err(e) => result == Err::<bool, RecipeError>(e) && final(recipe)@ == old(recipe)@,
        }),
{
    if !recipe.is_secret {
        return Err(RecipeError::RecipeNotSecret);
    }
    if contains_address(&recipe.discoverers, &explorer) {
        return Err(RecipeError::AlreadyDiscovered);
    }
    let score = calculate_discovery_score(explorer_level, material_combinations, &recipe.ingredients);
    if score < recipe.discovery_threshold {
        return Err(RecipeError::DiscoveryFailed);
    }
    let is_first = recipe.discoverers.len() == 0;
    recipe.discoverers.push(explorer);
    Ok(is_first)
}

/// The length of a hint in bytes.
pub open spec fn hint_length(hint: Seq<char>) -> usize {
    vstd::utf8::encode_utf8(hint).len() as usize
}

/// A hint added by somebody who has discovered the recipe; no hint longer
/// than 100 bytes is accepted.
pub open spec fn add_hint_spec(recipe: RecipeView, contributor: Address, hint: Seq<char>) -> Result<
    RecipeView,
    RecipeError,
> {
    if hint_length(hint) > MAX_HINT_LENGTH {
        Err(RecipeError::HintTooLong)
    } else if !recipe.discoverers.contains(contributor) {
        Err(RecipeError::NotDiscovered)
    } else {
        Ok(RecipeView { hints: recipe.hints.push(hint), ..recipe })
    }
}

/// Adds a hint to a recipe. Hints are only ever added, never changed or removed.
pub fn add_recipe_hint(recipe: &mut Recipe, contributor: Address, hint: String) -> (result: Result<
    (),
    RecipeError,
>)
    ensures
        recipe_step(old(recipe)@, final(recipe)@, add_hint_spec(old(recipe)@, contributor, hint@), result),
{
    if hint.as_str().len() > MAX_HINT_LENGTH {
        return Err(RecipeError::HintTooLong);
    }
    if !contains_address(&recipe.discoverers, &contributor) {
        return Err(RecipeError::NotDiscovered);
    }
    let ghost before = recipe.hints@;
    let ghost text = hint@;
    recipe.hints.push(hint);
    assert(string_views(recipe.hints@) =~= string_views(before).push(text));
    Ok(())
}

impl Recipe {
    /// Whether the recipe is sound; see `RecipeView::well_formed`.
    pub fn is_sound(&self) -> (ok: bool)
        ensures
            ok == self@.well_formed(),
    {
        if self.ingredients.len() == 0 || self.results.len() == 0 {
            return false;
        }
        if total_weight(&self.results) == 0 {
            return false;
        }
        if self.discovery_threshold != calculate_discovery_threshold(self.recipe_type, self.difficulty) {
            return false;
        }
        match self.successful_crafts.checked_add(self.failed_crafts) {
            Some(sum) => {
                if sum != self.times_crafted {
                    return false;
                }
            },
            None => {
                return false;
            },
        }
        let mut i: usize = 0;
        while i < self.discoverers.len()
            invariant
                i <= self.discoverers.len(),
                forall|a: int, b: int|
                    0 <= a < b < i ==> self.discoverers@[a] != self.discoverers@[b],
            decreases self.discoverers.len() - i,
        {
            let mut j: usize = 0;
            while j < i
                invariant
                    j <= i,
                    i < self.discoverers.len(),
                    forall|a: int| 0 <= a < j ==> self.discoverers@[a] != self.discoverers@[i as int],
                decreases i - j,
            {
                if self.discoverers[j].same(&self.discoverers[i]) {
                    assert(self.discoverers@[j as int] == self.discoverers@[i as int]);
                    return false;
                }
                j += 1;
            }
            i += 1;
        }
        true
    }
}

/// What no step on a recipe ever changes: its identifier, its creator, its
/// creation time, what it requires, what it can give, and its discovery threshold.
pub open spec fn same_definition(a: RecipeView, b: RecipeView) -> bool {
    &&& a.recipe_id == b.recipe_id
    &&& a.creator == b.creator
    &&& a.created_at == b.created_at
    &&& a.recipe_type == b.recipe_type
    &&& a.difficulty == b.difficulty
    &&& a.ingredients == b.ingredients
    &&& a.results == b.results
    &&& a.is_secret == b.is_secret
    &&& a.discovery_threshold == b.discovery_threshold
}

/// Whether `after` is what some step makes of `before`, or `before` itself.
pub open spec fn reachable_in_one_step(before: RecipeView, after: RecipeView) -> bool {
    ||| after == before
    ||| exists|caller: Address| approve_spec(before, caller) == Ok::<RecipeView, RecipeError>(after)
    ||| exists|caller: Address, is_admin: bool|
        (#[trigger] disable_spec(before, caller, is_admin)) == Ok::<RecipeView, RecipeError>(after)
    ||| exists|caller: Address, is_admin: bool, is_enabled: bool|
        (#[trigger] set_enabled_spec(before, caller, is_admin, is_enabled)) == Ok::<
            RecipeView,
            RecipeError,
        >(after)
    ||| exists|caller: Address, is_admin: bool, rate: u8|
        (#[trigger] update_success_rate_spec(before, caller, is_admin, rate)) == Ok::<
            RecipeView,
            RecipeError,
        >(after)
    ||| exists|caller: Address, recorder: Address, success: bool|
        (#[trigger] record_attempt_spec(before, caller, recorder, success)) == Ok::<
            RecipeView,
            RecipeError,
        >(after)
    ||| exists|explorer: Address, level: u8, provided: Seq<Address>|
        (#[trigger] discover_spec(before, explorer, level, provided)) == Ok::<RecipeView, RecipeError>(
            after,
        )
    ||| exists|contributor: Address, hint: Seq<char>|
        (#[trigger] add_hint_spec(before, contributor, hint)) == Ok::<RecipeView, RecipeError>(after)
}

/// Every step keeps a sound recipe sound, and none changes the recipe's
/// definition: in particular the discovery threshold, computed once at the
/// creation, stays what it was.
pub proof fn lemma_steps_keep_recipes_sound(before: RecipeView)
    ensures
        forall|after: RecipeView| #[trigger]
            reachable_in_one_step(before, after) ==> same_definition(before, after) && (
            before.well_formed() ==> after.well_formed()),
{
    assert forall|after: RecipeView| #[trigger]
        reachable_in_one_step(before, after) implies same_definition(before, after) && (
    before.well_formed() ==> after.well_formed()) by {
        lemma_step_keeps_recipe_sound(before, after);
    }
}

/// One step keeps a sound recipe sound and its definition unchanged.
pub proof fn lemma_step_keeps_recipe_sound(before: RecipeView, after: RecipeView)
    requires
        reachable_in_one_step(before, after),
    ensures
        same_definition(before, after),
        before.well_formed() ==> after.well_formed(),
{
    if exists|explorer: Address, level: u8, provided: Seq<Address>|
        (#[trigger] discover_spec(before, explorer, level, provided)) == Ok::<RecipeView, RecipeError>(
            after,
        ) {
        let (explorer, level, provided) = choose|explorer: Address, level: u8, provided: Seq<Address>|
            (#[trigger] discover_spec(before, explorer, level, provided)) == Ok::<
                RecipeView,
                RecipeError,
            >(after);
        assert(!before.discoverers.contains(explorer));
        if before.discoverers.no_duplicates() {
            assert(before.discoverers.push(explorer).no_duplicates()) by {
                let pushed = before.discoverers.push(explorer);
                assert forall|i: int, j: int| 0 <= i < pushed.len() && 0 <= j < pushed.len() && i
                    != j implies pushed[i] != pushed[j] by {
                    if i < before.discoverers.len() && j < before.discoverers.len() {
                    } else if i < before.discoverers.len() {
                        assert(before.discoverers.contains(pushed[i]));
                    } else {
                        assert(before.discoverers.contains(pushed[j]));
                    }
                }
            }
        }
    }
}

} // verus!
