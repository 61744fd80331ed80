use vstd::prelude::*;
use crate::address::Address;
use crate::errors::RecipeError;
use crate::recipe::{
    add_hint_spec, add_recipe_hint, approve_recipe, approve_spec, create_recipe, created_recipe,
    creation_error, disable_recipe, disable_spec, discover_recipe, discover_spec,
    lemma_steps_keep_recipes_sound, record_attempt_spec, record_crafting_attempt,
    set_enabled_spec, set_recipe_enabled,
    update_success_rate, update_success_rate_spec, Recipe, RecipeParams, RecipeView,
};

verus! {

/// The record of one discovery.
#[derive(Clone, Copy, Debug, PartialEq, Eq)]
pub struct RecipeDiscoveryRecord {
    /// Who discovered the recipe.
    pub explorer: Address,
    /// Which recipe was discovered.
    pub recipe: u64,
    /// When.
    pub timestamp: i64,
    /// Whether nobody had discovered the recipe before.
    pub is_first: bool,
}

/// The store of all recipes. A recipe is known by its identifier, which is
/// its position in the store; recipes are never removed, only disabled.
#[derive(Debug)]
pub struct RecipeRegistry {
    authority: Address,
    recipes: Vec<Recipe>,
}

/// The mathematical value of a registry.
pub struct RegistryView {
    /// The authority whose own recipes need no approval.
    pub authority: Address,
    /// The recipes, each at the position that its identifier names.
    pub recipes: Seq<RecipeView>,
}

impl RegistryView {
    /// Whether the registry is sound: every recipe is sound and is stored
    /// under its own identifier.
    pub open spec fn well_formed(self) -> bool {
        forall|i: int|
            0 <= i < self.recipes.len() ==> (#[trigger] self.recipes[i]).well_formed()
                && self.recipes[i].recipe_id == i
    }

    /// Whether the registry holds a recipe under an identifier.
    pub open spec fn knows(self, id: u64) -> bool {
        id < self.recipes.len()
    }
}

/// Whether a step on the recipe `id` of a registry went as expected.
/// For an identifier that the registry does not know,
/// the step fails and nothing changes. Otherwise `expected` says what
/// becomes of the recipe; no other recipe changes.
pub open spec fn registry_step(
    before: RegistryView,
    after: RegistryView,
    id: u64,
    expected: Result<RecipeView, RecipeError>,
    result: Result<(), RecipeError>,
) -> bool {
    if !before.knows(id) {
        result == Err::<(), RecipeError>(RecipeError::UnknownRecipe) && after == before
    } else {
        match expected {
            Ok(v) => result is Ok && after == (RegistryView {
                recipes: before.recipes.update(id as int, v),
                ..before
            }),
            Err(e) => result == Err::<(), RecipeError>(e) && after == before,
        }
    }
}

/// A registry in which one recipe at most has changed is the old registry
/// with that recipe replaced, and the old registry itself where the recipe
/// has its old value.
proof fn lemma_one_recipe_changed(before: RegistryView, after: RegistryView, id: int)
    requires
        0 <= id < before.recipes.len(),
        after.authority == before.authority,
        after.recipes.len() == before.recipes.len(),
        forall|j: int| 0 <= j < before.recipes.len() && j != id ==> after.recipes[j] == before.recipes[j],
    ensures
        after == (RegistryView { recipes: before.recipes.update(id, after.recipes[id]), ..before }),
        after.recipes[id] == before.recipes[id] ==> after == before,
{
    assert(after.recipes =~= before.recipes.update(id, after.recipes[id]));
    if after.recipes[id] == before.recipes[id] {
        assert(after.recipes =~= before.recipes);
    }
}

impl View for RecipeRegistry {
    type V = RegistryView;

    closed spec fn view(&self) -> RegistryView {
        RegistryView {
            authority: self.authority,
            recipes: Seq::new(self.recipes@.len(), |i: int| self.recipes@[i]@),
        }
    }
}

impl RecipeRegistry {
    /// An empty registry under an authority.
    pub fn new(authority: Address) -> (registry: RecipeRegistry)
        ensures
            registry@.authority == authority,
            registry@.recipes.len() == 0,
            registry@.well_formed(),
    {
        RecipeRegistry { authority, recipes: Vec::new() }
    }

    /// The authority of the registry.
    pub fn authority(&self) -> (authority: Address)
        ensures
            authority == self@.authority,
    {
        self.authority
    }

    /// The number of recipes, which is also the identifier of the next one.
    pub fn total_recipes(&self) -> (count: u64)
        ensures
            count == self@.recipes.len(),
    {
        self.recipes.len() as u64
    }

    /// The recipe with an identifier, if there is one.
    pub fn get(&self, id: u64) -> (found: Option<&Recipe>)
        ensures
            self@.knows(id) ==> found is Some && found->Some_0@ == self@.recipes[id as int],
            !self@.knows(id) ==> found is None,
    {
        if id >= self.recipes.len() as u64 {
            return None;
        }
        Some(&self.recipes[id as usize])
    }

    /// Creates a recipe and returns its identifier. A definition that is
    /// refused changes nothing.
    pub fn create(&mut self, params: RecipeParams, creator: Address, created_at: i64) -> (result:
        Result<u64, RecipeError>)
        ensures
            (match creation_error(
                params.material_types@,
                params.material_amounts@,
                params.result_types@,
                params.result_weights@,
            ) {
                Some(e) => result == Err::<u64, RecipeError>(e) && final(self)@ == old(self)@,
                None => result == Ok::<u64, RecipeError>(old(self)@.recipes.len() as u64)
                    && final(self)@ == (RegistryView {
                    recipes: old(self)@.recipes.push(
                        created_recipe(
                            params,
                            old(self)@.recipes.len() as u64,
                            creator,
                            old(self)@.authority,
                            created_at,
                        ),
                    ),
                    ..old(self)@
                }),
            }),
            old(self)@.well_formed() ==> final(self)@.well_formed(),
    {
        let id = self.recipes.len() as u64;
        let recipe = create_recipe(params, id, creator, self.authority, created_at)?;
        let ghost added = recipe@;
        self.recipes.push(recipe);
        assert(self@.recipes =~= old(self)@.recipes.push(added));
        Ok(id)
    }

    /// Approves a recipe; see `approve_recipe`.
    pub fn approve(&mut self, id: u64, caller: Address) -> (result: Result<(), RecipeError>)
        ensures
            registry_step(
                old(self)@,
                final(self)@,
                id,
                approve_spec(old(self)@.recipes[id as int], caller),
                result,
            ),
            old(self)@.well_formed() ==> final(self)@.well_formed(),
    {
        if id >= self.recipes.len() as u64 {
            return Err(RecipeError::UnknownRecipe);
        }
        let result = approve_recipe(&mut self.recipes[id as usize], caller);
        proof {
            lemma_steps_keep_recipes_sound(old(self)@.recipes[id as int]);
            lemma_one_recipe_changed(old(self)@, self@, id as int);
        }
        result
    }

    /// Disables a recipe; see `disable_recipe`.
    pub fn disable(&mut self, id: u64, caller: Address, is_admin: bool) -> (result: Result<
        (),
        RecipeError,
    >)
        ensures
            registry_step(
                old(self)@,
                final(self)@,
                id,
                disable_spec(old(self)@.recipes[id as int], caller, is_admin),
                result,
            ),
            old(self)@.well_formed() ==> final(self)@.well_formed(),
    {
        if id >= self.recipes.len() as u64 {
            return Err(RecipeError::UnknownRecipe);
        }
        let result = disable_recipe(&mut self.recipes[id as usize], caller, is_admin);
        proof {
            lemma_steps_keep_recipes_sound(old(self)@.recipes[id as int]);
            lemma_one_recipe_changed(old(self)@, self@, id as int);
        }
        result
    }

    /// Enables or disables a recipe; see `set_recipe_enabled`.
    pub fn set_enabled(&mut self, id: u64, caller: Address, is_admin: bool, is_enabled: bool) -> (result:
        Result<(), RecipeError>)
        ensures
            registry_step(
                old(self)@,
                final(self)@,
                id,
                set_enabled_spec(old(self)@.recipes[id as int], caller, is_admin, is_enabled),
                result,
            ),
            old(self)@.well_formed() ==> final(self)@.well_formed(),
    {
        if id >= self.recipes.len() as u64 {
            return Err(RecipeError::UnknownRecipe);
        }
        let result = set_recipe_enabled(&mut self.recipes[id as usize], caller, is_admin, is_enabled);
        proof {
            lemma_steps_keep_recipes_sound(old(self)@.recipes[id as int]);
            lemma_one_recipe_changed(old(self)@, self@, id as int);
        }
        result
    }

    /// Sets the base success rate of a recipe; see `update_success_rate`.
    pub fn update_success_rate(&mut self, id: u64, caller: Address, is_admin: bool, new_success_rate: u8) -> (result:
        Result<(), RecipeError>)
        ensures
            registry_step(
                old(self)@,
                final(self)@,
                id,
                update_success_rate_spec(old(self)@.recipes[id as int], caller, is_admin, new_success_rate),
                result,
            ),
            old(self)@.well_formed() ==> final(self)@.well_formed(),
    {
        if id >= self.recipes.len() as u64 {
            return Err(RecipeError::UnknownRecipe);
        }
        let result = update_success_rate(
            &mut self.recipes[id as usize],
            caller,
            is_admin,
            new_success_rate,
        );
        proof {
            lemma_steps_keep_recipes_sound(old(self)@.recipes[id as int]);
            lemma_one_recipe_changed(old(self)@, self@, id as int);
        }
        result
    }

    /// Counts one attempt at a recipe; see `record_crafting_attempt`. The
    /// registry's authority is the recorder.
    pub fn record_attempt(&mut self, id: u64, caller: Address, success: bool) -> (result: Result<
        (),
        RecipeError,
    >)
        ensures
            registry_step(
                old(self)@,
                final(self)@,
                id,
                record_attempt_spec(
                    old(self)@.recipes[id as int],
                    caller,
                    old(self)@.authority,
                    success,
                ),
                result,
            ),
            old(self)@.well_formed() ==> final(self)@.well_formed(),
    {
        if id >= self.recipes.len() as u64 {
            return Err(RecipeError::UnknownRecipe);
        }
        let result = record_crafting_attempt(
            &mut self.recipes[id as usize],
            caller,
            self.authority,
            success,
        );
        proof {
            lemma_steps_keep_recipes_sound(old(self)@.recipes[id as int]);
            lemma_one_recipe_changed(old(self)@, self@, id as int);
        }
        result
    }

    /// Adds a hint to a recipe; see `add_recipe_hint`.
    pub fn add_hint(&mut self, id: u64, contributor: Address, hint: String) -> (result: Result<
        (),
        RecipeError,
    >)
        ensures
            registry_step(
                old(self)@,
                final(self)@,
                id,
                add_hint_spec(old(self)@.recipes[id as int], contributor, hint@),
                result,
            ),
            old(self)@.well_formed() ==> final(self)@.well_formed(),
    {
        if id >= self.recipes.len() as u64 {
            return Err(RecipeError::UnknownRecipe);
        }
        let ghost text = hint@;
        let result = add_recipe_hint(&mut self.recipes[id as usize], contributor, hint);
        proof {
            lemma_steps_keep_recipes_sound(old(self)@.recipes[id as int]);
            lemma_one_recipe_changed(old(self)@, self@, id as int);
        }
        result
    }

    /// Attempts the discovery of a secret recipe; see `discover_recipe`. A
    /// given explorer discovers a given recipe once at most.
    pub fn discover(
        &mut self,
        id: u64,
        explorer: Address,
        explorer_level: u8,
        material_combinations: &Vec<Address>,
        timestamp: i64,
    ) -> (result: Result<RecipeDiscoveryRecord, RecipeError>)
        ensures
            !old(self)@.knows(id) ==> result == Err::<RecipeDiscoveryRecord, RecipeError>(
                RecipeError::UnknownRecipe,
            ) && final(self)@ == old(self)@,
            old(self)@.knows(id) ==> (match discover_spec(
                old(self)@.recipes[id as int],
                explorer,
                explorer_level,
                material_combinations@,
            ) {
                Ok(v) => result == Ok::<RecipeDiscoveryRecord, RecipeError>(
                    RecipeDiscoveryRecord {
                        explorer,
                        recipe: id,
                        timestamp,
                        is_first: old(self)@.recipes[id as int].discoverers.len() == 0,
                    },
                ) && final(self)@ == (RegistryView {
                    recipes: old(self)@.recipes.update(id as int, v),
                    ..old(self)@
                }),
                Err(e) => result == Err::<RecipeDiscoveryRecord, RecipeError>(e) && final(self)@
                    == old(self)@,
            }),
            old(self)@.well_formed() ==> final(self)@.well_formed(),
    {
        if id >= self.recipes.len() as u64 {
            return Err(RecipeError::UnknownRecipe);
        }
        let result = discover_recipe(
            &mut self.recipes[id as usize],
            explorer,
            explorer_level,
            material_combinations,
        );
        proof {
            lemma_steps_keep_recipes_sound(old(self)@.recipes[id as int]);
            lemma_one_recipe_changed(old(self)@, self@, id as int);
        }
        match result {
            Ok(is_first) => Ok(RecipeDiscoveryRecord { explorer, recipe: id, timestamp, is_first }),
            Err(e) => Err(e),
        }
    }
}

} // verus!
