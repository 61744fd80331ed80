use vstd::prelude::*;
use crate::address::Address;
use crate::config::CraftingConfig;
use crate::crafting::{
    cancel_crafting, cancel_error, cancelled_record, complete_crafting, complete_error,
    consume_error, consume_materials, consumed_record, craft, craft_error, crafted_record,
    record_step, resolved_record, resolved_stats, start_crafting, start_error, started_record,
    verified_record, verify_error, verify_materials, CraftEnvironment, CraftingRecord,
    CraftingRecordView, MaterialInput,
};
use crate::errors::CraftingError;
use crate::ledger::{debited, MaterialLedger};
use crate::progression::CrafterStats;
use crate::recipe::RecipeView;
use crate::registry::{RecipeRegistry, RegistryView};
use crate::tracker::{profile_or_fresh, CrafterProgressionTracker};

verus! {

/// The crafting engine: the settings, the recipes, the profiles of the
/// crafters, the material ledger and the records of all attempts. A record
/// is known by its identifier, which is its position among the records.
#[derive(Debug)]
pub struct CraftingOrchestrator {
    pub config: CraftingConfig,
    pub registry: RecipeRegistry,
    pub tracker: CrafterProgressionTracker,
    pub ledger: MaterialLedger,
    pub records: Vec<CraftingRecord>,
}

/// Whether every record is one of a recipe that the registry knows.
pub open spec fn recipes_known(records: Seq<CraftingRecordView>, registry: RegistryView) -> bool {
    forall|i: int| 0 <= i < records.len() ==> registry.knows((#[trigger] records[i]).recipe)
}

/// Why an attempt at the recipe with an identifier cannot be started, if it cannot.
pub open spec fn start_by_id_error(
    config: CraftingConfig,
    registry: RegistryView,
    recipe_id: u64,
    supplied: Seq<MaterialInput>,
    payment_amount: u64,
) -> Option<CraftingError> {
    if !registry.knows(recipe_id) {
        Some(CraftingError::InvalidRecipe)
    } else {
        start_error(config, registry.recipes[recipe_id as int], supplied, payment_amount)
    }
}

/// Why an attempt at the recipe with an identifier cannot be made in one
/// step, if it cannot.
pub open spec fn craft_by_id_error(
    config: CraftingConfig,
    registry: RegistryView,
    recipe_id: u64,
    stats: CrafterStats,
    balance: spec_fn(Address) -> nat,
    supplied: Seq<MaterialInput>,
    payment_amount: u64,
    env: CraftEnvironment,
) -> Option<CraftingError> {
    if !registry.knows(recipe_id) {
        Some(CraftingError::InvalidRecipe)
    } else {
        craft_error(
            config,
            registry.recipes[recipe_id as int],
            stats,
            balance,
            supplied,
            payment_amount,
            env,
        )
    }
}

impl CraftingOrchestrator {
    /// The records, each at the position that its identifier names.
    pub open spec fn records(&self) -> Seq<CraftingRecordView> {
        Seq::new(self.records@.len(), |i: int| self.records@[i]@)
    }

    /// Whether the engine is sound: its parts are, and every record is one
    /// of a recipe in the registry.
    pub open spec fn well_formed(&self) -> bool {
        &&& self.registry@.well_formed()
        &&& self.tracker.well_formed()
        &&& self.ledger.well_formed()
        &&& recipes_known(self.records(), self.registry@)
    }

    /// Whether the engine has a record with an identifier.
    pub open spec fn knows_record(&self, record_id: u64) -> bool {
        record_id < self.records().len()
    }

    /// The recipe of the record with an identifier.
    pub open spec fn recipe_of(&self, record_id: u64) -> RecipeView {
        self.registry@.recipes[self.records()[record_id as int].recipe as int]
    }

    /// Whether the settings, the recipes and the profiles are those of another engine.
    pub open spec fn same_surroundings(&self, other: &CraftingOrchestrator) -> bool {
        &&& self.config == other.config
        &&& self.registry@ == other.registry@
        &&& self.tracker@ == other.tracker@
    }

    /// Whether the records are those of another engine but for the one with
    /// an identifier.
    pub open spec fn same_records_but(&self, other: &CraftingOrchestrator, record_id: u64) -> bool {
        self.records() == other.records().update(record_id as int, self.records()[record_id as int])
    }

    /// Whether a step on the record with an identifier went as expected.
    /// For an identifier that the engine does not know
    /// the step fails and no record changes. Otherwise no other record
    /// changes, and `error` and `expected` say what becomes of this one.
    pub open spec fn stepped(
        &self,
        before: &CraftingOrchestrator,
        record_id: u64,
        error: Option<CraftingError>,
        expected: CraftingRecordView,
        result: Result<(), CraftingError>,
    ) -> bool {
        if !before.knows_record(record_id) {
            result == Err::<(), CraftingError>(CraftingError::UnknownRecord) && self.records()
                == before.records()
        } else {
            &&& self.same_records_but(before, record_id)
            &&& record_step(
                before.records()[record_id as int],
                self.records()[record_id as int],
                error,
                expected,
                result,
            )
        }
    }

    /// An engine with the given settings, a registry under an authority, no
    /// recipe, no profile, no material and no record.
    pub fn new(config: CraftingConfig, registry_authority: Address) -> (engine: CraftingOrchestrator)
        ensures
            engine.well_formed(),
            engine.config == config,
            engine.registry@.authority == registry_authority,
            engine.registry@.recipes.len() == 0,
            engine.tracker@ == Map::<Address, CrafterStats>::empty(),
            forall|o: Address, k: Address| #[trigger] engine.ledger.balance_of(o, k) == 0,
            engine.records().len() == 0,
    {
        CraftingOrchestrator {
            config,
            registry: RecipeRegistry::new(registry_authority),
            tracker: CrafterProgressionTracker::new(),
            ledger: MaterialLedger::new(),
            records: Vec::new(),
        }
    }

    /// The number of records, which is also the identifier of the next one.
    pub fn total_crafts(&self) -> (count: u64)
        ensures
            count == self.records().len(),
    {
        self.records.len() as u64
    }

    /// The record with an identifier, if there is one.
    pub fn record(&self, record_id: u64) -> (found: Option<&CraftingRecord>)
        ensures
            self.knows_record(record_id) ==> found is Some && found->Some_0@
                == self.records()[record_id as int],
            !self.knows_record(record_id) ==> found is None,
    {
        if record_id >= self.records.len() as u64 {
            return None;
        }
        Some(&self.records[record_id as usize])
    }

    /// Starts an attempt at a recipe and returns the identifier of its record.
    pub fn start(
        &mut self,
        recipe_id: u64,
        crafter: Address,
        supplied: Vec<MaterialInput>,
        payment_amount: u64,
        now: i64,
    ) -> (result: Result<u64, CraftingError>)
        requires
            old(self).well_formed(),
        ensures
            final(self).well_formed(),
            final(self).same_surroundings(old(self)),
            final(self).ledger.same_balances(&old(self).ledger),
            (match start_by_id_error(
                old(self).config,
                old(self).registry@,
                recipe_id,
                supplied@,
                payment_amount,
            ) {
                Some(e) => result == Err::<u64, CraftingError>(e)
                    && final(self).records() == old(self).records(),
                None => result == Ok::<u64, CraftingError>(old(self).records().len() as u64)
                    && final(self).records() == old(self).records().push(
                    started_record(
                        old(self).registry@.recipes[recipe_id as int],
                        crafter,
                        supplied@,
                        now,
                    ),
                ),
            }),
    {
        let recipe = match self.registry.get(recipe_id) {
            Some(r) => r,
            None => {
                return Err(CraftingError::InvalidRecipe);
            },
        };
        let record = match start_crafting(&self.config, recipe, crafter, supplied, payment_amount, now) {
            Ok(r) => r,
            Err(e) => {
                return Err(e);
            },
        };
        let id = self.records.len() as u64;
        let ghost added = record@;
        self.records.push(record);
        assert(self.records() =~= old(self).records().push(added));
        Ok(id)
    }

    /// Verifies the materials of an attempt; see `verify_materials`.
    pub fn verify(&mut self, record_id: u64) -> (result: Result<(), CraftingError>)
        requires
            old(self).well_formed(),
        ensures
            final(self).well_formed(),
            final(self).same_surroundings(old(self)),
            final(self).ledger.same_balances(&old(self).ledger),
            final(self).stepped(
                old(self),
                record_id,
                verify_error(
                    old(self).records()[record_id as int],
                    old(self).recipe_of(record_id),
                    old(self).ledger.balances_of(old(self).records()[record_id as int].crafter),
                ),
                verified_record(old(self).records()[record_id as int]),
                result,
            ),
    {
        if record_id >= self.records.len() as u64 {
            return Err(CraftingError::UnknownRecord);
        }
        let index = record_id as usize;
        assert(old(self).registry@.knows(old(self).records()[index as int].recipe));
        let recipe = match self.registry.get(self.records[index].recipe) {
            Some(r) => r,
            None => {
                return Err(CraftingError::InvalidRecipe);
            },
        };
        let result = verify_materials(&mut self.records[index], recipe, &self.ledger);
        proof {
            lemma_one_record_changed(old(self).records(), self.records(), index as int);
        }
        result
    }

    /// Consumes the materials of an attempt; see `consume_materials`.
    pub fn consume(&mut self, record_id: u64) -> (result: Result<(), CraftingError>)
        requires
            old(self).well_formed(),
        ensures
            final(self).well_formed(),
            final(self).same_surroundings(old(self)),
            final(self).stepped(
                old(self),
                record_id,
                consume_error(
                    old(self).records()[record_id as int],
                    old(self).recipe_of(record_id),
                    old(self).ledger.balances_of(old(self).records()[record_id as int].crafter),
                ),
                consumed_record(old(self).records()[record_id as int]),
                result,
            ),
            result is Ok ==> debited(
                &old(self).ledger,
                &final(self).ledger,
                old(self).records()[record_id as int].crafter,
                old(self).recipe_of(record_id).ingredients,
            ),
            result is Err ==> final(self).ledger.same_balances(&old(self).ledger),
    {
        if record_id >= self.records.len() as u64 {
            return Err(CraftingError::UnknownRecord);
        }
        let index = record_id as usize;
        assert(old(self).registry@.knows(old(self).records()[index as int].recipe));
        let recipe = match self.registry.get(self.records[index].recipe) {
            Some(r) => r,
            None => {
                return Err(CraftingError::InvalidRecipe);
            },
        };
        let result = consume_materials(&mut self.records[index], recipe, &mut self.ledger);
        proof {
            lemma_one_record_changed(old(self).records(), self.records(), index as int);
        }
        result
    }

    /// Resolves an attempt; see `complete_crafting`. The outcome goes to the
    /// crafter's profile, which comes into being here for a crafter never met.
    pub fn complete(&mut self, record_id: u64, env: &CraftEnvironment) -> (result: Result<
        (),
        CraftingError,
    >)
        requires
            old(self).well_formed(),
        ensures
            final(self).well_formed(),
            final(self).config == old(self).config,
            final(self).registry@ == old(self).registry@,
            final(self).ledger.same_balances(&old(self).ledger),
            final(self).stepped(
                old(self),
                record_id,
                complete_error(
                    old(self).records()[record_id as int],
                    old(self).recipe_of(record_id),
                    profile_or_fresh(
                        old(self).tracker@,
                        old(self).records()[record_id as int].crafter,
                        env.timestamp,
                    ),
                    *env,
                ),
                resolved_record(
                    old(self).records()[record_id as int],
                    old(self).recipe_of(record_id),
                    profile_or_fresh(
                        old(self).tracker@,
                        old(self).records()[record_id as int].crafter,
                        env.timestamp,
                    ),
                    *env,
                ),
                result,
            ),
            result is Ok ==> final(self).tracker@ == old(self).tracker@.insert(
                old(self).records()[record_id as int].crafter,
                resolved_stats(
                    old(self).recipe_of(record_id),
                    profile_or_fresh(
                        old(self).tracker@,
                        old(self).records()[record_id as int].crafter,
                        env.timestamp,
                    ),
                    *env,
                ),
            ),
            result is Err ==> final(self).tracker@ == old(self).tracker@,
    {
        if record_id >= self.records.len() as u64 {
            return Err(CraftingError::UnknownRecord);
        }
        let index = record_id as usize;
        assert(old(self).registry@.knows(old(self).records()[index as int].recipe));
        let recipe = match self.registry.get(self.records[index].recipe) {
            Some(r) => r,
            None => {
                return Err(CraftingError::InvalidRecipe);
            },
        };
        let crafter = self.records[index].crafter;
        let mut stats = self.tracker.profile_or_new(&crafter, env.timestamp);
        let result = complete_crafting(&mut self.records[index], recipe, &mut stats, env);
        proof {
            lemma_one_record_changed(old(self).records(), self.records(), index as int);
        }
        match result {
            Ok(()) => {
                self.tracker.put(stats);
                Ok(())
            },
            Err(e) => Err(e),
        }
    }

    /// Cancels an attempt; see `cancel_crafting`.
    pub fn cancel(&mut self, record_id: u64, now: i64, timeout: i64) -> (result: Result<
        (),
        CraftingError,
    >)
        requires
            old(self).well_formed(),
        ensures
            final(self).well_formed(),
            final(self).same_surroundings(old(self)),
            final(self).ledger.same_balances(&old(self).ledger),
            final(self).stepped(
                old(self),
                record_id,
                cancel_error(old(self).records()[record_id as int], now, timeout),
                cancelled_record(old(self).records()[record_id as int], now),
                result,
            ),
    {
        if record_id >= self.records.len() as u64 {
            return Err(CraftingError::UnknownRecord);
        }
        let index = record_id as usize;
        let result = cancel_crafting(&mut self.records[index], now, timeout);
        proof {
            lemma_one_record_changed(old(self).records(), self.records(), index as int);
        }
        result
    }

    /// Makes an attempt at a recipe in one step and returns the identifier
    /// of its record; see `craft`. Where the attempt is refused, nothing
    /// changes and no record is kept.
    pub fn craft(
        &mut self,
        recipe_id: u64,
        crafter: Address,
        supplied: Vec<MaterialInput>,
        payment_amount: u64,
        env: &CraftEnvironment,
    ) -> (result: Result<u64, CraftingError>)
        requires
            old(self).well_formed(),
        ensures
            final(self).well_formed(),
            final(self).config == old(self).config,
            final(self).registry@ == old(self).registry@,
            (match craft_by_id_error(
                old(self).config,
                old(self).registry@,
                recipe_id,
                profile_or_fresh(old(self).tracker@, crafter, env.timestamp),
                old(self).ledger.balances_of(crafter),
                supplied@,
                payment_amount,
                *env,
            ) {
                Some(e) => result == Err::<u64, CraftingError>(e)
                    && final(self).records() == old(self).records()
                    && final(self).tracker@ == old(self).tracker@
                    && final(self).ledger.same_balances(&old(self).ledger),
                None => result == Ok::<u64, CraftingError>(old(self).records().len() as u64)
                    && final(self).records() == old(self).records().push(
                    crafted_record(
                        old(self).registry@.recipes[recipe_id as int],
                        profile_or_fresh(old(self).tracker@, crafter, env.timestamp),
                        supplied@,
                        *env,
                    ),
                ) && final(self).tracker@ == old(self).tracker@.insert(
                    crafter,
                    resolved_stats(
                        old(self).registry@.recipes[recipe_id as int],
                        profile_or_fresh(old(self).tracker@, crafter, env.timestamp),
                        *env,
                    ),
                ) && debited(
                    &old(self).ledger,
                    &final(self).ledger,
                    crafter,
                    old(self).registry@.recipes[recipe_id as int].ingredients,
                ),
            }),
    {
        let recipe = match self.registry.get(recipe_id) {
            Some(r) => r,
            None => {
                return Err(CraftingError::InvalidRecipe);
            },
        };
        let mut stats = self.tracker.profile_or_new(&crafter, env.timestamp);
        let record = match craft(
            &self.config,
            recipe,
            &mut stats,
            &mut self.ledger,
            supplied,
            payment_amount,
            env,
        ) {
            Ok(r) => r,
            Err(e) => {
                return Err(e);
            },
        };
        self.tracker.put(stats);
        let id = self.records.len() as u64;
        let ghost added = record@;
        self.records.push(record);
        assert(self.records() =~= old(self).records().push(added));
        Ok(id)
    }
}

/// Records of which one at most has changed are the old records with that
/// one replaced.
proof fn lemma_one_record_changed(before: Seq<CraftingRecordView>, after: Seq<CraftingRecordView>, id: int)
    requires
        0 <= id < before.len(),
        after.len() == before.len(),
        forall|j: int| 0 <= j < before.len() && j != id ==> after[j] == before[j],
    ensures
        after == before.update(id, after[id]),
        after[id] == before[id] ==> after == before,
{
    assert(after =~= before.update(id, after[id]));
    if after[id] == before[id] {
        assert(after =~= before);
    }
}

} // verus!
