use magicvial::address::Address;
use magicvial::config::{calculate_fee, initialize, set_pause_state, CraftingConfig};
use magicvial::crafting::{
    cancel_crafting, complete_crafting, consume_materials, craft, is_supplied, start_crafting,
    verify_materials, CraftEnvironment, CraftingRecord, CraftingStatus, MaterialInput, MintRequest,
};
use magicvial::errors::{CraftingError, ErrorKind};
use magicvial::ledger::MaterialLedger;
use magicvial::progression::CrafterStats;
use magicvial::recipe::{
    approve_recipe, create_recipe, disable_recipe, record_crafting_attempt, Recipe, RecipeParams,
};

fn id(tag: u8) -> Address {
    Address::new([tag; 32])
}

const AUTHORITY: u8 = 100;
const FEE: u64 = 500_000;

fn crafter() -> Address {
    Address::new([0u8; 32])
}

fn config() -> CraftingConfig {
    initialize(id(AUTHORITY), id(99), 10).unwrap()
}

fn recipe_with(kinds: Vec<Address>, amounts: Vec<u64>) -> Recipe {
    let params = RecipeParams {
        name: String::from("Elixir"),
        description: String::from("Restores"),
        recipe_type: 1,
        difficulty: 5,
        success_rate: 50,
        uri: String::new(),
        material_types: kinds,
        material_amounts: amounts,
        result_types: vec![id(50), id(51)],
        result_weights: vec![10, 90],
        is_secret: false,
        hints: vec![],
    };
    create_recipe(params, 3, id(AUTHORITY), id(AUTHORITY), 0).unwrap()
}

fn recipe() -> Recipe {
    recipe_with(vec![id(1), id(2)], vec![5, 3])
}

fn supplied() -> Vec<MaterialInput> {
    vec![
        MaterialInput { material_mint: id(1), amount: 5 },
        MaterialInput { material_mint: id(2), amount: 3 },
    ]
}

fn ledger(first: u64, second: u64) -> MaterialLedger {
    let mut ledger = MaterialLedger::new();
    ledger.credit(crafter(), id(1), first).unwrap();
    ledger.credit(crafter(), id(2), second).unwrap();
    ledger
}

fn environment(first_byte: u8) -> CraftEnvironment {
    let mut hash = [0u8; 32];
    hash[0] = first_byte;
    CraftEnvironment {
        recent_blockhash: Address::new(hash),
        timestamp: 0,
        material_bonus: 0,
        guild_boost: None,
        time_of_day_bonus: 0,
        is_seasonal_event: false,
    }
}

fn started() -> CraftingRecord {
    start_crafting(&config(), &recipe(), crafter(), supplied(), FEE, 10).unwrap()
}

fn consumed(ledger: &mut MaterialLedger) -> CraftingRecord {
    let mut record = started();
    verify_materials(&mut record, &recipe(), ledger).unwrap();
    consume_materials(&mut record, &recipe(), ledger).unwrap();
    record
}

#[test]
fn started_record_is_created() {
    let record = started();
    assert_eq!(record.crafter, crafter());
    assert_eq!(record.recipe, 3);
    assert_eq!(record.start_time, 10);
    assert_eq!(record.completion_time, None);
    assert_eq!(record.status, CraftingStatus::Created);
    assert!(!record.materials_verified);
    assert!(!record.materials_consumed);
    assert_eq!(record.input_materials, supplied());
    assert_eq!(record.calculated_success_rate, 0);
    assert!(!record.success);
    assert_eq!(record.result_type, None);
    assert_eq!(record.result_rarity, 0);
    assert!(!record.is_critical_success);
    assert!(!record.is_interesting_failure);
    assert_eq!(record.guild, None);
    assert_eq!(record.mint_request(), None);
}

#[test]
fn start_asks_for_the_fee() {
    assert_eq!(calculate_fee(recipe().difficulty, config().fee_percentage), FEE);
    assert_eq!(
        start_crafting(&config(), &recipe(), crafter(), supplied(), FEE - 1, 10),
        Err(CraftingError::InsufficientFee)
    );
    assert!(start_crafting(&config(), &recipe(), crafter(), supplied(), FEE, 10).is_ok());
    assert!(start_crafting(&config(), &recipe(), crafter(), supplied(), u64::MAX, 10).is_ok());
    assert_eq!(CraftingError::InsufficientFee.kind(), ErrorKind::Validation);
}

#[test]
fn start_asks_for_as_many_materials_as_the_recipe_requires() {
    let mut one = supplied();
    one.pop();
    assert_eq!(
        start_crafting(&config(), &recipe(), crafter(), one, FEE, 10),
        Err(CraftingError::MaterialMismatch)
    );
    let mut three = supplied();
    three.push(MaterialInput { material_mint: id(7), amount: 1 });
    assert_eq!(
        start_crafting(&config(), &recipe(), crafter(), three, FEE, 10),
        Err(CraftingError::MaterialMismatch)
    );
    assert_eq!(CraftingError::MaterialMismatch.kind(), ErrorKind::Validation);
}

#[test]
fn start_asks_for_an_approved_and_enabled_recipe() {
    let params = RecipeParams {
        name: String::new(),
        description: String::new(),
        recipe_type: 1,
        difficulty: 5,
        success_rate: 50,
        uri: String::new(),
        material_types: vec![id(1), id(2)],
        material_amounts: vec![5, 3],
        result_types: vec![id(50)],
        result_weights: vec![1],
        is_secret: false,
        hints: vec![],
    };
    let mut pending = create_recipe(params, 3, id(7), id(AUTHORITY), 0).unwrap();
    assert_eq!(
        start_crafting(&config(), &pending, crafter(), supplied(), FEE, 10),
        Err(CraftingError::RecipeNotApproved)
    );
    approve_recipe(&mut pending, id(AUTHORITY)).unwrap();
    assert!(start_crafting(&config(), &pending, crafter(), supplied(), FEE, 10).is_ok());
    disable_recipe(&mut pending, id(7), false).unwrap();
    assert_eq!(
        start_crafting(&config(), &pending, crafter(), supplied(), FEE, 10),
        Err(CraftingError::RecipeDisabled)
    );
    assert_eq!(CraftingError::RecipeNotApproved.kind(), ErrorKind::Policy);
    assert_eq!(CraftingError::RecipeDisabled.kind(), ErrorKind::Policy);
}

#[test]
fn start_is_refused_while_crafting_is_paused() {
    let mut paused = config();
    set_pause_state(&mut paused, id(AUTHORITY), true).unwrap();
    assert_eq!(
        start_crafting(&paused, &recipe(), crafter(), supplied(), FEE, 10),
        Err(CraftingError::CraftingPaused)
    );
    assert_eq!(CraftingError::CraftingPaused.kind(), ErrorKind::Policy);
}

#[test]
fn start_reports_the_first_obstacle() {
    let mut paused = config();
    set_pause_state(&mut paused, id(AUTHORITY), true).unwrap();
    let mut disabled = recipe();
    disable_recipe(&mut disabled, id(AUTHORITY), false).unwrap();
    assert_eq!(
        start_crafting(&paused, &disabled, crafter(), vec![], 0, 10),
        Err(CraftingError::CraftingPaused)
    );
    assert_eq!(
        start_crafting(&config(), &disabled, crafter(), vec![], 0, 10),
        Err(CraftingError::RecipeDisabled)
    );
    assert_eq!(
        start_crafting(&config(), &recipe(), crafter(), vec![], 0, 10),
        Err(CraftingError::MaterialMismatch)
    );
}

#[test]
fn verify_moves_the_record_to_verified() {
    let mut record = started();
    let ledger = ledger(5, 3);
    assert_eq!(verify_materials(&mut record, &recipe(), &ledger), Ok(()));
    assert_eq!(record.status, CraftingStatus::MaterialsVerified);
    assert!(record.materials_verified);
    assert!(!record.materials_consumed);
    assert_eq!(record.input_materials, supplied());
    assert_eq!(ledger.balance(&crafter(), &id(1)), 5);
    assert_eq!(ledger.balance(&crafter(), &id(2)), 3);
}

#[test]
fn verify_twice_changes_nothing_and_reserves_nothing() {
    let mut record = started();
    let ledger = ledger(5, 3);
    assert_eq!(verify_materials(&mut record, &recipe(), &ledger), Ok(()));
    let after_first = record.clone();
    assert_eq!(verify_materials(&mut record, &recipe(), &ledger), Ok(()));
    assert_eq!(record, after_first);
    assert_eq!(ledger.balance(&crafter(), &id(1)), 5);
    assert_eq!(ledger.balance(&crafter(), &id(2)), 3);
}

#[test]
fn verify_reports_the_balance_that_is_too_low() {
    let mut record = started();
    let before = record.clone();
    let low = ledger(5, 2);
    let result = verify_materials(&mut record, &recipe(), &low);
    assert_eq!(
        result,
        Err(CraftingError::InsufficientMaterialBalance { kind: id(2), required: 3, available: 2 })
    );
    assert_eq!(result.unwrap_err().kind(), ErrorKind::Resource);
    assert_eq!(record, before);
    assert_eq!(record.status, CraftingStatus::Created);
    // the first unmet requirement is the one reported
    let lower = ledger(4, 2);
    assert_eq!(
        verify_materials(&mut record, &recipe(), &lower),
        Err(CraftingError::InsufficientMaterialBalance { kind: id(1), required: 5, available: 4 })
    );
    assert_eq!(
        verify_materials(&mut record, &recipe(), &MaterialLedger::new()),
        Err(CraftingError::InsufficientMaterialBalance { kind: id(1), required: 5, available: 0 })
    );
}

#[test]
fn verify_reports_the_material_that_is_not_supplied() {
    let other = vec![
        MaterialInput { material_mint: id(1), amount: 5 },
        MaterialInput { material_mint: id(9), amount: 3 },
    ];
    let mut record = start_crafting(&config(), &recipe(), crafter(), other, FEE, 10).unwrap();
    let result = verify_materials(&mut record, &recipe(), &ledger(5, 3));
    assert_eq!(result, Err(CraftingError::MissingMaterials { kind: id(2) }));
    assert_eq!(result.unwrap_err().kind(), ErrorKind::Resource);
    assert_eq!(record.status, CraftingStatus::Created);
    assert!(is_supplied(&record.input_materials, &id(9)));
    assert!(!is_supplied(&record.input_materials, &id(2)));
}

#[test]
fn verify_is_refused_for_another_recipe() {
    let mut record = started();
    let mut other = recipe();
    other.recipe_id = 4;
    assert_eq!(verify_materials(&mut record, &other, &ledger(5, 3)), Err(CraftingError::InvalidRecipe));
    assert_eq!(record.status, CraftingStatus::Created);
}

#[test]
fn consume_debits_what_the_recipe_requires() {
    let mut record = started();
    let mut ledger = ledger(8, 3);
    ledger.credit(id(77), id(1), 40).unwrap();
    verify_materials(&mut record, &recipe(), &ledger).unwrap();
    assert_eq!(consume_materials(&mut record, &recipe(), &mut ledger), Ok(()));
    assert_eq!(record.status, CraftingStatus::MaterialsConsumed);
    assert!(record.materials_verified);
    assert!(record.materials_consumed);
    assert_eq!(ledger.balance(&crafter(), &id(1)), 3);
    assert_eq!(ledger.balance(&crafter(), &id(2)), 0);
    assert_eq!(ledger.balance(&id(77), &id(1)), 40);
}

#[test]
fn consume_before_verify_is_refused() {
    let mut record = started();
    let mut ledger = ledger(5, 3);
    let result = consume_materials(&mut record, &recipe(), &mut ledger);
    assert_eq!(result, Err(CraftingError::MaterialsNotVerified));
    assert_eq!(result.unwrap_err().kind(), ErrorKind::State);
    assert_eq!(record.status, CraftingStatus::Created);
    assert_eq!(ledger.balance(&crafter(), &id(1)), 5);
}

#[test]
fn consume_twice_fails_with_a_state_error() {
    let mut ledger = ledger(50, 30);
    let mut record = consumed(&mut ledger);
    let after_first = record.clone();
    let result = consume_materials(&mut record, &recipe(), &mut ledger);
    assert_eq!(result, Err(CraftingError::InvalidCraftingStatus));
    assert_eq!(result.unwrap_err().kind(), ErrorKind::State);
    assert_eq!(record, after_first);
    assert_eq!(ledger.balance(&crafter(), &id(1)), 45);
    assert_eq!(ledger.balance(&crafter(), &id(2)), 27);
}

#[test]
fn consume_that_fails_at_its_second_debit_removes_nothing() {
    let mut record = started();
    let mut ledger = ledger(5, 3);
    verify_materials(&mut record, &recipe(), &ledger).unwrap();
    // between the two steps the crafter parts with one unit of the second material
    ledger.debit(crafter(), id(2), 1).unwrap();
    let before = record.clone();
    let result = consume_materials(&mut record, &recipe(), &mut ledger);
    assert_eq!(
        result,
        Err(CraftingError::InsufficientMaterialBalance { kind: id(2), required: 3, available: 2 })
    );
    assert_eq!(result.unwrap_err().kind(), ErrorKind::Resource);
    assert_eq!(ledger.balance(&crafter(), &id(1)), 5);
    assert_eq!(ledger.balance(&crafter(), &id(2)), 2);
    assert_eq!(record, before);
    assert_eq!(record.status, CraftingStatus::MaterialsVerified);
    // after a top-up the same record can be consumed
    ledger.credit(crafter(), id(2), 1).unwrap();
    assert_eq!(consume_materials(&mut record, &recipe(), &mut ledger), Ok(()));
    assert_eq!(ledger.balance(&crafter(), &id(1)), 0);
    assert_eq!(ledger.balance(&crafter(), &id(2)), 0);
}

#[test]
fn consume_of_a_kind_required_twice_fails_where_the_sum_is_not_held() {
    let twice = recipe_with(vec![id(1), id(1)], vec![5, 5]);
    let inputs = vec![
        MaterialInput { material_mint: id(1), amount: 5 },
        MaterialInput { material_mint: id(1), amount: 5 },
    ];
    let mut record = start_crafting(&config(), &twice, crafter(), inputs, FEE, 10).unwrap();
    let mut ledger = ledger(7, 0);
    // every requirement alone is met
    assert_eq!(verify_materials(&mut record, &twice, &ledger), Ok(()));
    assert_eq!(
        consume_materials(&mut record, &twice, &mut ledger),
        Err(CraftingError::InsufficientMaterialBalance { kind: id(1), required: 5, available: 2 })
    );
    assert_eq!(ledger.balance(&crafter(), &id(1)), 7);
    assert_eq!(record.status, CraftingStatus::MaterialsVerified);
}

#[test]
fn complete_before_consume_is_refused() {
    let mut stats = CrafterStats::new(crafter(), 0);
    let mut record = started();
    let result = complete_crafting(&mut record, &recipe(), &mut stats, &environment(0));
    assert_eq!(result, Err(CraftingError::MaterialsNotConsumed));
    assert_eq!(result.unwrap_err().kind(), ErrorKind::State);
    verify_materials(&mut record, &recipe(), &ledger(5, 3)).unwrap();
    assert_eq!(
        complete_crafting(&mut record, &recipe(), &mut stats, &environment(0)),
        Err(CraftingError::MaterialsNotConsumed)
    );
    assert_eq!(record.status, CraftingStatus::MaterialsVerified);
    assert_eq!(stats, CrafterStats::new(crafter(), 0));
}

#[test]
fn complete_on_a_success() {
    let mut ledger = ledger(5, 3);
    let mut record = consumed(&mut ledger);
    let mut stats = CrafterStats::new(crafter(), 0);
    stats.join_guild(id(60));
    let mut env = environment(0);
    env.timestamp = 0;
    assert_eq!(complete_crafting(&mut record, &recipe(), &mut stats, &env), Ok(()));
    assert_eq!(record.status, CraftingStatus::Completed);
    assert_eq!(record.completion_time, Some(0));
    // base rate 50 and level 1
    assert_eq!(record.calculated_success_rate, 51);
    assert!(record.success);
    // the roll is 0x0100 = 256, 256 % 100 = 56: the second result
    assert_eq!(record.result_type, Some(id(51)));
    // bytes 2 and 3 of the stream are 0: critical, tier 3
    assert!(record.is_critical_success);
    assert_eq!(record.result_rarity, 3);
    assert!(!record.is_interesting_failure);
    assert_eq!(record.guild, Some(id(60)));
    assert_eq!(record.start_time, 10);
    assert!(record.materials_consumed);
    // difficulty 5: 50 points, half as much again for the critical success
    assert_eq!(stats.experience_points, 75);
    assert_eq!(stats.successful_crafts, 1);
    assert_eq!(stats.failed_crafts, 0);
    assert_eq!(stats.success_streak, 1);
    assert_eq!(stats.experience_level, 1);
    assert_eq!(
        record.mint_request(),
        Some(MintRequest { owner: crafter(), kind: id(51), rarity: 3 })
    );
}

#[test]
fn complete_on_an_ordinary_success() {
    let mut ledger = ledger(5, 3);
    let mut record = consumed(&mut ledger);
    let mut stats = CrafterStats::new(crafter(), 0);
    let mut hash = [0u8; 32];
    hash[0] = 1;
    hash[1] = 5;
    hash[2] = 11;
    hash[3] = 230;
    let env = CraftEnvironment {
        recent_blockhash: Address::new(hash),
        timestamp: 0,
        material_bonus: 5,
        guild_boost: Some(3),
        time_of_day_bonus: 2,
        is_seasonal_event: true,
    };
    assert_eq!(complete_crafting(&mut record, &recipe(), &mut stats, &env), Ok(()));
    assert_eq!(record.status, CraftingStatus::Completed);
    // 50 + 1 + 5 + 3 + 2 + 10
    assert_eq!(record.calculated_success_rate, 71);
    // the roll is ((1 ^ 1) << 8) | 5 = 5: the first result
    assert_eq!(record.result_type, Some(id(50)));
    // byte 2 is 11, the threshold of level 1 is 11: not critical; byte 3 is 230: tier 4
    assert!(!record.is_critical_success);
    assert_eq!(record.result_rarity, 4);
    assert_eq!(stats.experience_points, 50);
    assert_eq!(stats.success_streak, 1);
}

#[test]
fn complete_on_a_failure() {
    let mut ledger = ledger(5, 3);
    let mut record = consumed(&mut ledger);
    let mut stats = CrafterStats::new(crafter(), 0);
    stats.success_streak = 6;
    let env = environment(255);
    assert_eq!(complete_crafting(&mut record, &recipe(), &mut stats, &env), Ok(()));
    assert_eq!(record.status, CraftingStatus::Failed);
    assert_eq!(record.completion_time, Some(0));
    // base rate 50, level 1, streak 6
    assert_eq!(record.calculated_success_rate, 54);
    assert!(!record.success);
    assert_eq!(record.result_type, None);
    assert_eq!(record.result_rarity, 0);
    assert!(!record.is_critical_success);
    // byte 4 of the stream is 0, the threshold of difficulty 5 is 15
    assert!(record.is_interesting_failure);
    assert_eq!(stats.experience_points, 25);
    assert_eq!(stats.failed_crafts, 1);
    assert_eq!(stats.successful_crafts, 0);
    assert_eq!(stats.success_streak, 0);
    assert_eq!(record.mint_request(), None);
    // the materials stay consumed
    assert_eq!(ledger.balance(&crafter(), &id(1)), 0);
}

#[test]
fn complete_on_a_dull_failure() {
    let mut ledger = ledger(5, 3);
    let mut record = consumed(&mut ledger);
    let mut stats = CrafterStats::new(crafter(), 0);
    let mut env = environment(255);
    let mut hash = env.recent_blockhash.to_bytes();
    hash[4] = 15;
    env.recent_blockhash = Address::new(hash);
    assert_eq!(complete_crafting(&mut record, &recipe(), &mut stats, &env), Ok(()));
    assert_eq!(record.status, CraftingStatus::Failed);
    assert!(!record.is_interesting_failure);
}

#[test]
fn complete_uses_the_familiarity_with_the_recipe() {
    let mut ledger = ledger(5, 3);
    let mut record = consumed(&mut ledger);
    let mut stats = CrafterStats::new(crafter(), 0);
    let mut known = recipe();
    let mut i = 0;
    while i < 30 {
        record_crafting_attempt(&mut known, id(AUTHORITY), id(AUTHORITY), true).unwrap();
        i += 1;
    }
    assert_eq!(complete_crafting(&mut record, &known, &mut stats, &environment(0)), Ok(()));
    assert_eq!(record.calculated_success_rate, 54);
}

#[test]
fn complete_raises_the_level_at_the_threshold_and_resets_the_streak() {
    let mut ledger = ledger(5, 3);
    let mut record = consumed(&mut ledger);
    let mut stats = CrafterStats::new(crafter(), 0);
    stats.experience_points = 1925;
    stats.success_streak = 4;
    assert_eq!(complete_crafting(&mut record, &recipe(), &mut stats, &environment(0)), Ok(()));
    assert!(record.is_critical_success);
    assert_eq!(stats.experience_points, 2000);
    assert_eq!(stats.experience_level, 2);
    assert_eq!(stats.success_streak, 0);
    // the rolls were made at the level and streak before the outcome
    assert_eq!(record.calculated_success_rate, 53);
}

#[test]
fn complete_twice_is_refused_and_counts_once() {
    let mut ledger = ledger(5, 3);
    let mut record = consumed(&mut ledger);
    let mut stats = CrafterStats::new(crafter(), 0);
    complete_crafting(&mut record, &recipe(), &mut stats, &environment(0)).unwrap();
    let record_after = record.clone();
    let stats_after = stats;
    let result = complete_crafting(&mut record, &recipe(), &mut stats, &environment(255));
    assert_eq!(result, Err(CraftingError::InvalidCraftingStatus));
    assert_eq!(result.unwrap_err().kind(), ErrorKind::State);
    assert_eq!(record, record_after);
    assert_eq!(stats, stats_after);
    // nothing else moves a terminal record either
    assert_eq!(
        verify_materials(&mut record, &recipe(), &ledger),
        Err(CraftingError::InvalidCraftingStatus)
    );
    assert_eq!(
        consume_materials(&mut record, &recipe(), &mut ledger),
        Err(CraftingError::InvalidCraftingStatus)
    );
    assert_eq!(cancel_crafting(&mut record, i64::MAX, 0), Err(CraftingError::InvalidCraftingStatus));
    assert_eq!(record, record_after);
}

#[test]
fn complete_is_refused_for_another_crafter_or_recipe() {
    let mut ledger = ledger(5, 3);
    let mut record = consumed(&mut ledger);
    let mut stranger = CrafterStats::new(id(9), 0);
    assert_eq!(
        complete_crafting(&mut record, &recipe(), &mut stranger, &environment(0)),
        Err(CraftingError::UnauthorizedAccess)
    );
    let mut other = recipe();
    other.recipe_id = 8;
    let mut stats = CrafterStats::new(crafter(), 0);
    assert_eq!(
        complete_crafting(&mut record, &other, &mut stats, &environment(0)),
        Err(CraftingError::InvalidRecipe)
    );
    assert_eq!(record.status, CraftingStatus::MaterialsConsumed);
    assert_eq!(stranger, CrafterStats::new(id(9), 0));
}

#[test]
fn complete_that_would_overflow_a_counter_changes_nothing() {
    let mut ledger = ledger(5, 3);
    let mut record = consumed(&mut ledger);
    let mut stats = CrafterStats::new(crafter(), 0);
    stats.experience_points = u64::MAX - 10;
    let before = record.clone();
    let stats_before = stats;
    let result = complete_crafting(&mut record, &recipe(), &mut stats, &environment(0));
    assert_eq!(result, Err(CraftingError::ArithmeticOverflow));
    assert_eq!(result.unwrap_err().kind(), ErrorKind::Arithmetic);
    assert_eq!(record, before);
    assert_eq!(stats, stats_before);
}

#[test]
fn attempt_in_one_step_equals_the_four_steps() {
    let envs = [environment(0), environment(130), environment(255)];
    let mut e: usize = 0;
    while e < envs.len() {
        let mut env = envs[e];
        env.timestamp = 10;
        env.material_bonus = 4;
        // the four steps
        let mut ledger_a = ledger(9, 4);
        let mut stats_a = CrafterStats::new(crafter(), 0);
        let mut record_a =
            start_crafting(&config(), &recipe(), crafter(), supplied(), FEE, 10).unwrap();
        verify_materials(&mut record_a, &recipe(), &ledger_a).unwrap();
        consume_materials(&mut record_a, &recipe(), &mut ledger_a).unwrap();
        complete_crafting(&mut record_a, &recipe(), &mut stats_a, &env).unwrap();
        // one step
        let mut ledger_b = ledger(9, 4);
        let mut stats_b = CrafterStats::new(crafter(), 0);
        let record_b =
            craft(&config(), &recipe(), &mut stats_b, &mut ledger_b, supplied(), FEE, &env).unwrap();
        assert_eq!(record_a, record_b);
        assert_eq!(stats_a, stats_b);
        assert_eq!(ledger_b.balance(&crafter(), &id(1)), 4);
        assert_eq!(ledger_b.balance(&crafter(), &id(2)), 1);
        assert_eq!(ledger_a.balance(&crafter(), &id(1)), ledger_b.balance(&crafter(), &id(1)));
        assert_eq!(ledger_a.balance(&crafter(), &id(2)), ledger_b.balance(&crafter(), &id(2)));
        e += 1;
    }
}

#[test]
fn attempt_in_one_step_succeeds_or_fails_by_the_roll() {
    let mut ledger_ok = ledger(5, 3);
    let mut stats = CrafterStats::new(crafter(), 0);
    let record =
        craft(&config(), &recipe(), &mut stats, &mut ledger_ok, supplied(), FEE, &environment(0)).unwrap();
    assert_eq!(record.status, CraftingStatus::Completed);
    assert_eq!(record.start_time, 0);
    assert_eq!(record.completion_time, Some(0));
    assert_eq!(stats.successful_crafts, 1);
    let mut ledger_fail = ledger(5, 3);
    let record =
        craft(&config(), &recipe(), &mut stats, &mut ledger_fail, supplied(), FEE, &environment(255))
            .unwrap();
    assert_eq!(record.status, CraftingStatus::Failed);
    assert_eq!(stats.failed_crafts, 1);
    assert_eq!(stats.success_streak, 0);
    assert_eq!(ledger_fail.balance(&crafter(), &id(1)), 0);
}

#[test]
fn attempt_in_one_step_that_is_refused_changes_nothing() {
    let mut stats = CrafterStats::new(crafter(), 0);
    let fresh = stats;
    // the fee
    let mut l = ledger(5, 3);
    assert_eq!(
        craft(&config(), &recipe(), &mut stats, &mut l, supplied(), FEE - 1, &environment(0)),
        Err(CraftingError::InsufficientFee)
    );
    // a balance that is too low
    let mut l = ledger(5, 2);
    assert_eq!(
        craft(&config(), &recipe(), &mut stats, &mut l, supplied(), FEE, &environment(0)),
        Err(CraftingError::InsufficientMaterialBalance { kind: id(2), required: 3, available: 2 })
    );
    assert_eq!(l.balance(&crafter(), &id(1)), 5);
    assert_eq!(l.balance(&crafter(), &id(2)), 2);
    // a counter that would overflow: the materials stay
    let mut l = ledger(5, 3);
    let mut full = CrafterStats::new(crafter(), 0);
    full.successful_crafts = u64::MAX;
    let full_before = full;
    assert_eq!(
        craft(&config(), &recipe(), &mut full, &mut l, supplied(), FEE, &environment(0)),
        Err(CraftingError::ArithmeticOverflow)
    );
    assert_eq!(l.balance(&crafter(), &id(1)), 5);
    assert_eq!(l.balance(&crafter(), &id(2)), 3);
    assert_eq!(full, full_before);
    assert_eq!(stats, fresh);
}

#[test]
fn cancel_after_the_timeout() {
    let mut record = started();
    assert_eq!(cancel_crafting(&mut record, 109, 100), Err(CraftingError::CancelTooEarly));
    assert_eq!(record.status, CraftingStatus::Created);
    assert_eq!(cancel_crafting(&mut record, 110, 100), Ok(()));
    assert_eq!(record.status, CraftingStatus::Cancelled);
    assert_eq!(record.completion_time, Some(110));
    assert_eq!(cancel_crafting(&mut record, 500, 100), Err(CraftingError::InvalidCraftingStatus));
    assert_eq!(CraftingError::CancelTooEarly.kind(), ErrorKind::Policy);
    assert!(record.status.terminal());
    assert!(!CraftingStatus::MaterialsConsumed.terminal());
}

#[test]
fn cancel_of_a_verified_record_takes_nothing() {
    let mut record = started();
    let ledger = ledger(5, 3);
    verify_materials(&mut record, &recipe(), &ledger).unwrap();
    assert_eq!(cancel_crafting(&mut record, i64::MAX, i64::MAX), Err(CraftingError::CancelTooEarly));
    assert_eq!(cancel_crafting(&mut record, i64::MAX, 1), Ok(()));
    assert_eq!(record.status, CraftingStatus::Cancelled);
    assert!(!record.materials_consumed);
    assert_eq!(ledger.balance(&crafter(), &id(1)), 5);
    assert_eq!(ledger.balance(&crafter(), &id(2)), 3);
}

#[test]
fn cancel_after_consumption_is_refused() {
    let mut ledger = ledger(5, 3);
    let mut record = consumed(&mut ledger);
    assert_eq!(cancel_crafting(&mut record, i64::MAX, 0), Err(CraftingError::InvalidCraftingStatus));
    assert_eq!(record.status, CraftingStatus::MaterialsConsumed);
}

#[test]
fn cancel_counts_the_wait_without_overflow() {
    let mut record = start_crafting(&config(), &recipe(), crafter(), supplied(), FEE, i64::MIN).unwrap();
    assert_eq!(cancel_crafting(&mut record, i64::MAX, i64::MAX), Ok(()));
    let mut record = start_crafting(&config(), &recipe(), crafter(), supplied(), FEE, i64::MAX).unwrap();
    assert_eq!(cancel_crafting(&mut record, i64::MIN, i64::MIN), Err(CraftingError::CancelTooEarly));
    assert_eq!(cancel_crafting(&mut record, i64::MIN, -1), Err(CraftingError::CancelTooEarly));
}

#[test]
fn standard_bonuses() {
    assert_eq!(magicvial::crafting::get_material_bonus(&supplied()), 5);
    assert_eq!(magicvial::crafting::get_material_bonus(&Vec::new()), 5);
    assert_eq!(magicvial::crafting::get_time_of_day_bonus(), 2);
}
