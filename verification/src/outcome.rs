use vstd::prelude::*;
use crate::address::Address;
use crate::entropy::{EntropySource, SALT_FAILURE, SALT_RARITY, SALT_SUCCESS};
use crate::success::{roll_success, roll_success_spec};

verus! {

/// Position in the stream of the byte that decides success.
pub const SUCCESS_BYTE: usize = 0;

/// Position in the stream of the byte that decides a critical success.
pub const CRITICAL_BYTE: usize = 2;

/// Position in the stream of the byte that decides the rarity tier.
pub const RARITY_BYTE: usize = 3;

/// Position in the stream of the byte that decides an interesting failure.
pub const FAILURE_BYTE: usize = 4;

/// One possible result of a recipe, with the weight of its chance.
#[derive(Clone, Copy, Debug, PartialEq, Eq)]
pub struct WeightedResult {
    pub result_type: Address,
    pub weight: u8,
}

/// The sum of the weights of the first `n` candidates.
pub open spec fn cumulative_weight(candidates: Seq<WeightedResult>, n: int) -> int
    decreases n,
{
    if n <= 0 {
        0
    } else {
        cumulative_weight(candidates, n - 1) + candidates[n - 1].weight
    }
}

/// The sum of the weights of all candidates.
pub open spec fn total_weight_spec(candidates: Seq<WeightedResult>) -> int {
    cumulative_weight(candidates, candidates.len() as int)
}

/// Whether `index` is the candidate that a roll selects: the first one whose
/// cumulative weight exceeds the roll.
pub open spec fn selects(candidates: Seq<WeightedResult>, roll: int, index: int) -> bool {
    &&& 0 <= index < candidates.len()
    &&& cumulative_weight(candidates, index) <= roll
    &&& roll < cumulative_weight(candidates, index + 1)
}

/// The roll that a random value gives over a list of candidates.
pub open spec fn weighted_roll(candidates: Seq<WeightedResult>, random: u16) -> int {
    random as int % total_weight_spec(candidates)
}

/// The position of the candidate that a roll selects.
pub open spec fn selected_index(candidates: Seq<WeightedResult>, roll: int) -> int {
    choose|i: int| selects(candidates, roll, i)
}

/// The kind of the candidate that a random value selects.
pub open spec fn selected_kind(candidates: Seq<WeightedResult>, random: u16) -> Address {
    candidates[selected_index(candidates, weighted_roll(candidates, random))].result_type
}

/// Cumulative weights never fall as more candidates are counted.
pub proof fn lemma_cumulative_weight_monotonic(candidates: Seq<WeightedResult>, i: int, j: int)
    requires
        0 <= i <= j,
    ensures
        0 <= cumulative_weight(candidates, i) <= cumulative_weight(candidates, j),
        cumulative_weight(candidates, j) <= 255 * j,
    decreases j,
{
    if j > 0 {
        if i < j {
            lemma_cumulative_weight_monotonic(candidates, i, j - 1);
        } else {
            lemma_cumulative_weight_monotonic(candidates, i - 1, j - 1);
        }
    }
}

/// A roll selects at most one candidate.
pub proof fn lemma_selection_unique(candidates: Seq<WeightedResult>, roll: int, i: int, j: int)
    requires
        selects(candidates, roll, i),
        selects(candidates, roll, j),
    ensures
        i == j,
{
    if i < j {
        lemma_cumulative_weight_monotonic(candidates, i + 1, j);
    } else if j < i {
        lemma_cumulative_weight_monotonic(candidates, j + 1, i);
    }
}

/// Every roll below the total weight selects a candidate, and that candidate
/// has a weight above zero.
pub proof fn lemma_selection_exists(candidates: Seq<WeightedResult>, roll: int)
    requires
        0 <= roll < total_weight_spec(candidates),
    ensures
        exists|i: int| selects(candidates, roll, i) && (#[trigger] candidates[i]).weight > 0,
{
    lemma_selection_below(candidates, roll, candidates.len() as int);
}

proof fn lemma_selection_below(candidates: Seq<WeightedResult>, roll: int, n: int)
    requires
        0 <= n <= candidates.len(),
        0 <= roll < cumulative_weight(candidates, n),
    ensures
        exists|i: int| selects(candidates, roll, i) && (#[trigger] candidates[i]).weight > 0,
    decreases n,
{
    if cumulative_weight(candidates, n - 1) <= roll {
        assert(selects(candidates, roll, n - 1) && candidates[n - 1].weight > 0);
    } else {
        lemma_selection_below(candidates, roll, n - 1);
    }
}

/// Adds up the weights of the candidates.
pub fn total_weight(candidates: &Vec<WeightedResult>) -> (total: u128)
    ensures
        total == total_weight_spec(candidates@),
{
    let mut total: u128 = 0;
    let mut i: usize = 0;
    while i < candidates.len()
        invariant
            i <= candidates.len(),
            total == cumulative_weight(candidates@, i as int),
            total <= 255 * i,
        decreases candidates.len() - i,
    {
        total = total + candidates[i].weight as u128;
        i += 1;
    }
    total
}

/// Selects a candidate by weight. The roll is the random value modulo the
/// total weight; the candidates are walked in order, and the first whose
/// cumulative weight exceeds the roll is taken, so that of two candidates the
/// one earlier in the list owns the lower rolls.
pub fn select_weighted_index(candidates: &Vec<WeightedResult>, random: u16) -> (index: usize)
    requires
        total_weight_spec(candidates@) > 0,
    ensures
        selects(candidates@, weighted_roll(candidates@, random), index as int),
        index == selected_index(candidates@, weighted_roll(candidates@, random)),
{
    let total: u128 = total_weight(candidates);
    let roll: u128 = (random as u128) % total;
    let mut current: u128 = 0;
    let mut i: usize = 0;
    while i < candidates.len()
        invariant
            i <= candidates.len(),
            current == cumulative_weight(candidates@, i as int),
            current <= roll,
            current <= 255 * i,
            roll < total,
            total == total_weight_spec(candidates@),
            roll == weighted_roll(candidates@, random),
        decreases candidates.len() - i,
    {
        current = current + candidates[i].weight as u128;
        if roll < current {
            proof {
                let chosen = selected_index(candidates@, roll as int);
                assert(selects(candidates@, roll as int, i as int));
                lemma_selection_unique(candidates@, roll as int, i as int, chosen);
            }
            return i;
        }
        i += 1;
    }
    0
}

/// Selects the kind of a result by weight; see `select_weighted_index`.
pub fn select_weighted(candidates: &Vec<WeightedResult>, random: u16) -> (kind: Address)
    requires
        total_weight_spec(candidates@) > 0,
    ensures
        kind == selected_kind(candidates@, random),
{
    let index = select_weighted_index(candidates, random);
    candidates[index].result_type
}

/// Selects the kind of a result by weight after validating the weights:
/// nothing is selected from candidates whose weights sum to zero.
pub fn try_select_weighted(candidates: &Vec<WeightedResult>, random: u16) -> (kind: Option<Address>)
    ensures
        total_weight_spec(candidates@) > 0 ==> kind == Some(selected_kind(candidates@, random)),
        total_weight_spec(candidates@) <= 0 ==> kind is None,
{
    if total_weight(candidates) == 0 {
        return None;
    }
    Some(select_weighted(candidates, random))
}

/// The identifier that stands for a level in the roll for the result's kind:
/// the level in the first byte, zero in the others.
pub open spec fn level_actor(level: u8) -> Seq<u8> {
    Seq::new(32, |i: int| if i == 0 { level } else { 0u8 })
}

/// The 16-bit value that the first two bytes of a stream make, the first
/// byte being the high one.
pub open spec fn roll_u16(data: Seq<u8>) -> u16 {
    (data[0] * 256 + data[1]) as u16
}

/// The random value from which the kind of a result is selected.
pub open spec fn result_roll_spec(recent_blockhash: Seq<u8>, timestamp: i64, crafter_level: u8) -> u16 {
    roll_u16(crate::entropy::derive_spec(recent_blockhash, level_actor(crafter_level), timestamp, SALT_SUCCESS))
}

/// Draws the random value from which the kind of a result is selected: the
/// block hash folded with the time and the crafter's level.
pub fn result_roll(recent_blockhash: Address, timestamp: i64, crafter_level: u8) -> (roll: u16)
    ensures
        roll == result_roll_spec(recent_blockhash@, timestamp, crafter_level),
{
    let mut level_bytes: [u8; 32] = [0u8; 32];
    level_bytes[0] = crafter_level;
    assert(level_bytes@ =~= level_actor(crafter_level));
    let source = EntropySource::new(recent_blockhash.bytes, Address::new(level_bytes), timestamp);
    let data = source.derive(SALT_SUCCESS);
    (data[0] as u16) * 256 + data[1] as u16
}

/// The kind of the result that a crafter of a level draws at a time.
pub open spec fn result_type_spec(
    results: Seq<WeightedResult>,
    recent_blockhash: Seq<u8>,
    timestamp: i64,
    crafter_level: u8,
) -> Address {
    selected_kind(results, result_roll_spec(recent_blockhash, timestamp, crafter_level))
}

/// Selects the kind of a successful result from the recipe's weighted list.
pub fn select_result_type(
    results: &Vec<WeightedResult>,
    recent_blockhash: Address,
    timestamp: i64,
    crafter_level: u8,
) -> (kind: Address)
    requires
        total_weight_spec(results@) > 0,
    ensures
        kind == result_type_spec(results@, recent_blockhash@, timestamp, crafter_level),
{
    let roll = result_roll(recent_blockhash, timestamp, crafter_level);
    select_weighted(results, roll)
}

/// The byte below which a roll is a critical success.
pub open spec fn critical_threshold(level: u8) -> int {
    10 + if level < 245 { level as int } else { 245 }
}

/// Whether a roll is a critical success.
pub open spec fn is_critical_spec(random_byte: u8, level: u8) -> bool {
    random_byte < critical_threshold(level)
}

/// Decides a critical success: the byte must lie below 10 plus the level,
/// the level counting up to 245.
pub fn is_critical(random_byte: u8, level: u8) -> (critical: bool)
    ensures
        critical == is_critical_spec(random_byte, level),
{
    let capped: u8 = if level < 245 { level } else { 245 };
    random_byte < 10 + capped
}

/// The byte below which a failure is an interesting one.
pub open spec fn interesting_threshold(difficulty: u8) -> int {
    13 + difficulty / 2
}

/// Whether a failed attempt is an interesting failure.
pub open spec fn is_interesting_failure_spec(random_byte: u8, difficulty: u8) -> bool {
    random_byte < interesting_threshold(difficulty)
}

/// Decides an interesting failure: the byte must lie below 13 plus half the difficulty.
pub fn is_interesting_failure(random_byte: u8, difficulty: u8) -> (interesting: bool)
    ensures
        interesting == is_interesting_failure_spec(random_byte, difficulty),
{
    random_byte < 13 + difficulty / 2
}

/// By how much the cutoffs of the ordinary tiers move: up by a tenth of the
/// level, down by a twentieth of the difficulty.
pub open spec fn rarity_shift(level: u8, difficulty: u8) -> int {
    level / 10 - difficulty / 20
}

/// The tier of a critical success: 3 on half of the bytes, 4 on two fifths, 5 on the rest.
pub open spec fn critical_rarity(random_byte: u8) -> int {
    if random_byte < 128 {
        3
    } else if random_byte < 230 {
        4
    } else {
        5
    }
}

/// The tier of an ordinary success. The cutoffs 102, 179, 230 and 253 part
/// the bytes into shares of about 40, 30, 20, 9 and 1 percent; all four move
/// by the same shift, so their order never changes.
pub open spec fn ordinary_rarity(random_byte: u8, level: u8, difficulty: u8) -> int {
    let shift = rarity_shift(level, difficulty);
    if random_byte < 102 + shift {
        1
    } else if random_byte < 179 + shift {
        2
    } else if random_byte < 230 + shift {
        3
    } else if random_byte < 253 + shift {
        4
    } else {
        5
    }
}

/// The rarity tier of a successful result.
pub open spec fn select_rarity_spec(random_byte: u8, level: u8, difficulty: u8, is_critical: bool) -> int {
    if is_critical {
        critical_rarity(random_byte)
    } else {
        ordinary_rarity(random_byte, level, difficulty)
    }
}

/// Selects the rarity tier, 1 to 5, of a successful result. A critical
/// success gives tier 3 at least.
pub fn select_rarity(random_byte: u8, level: u8, difficulty: u8, is_critical: bool) -> (tier: u8)
    ensures
        tier == select_rarity_spec(random_byte, level, difficulty, is_critical),
        1 <= tier <= 5,
        is_critical ==> tier >= 3,
{
    let roll: i32 = random_byte as i32;
    if is_critical {
        if roll < 128 {
            3
        } else if roll < 230 {
            4
        } else {
            5
        }
    } else {
        let shift: i32 = (level / 10) as i32 - (difficulty / 20) as i32;
        if roll < 102 + shift {
            1
        } else if roll < 179 + shift {
            2
        } else if roll < 230 + shift {
            3
        } else if roll < 253 + shift {
            4
        } else {
            5
        }
    }
}

/// Whether the attempt of a crafter at a given time succeeds at a rate.
pub open spec fn crafting_success_spec(
    success_rate: u8,
    recent_blockhash: Seq<u8>,
    crafter: Seq<u8>,
    timestamp: i64,
) -> bool {
    roll_success_spec(
        success_rate,
        crate::entropy::derive_spec(recent_blockhash, crafter, timestamp, SALT_SUCCESS)[SUCCESS_BYTE as int],
    )
}

/// Draws the success of an attempt from the block hash, the crafter and the time.
pub fn determine_crafting_success(
    success_rate: u8,
    recent_blockhash: Address,
    crafter: Address,
    timestamp: i64,
) -> (success: bool)
    ensures
        success == crafting_success_spec(success_rate, recent_blockhash@, crafter@, timestamp),
        success_rate == 0 ==> !success,
{
    let source = EntropySource::new(recent_blockhash.bytes, crafter, timestamp);
    let data = source.derive(SALT_SUCCESS);
    roll_success(success_rate, data[SUCCESS_BYTE])
}

/// Whether the success of a crafter at a given time is a critical one.
pub open spec fn result_critical_spec(
    recent_blockhash: Seq<u8>,
    crafter: Seq<u8>,
    timestamp: i64,
    crafter_level: u8,
) -> bool {
    is_critical_spec(
        crate::entropy::derive_spec(recent_blockhash, crafter, timestamp, SALT_RARITY)[CRITICAL_BYTE as int],
        crafter_level,
    )
}

/// The rarity tier of the success of a crafter at a given time.
pub open spec fn result_rarity_spec(
    recent_blockhash: Seq<u8>,
    crafter: Seq<u8>,
    timestamp: i64,
    crafter_level: u8,
    recipe_difficulty: u8,
) -> int {
    select_rarity_spec(
        crate::entropy::derive_spec(recent_blockhash, crafter, timestamp, SALT_RARITY)[RARITY_BYTE as int],
        crafter_level,
        recipe_difficulty,
        result_critical_spec(recent_blockhash, crafter, timestamp, crafter_level),
    )
}

/// Draws the rarity tier of a successful result and whether the success is
/// critical, from a stream of its own salt.
pub fn determine_result_rarity(
    recent_blockhash: Address,
    crafter: Address,
    timestamp: i64,
    crafter_level: u8,
    recipe_difficulty: u8,
) -> (result: (u8, bool))
    ensures
        result.1 == result_critical_spec(recent_blockhash@, crafter@, timestamp, crafter_level),
        result.0 == result_rarity_spec(
            recent_blockhash@,
            crafter@,
            timestamp,
            crafter_level,
            recipe_difficulty,
        ),
        1 <= result.0 <= 5,
        result.1 ==> result.0 >= 3,
{
    let source = EntropySource::new(recent_blockhash.bytes, crafter, timestamp);
    let data = source.derive(SALT_RARITY);
    let critical = is_critical(data[CRITICAL_BYTE], crafter_level);
    let tier = select_rarity(data[RARITY_BYTE], crafter_level, recipe_difficulty, critical);
    (tier, critical)
}

/// Whether the failure of a crafter at a given time is an interesting one.
pub open spec fn interesting_failure_spec(
    recent_blockhash: Seq<u8>,
    crafter: Seq<u8>,
    timestamp: i64,
    recipe_difficulty: u8,
) -> bool {
    is_interesting_failure_spec(
        crate::entropy::derive_spec(recent_blockhash, crafter, timestamp, SALT_FAILURE)[FAILURE_BYTE as int],
        recipe_difficulty,
    )
}

/// Draws whether a failed attempt is an interesting failure, from a stream
/// of its own salt.
pub fn determine_interesting_failure(
    recent_blockhash: Address,
    crafter: Address,
    timestamp: i64,
    recipe_difficulty: u8,
) -> (interesting: bool)
    ensures
        interesting == interesting_failure_spec(recent_blockhash@, crafter@, timestamp, recipe_difficulty),
{
    let source = EntropySource::new(recent_blockhash.bytes, crafter, timestamp);
    let data = source.derive(SALT_FAILURE);
    is_interesting_failure(data[FAILURE_BYTE], recipe_difficulty)
}

/// The tier of an ordinary success never falls as the byte grows, and every
/// tier lies between 1 and 5.
pub proof fn lemma_rarity_ordered(low: u8, high: u8, level: u8, difficulty: u8, is_critical: bool)
    requires
        low <= high,
    ensures
        1 <= select_rarity_spec(low, level, difficulty, is_critical) <= select_rarity_spec(
            high,
            level,
            difficulty,
            is_critical,
        ) <= 5,
        is_critical ==> select_rarity_spec(low, level, difficulty, is_critical) >= 3,
{
}

} // verus!
