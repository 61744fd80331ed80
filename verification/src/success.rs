use vstd::prelude::*;

verus! {

/// The highest rate that is ever handed to the success roll.
pub const MAX_SUCCESS_RATE: u8 = 95;

/// Everything that shapes the chance of one crafting attempt.
#[derive(Clone, Copy, Debug, PartialEq, Eq)]
pub struct SuccessFactors {
    /// Base success rate of the recipe.
    pub base_rate: u8,
    /// Experience level of the crafter.
    pub crafter_level: u8,
    /// Consecutive successful attempts of the crafter.
    pub crafter_streak: u16,
    /// Bonus from the attributes of the materials.
    pub material_bonus: u8,
    /// Boost from the crafter's guild, if any.
    pub guild_boost: Option<u8>,
    /// How often the recipe has been crafted by anyone.
    pub recipe_attempts: u64,
    /// Bonus for the time of day.
    pub time_of_day_bonus: u8,
    /// Whether a seasonal event is running.
    pub is_seasonal_event: bool,
}

/// One point per level, twenty at most.
pub open spec fn level_bonus(level: u8) -> int {
    if level < 20 { level as int } else { 20 }
}

/// Half a point per consecutive success, ten at most.
pub open spec fn streak_bonus(streak: u16) -> int {
    if streak / 2 < 10 { (streak / 2) as int } else { 10 }
}

/// The guild's boost, nothing without a guild.
pub open spec fn guild_bonus(boost: Option<u8>) -> int {
    match boost {
        Some(b) => b as int,
        None => 0,
    }
}

/// A tenth of a point per earlier attempt at the recipe, five at most.
pub open spec fn familiarity_bonus(attempts: u64) -> int {
    if attempts / 10 < 5 { (attempts / 10) as int } else { 5 }
}

/// Ten points while a seasonal event runs.
pub open spec fn seasonal_bonus(active: bool) -> int {
    if active { 10 } else { 0 }
}

/// Base rate and all bonuses, before the cap.
pub open spec fn uncapped_rate(f: SuccessFactors) -> int {
    f.base_rate + level_bonus(f.crafter_level) + streak_bonus(f.crafter_streak)
        + f.material_bonus + guild_bonus(f.guild_boost) + familiarity_bonus(f.recipe_attempts)
        + f.time_of_day_bonus + seasonal_bonus(f.is_seasonal_event)
}

/// The success rate of an attempt: base rate plus bonuses, never above 95,
/// so that a chance of failure always remains.
pub open spec fn effective_rate(f: SuccessFactors) -> int {
    if uncapped_rate(f) < 95 { uncapped_rate(f) } else { 95 }
}

/// Whether every bonus input of `a` is at most that of `b`, the base rate
/// being the same.
pub open spec fn bonuses_at_most(a: SuccessFactors, b: SuccessFactors) -> bool {
    &&& a.base_rate == b.base_rate
    &&& a.crafter_level <= b.crafter_level
    &&& a.crafter_streak <= b.crafter_streak
    &&& a.material_bonus <= b.material_bonus
    &&& guild_bonus(a.guild_boost) <= guild_bonus(b.guild_boost)
    &&& a.recipe_attempts <= b.recipe_attempts
    &&& a.time_of_day_bonus <= b.time_of_day_bonus
    &&& (a.is_seasonal_event ==> b.is_seasonal_event)
}

/// Computes the success rate of an attempt. Every addition saturates.
pub fn calculate_success_rate(factors: SuccessFactors) -> (rate: u8)
    ensures
        rate == effective_rate(factors),
        rate <= MAX_SUCCESS_RATE,
        factors.base_rate <= MAX_SUCCESS_RATE ==> factors.base_rate <= rate,
{
    let mut rate: u8 = factors.base_rate;
    let by_level: u8 = if factors.crafter_level < 20 { factors.crafter_level } else { 20 };
    rate = rate.saturating_add(by_level);
    let half_streak: u16 = factors.crafter_streak / 2;
    let by_streak: u8 = if half_streak < 10 { half_streak as u8 } else { 10 };
    rate = rate.saturating_add(by_streak);
    rate = rate.saturating_add(factors.material_bonus);
    if let Some(boost) = factors.guild_boost {
        rate = rate.saturating_add(boost);
    }
    let tenth: u64 = factors.recipe_attempts / 10;
    let by_familiarity: u8 = if tenth < 5 { tenth as u8 } else { 5 };
    rate = rate.saturating_add(by_familiarity);
    rate = rate.saturating_add(factors.time_of_day_bonus);
    if factors.is_seasonal_event {
        rate = rate.saturating_add(10);
    }
    if rate < MAX_SUCCESS_RATE { rate } else { MAX_SUCCESS_RATE }
}

/// The random byte scaled from 0..=255 to a percentage 0..=100.
pub open spec fn scaled_roll(random_byte: u8) -> int {
    random_byte as int * 100 / 255
}

/// Whether a roll succeeds at a given rate.
pub open spec fn roll_success_spec(rate: u8, random_byte: u8) -> bool {
    scaled_roll(random_byte) < rate
}

/// Decides an attempt from its rate and one random byte: the byte is scaled
/// to a percentage, and the attempt succeeds when that lies below the rate.
pub fn roll_success(rate: u8, random_byte: u8) -> (success: bool)
    ensures
        success == roll_success_spec(rate, random_byte),
        rate == 0 ==> !success,
        rate > 0 && random_byte == 0 ==> success,
{
    let scaled: u16 = (random_byte as u16) * 100 / 255;
    scaled < rate as u16
}

/// The success rate lies between the base rate and 95, for a base rate that
/// is itself no higher than 95.
pub proof fn lemma_effective_rate_bounds(f: SuccessFactors)
    ensures
        0 <= effective_rate(f) <= 95,
        f.base_rate <= 95 ==> f.base_rate <= effective_rate(f),
        f.base_rate > 95 ==> effective_rate(f) == 95,
{
}

/// The success rate never falls when a bonus input grows: raising any of the
/// level, the streak, the material bonus, the guild boost, the number of
/// earlier attempts, the time-of-day bonus, or starting a seasonal event,
/// with the other inputs unchanged or raised too, gives a rate at least as high.
pub proof fn lemma_effective_rate_monotonic(a: SuccessFactors, b: SuccessFactors)
    requires
        bonuses_at_most(a, b),
    ensures
        effective_rate(a) <= effective_rate(b),
{
}

/// A rate of zero never succeeds; any positive rate succeeds on the byte 0;
/// no rate up to 95 succeeds on the byte 255.
pub proof fn lemma_roll_success_edges(rate: u8, random_byte: u8)
    ensures
        !roll_success_spec(0, random_byte),
        rate > 0 ==> roll_success_spec(rate, 0),
        rate <= 95 ==> !roll_success_spec(rate, 255),
{
}

/// A roll that succeeds at one rate succeeds at every higher rate.
pub proof fn lemma_roll_success_monotonic(low: u8, high: u8, random_byte: u8)
    requires
        low <= high,
        roll_success_spec(low, random_byte),
    ensures
        roll_success_spec(high, random_byte),
{
}

} // verus!
