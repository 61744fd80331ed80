use vstd::prelude::*;
use crate::address::Address;
use crate::errors::CraftingError;

verus! {

/// The fee for a recipe of difficulty 1 at a fee percentage of 100, in the
/// smallest unit of the payment token.
pub const BASE_FEE: u64 = 1_000_000;

/// The highest fee percentage.
pub const MAX_FEE_PERCENTAGE: u8 = 100;

/// The highest bonus of a seasonal event.
pub const MAX_EVENT_BONUS: u8 = 25;

/// Seconds in an hour.
pub const SECONDS_PER_HOUR: i64 = 3600;

/// The settings of the crafting system.
#[derive(Clone, Copy, Debug, PartialEq, Eq)]
pub struct CraftingConfig {
    /// Who may change the settings.
    pub authority: Address,
    /// Where the fees go.
    pub fee_destination: Address,
    /// The fee percentage, 0 to 100.
    pub fee_percentage: u8,
    /// Whether crafting is paused.
    pub paused: bool,
}

/// The fee for one attempt: the base fee times the difficulty times the fee
/// percentage, divided by 100 and rounded down.
pub open spec fn fee_spec(difficulty: u8, fee_percentage: u8) -> int {
    BASE_FEE * difficulty * fee_percentage / 100
}

/// The product of the base fee, the difficulty and the percentage fits in 64 bits.
pub proof fn lemma_fee_fits(difficulty: u8, fee_percentage: u8)
    ensures
        0 <= BASE_FEE * difficulty * fee_percentage <= 65_025_000_000,
        0 <= fee_spec(difficulty, fee_percentage) <= 650_250_000,
{
    assert(0 <= (BASE_FEE * difficulty) * fee_percentage <= 65_025_000_000) by (nonlinear_arith)
        requires
            0 <= BASE_FEE * difficulty <= 255_000_000,
            0 <= fee_percentage <= 255,
    ;
}

/// The product of two numbers, or the largest number where the product is larger.
pub fn saturating_product(x: u64, y: u64) -> (product: u64)
    ensures
        product == (if x * y > u64::MAX { u64::MAX as int } else { x * y }),
{
    match x.checked_mul(y) {
        Some(p) => p,
        None => u64::MAX,
    }
}

/// Computes the fee for one attempt. The multiplications saturate.
pub fn calculate_fee(difficulty: u8, fee_percentage: u8) -> (fee: u64)
    ensures
        fee == fee_spec(difficulty, fee_percentage),
{
    proof {
        lemma_fee_fits(difficulty, fee_percentage);
    }
    let by_difficulty: u64 = saturating_product(BASE_FEE, difficulty as u64);
    let by_percentage: u64 = saturating_product(by_difficulty, fee_percentage as u64);
    by_percentage / 100
}

/// Sets up the crafting system; no fee percentage above 100 is accepted.
pub fn initialize(authority: Address, fee_destination: Address, fee_percentage: u8) -> (result: Result<
    CraftingConfig,
    CraftingError,
>)
    ensures
        fee_percentage <= MAX_FEE_PERCENTAGE ==> result == Ok::<CraftingConfig, CraftingError>(
            CraftingConfig { authority, fee_destination, fee_percentage, paused: false },
        ),
        fee_percentage > MAX_FEE_PERCENTAGE ==> result == Err::<CraftingConfig, CraftingError>(
            CraftingError::InvalidFeePercentage,
        ),
{
    if fee_percentage > MAX_FEE_PERCENTAGE {
        return Err(CraftingError::InvalidFeePercentage);
    }
    Ok(CraftingConfig { authority, fee_destination, fee_percentage, paused: false })
}

/// A new fee percentage, set by the authority.
pub open spec fn update_fee_spec(config: CraftingConfig, caller: Address, new_fee_percentage: u8) -> Result<
    CraftingConfig,
    CraftingError,
> {
    if caller != config.authority {
        Err(CraftingError::UnauthorizedAccess)
    } else if new_fee_percentage > MAX_FEE_PERCENTAGE {
        Err(CraftingError::InvalidFeePercentage)
    } else {
        Ok(CraftingConfig { fee_percentage: new_fee_percentage, ..config })
    }
}

/// Whether a change of the settings went as expected: on success the
/// settings have the expected value, on failure the error is the expected
/// one and the settings are unchanged.
pub open spec fn config_step(
    before: CraftingConfig,
    after: CraftingConfig,
    expected: Result<CraftingConfig, CraftingError>,
    result: Result<(), CraftingError>,
) -> bool {
    match expected {
        Ok(v) => result is Ok && after == v,
        Err(e) => result == Err::<(), CraftingError>(e) && after == before,
    }
}

/// Sets the fee percentage.
pub fn update_fee_percentage(config: &mut CraftingConfig, caller: Address, new_fee_percentage: u8) -> (result:
    Result<(), CraftingError>)
    ensures
        config_step(
            *old(config),
            *final(config),
            update_fee_spec(*old(config), caller, new_fee_percentage),
            result,
        ),
{
    if !caller.same(&config.authority) {
        return Err(CraftingError::UnauthorizedAccess);
    }
    if new_fee_percentage > MAX_FEE_PERCENTAGE {
        return Err(CraftingError::InvalidFeePercentage);
    }
    config.fee_percentage = new_fee_percentage;
    Ok(())
}

/// Pausing or resuming, by the authority.
pub open spec fn set_pause_spec(config: CraftingConfig, caller: Address, paused: bool) -> Result<
    CraftingConfig,
    CraftingError,
> {
    if caller != config.authority {
        Err(CraftingError::UnauthorizedAccess)
    } else {
        Ok(CraftingConfig { paused, ..config })
    }
}

/// Pauses or resumes crafting.
pub fn set_pause_state(config: &mut CraftingConfig, caller: Address, paused: bool) -> (result: Result<
    (),
    CraftingError,
>)
    ensures
        config_step(*old(config), *final(config), set_pause_spec(*old(config), caller, paused), result),
{
    if !caller.same(&config.authority) {
        return Err(CraftingError::UnauthorizedAccess);
    }
    config.paused = paused;
    Ok(())
}

/// A seasonal event.
#[derive(Clone, Debug, PartialEq, Eq)]
pub struct SeasonalEvent {
    pub name: String,
    pub description: String,
    /// When the event started.
    pub start_time: i64,
    /// When the event ends, or ended.
    pub end_time: i64,
    /// The bonus of the event, 25 at most.
    pub success_rate_bonus: u8,
    /// Whether the event is running.
    pub active: bool,
}

/// When an event of a given length that starts now will end.
pub open spec fn event_end(now: i64, duration_hours: u16) -> int {
    now + duration_hours * 3600
}

/// Why an event cannot be started, if it cannot: the caller is not the
/// authority, the bonus is above 25, or the end lies beyond the last timestamp.
pub open spec fn start_event_error(
    config: CraftingConfig,
    caller: Address,
    now: i64,
    duration_hours: u16,
    success_rate_bonus: u8,
) -> Option<CraftingError> {
    if caller != config.authority {
        Some(CraftingError::UnauthorizedAccess)
    } else if success_rate_bonus > MAX_EVENT_BONUS {
        Some(CraftingError::InvalidBonus)
    } else if event_end(now, duration_hours) > i64::MAX {
        Some(CraftingError::ArithmeticOverflow)
    } else {
        None
    }
}

/// Starts a seasonal event that runs from now for a number of hours.
pub fn start_seasonal_event(
    config: &CraftingConfig,
    caller: Address,
    event_name: String,
    description: String,
    duration_hours: u16,
    success_rate_bonus: u8,
    now: i64,
) -> (result: Result<SeasonalEvent, CraftingError>)
    ensures
        (match start_event_error(*config, caller, now, duration_hours, success_rate_bonus) {
            Some(e) => result == Err::<SeasonalEvent, CraftingError>(e),
            None => result == Ok::<SeasonalEvent, CraftingError>(
                SeasonalEvent {
                    name: event_name,
                    description,
                    start_time: now,
                    end_time: event_end(now, duration_hours) as i64,
                    success_rate_bonus,
                    active: true,
                },
            ),
        }),
{
    if !caller.same(&config.authority) {
        return Err(CraftingError::UnauthorizedAccess);
    }
    if success_rate_bonus > MAX_EVENT_BONUS {
        return Err(CraftingError::InvalidBonus);
    }
    let length: i64 = duration_hours as i64 * SECONDS_PER_HOUR;
    let end_time = match now.checked_add(length) {
        Some(t) => t,
        None => {
            return Err(CraftingError::ArithmeticOverflow);
        },
    };
    Ok(
        SeasonalEvent {
            name: event_name,
            description,
            start_time: now,
            end_time,
            success_rate_bonus,
            active: true,
        },
    )
}

/// Ends a seasonal event now. Only the authority may.
pub fn end_seasonal_event(event: &mut SeasonalEvent, config: &CraftingConfig, caller: Address, now: i64) -> (result:
    Result<(), CraftingError>)
    ensures
        caller == config.authority ==> result is Ok && *final(event) == (SeasonalEvent {
            active: false,
            end_time: now,
            ..*old(event)
        }),
        caller != config.authority ==> result == Err::<(), CraftingError>(
            CraftingError::UnauthorizedAccess,
        ) && *final(event) == *old(event),
{
    if !caller.same(&config.authority) {
        return Err(CraftingError::UnauthorizedAccess);
    }
    event.active = false;
    event.end_time = now;
    Ok(())
}

/// Whether a seasonal event is running: there is one, and it is active.
pub fn is_seasonal_event_active(event: &Option<SeasonalEvent>) -> (active: bool)
    ensures
        active == (*event is Some && event->Some_0.active),
{
    match event {
        Some(e) => e.active,
        None => false,
    }
}

} // verus!
