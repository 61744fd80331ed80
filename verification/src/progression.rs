use vstd::prelude::*;
use crate::address::Address;
use crate::errors::CraftingError;

verus! {

/// Experience that one level costs.
pub const XP_PER_LEVEL: u64 = 1000;

/// The level at which a crafter starts.
pub const STARTING_LEVEL: u8 = 1;

/// What is known of one crafter: experience, level, counters, streak and guild.
#[derive(Clone, Copy, Debug, PartialEq, Eq)]
pub struct CrafterStats {
    /// The crafter.
    pub crafter: Address,
    /// Experience earned so far.
    pub experience_points: u64,
    /// Current level.
    pub experience_level: u8,
    /// Attempts that succeeded.
    pub successful_crafts: u64,
    /// Attempts that failed.
    pub failed_crafts: u64,
    /// When the profile was made.
    pub created_at: i64,
    /// The crafter's guild, if any.
    pub guild: Option<Address>,
    /// Consecutive successes; back to zero on a failure and on a level-up.
    pub success_streak: u16,
}

/// Experience for one attempt: ten points per point of difficulty, half of
/// that for a failure, half as much again for a critical success.
pub open spec fn experience_points_spec(difficulty: u8, success: bool, critical: bool) -> int {
    let base = difficulty * 10;
    if !success {
        base / 2
    } else if critical {
        base + base / 2
    } else {
        base
    }
}

/// Experience at which a crafter of the given level rises to the next.
pub open spec fn level_threshold_spec(level: u8) -> int {
    (level + 1) * 1000
}

/// Whether a crafter with this experience and level rises a level.
pub open spec fn levels_up(experience_points: int, level: u8) -> bool {
    experience_points >= level_threshold_spec(level)
}

/// Experience after a successful attempt.
pub open spec fn experience_after_success(stats: CrafterStats, difficulty: u8, critical: bool) -> int {
    stats.experience_points + experience_points_spec(difficulty, true, critical)
}

/// Whether a success can be recorded without a counter leaving its domain.
pub open spec fn success_fits(stats: CrafterStats, difficulty: u8, critical: bool) -> bool {
    let xp = experience_after_success(stats, difficulty, critical);
    &&& stats.successful_crafts < u64::MAX
    &&& xp <= u64::MAX
    &&& if levels_up(xp, stats.experience_level) {
        stats.experience_level < u8::MAX
    } else {
        stats.success_streak < u16::MAX
    }
}

/// The profile after a successful attempt: one more success, more
/// experience, and either a longer streak or, where the experience reaches
/// the threshold of the level, the next level and a streak of zero.
pub open spec fn after_success(stats: CrafterStats, difficulty: u8, critical: bool) -> CrafterStats {
    let xp = experience_after_success(stats, difficulty, critical);
    if levels_up(xp, stats.experience_level) {
        CrafterStats {
            successful_crafts: (stats.successful_crafts + 1) as u64,
            experience_points: xp as u64,
            experience_level: (stats.experience_level + 1) as u8,
            success_streak: 0,
            ..stats
        }
    } else {
        CrafterStats {
            successful_crafts: (stats.successful_crafts + 1) as u64,
            experience_points: xp as u64,
            success_streak: (stats.success_streak + 1) as u16,
            ..stats
        }
    }
}

/// Whether a failure can be recorded without a counter leaving its domain.
pub open spec fn failure_fits(stats: CrafterStats, difficulty: u8) -> bool {
    &&& stats.failed_crafts < u64::MAX
    &&& stats.experience_points + experience_points_spec(difficulty, false, false) <= u64::MAX
}

/// The profile after a failed attempt: one more failure, a streak of zero,
/// and five points of experience per point of difficulty. A failure raises no level.
pub open spec fn after_failure(stats: CrafterStats, difficulty: u8) -> CrafterStats {
    CrafterStats {
        failed_crafts: (stats.failed_crafts + 1) as u64,
        experience_points: (stats.experience_points + experience_points_spec(
            difficulty,
            false,
            false,
        )) as u64,
        success_streak: 0,
        ..stats
    }
}

/// Computes the experience for one attempt.
pub fn get_experience_points(difficulty: u8, success: bool, critical: bool) -> (xp: u64)
    ensures
        xp == experience_points_spec(difficulty, success, critical),
        xp <= 3825,
{
    let base_xp: u64 = difficulty as u64 * 10;
    if !success {
        return base_xp / 2;
    }
    if critical {
        return base_xp + base_xp / 2;
    }
    base_xp
}

/// Computes the experience at which a crafter of the given level rises to the next.
pub fn get_level_threshold(current_level: u8) -> (threshold: u64)
    ensures
        threshold == level_threshold_spec(current_level),
{
    (current_level as u64 + 1) * XP_PER_LEVEL
}

impl CrafterStats {
    /// The profile of a crafter who has not crafted yet.
    pub fn new(crafter: Address, created_at: i64) -> (stats: CrafterStats)
        ensures
            stats == (CrafterStats {
                crafter,
                experience_points: 0,
                experience_level: STARTING_LEVEL,
                successful_crafts: 0,
                failed_crafts: 0,
                created_at,
                guild: None,
                success_streak: 0,
            }),
    {
        CrafterStats {
            crafter,
            experience_points: 0,
            experience_level: STARTING_LEVEL,
            successful_crafts: 0,
            failed_crafts: 0,
            created_at,
            guild: None,
            success_streak: 0,
        }
    }

    /// Records a successful attempt. Where a counter would overflow, nothing
    /// changes and the error says so.
    pub fn record_success(&mut self, difficulty: u8, critical: bool) -> (result: Result<
        (),
        CraftingError,
    >)
        ensures
            success_fits(*old(self), difficulty, critical) ==> result is Ok && *final(self)
                == after_success(*old(self), difficulty, critical),
            !success_fits(*old(self), difficulty, critical) ==> result == Err::<(), CraftingError>(
                CraftingError::ArithmeticOverflow,
            ) && *final(self) == *old(self),
    {
        let gained = get_experience_points(difficulty, true, critical);
        let crafts = match self.successful_crafts.checked_add(1) {
            Some(n) => n,
            None => {
                return Err(CraftingError::ArithmeticOverflow);
            },
        };
        let xp = match self.experience_points.checked_add(gained) {
            Some(n) => n,
            None => {
                return Err(CraftingError::ArithmeticOverflow);
            },
        };
        if xp >= get_level_threshold(self.experience_level) {
            let level = match self.experience_level.checked_add(1) {
                Some(n) => n,
                None => {
                    return Err(CraftingError::ArithmeticOverflow);
                },
            };
            self.successful_crafts = crafts;
            self.experience_points = xp;
            self.experience_level = level;
            self.success_streak = 0;
        } else {
            let streak = match self.success_streak.checked_add(1) {
                Some(n) => n,
                None => {
                    return Err(CraftingError::ArithmeticOverflow);
                },
            };
            self.successful_crafts = crafts;
            self.experience_points = xp;
            self.success_streak = streak;
        }
        Ok(())
    }

    /// Records a failed attempt. Where a counter would overflow, nothing
    /// changes and the error says so.
    pub fn record_failure(&mut self, difficulty: u8) -> (result: Result<(), CraftingError>)
        ensures
            failure_fits(*old(self), difficulty) ==> result is Ok && *final(self) == after_failure(
                *old(self),
                difficulty,
            ),
            !failure_fits(*old(self), difficulty) ==> result == Err::<(), CraftingError>(
                CraftingError::ArithmeticOverflow,
            ) && *final(self) == *old(self),
    {
        let gained = get_experience_points(difficulty, false, false);
        let crafts = match self.failed_crafts.checked_add(1) {
            Some(n) => n,
            None => {
                return Err(CraftingError::ArithmeticOverflow);
            },
        };
        let xp = match self.experience_points.checked_add(gained) {
            Some(n) => n,
            None => {
                return Err(CraftingError::ArithmeticOverflow);
            },
        };
        self.failed_crafts = crafts;
        self.experience_points = xp;
        self.success_streak = 0;
        Ok(())
    }

    /// Makes the crafter a member of a guild, leaving any earlier one.
    pub fn join_guild(&mut self, guild_id: Address)
        ensures
            *final(self) == (CrafterStats { guild: Some(guild_id), ..*old(self) }),
    {
        self.guild = Some(guild_id);
    }

    /// Takes the crafter out of the guild; fails for a crafter in none.
    pub fn leave_guild(&mut self) -> (result: Result<(), CraftingError>)
        ensures
            old(self).guild is Some ==> result is Ok && *final(self) == (CrafterStats {
                guild: None,
                ..*old(self)
            }),
            old(self).guild is None ==> result == Err::<(), CraftingError>(
                CraftingError::NotInGuild,
            ) && *final(self) == *old(self),
    {
        if self.guild.is_none() {
            return Err(CraftingError::NotInGuild);
        }
        self.guild = None;
        Ok(())
    }
}

/// A success whose experience reaches the threshold of the level exactly
/// raises the level by one and sets the streak to zero, in the same step.
pub proof fn lemma_level_up_at_threshold(stats: CrafterStats, difficulty: u8, critical: bool)
    requires
        experience_after_success(stats, difficulty, critical) == level_threshold_spec(
            stats.experience_level,
        ),
        stats.experience_level < u8::MAX,
    ensures
        after_success(stats, difficulty, critical).experience_level == stats.experience_level + 1,
        after_success(stats, difficulty, critical).success_streak == 0,
{
}

/// A success below the threshold keeps the level and lengthens the streak by one.
pub proof fn lemma_no_level_up_below_threshold(stats: CrafterStats, difficulty: u8, critical: bool)
    requires
        experience_after_success(stats, difficulty, critical) < level_threshold_spec(
            stats.experience_level,
        ),
        stats.success_streak < u16::MAX,
    ensures
        after_success(stats, difficulty, critical).experience_level == stats.experience_level,
        after_success(stats, difficulty, critical).success_streak == stats.success_streak + 1,
{
}

/// The streak is zero after every failure and after every level-up.
pub proof fn lemma_streak_resets(stats: CrafterStats, difficulty: u8, critical: bool)
    ensures
        after_failure(stats, difficulty).success_streak == 0,
        after_failure(stats, difficulty).experience_level == stats.experience_level,
        after_success(stats, difficulty, critical).experience_level != stats.experience_level
            ==> after_success(stats, difficulty, critical).success_streak == 0,
{
}

} // verus!
