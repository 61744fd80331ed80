use magicvial::address::Address;
use magicvial::errors::{CraftingError, ErrorKind};
use magicvial::progression::{
    get_experience_points, get_level_threshold, CrafterStats, STARTING_LEVEL, XP_PER_LEVEL,
};

fn crafter() -> Address {
    Address::new([1u8; 32])
}

fn stats(level: u8, xp: u64, streak: u16) -> CrafterStats {
    let mut s = CrafterStats::new(crafter(), 1000);
    s.experience_level = level;
    s.experience_points = xp;
    s.success_streak = streak;
    s
}

#[test]
fn new_profile_starts_at_level_1_without_experience() {
    let s = CrafterStats::new(crafter(), 55);
    assert_eq!(s.crafter, crafter());
    assert_eq!(s.created_at, 55);
    assert_eq!(s.experience_points, 0);
    assert_eq!(s.experience_level, 1);
    assert_eq!(STARTING_LEVEL, 1);
    assert_eq!(s.successful_crafts, 0);
    assert_eq!(s.failed_crafts, 0);
    assert_eq!(s.success_streak, 0);
    assert_eq!(s.guild, None);
}

#[test]
fn experience_is_ten_points_per_point_of_difficulty() {
    assert_eq!(get_experience_points(0, true, false), 0);
    assert_eq!(get_experience_points(1, true, false), 10);
    assert_eq!(get_experience_points(50, true, false), 500);
    assert_eq!(get_experience_points(255, true, false), 2550);
}

#[test]
fn critical_success_gives_half_as_much_again() {
    assert_eq!(get_experience_points(50, true, true), 750);
    assert_eq!(get_experience_points(1, true, true), 15);
    assert_eq!(get_experience_points(255, true, true), 3825);
}

#[test]
fn failure_gives_five_points_per_point_of_difficulty() {
    assert_eq!(get_experience_points(50, false, false), 250);
    assert_eq!(get_experience_points(1, false, false), 5);
    assert_eq!(get_experience_points(255, false, false), 1275);
    // a failure is never critical
    assert_eq!(get_experience_points(50, false, true), 250);
}

#[test]
fn level_threshold_is_a_thousand_per_next_level() {
    assert_eq!(XP_PER_LEVEL, 1000);
    assert_eq!(get_level_threshold(0), 1000);
    assert_eq!(get_level_threshold(1), 2000);
    assert_eq!(get_level_threshold(9), 10_000);
    assert_eq!(get_level_threshold(255), 256_000);
}

#[test]
fn success_below_the_threshold_lengthens_the_streak() {
    let mut s = stats(1, 0, 3);
    assert_eq!(s.record_success(10, false), Ok(()));
    assert_eq!(s.experience_points, 100);
    assert_eq!(s.experience_level, 1);
    assert_eq!(s.success_streak, 4);
    assert_eq!(s.successful_crafts, 1);
    assert_eq!(s.failed_crafts, 0);
}

#[test]
fn level_up_exactly_at_the_threshold_resets_the_streak() {
    // level 4, 4900 points, 100 more reach (4 + 1) * 1000 exactly
    let mut s = stats(4, 4900, 7);
    assert_eq!(s.record_success(10, false), Ok(()));
    assert_eq!(s.experience_points, 5000);
    assert_eq!(s.experience_level, 5);
    assert_eq!(s.success_streak, 0);
    assert_eq!(s.successful_crafts, 1);
}

#[test]
fn one_point_below_the_threshold_raises_no_level() {
    let mut s = stats(4, 4899, 7);
    assert_eq!(s.record_success(10, false), Ok(()));
    assert_eq!(s.experience_points, 4999);
    assert_eq!(s.experience_level, 4);
    assert_eq!(s.success_streak, 8);
}

#[test]
fn level_rises_by_one_only_however_much_experience_there_is() {
    let mut s = stats(1, 50_000, 2);
    assert_eq!(s.record_success(10, false), Ok(()));
    assert_eq!(s.experience_level, 2);
    assert_eq!(s.success_streak, 0);
    assert_eq!(s.record_success(10, false), Ok(()));
    assert_eq!(s.experience_level, 3);
    assert_eq!(s.success_streak, 0);
}

#[test]
fn critical_success_can_reach_the_threshold() {
    // 1250 + 750 = 2000 = (1 + 1) * 1000
    let mut s = stats(1, 1250, 1);
    assert_eq!(s.record_success(50, true), Ok(()));
    assert_eq!(s.experience_points, 2000);
    assert_eq!(s.experience_level, 2);
    assert_eq!(s.success_streak, 0);
    // the same without the critical bonus stays below: 1250 + 500
    let mut s = stats(1, 1250, 1);
    assert_eq!(s.record_success(50, false), Ok(()));
    assert_eq!(s.experience_points, 1750);
    assert_eq!(s.experience_level, 1);
    assert_eq!(s.success_streak, 2);
}

#[test]
fn failure_resets_the_streak_and_raises_no_level() {
    let mut s = stats(1, 1990, 9);
    assert_eq!(s.record_failure(10), Ok(()));
    assert_eq!(s.experience_points, 2040);
    assert_eq!(s.experience_level, 1);
    assert_eq!(s.success_streak, 0);
    assert_eq!(s.failed_crafts, 1);
    assert_eq!(s.successful_crafts, 0);
}

#[test]
fn success_is_refused_where_a_counter_would_overflow() {
    let mut s = stats(1, u64::MAX - 5, 0);
    let before = s;
    assert_eq!(s.record_success(1, false), Err(CraftingError::ArithmeticOverflow));
    assert_eq!(s, before);

    let mut s = stats(1, 0, 0);
    s.successful_crafts = u64::MAX;
    let before = s;
    assert_eq!(s.record_success(1, false), Err(CraftingError::ArithmeticOverflow));
    assert_eq!(s, before);

    let mut s = stats(255, 256_000, 0);
    let before = s;
    assert_eq!(s.record_success(1, false), Err(CraftingError::ArithmeticOverflow));
    assert_eq!(s, before);

    let mut s = stats(255, 0, u16::MAX);
    let before = s;
    assert_eq!(s.record_success(1, false), Err(CraftingError::ArithmeticOverflow));
    assert_eq!(s, before);
    assert_eq!(CraftingError::ArithmeticOverflow.kind(), ErrorKind::Arithmetic);
}

#[test]
fn full_streak_is_no_obstacle_to_a_level_up() {
    let mut s = stats(1, 1990, u16::MAX);
    assert_eq!(s.record_success(1, false), Ok(()));
    assert_eq!(s.experience_level, 2);
    assert_eq!(s.success_streak, 0);
}

#[test]
fn failure_is_refused_where_a_counter_would_overflow() {
    let mut s = stats(1, u64::MAX, 4);
    let before = s;
    assert_eq!(s.record_failure(1), Err(CraftingError::ArithmeticOverflow));
    assert_eq!(s, before);
    let mut s = stats(1, 0, 4);
    s.failed_crafts = u64::MAX;
    let before = s;
    assert_eq!(s.record_failure(0), Err(CraftingError::ArithmeticOverflow));
    assert_eq!(s, before);
}

#[test]
fn joining_and_leaving_a_guild() {
    let guild = Address::new([8u8; 32]);
    let other = Address::new([9u8; 32]);
    let mut s = stats(1, 0, 0);
    assert_eq!(s.leave_guild(), Err(CraftingError::NotInGuild));
    assert_eq!(CraftingError::NotInGuild.kind(), ErrorKind::Policy);
    s.join_guild(guild);
    assert_eq!(s.guild, Some(guild));
    s.join_guild(other);
    assert_eq!(s.guild, Some(other));
    assert_eq!(s.leave_guild(), Ok(()));
    assert_eq!(s.guild, None);
    assert_eq!(s.leave_guild(), Err(CraftingError::NotInGuild));
    assert_eq!(s.experience_points, 0);
    assert_eq!(s.crafter, crafter());
}
