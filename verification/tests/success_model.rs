use magicvial::success::{calculate_success_rate, roll_success, SuccessFactors, MAX_SUCCESS_RATE};

fn plain(base_rate: u8) -> SuccessFactors {
    SuccessFactors {
        base_rate,
        crafter_level: 0,
        crafter_streak: 0,
        material_bonus: 0,
        guild_boost: None,
        recipe_attempts: 0,
        time_of_day_bonus: 0,
        is_seasonal_event: false,
    }
}

#[test]
fn rate_adds_level_and_half_streak() {
    let mut f = plain(50);
    f.crafter_level = 10;
    f.crafter_streak = 4;
    assert_eq!(calculate_success_rate(f), 62);
}

#[test]
fn rate_without_bonuses_is_base_rate() {
    assert_eq!(calculate_success_rate(plain(0)), 0);
    assert_eq!(calculate_success_rate(plain(37)), 37);
    assert_eq!(calculate_success_rate(plain(95)), 95);
}

#[test]
fn rate_is_capped_at_95() {
    assert_eq!(MAX_SUCCESS_RATE, 95);
    assert_eq!(calculate_success_rate(plain(96)), 95);
    assert_eq!(calculate_success_rate(plain(100)), 95);
    assert_eq!(calculate_success_rate(plain(255)), 95);
    let mut f = plain(90);
    f.crafter_level = 5;
    assert_eq!(calculate_success_rate(f), 95);
    f.crafter_level = 6;
    assert_eq!(calculate_success_rate(f), 95);
}

#[test]
fn level_bonus_stops_at_20() {
    let mut f = plain(10);
    f.crafter_level = 19;
    assert_eq!(calculate_success_rate(f), 29);
    f.crafter_level = 20;
    assert_eq!(calculate_success_rate(f), 30);
    f.crafter_level = 21;
    assert_eq!(calculate_success_rate(f), 30);
    f.crafter_level = 255;
    assert_eq!(calculate_success_rate(f), 30);
}

#[test]
fn streak_bonus_is_half_a_point_and_stops_at_10() {
    let mut f = plain(10);
    f.crafter_streak = 1;
    assert_eq!(calculate_success_rate(f), 10);
    f.crafter_streak = 2;
    assert_eq!(calculate_success_rate(f), 11);
    f.crafter_streak = 19;
    assert_eq!(calculate_success_rate(f), 19);
    f.crafter_streak = 20;
    assert_eq!(calculate_success_rate(f), 20);
    f.crafter_streak = 65535;
    assert_eq!(calculate_success_rate(f), 20);
}

#[test]
fn familiarity_bonus_is_a_tenth_and_stops_at_5() {
    let mut f = plain(10);
    f.recipe_attempts = 9;
    assert_eq!(calculate_success_rate(f), 10);
    f.recipe_attempts = 10;
    assert_eq!(calculate_success_rate(f), 11);
    f.recipe_attempts = 49;
    assert_eq!(calculate_success_rate(f), 14);
    f.recipe_attempts = 50;
    assert_eq!(calculate_success_rate(f), 15);
    f.recipe_attempts = 2560;
    assert_eq!(calculate_success_rate(f), 15);
    f.recipe_attempts = u64::MAX;
    assert_eq!(calculate_success_rate(f), 15);
}

#[test]
fn guild_material_time_and_season_add_up() {
    let mut f = plain(20);
    f.material_bonus = 5;
    assert_eq!(calculate_success_rate(f), 25);
    f.guild_boost = Some(7);
    assert_eq!(calculate_success_rate(f), 32);
    f.time_of_day_bonus = 2;
    assert_eq!(calculate_success_rate(f), 34);
    f.is_seasonal_event = true;
    assert_eq!(calculate_success_rate(f), 44);
    f.guild_boost = Some(0);
    assert_eq!(calculate_success_rate(f), 37);
}

#[test]
fn all_inputs_at_their_largest_give_95() {
    let f = SuccessFactors {
        base_rate: 255,
        crafter_level: 255,
        crafter_streak: 65535,
        material_bonus: 255,
        guild_boost: Some(255),
        recipe_attempts: u64::MAX,
        time_of_day_bonus: 255,
        is_seasonal_event: true,
    };
    assert_eq!(calculate_success_rate(f), 95);
}

#[test]
fn rate_never_falls_when_one_bonus_grows() {
    let base = SuccessFactors {
        base_rate: 30,
        crafter_level: 3,
        crafter_streak: 5,
        material_bonus: 4,
        guild_boost: None,
        recipe_attempts: 12,
        time_of_day_bonus: 1,
        is_seasonal_event: false,
    };
    let r = calculate_success_rate(base);
    assert_eq!(r, 30 + 3 + 2 + 4 + 1 + 1);
    let mut f = base;
    f.crafter_level = 4;
    assert!(calculate_success_rate(f) >= r);
    let mut f = base;
    f.crafter_streak = 6;
    assert!(calculate_success_rate(f) >= r);
    let mut f = base;
    f.material_bonus = 200;
    assert!(calculate_success_rate(f) >= r);
    let mut f = base;
    f.guild_boost = Some(1);
    assert!(calculate_success_rate(f) >= r);
    let mut f = base;
    f.recipe_attempts = 20;
    assert!(calculate_success_rate(f) >= r);
    let mut f = base;
    f.time_of_day_bonus = 2;
    assert!(calculate_success_rate(f) >= r);
    let mut f = base;
    f.is_seasonal_event = true;
    assert!(calculate_success_rate(f) >= r);
}

#[test]
fn rate_lies_between_base_rate_and_95_for_every_base_rate_up_to_95() {
    let mut base: u8 = 0;
    while base <= 95 {
        let mut f = plain(base);
        f.crafter_level = base;
        f.crafter_streak = base as u16;
        let r = calculate_success_rate(f);
        assert!(base <= r && r <= 95);
        base += 1;
    }
}

#[test]
fn roll_of_byte_zero_succeeds_at_any_positive_rate() {
    let mut rate: u8 = 1;
    loop {
        assert!(roll_success(rate, 0));
        if rate == 255 {
            break;
        }
        rate += 1;
    }
}

#[test]
fn roll_never_succeeds_at_rate_zero() {
    let mut byte: u8 = 0;
    loop {
        assert!(!roll_success(0, byte));
        if byte == 255 {
            break;
        }
        byte += 1;
    }
}

#[test]
fn roll_scales_the_byte_to_a_percentage() {
    // 127 * 100 / 255 = 49
    assert!(roll_success(50, 127));
    assert!(!roll_success(49, 127));
    // 128 * 100 / 255 = 50
    assert!(roll_success(51, 128));
    assert!(!roll_success(50, 128));
    // 255 * 100 / 255 = 100
    assert!(!roll_success(95, 255));
    assert!(!roll_success(100, 255));
    assert!(roll_success(101, 255));
    // 254 * 100 / 255 = 99
    assert!(roll_success(100, 254));
    assert!(!roll_success(99, 254));
}

#[test]
fn roll_is_a_function_of_rate_and_byte() {
    let mut byte: u8 = 0;
    loop {
        assert_eq!(roll_success(62, byte), roll_success(62, byte));
        assert_eq!(roll_success(62, byte), (byte as u32 * 100 / 255) < 62);
        if byte == 255 {
            break;
        }
        byte += 1;
    }
}
