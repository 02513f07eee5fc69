use chrono::{Datelike, NaiveDate, Weekday};
use findme::daily_fortune::{
    calculate_scenario_weighted_score, derive_seed, generate_fortune_with_seed, generate_message,
};
use findme::i18n::i18n;
use findme::{Language, TechDimensions, WorkScenario};
use rand::{Rng, SeedableRng};
use rand_chacha::ChaCha20Rng;
use sha2::{Digest, Sha256};
use std::collections::HashSet;

fn date_string(date: NaiveDate) -> String {
    format!("{:04}{:02}{:02}", date.year(), date.month(), date.day())
}

#[test]
fn seed_is_deterministic() {
    let a = derive_seed("20240106", None);
    let b = derive_seed("20240106", None);
    assert_eq!(a, b);
    let c = derive_seed("20240106", Some("1990-05-15"));
    let d = derive_seed("20240106", Some("1990-05-15"));
    assert_eq!(c, d);
}

#[test]
fn seed_matches_sha256_digest() {
    let mut hasher = Sha256::new();
    hasher.update(b"20240106");
    hasher.update(b"findme_v0.1.0");
    hasher.update(b"dev_salt");
    let hash = hasher.finalize();
    let expected = u64::from_le_bytes([
        hash[0], hash[1], hash[2], hash[3], hash[4], hash[5], hash[6], hash[7],
    ]);
    assert_eq!(derive_seed("20240106", None), expected);

    let mut hasher = Sha256::new();
    hasher.update(b"20240106");
    hasher.update(b"1990-05-15");
    hasher.update(b"findme_v0.1.0");
    hasher.update(b"dev_salt");
    let hash = hasher.finalize();
    let expected = u64::from_le_bytes([
        hash[0], hash[1], hash[2], hash[3], hash[4], hash[5], hash[6], hash[7],
    ]);
    assert_eq!(derive_seed("20240106", Some("1990-05-15")), expected);
}

#[test]
fn seed_personalization_changes_seed() {
    assert_ne!(
        derive_seed("20240106", None),
        derive_seed("20240106", Some("1990-05-15"))
    );
}

#[test]
fn seeds_distinct_for_consecutive_dates() {
    let mut seeds = HashSet::new();
    let mut date = NaiveDate::from_ymd_opt(2022, 1, 1).unwrap();
    for _ in 0..1000 {
        seeds.insert(derive_seed(&date_string(date), None));
        date = date.succ_opt().unwrap();
    }
    assert_eq!(seeds.len(), 1000);
}

#[test]
fn fortune_is_deterministic() {
    let a = generate_fortune_with_seed("20240106", Some("1990-05-15"), Language::English);
    let b = generate_fortune_with_seed("20240106", Some("1990-05-15"), Language::English);
    assert_eq!(a.overall_score, b.overall_score);
    assert_eq!(a.dimensions, b.dimensions);
    assert_eq!(a.scenario, b.scenario);
    assert_eq!(a.message, b.message);
    assert_eq!(a.advice, b.advice);
    assert_eq!(a.lucky_color, b.lucky_color);
    assert_eq!(a.lucky_time, b.lucky_time);
}

#[test]
fn dimensions_match_chacha_stream() {
    // 2024-01-06 is a Saturday: the weekend ranges apply.
    let seed = derive_seed("20240106", None);
    let mut rng = ChaCha20Rng::seed_from_u64(seed);
    let focus: u8 = rng.gen_range(20..=70);
    let creativity: u8 = rng.gen_range(60..=100);
    let debugging: u8 = rng.gen_range(30..=80);
    let collaboration: u8 = rng.gen_range(10..=50);
    let risk_tolerance: u8 = rng.gen_range(50..=100);
    let fortune = generate_fortune_with_seed("20240106", None, Language::English);
    assert_eq!(fortune.scenario, WorkScenario::Weekend);
    assert_eq!(fortune.dimensions.focus, focus);
    assert_eq!(fortune.dimensions.creativity, creativity);
    assert_eq!(fortune.dimensions.debugging, debugging);
    assert_eq!(fortune.dimensions.collaboration, collaboration);
    assert_eq!(fortune.dimensions.risk_tolerance, risk_tolerance);

    // 2024-01-08 is a Monday: the workday ranges apply.
    let seed = derive_seed("20240108", None);
    let mut rng = ChaCha20Rng::seed_from_u64(seed);
    let focus: u8 = rng.gen_range(40..=100);
    let creativity: u8 = rng.gen_range(20..=80);
    let debugging: u8 = rng.gen_range(50..=100);
    let collaboration: u8 = rng.gen_range(60..=100);
    let risk_tolerance: u8 = rng.gen_range(10..=60);
    let fortune = generate_fortune_with_seed("20240108", None, Language::English);
    assert_eq!(fortune.scenario, WorkScenario::Workday);
    assert_eq!(fortune.dimensions.focus, focus);
    assert_eq!(fortune.dimensions.creativity, creativity);
    assert_eq!(fortune.dimensions.debugging, debugging);
    assert_eq!(fortune.dimensions.collaboration, collaboration);
    assert_eq!(fortune.dimensions.risk_tolerance, risk_tolerance);
}

#[test]
fn dimensions_within_scenario_ranges() {
    let mut date = NaiveDate::from_ymd_opt(2023, 6, 1).unwrap();
    for _ in 0..50 {
        let fortune = generate_fortune_with_seed(&date_string(date), None, Language::English);
        let d = &fortune.dimensions;
        match fortune.scenario {
            WorkScenario::Workday => {
                assert!((40..=100).contains(&d.focus));
                assert!((20..=80).contains(&d.creativity));
                assert!((50..=100).contains(&d.debugging));
                assert!((60..=100).contains(&d.collaboration));
                assert!((10..=60).contains(&d.risk_tolerance));
            }
            WorkScenario::Weekend => {
                assert!((20..=70).contains(&d.focus));
                assert!((60..=100).contains(&d.creativity));
                assert!((30..=80).contains(&d.debugging));
                assert!((10..=50).contains(&d.collaboration));
                assert!((50..=100).contains(&d.risk_tolerance));
            }
        }
        assert!(fortune.overall_score <= 100);
        date = date.succ_opt().unwrap();
    }
}

#[test]
fn weighted_score_exact_values() {
    // Workday, every dimension at its maximum: (3500+560+3000+2500+180+50)/100.
    let maxed = TechDimensions {
        focus: 100,
        creativity: 80,
        debugging: 100,
        collaboration: 100,
        risk_tolerance: 60,
    };
    assert_eq!(
        calculate_scenario_weighted_score(&maxed, &WorkScenario::Workday),
        97
    );
    // A weighted sum of exactly 46.5 rounds half up to 47.
    let half = TechDimensions {
        focus: 40,
        creativity: 20,
        debugging: 51,
        collaboration: 62,
        risk_tolerance: 10,
    };
    assert_eq!(
        calculate_scenario_weighted_score(&half, &WorkScenario::Workday),
        47
    );
    // The same dimensions weigh differently on a weekend:
    // (800+800+357+186+300+50)/100 = 24.93 -> 24.
    assert_eq!(
        calculate_scenario_weighted_score(&half, &WorkScenario::Weekend),
        24
    );
}

#[test]
fn uniform_dimensions_score_unchanged() {
    // Because each weight set sums to exactly one, a board of equal
    // dimensions scores that very value under either scenario.
    for v in [0, 37, 50, 88, 100] {
        let uniform = TechDimensions {
            focus: v,
            creativity: v,
            debugging: v,
            collaboration: v,
            risk_tolerance: v,
        };
        assert_eq!(
            calculate_scenario_weighted_score(&uniform, &WorkScenario::Workday),
            v
        );
        assert_eq!(
            calculate_scenario_weighted_score(&uniform, &WorkScenario::Weekend),
            v
        );
    }
}

#[test]
fn message_unknown_band_fallback() {
    // A score below thirty cannot arise from in-range dimensions, but the
    // selector still resolves it, to the unknown bucket.
    let flat = TechDimensions {
        focus: 0,
        creativity: 0,
        debugging: 0,
        collaboration: 0,
        risk_tolerance: 0,
    };
    assert_eq!(
        calculate_scenario_weighted_score(&flat, &WorkScenario::Workday),
        0
    );
    assert_eq!(
        generate_message(&flat, "focus", &WorkScenario::Workday, Language::English),
        i18n("fortune.unknown", Language::English)
    );
}

#[test]
fn scenario_follows_weekday() {
    // Spans two year boundaries and the leap day of 2024.
    let mut date = NaiveDate::from_ymd_opt(2023, 12, 1).unwrap();
    for _ in 0..800 {
        let fortune = generate_fortune_with_seed(&date_string(date), None, Language::English);
        let weekend = matches!(date.weekday(), Weekday::Sat | Weekday::Sun);
        assert_eq!(fortune.scenario == WorkScenario::Weekend, weekend);
        date = date.succ_opt().unwrap();
    }
}

#[test]
fn lucky_color_and_time_follow_stream() {
    // Replays the whole weekend stream for 2024-01-06: five dimension draws,
    // then the color pick, then the time pick, in that order.
    let seed = derive_seed("20240106", None);
    let mut rng = ChaCha20Rng::seed_from_u64(seed);
    let _focus: u8 = rng.gen_range(20..=70);
    let creativity: u8 = rng.gen_range(60..=100);
    let _debugging: u8 = rng.gen_range(30..=80);
    let _collaboration: u8 = rng.gen_range(10..=50);
    let risk_tolerance: u8 = rng.gen_range(50..=100);
    let color_keys: Vec<&str> = if creativity > 70 {
        vec!["color.purple", "color.pink", "color.orange"]
    } else if risk_tolerance > 70 {
        vec!["color.red", "color.orange", "color.pink"]
    } else {
        vec!["color.purple", "color.pink", "color.orange", "color.red"]
    };
    let color_key = color_keys[rng.gen_range(0..color_keys.len())];
    let time_keys: Vec<&str> = if creativity > 70 {
        vec!["time.evening_7_9", "time.night_1_3"]
    } else if risk_tolerance > 70 {
        vec!["time.evening_10_11", "time.night_1_3"]
    } else {
        vec!["time.evening_7_9", "time.evening_10_11", "time.night_1_3"]
    };
    let time_key = time_keys[rng.gen_range(0..time_keys.len())];
    let fortune = generate_fortune_with_seed("20240106", None, Language::English);
    assert_eq!(fortune.lucky_color, i18n(color_key, Language::English));
    assert_eq!(fortune.lucky_time, i18n(time_key, Language::English));
}

#[test]
fn message_matches_band_and_dimension() {
    let mut date = NaiveDate::from_ymd_opt(2024, 3, 1).unwrap();
    for _ in 0..30 {
        let fortune = generate_fortune_with_seed(&date_string(date), None, Language::English);
        let d = &fortune.dimensions;
        let primary = if d.focus >= d.creativity
            && d.focus >= d.debugging
            && d.focus >= d.collaboration
            && d.focus >= d.risk_tolerance
        {
            "focus"
        } else if d.creativity >= d.debugging
            && d.creativity >= d.collaboration
            && d.creativity >= d.risk_tolerance
        {
            "creativity"
        } else if d.debugging >= d.collaboration && d.debugging >= d.risk_tolerance {
            "debugging"
        } else if d.collaboration >= d.risk_tolerance {
            "collaboration"
        } else {
            "risk_tolerance"
        };
        let expected_key = match fortune.overall_score {
            90..=100 => match primary {
                "focus" => "fortune.excellent.focus",
                "creativity" => "fortune.excellent.creativity",
                "debugging" => "fortune.excellent.debugging",
                "collaboration" => "fortune.excellent.collaboration",
                _ => "fortune.excellent.risk",
            },
            80..=89 => match primary {
                "focus" => "fortune.great.focus",
                "creativity" => "fortune.great.creativity",
                "debugging" => "fortune.great.debugging",
                "collaboration" => "fortune.great.collaboration",
                _ => "fortune.great.risk",
            },
            70..=79 => "fortune.good",
            60..=69 => "fortune.average",
            50..=59 => "fortune.careful",
            40..=49 => "fortune.poor",
            30..=39 => "fortune.challenging",
            _ => "fortune.unknown",
        };
        assert_eq!(fortune.message, i18n(expected_key, Language::English));
        date = date.succ_opt().unwrap();
    }
}
