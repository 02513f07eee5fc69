use findme::{BirthDate, BirthFortuneController, BirthFortuneModel, Language};
use rand::{Rng, SeedableRng};
use rand::rngs::StdRng;

fn date(y: i32, m: u32, d: u32) -> BirthDate {
    BirthDate::new(y, m, d).unwrap()
}

#[test]
fn life_number_reduces_digit_sum() {
    // 1990 + 5 + 15 = 2010, reduced 2010 -> 201 -> 21 -> 3.
    assert_eq!(date(1990, 5, 15).calculate_life_number(), 3);
    // 2000 + 1 + 1 = 2002 -> 202 -> 22 -> 4.
    assert_eq!(date(2000, 1, 1).calculate_life_number(), 4);
    // 1 + 1 + 1 = 3 is already a single digit.
    assert_eq!(date(1, 1, 1).calculate_life_number(), 3);
}

#[test]
fn life_number_is_single_digit() {
    for year in [1, 999, 1984, 2024, 9999] {
        for (m, d) in [(1, 1), (6, 15), (12, 31)] {
            let n = date(year, m, d).calculate_life_number();
            assert!((1..=9).contains(&n));
        }
    }
}

#[test]
fn zodiac_boundary_pisces_aries() {
    assert_eq!(
        date(1990, 3, 20).get_zodiac_sign(Language::English),
        "zodiac.pisces"
    );
    assert_eq!(
        date(1990, 3, 21).get_zodiac_sign(Language::English),
        "zodiac.aries"
    );
}

#[test]
fn zodiac_boundaries_inclusive_to_earlier_sign() {
    let cases = [
        (1, 19, "zodiac.capricorn"),
        (1, 20, "zodiac.aquarius"),
        (2, 18, "zodiac.aquarius"),
        (2, 19, "zodiac.pisces"),
        (4, 19, "zodiac.aries"),
        (4, 20, "zodiac.taurus"),
        (6, 21, "zodiac.gemini"),
        (6, 22, "zodiac.cancer"),
        (8, 22, "zodiac.leo"),
        (8, 23, "zodiac.virgo"),
        (10, 23, "zodiac.libra"),
        (10, 24, "zodiac.scorpio"),
        (12, 21, "zodiac.sagittarius"),
        (12, 22, "zodiac.capricorn"),
    ];
    for (m, d, key) in cases {
        assert_eq!(date(1990, m, d).get_zodiac_sign(Language::English), key);
    }
}

#[test]
fn from_string_parses_valid_date() {
    let bd = BirthDate::from_string("1990-05-15").unwrap();
    assert_eq!(bd.year, 1990);
    assert_eq!(bd.month, 5);
    assert_eq!(bd.day, 15);
}

#[test]
fn from_string_rejects_bad_format() {
    assert_eq!(
        BirthDate::from_string("invalid-date").unwrap_err(),
        "Invalid date format. Use YYYY-MM-DD"
    );
    assert_eq!(
        BirthDate::from_string("1990-05").unwrap_err(),
        "Invalid date format. Use YYYY-MM-DD"
    );
    assert_eq!(
        BirthDate::from_string("1990-05-15-1").unwrap_err(),
        "Invalid date format. Use YYYY-MM-DD"
    );
    assert_eq!(
        BirthDate::from_string("").unwrap_err(),
        "Invalid date format. Use YYYY-MM-DD"
    );
}

#[test]
fn from_string_rejects_bad_fields() {
    assert_eq!(
        BirthDate::from_string("abcd-05-15").unwrap_err(),
        "Invalid year"
    );
    assert_eq!(
        BirthDate::from_string("1990-xx-15").unwrap_err(),
        "Invalid month"
    );
    assert_eq!(
        BirthDate::from_string("1990-05-xx").unwrap_err(),
        "Invalid day"
    );
}

#[test]
fn from_string_rejects_impossible_dates() {
    assert_eq!(
        BirthDate::from_string("1990-02-30").unwrap_err(),
        "Invalid date"
    );
    assert_eq!(
        BirthDate::from_string("1990-13-01").unwrap_err(),
        "Invalid date"
    );
    assert_eq!(
        BirthDate::from_string("1900-02-29").unwrap_err(),
        "Invalid date"
    );
    assert!(BirthDate::from_string("2000-02-29").is_ok());
    assert!(BirthDate::from_string("2024-02-29").is_ok());
}

#[test]
fn validate_birth_date_matches_from_string() {
    let a = BirthFortuneController::validate_birth_date("1990-05-15").unwrap();
    assert_eq!((a.year, a.month, a.day), (1990, 5, 15));
    assert!(BirthFortuneController::validate_birth_date("nonsense").is_err());
}

#[test]
fn lucky_numbers_sorted_unique_capped() {
    for (y, m, d) in [
        (1990, 5, 15),
        (2000, 1, 1),
        (1970, 12, 31),
        (1955, 7, 7),
        (2024, 2, 29),
    ] {
        let numbers = BirthFortuneModel::calculate_fortune(&date(y, m, d), Language::English)
            .lucky_numbers;
        assert!(!numbers.is_empty());
        assert!(numbers.len() <= 6);
        for pair in numbers.windows(2) {
            assert!(pair[0] < pair[1]);
        }
    }
}

#[test]
fn lucky_numbers_match_reference_selection() {
    for (y, m, d) in [(1990, 5, 15), (2001, 9, 9), (1961, 4, 12)] {
        let bd = date(y, m, d);
        let mut expected: Vec<u8> = vec![d as u8, m as u8, (y % 100) as u8];
        expected.push(bd.calculate_life_number());
        let seed = (y * 10000 + m as i32 * 100 + d as i32) as u64;
        let mut rng = StdRng::seed_from_u64(seed);
        for _ in 0..3 {
            expected.push(rng.gen_range(1..=99));
        }
        expected.sort();
        expected.dedup();
        expected.truncate(6);
        let fortune = BirthFortuneModel::calculate_fortune(&bd, Language::English);
        assert_eq!(fortune.lucky_numbers, expected);
    }
}

#[test]
fn birth_fortune_fields_for_known_date() {
    let fortune = BirthFortuneModel::calculate_fortune(&date(1990, 5, 15), Language::English);
    assert_eq!(fortune.life_number, 3);
    assert_eq!(fortune.zodiac_sign, "zodiac.taurus");
    assert_eq!(
        fortune.personality_traits,
        [
            "personality.creative",
            "personality.expressive",
            "personality.optimistic"
        ]
    );
    assert_eq!(fortune.career_advice, "career.creative");
    assert_eq!(
        fortune.compatibility,
        ["zodiac.virgo", "zodiac.capricorn", "zodiac.cancer"]
    );
}
