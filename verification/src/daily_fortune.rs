//! The deterministic fortune engine. A calendar date (and an optional
//! birth-date string) is hashed into a seed; a ChaCha20 stream drawn from
//! that seed yields five bounded tech dimensions, an exact weighted score,
//! and the narrative content keys. Every draw happens in a fixed order —
//! focus, creativity, debugging, collaboration, risk tolerance, then the
//! lucky color and the lucky time — because the draw order is part of the
//! reproducibility contract.

use vstd::prelude::*;
use vstd::string::StrSliceExecFns;
use vstd::bytes::spec_u64_from_le_bytes;
use vstd::bytes::u64_from_le_bytes;
use vstd::slice::slice_subrange;
use vstd::utf8::encode_utf8;
use crate::calendar::is_valid_date;
use crate::calendar::spec_weekday;
use crate::calendar::weekday;
use crate::hashing::sha256;
use crate::hashing::sha256_of;
use crate::i18n::default_table;
use crate::i18n::i18n;
use crate::i18n::spec_lookup;
use crate::lang::Language;
use crate::rng::chacha_byte_draw;
use crate::rng::chacha_index_draw;
use crate::rng::FortuneRng;
use crate::strings::all_digits;
use crate::strings::digits_value;
use crate::strings::parse_u32;
use crate::strings::str_eq;

verus! {

/// The two moods a day can have, decided by its weekday.
#[derive(Debug, Clone, Copy, PartialEq, Eq, Structural)]
pub enum WorkScenario {
    Workday,
    Weekend,
}

/// Five bounded aspects of a developer's day, each within 0 through 100.
#[derive(Debug, Clone, Copy, PartialEq, Eq, Structural)]
pub struct TechDimensions {
    pub focus: u8,
    pub creativity: u8,
    pub debugging: u8,
    pub collaboration: u8,
    pub risk_tolerance: u8,
}

/// A content template: a condition tag and the four text fields it selects.
#[derive(Debug, Clone)]
pub struct FortuneTemplate {
    pub condition: String,
    pub message: String,
    pub advice: String,
    pub color: String,
    pub time: String,
}

/// A day's fortune: the scenario, the drawn dimensions, the weighted score,
/// and the selected narrative content.
#[derive(Debug)]
pub struct Fortune {
    pub scenario: WorkScenario,
    pub dimensions: TechDimensions,
    pub overall_score: u8,
    pub message: String,
    pub advice: String,
    pub lucky_color: String,
    pub lucky_time: String,
}

// ---------------------------------------------------------------------------
// Date handling: `YYYYMMDD` strings and the scenario of a date.
// ---------------------------------------------------------------------------

/// The year encoded in the first four characters of a `YYYYMMDD` string.
pub open spec fn date8_year(s: Seq<char>) -> int {
    digits_value(s.subrange(0, 4))
}

/// The month encoded in a `YYYYMMDD` string.
pub open spec fn date8_month(s: Seq<char>) -> int {
    digits_value(s.subrange(4, 6))
}

/// The day encoded in a `YYYYMMDD` string.
pub open spec fn date8_day(s: Seq<char>) -> int {
    digits_value(s.subrange(6, 8))
}

/// Whether `s` is eight digits naming a real calendar date.
pub open spec fn valid_date8(s: Seq<char>) -> bool {
    &&& s.len() == 8
    &&& all_digits(s)
    &&& is_valid_date(date8_year(s), date8_month(s), date8_day(s))
}

/// The scenario of a date: Saturday and Sunday are the weekend,
/// every other weekday a workday.
pub open spec fn spec_scenario(y: int, m: int, d: int) -> WorkScenario {
    if spec_weekday(y, m, d) == 0 || spec_weekday(y, m, d) == 6 {
        WorkScenario::Weekend
    } else {
        WorkScenario::Workday
    }
}

/// A date maps to the weekend scenario exactly when its weekday is
/// Saturday or Sunday.
pub proof fn lemma_weekend_scenario(y: int, m: int, d: int)
    ensures
        (spec_scenario(y, m, d) is Weekend) <==> (spec_weekday(y, m, d) == 0 || spec_weekday(
            y,
            m,
            d,
        ) == 6),
        (spec_scenario(y, m, d) is Workday) <==> !(spec_weekday(y, m, d) == 0 || spec_weekday(
            y,
            m,
            d,
        ) == 6),
{
}

/// Splits a `YYYYMMDD` string into its numeric fields.
fn date8_parts(today: &str) -> (r: (u32, u32, u32))
    requires
        valid_date8(today@),
    ensures
        r.0 == date8_year(today@),
        r.1 == date8_month(today@),
        r.2 == date8_day(today@),
{
    let ys = today.substring_char(0, 4);
    let ms = today.substring_char(4, 6);
    let ds = today.substring_char(6, 8);
    proof {
        assert(all_digits(ys@)) by {
            assert(forall|i: int|
                0 <= i < ys@.len() ==> #[trigger] ys@[i] == today@.subrange(0, 4)[i]);
        }
        assert(all_digits(ms@)) by {
            assert(forall|i: int|
                0 <= i < ms@.len() ==> #[trigger] ms@[i] == today@.subrange(4, 6)[i]);
        }
        assert(all_digits(ds@)) by {
            assert(forall|i: int|
                0 <= i < ds@.len() ==> #[trigger] ds@[i] == today@.subrange(6, 8)[i]);
        }
    }
    // A valid eight-digit date always parses: each part is one to four
    // digits, well under the 32-bit bound.
    let y = match parse_u32(ys) {
        Some(v) => v,
        None => vstd::pervasive::unreached(),
    };
    let m = match parse_u32(ms) {
        Some(v) => v,
        None => vstd::pervasive::unreached(),
    };
    let d = match parse_u32(ds) {
        Some(v) => v,
        None => vstd::pervasive::unreached(),
    };
    (y, m, d)
}

// ---------------------------------------------------------------------------
// Seed derivation.
// ---------------------------------------------------------------------------

/// The view of an optional string slice.
pub open spec fn opt_str_view(o: Option<&str>) -> Option<Seq<char>> {
    match o {
        Some(s) => Some(s@),
        None => None,
    }
}

/// The bytes hashed for the seed: the date, the birthday when present,
/// then a fixed version tag and salt, in that order.
pub open spec fn seed_input(today: Seq<char>, birthday: Option<Seq<char>>) -> Seq<u8> {
    encode_utf8(today) + (match birthday {
        Some(b) => encode_utf8(b),
        None => Seq::<u8>::empty(),
    }) + encode_utf8(("findme_v0.1.0")@) + encode_utf8(("dev_salt")@)
}

/// The seed of a fortune: the first eight bytes of the SHA-256 digest of
/// [`seed_input`], read little-endian.
pub open spec fn spec_seed(today: Seq<char>, birthday: Option<Seq<char>>) -> u64 {
    spec_u64_from_le_bytes(sha256_of(seed_input(today, birthday)).subrange(0, 8))
}

/// Derives the fortune seed for a date and an optional birthday.
/// Identical inputs always yield the identical seed.
pub fn derive_seed(today: &str, birthday: Option<&str>) -> (r: u64)
    ensures
        r == spec_seed(today@, opt_str_view(birthday)),
{
    let mut msg: Vec<u8> = today.as_bytes_vec();
    match birthday {
        Some(b) => {
            let mut bb = b.as_bytes_vec();
            msg.append(&mut bb);
        },
        None => {},
    }
    let mut tag = "findme_v0.1.0".as_bytes_vec();
    msg.append(&mut tag);
    let mut salt = "dev_salt".as_bytes_vec();
    msg.append(&mut salt);
    proof {
        assert(msg@ =~= seed_input(today@, opt_str_view(birthday)));
    }
    let digest = sha256(msg.as_slice());
    let head = slice_subrange(digest.as_slice(), 0, 8);
    u64_from_le_bytes(head)
}

// ---------------------------------------------------------------------------
// Dimension sampling.
// ---------------------------------------------------------------------------

/// The scenario-specific sub-range each dimension is drawn from.
pub open spec fn dims_in_scenario_range(d: TechDimensions, s: WorkScenario) -> bool {
    match s {
        WorkScenario::Workday => {
            &&& 40 <= d.focus <= 100
            &&& 20 <= d.creativity <= 80
            &&& 50 <= d.debugging <= 100
            &&& 60 <= d.collaboration <= 100
            &&& 10 <= d.risk_tolerance <= 60
        },
        WorkScenario::Weekend => {
            &&& 20 <= d.focus <= 70
            &&& 60 <= d.creativity <= 100
            &&& 30 <= d.debugging <= 80
            &&& 10 <= d.collaboration <= 50
            &&& 50 <= d.risk_tolerance <= 100
        },
    }
}

/// The five draw requests a scenario makes, in draw order.
pub open spec fn dims_requests(s: WorkScenario) -> Seq<(u64, u64, u64)> {
    match s {
        WorkScenario::Workday => seq![
            (0u64, 40u64, 100u64),
            (0u64, 20u64, 80u64),
            (0u64, 50u64, 100u64),
            (0u64, 60u64, 100u64),
            (0u64, 10u64, 60u64),
        ],
        WorkScenario::Weekend => seq![
            (0u64, 20u64, 70u64),
            (0u64, 60u64, 100u64),
            (0u64, 30u64, 80u64),
            (0u64, 10u64, 50u64),
            (0u64, 50u64, 100u64),
        ],
    }
}

/// The dimensions a stream yields for a scenario: five named draws in the
/// fixed order focus, creativity, debugging, collaboration, risk tolerance.
pub open spec fn spec_dimensions(seed: u64, prior: Seq<(u64, u64, u64)>, s: WorkScenario) -> TechDimensions {
    match s {
        WorkScenario::Workday => (TechDimensions {
            focus: chacha_byte_draw(seed, prior, 40, 100),
            creativity: chacha_byte_draw(seed, prior.push((0u64, 40u64, 100u64)), 20, 80),
            debugging: chacha_byte_draw(
                seed,
                prior.push((0u64, 40u64, 100u64)).push((0u64, 20u64, 80u64)),
                50,
                100,
            ),
            collaboration: chacha_byte_draw(
                seed,
                prior.push((0u64, 40u64, 100u64)).push((0u64, 20u64, 80u64)).push(
                    (0u64, 50u64, 100u64),
                ),
                60,
                100,
            ),
            risk_tolerance: chacha_byte_draw(
                seed,
                prior.push((0u64, 40u64, 100u64)).push((0u64, 20u64, 80u64)).push(
                    (0u64, 50u64, 100u64),
                ).push((0u64, 60u64, 100u64)),
                10,
                60,
            ),
        }),
        WorkScenario::Weekend => (TechDimensions {
            focus: chacha_byte_draw(seed, prior, 20, 70),
            creativity: chacha_byte_draw(seed, prior.push((0u64, 20u64, 70u64)), 60, 100),
            debugging: chacha_byte_draw(
                seed,
                prior.push((0u64, 20u64, 70u64)).push((0u64, 60u64, 100u64)),
                30,
                80,
            ),
            collaboration: chacha_byte_draw(
                seed,
                prior.push((0u64, 20u64, 70u64)).push((0u64, 60u64, 100u64)).push(
                    (0u64, 30u64, 80u64),
                ),
                10,
                50,
            ),
            risk_tolerance: chacha_byte_draw(
                seed,
                prior.push((0u64, 20u64, 70u64)).push((0u64, 60u64, 100u64)).push(
                    (0u64, 30u64, 80u64),
                ).push((0u64, 10u64, 50u64)),
                50,
                100,
            ),
        }),
    }
}

/// Draws the five dimensions for a scenario from the stream, in the fixed
/// order that the reproducibility contract prescribes.
pub fn generate_scenario_biased_dimensions(scenario: &WorkScenario, rng: &mut FortuneRng) -> (r:
    TechDimensions)
    ensures
        r == spec_dimensions(old(rng).seed(), old(rng).history(), *scenario),
        dims_in_scenario_range(r, *scenario),
        final(rng).seed() == old(rng).seed(),
        final(rng).history() == old(rng).history() + dims_requests(*scenario),
{
    let r = match scenario {
        WorkScenario::Workday => {
            let focus = rng.gen_byte_range(40, 100);
            let creativity = rng.gen_byte_range(20, 80);
            let debugging = rng.gen_byte_range(50, 100);
            let collaboration = rng.gen_byte_range(60, 100);
            let risk_tolerance = rng.gen_byte_range(10, 60);
            TechDimensions { focus, creativity, debugging, collaboration, risk_tolerance }
        },
        WorkScenario::Weekend => {
            let focus = rng.gen_byte_range(20, 70);
            let creativity = rng.gen_byte_range(60, 100);
            let debugging = rng.gen_byte_range(30, 80);
            let collaboration = rng.gen_byte_range(10, 50);
            let risk_tolerance = rng.gen_byte_range(50, 100);
            TechDimensions { focus, creativity, debugging, collaboration, risk_tolerance }
        },
    };
    proof {
        assert(rng.history() =~= old(rng).history() + dims_requests(*scenario));
    }
    r
}

// ---------------------------------------------------------------------------
// Score aggregation.
// ---------------------------------------------------------------------------

/// The weight of focus, in hundredths.
pub open spec fn spec_weight_focus(s: WorkScenario) -> int {
    match s {
        WorkScenario::Workday => 35,
        WorkScenario::Weekend => 20,
    }
}

/// The weight of creativity, in hundredths.
pub open spec fn spec_weight_creativity(s: WorkScenario) -> int {
    match s {
        WorkScenario::Workday => 7,
        WorkScenario::Weekend => 40,
    }
}

/// The weight of debugging, in hundredths.
pub open spec fn spec_weight_debugging(s: WorkScenario) -> int {
    match s {
        WorkScenario::Workday => 30,
        WorkScenario::Weekend => 7,
    }
}

/// The weight of collaboration, in hundredths.
pub open spec fn spec_weight_collaboration(s: WorkScenario) -> int {
    match s {
        WorkScenario::Workday => 25,
        WorkScenario::Weekend => 3,
    }
}

/// The weight of risk tolerance, in hundredths.
pub open spec fn spec_weight_risk(s: WorkScenario) -> int {
    match s {
        WorkScenario::Workday => 3,
        WorkScenario::Weekend => 30,
    }
}

/// The overall score: the weighted sum of the dimensions, in hundredths,
/// rounded half up to the nearest integer.
pub open spec fn spec_weighted_score(d: TechDimensions, s: WorkScenario) -> int {
    (spec_weight_focus(s) * d.focus + spec_weight_creativity(s) * d.creativity
        + spec_weight_debugging(s) * d.debugging + spec_weight_collaboration(s) * d.collaboration
        + spec_weight_risk(s) * d.risk_tolerance + 50) / 100
}

/// Each scenario's weight set sums to exactly one — one hundred hundredths.
pub proof fn lemma_weights_normalized(s: WorkScenario)
    ensures
        spec_weight_focus(s) + spec_weight_creativity(s) + spec_weight_debugging(s)
            + spec_weight_collaboration(s) + spec_weight_risk(s) == 100,
{
}

/// A score computed from in-range dimensions always lies in 0 through 100.
pub proof fn lemma_score_in_range(d: TechDimensions, s: WorkScenario)
    requires
        dims_in_scenario_range(d, s),
    ensures
        0 <= spec_weighted_score(d, s) <= 100,
{
}

/// Computes the overall score of the dimensions under a scenario's weights.
/// Pure: calling it twice on the same input gives the same score.
pub fn calculate_scenario_weighted_score(dimensions: &TechDimensions, scenario: &WorkScenario) -> (r:
    u8)
    ensures
        r == spec_weighted_score(*dimensions, *scenario),
        dims_in_scenario_range(*dimensions, *scenario) ==> r <= 100,
{
    proof {
        if dims_in_scenario_range(*dimensions, *scenario) {
            lemma_score_in_range(*dimensions, *scenario);
        }
    }
    let d = dimensions;
    let weighted: u32 = match scenario {
        WorkScenario::Workday => 35 * (d.focus as u32) + 7 * (d.creativity as u32) + 30 * (
        d.debugging as u32) + 25 * (d.collaboration as u32) + 3 * (d.risk_tolerance as u32),
        WorkScenario::Weekend => 20 * (d.focus as u32) + 40 * (d.creativity as u32) + 7 * (
        d.debugging as u32) + 3 * (d.collaboration as u32) + 30 * (d.risk_tolerance as u32),
    };
    ((weighted + 50) / 100) as u8
}

// ---------------------------------------------------------------------------
// Content selection.
// ---------------------------------------------------------------------------

/// The dominant dimension's tag, ties resolved by the fixed priority
/// focus, creativity, debugging, collaboration, risk tolerance.
pub open spec fn spec_primary_dim(d: TechDimensions) -> Seq<char> {
    if d.focus >= d.creativity && d.focus >= d.debugging && d.focus >= d.collaboration && d.focus
        >= d.risk_tolerance {
        ("focus")@
    } else if d.creativity >= d.debugging && d.creativity >= d.collaboration && d.creativity
        >= d.risk_tolerance {
        ("creativity")@
    } else if d.debugging >= d.collaboration && d.debugging >= d.risk_tolerance {
        ("debugging")@
    } else if d.collaboration >= d.risk_tolerance {
        ("collaboration")@
    } else {
        ("risk_tolerance")@
    }
}

/// The message key of a score band and a dominant dimension: the top two
/// bands key by both, lower bands by the band alone, and any score outside
/// 30 through 100 falls back to the unknown key.
pub open spec fn spec_message_key(score: int, dim: Seq<char>) -> Seq<char> {
    if 90 <= score <= 100 {
        if dim == ("focus")@ {
            ("fortune.excellent.focus")@
        } else if dim == ("creativity")@ {
            ("fortune.excellent.creativity")@
        } else if dim == ("debugging")@ {
            ("fortune.excellent.debugging")@
        } else if dim == ("collaboration")@ {
            ("fortune.excellent.collaboration")@
        } else if dim == ("risk_tolerance")@ {
            ("fortune.excellent.risk")@
        } else {
            ("fortune.excellent")@
        }
    } else if 80 <= score <= 89 {
        if dim == ("focus")@ {
            ("fortune.great.focus")@
        } else if dim == ("creativity")@ {
            ("fortune.great.creativity")@
        } else if dim == ("debugging")@ {
            ("fortune.great.debugging")@
        } else if dim == ("collaboration")@ {
            ("fortune.great.collaboration")@
        } else if dim == ("risk_tolerance")@ {
            ("fortune.great.risk")@
        } else {
            ("fortune.great")@
        }
    } else if 70 <= score <= 79 {
        ("fortune.good")@
    } else if 60 <= score <= 69 {
        ("fortune.average")@
    } else if 50 <= score <= 59 {
        ("fortune.careful")@
    } else if 40 <= score <= 49 {
        ("fortune.poor")@
    } else if 30 <= score <= 39 {
        ("fortune.challenging")@
    } else {
        ("fortune.unknown")@
    }
}

/// The advice key of a score band and a dominant dimension, shaped like
/// [`spec_message_key`].
pub open spec fn spec_advice_key(score: int, dim: Seq<char>) -> Seq<char> {
    if 90 <= score <= 100 {
        if dim == ("focus")@ {
            ("advice.excellent.focus")@
        } else if dim == ("creativity")@ {
            ("advice.excellent.creativity")@
        } else if dim == ("debugging")@ {
            ("advice.excellent.debugging")@
        } else if dim == ("collaboration")@ {
            ("advice.excellent.collaboration")@
        } else if dim == ("risk_tolerance")@ {
            ("advice.excellent.risk")@
        } else {
            ("advice.excellent")@
        }
    } else if 80 <= score <= 89 {
        if dim == ("focus")@ {
            ("advice.great.focus")@
        } else if dim == ("creativity")@ {
            ("advice.great.creativity")@
        } else if dim == ("debugging")@ {
            ("advice.great.debugging")@
        } else if dim == ("collaboration")@ {
            ("advice.great.collaboration")@
        } else if dim == ("risk_tolerance")@ {
            ("advice.great.risk")@
        } else {
            ("advice.great")@
        }
    } else if 70 <= score <= 79 {
        ("advice.good")@
    } else if 60 <= score <= 69 {
        ("advice.average")@
    } else if 50 <= score <= 59 {
        ("advice.careful")@
    } else if 40 <= score <= 49 {
        ("advice.poor")@
    } else if 30 <= score <= 39 {
        ("advice.challenging")@
    } else {
        ("advice.unknown")@
    }
}

/// The lucky-color candidate keys of a scenario and its dimensions.
pub open spec fn spec_color_keys(d: TechDimensions, s: WorkScenario) -> Seq<Seq<char>> {
    match s {
        WorkScenario::Workday => {
            if d.focus > 70 {
                seq![("color.blue")@, ("color.cyan")@, ("color.green")@]
            } else if d.debugging > 70 {
                seq![("color.blue")@, ("color.green")@, ("color.cyan")@]
            } else {
                seq![("color.blue")@, ("color.green")@, ("color.cyan")@, ("color.yellow")@]
            }
        },
        WorkScenario::Weekend => {
            if d.creativity > 70 {
                seq![("color.purple")@, ("color.pink")@, ("color.orange")@]
            } else if d.risk_tolerance > 70 {
                seq![("color.red")@, ("color.orange")@, ("color.pink")@]
            } else {
                seq![("color.purple")@, ("color.pink")@, ("color.orange")@, ("color.red")@]
            }
        },
    }
}

/// The lucky-time candidate keys of a scenario and its dimensions.
pub open spec fn spec_time_keys(d: TechDimensions, s: WorkScenario) -> Seq<Seq<char>> {
    match s {
        WorkScenario::Workday => {
            if d.focus > 80 {
                seq![("time.morning_9_11")@, ("time.afternoon_2_4")@]
            } else if d.collaboration > 70 {
                seq![("time.afternoon_2_4")@, ("time.afternoon_5_6")@]
            } else if d.debugging > 70 {
                seq![("time.morning_9_11")@, ("time.afternoon_2_4")@]
            } else {
                seq![("time.morning_9_11")@, ("time.afternoon_2_4")@, ("time.afternoon_5_6")@]
            }
        },
        WorkScenario::Weekend => {
            if d.creativity > 70 {
                seq![("time.evening_7_9")@, ("time.night_1_3")@]
            } else if d.risk_tolerance > 70 {
                seq![("time.evening_10_11")@, ("time.night_1_3")@]
            } else {
                seq![("time.evening_7_9")@, ("time.evening_10_11")@, ("time.night_1_3")@]
            }
        },
    }
}

/// The draw request that selecting a color makes on the stream.
pub open spec fn color_request(d: TechDimensions, s: WorkScenario) -> (u64, u64, u64) {
    (1u64, spec_color_keys(d, s).len() as u64, 0u64)
}

/// The draw request that selecting a time makes on the stream.
pub open spec fn time_request(d: TechDimensions, s: WorkScenario) -> (u64, u64, u64) {
    (1u64, spec_time_keys(d, s).len() as u64, 0u64)
}

/// The color key a stream selects: a named index draw into the candidates.
pub open spec fn spec_color_key(
    d: TechDimensions,
    s: WorkScenario,
    seed: u64,
    prior: Seq<(u64, u64, u64)>,
) -> Seq<char> {
    spec_color_keys(d, s)[chacha_index_draw(seed, prior, spec_color_keys(d, s).len() as usize) as int]
}

/// The time key a stream selects: a named index draw into the candidates.
pub open spec fn spec_time_key(
    d: TechDimensions,
    s: WorkScenario,
    seed: u64,
    prior: Seq<(u64, u64, u64)>,
) -> Seq<char> {
    spec_time_keys(d, s)[chacha_index_draw(seed, prior, spec_time_keys(d, s).len() as usize) as int]
}

/// Selects the localized message for the score band and dominant dimension.
pub fn generate_message(
    dimensions: &TechDimensions,
    primary_dim: &str,
    scenario: &WorkScenario,
    lang: Language,
) -> (r: String)
    ensures
        r@ == spec_lookup(
            default_table(),
            spec_message_key(spec_weighted_score(*dimensions, *scenario), primary_dim@),
            lang,
        ),
{
    let score = calculate_scenario_weighted_score(dimensions, scenario);
    if score >= 90 && score <= 100 {
        if str_eq(primary_dim, "focus") {
            i18n("fortune.excellent.focus", lang)
        } else if str_eq(primary_dim, "creativity") {
            i18n("fortune.excellent.creativity", lang)
        } else if str_eq(primary_dim, "debugging") {
            i18n("fortune.excellent.debugging", lang)
        } else if str_eq(primary_dim, "collaboration") {
            i18n("fortune.excellent.collaboration", lang)
        } else if str_eq(primary_dim, "risk_tolerance") {
            i18n("fortune.excellent.risk", lang)
        } else {
            i18n("fortune.excellent", lang)
        }
    } else if score >= 80 && score <= 89 {
        if str_eq(primary_dim, "focus") {
            i18n("fortune.great.focus", lang)
        } else if str_eq(primary_dim, "creativity") {
            i18n("fortune.great.creativity", lang)
        } else if str_eq(primary_dim, "debugging") {
            i18n("fortune.great.debugging", lang)
        } else if str_eq(primary_dim, "collaboration") {
            i18n("fortune.great.collaboration", lang)
        } else if str_eq(primary_dim, "risk_tolerance") {
            i18n("fortune.great.risk", lang)
        } else {
            i18n("fortune.great", lang)
        }
    } else if score >= 70 && score <= 79 {
        i18n("fortune.good", lang)
    } else if score >= 60 && score <= 69 {
        i18n("fortune.average", lang)
    } else if score >= 50 && score <= 59 {
        i18n("fortune.careful", lang)
    } else if score >= 40 && score <= 49 {
        i18n("fortune.poor", lang)
    } else if score >= 30 && score <= 39 {
        i18n("fortune.challenging", lang)
    } else {
        i18n("fortune.unknown", lang)
    }
}

/// Selects the localized advice for the score band and dominant dimension.
pub fn generate_advice(
    dimensions: &TechDimensions,
    primary_dim: &str,
    scenario: &WorkScenario,
    lang: Language,
) -> (r: String)
    ensures
        r@ == spec_lookup(
            default_table(),
            spec_advice_key(spec_weighted_score(*dimensions, *scenario), primary_dim@),
            lang,
        ),
{
    let score = calculate_scenario_weighted_score(dimensions, scenario);
    if score >= 90 && score <= 100 {
        if str_eq(primary_dim, "focus") {
            i18n("advice.excellent.focus", lang)
        } else if str_eq(primary_dim, "creativity") {
            i18n("advice.excellent.creativity", lang)
        } else if str_eq(primary_dim, "debugging") {
            i18n("advice.excellent.debugging", lang)
        } else if str_eq(primary_dim, "collaboration") {
            i18n("advice.excellent.collaboration", lang)
        } else if str_eq(primary_dim, "risk_tolerance") {
            i18n("advice.excellent.risk", lang)
        } else {
            i18n("advice.excellent", lang)
        }
    } else if score >= 80 && score <= 89 {
        if str_eq(primary_dim, "focus") {
            i18n("advice.great.focus", lang)
        } else if str_eq(primary_dim, "creativity") {
            i18n("advice.great.creativity", lang)
        } else if str_eq(primary_dim, "debugging") {
            i18n("advice.great.debugging", lang)
        } else if str_eq(primary_dim, "collaboration") {
            i18n("advice.great.collaboration", lang)
        } else if str_eq(primary_dim, "risk_tolerance") {
            i18n("advice.great.risk", lang)
        } else {
            i18n("advice.great", lang)
        }
    } else if score >= 70 && score <= 79 {
        i18n("advice.good", lang)
    } else if score >= 60 && score <= 69 {
        i18n("advice.average", lang)
    } else if score >= 50 && score <= 59 {
        i18n("advice.careful", lang)
    } else if score >= 40 && score <= 49 {
        i18n("advice.poor", lang)
    } else if score >= 30 && score <= 39 {
        i18n("advice.challenging", lang)
    } else {
        i18n("advice.unknown", lang)
    }
}

/// Draws the lucky color: one index draw into the scenario's candidates.
pub fn generate_color(
    dimensions: &TechDimensions,
    scenario: &WorkScenario,
    rng: &mut FortuneRng,
    lang: Language,
) -> (r: String)
    ensures
        r@ == spec_lookup(
            default_table(),
            spec_color_key(*dimensions, *scenario, old(rng).seed(), old(rng).history()),
            lang,
        ),
        final(rng).seed() == old(rng).seed(),
        final(rng).history() == old(rng).history().push(color_request(*dimensions, *scenario)),
{
    let keys: Vec<&str> = match scenario {
        WorkScenario::Workday => {
            if dimensions.focus > 70 {
                vec!["color.blue", "color.cyan", "color.green"]
            } else if dimensions.debugging > 70 {
                vec!["color.blue", "color.green", "color.cyan"]
            } else {
                vec!["color.blue", "color.green", "color.cyan", "color.yellow"]
            }
        },
        WorkScenario::Weekend => {
            if dimensions.creativity > 70 {
                vec!["color.purple", "color.pink", "color.orange"]
            } else if dimensions.risk_tolerance > 70 {
                vec!["color.red", "color.orange", "color.pink"]
            } else {
                vec!["color.purple", "color.pink", "color.orange", "color.red"]
            }
        },
    };
    proof {
        assert(forall|i: int|
            0 <= i < keys@.len() ==> #[trigger] keys@[i]@ == spec_color_keys(
                *dimensions,
                *scenario,
            )[i]);
    }
    let idx = rng.gen_index(keys.len());
    let selected_key = keys[idx];
    i18n(selected_key, lang)
}

/// Draws the lucky time: one index draw into the scenario's candidates.
pub fn generate_time(
    dimensions: &TechDimensions,
    scenario: &WorkScenario,
    rng: &mut FortuneRng,
    lang: Language,
) -> (r: String)
    ensures
        r@ == spec_lookup(
            default_table(),
            spec_time_key(*dimensions, *scenario, old(rng).seed(), old(rng).history()),
            lang,
        ),
        final(rng).seed() == old(rng).seed(),
        final(rng).history() == old(rng).history().push(time_request(*dimensions, *scenario)),
{
    let keys: Vec<&str> = match scenario {
        WorkScenario::Workday => {
            if dimensions.focus > 80 {
                vec!["time.morning_9_11", "time.afternoon_2_4"]
            } else if dimensions.collaboration > 70 {
                vec!["time.afternoon_2_4", "time.afternoon_5_6"]
            } else if dimensions.debugging > 70 {
                vec!["time.morning_9_11", "time.afternoon_2_4"]
            } else {
                vec!["time.morning_9_11", "time.afternoon_2_4", "time.afternoon_5_6"]
            }
        },
        WorkScenario::Weekend => {
            if dimensions.creativity > 70 {
                vec!["time.evening_7_9", "time.night_1_3"]
            } else if dimensions.risk_tolerance > 70 {
                vec!["time.evening_10_11", "time.night_1_3"]
            } else {
                vec!["time.evening_7_9", "time.evening_10_11", "time.night_1_3"]
            }
        },
    };
    proof {
        assert(forall|i: int|
            0 <= i < keys@.len() ==> #[trigger] keys@[i]@ == spec_time_keys(
                *dimensions,
                *scenario,
            )[i]);
    }
    let idx = rng.gen_index(keys.len());
    let selected_key = keys[idx];
    i18n(selected_key, lang)
}

/// Selects the full narrative content: message, advice, then one color draw
/// and one time draw from the stream, in that fixed order.
pub fn generate_fortune_content(
    dimensions: &TechDimensions,
    scenario: &WorkScenario,
    rng: &mut FortuneRng,
    lang: Language,
) -> (r: (String, String, String, String))
    ensures
        r.0@ == spec_lookup(
            default_table(),
            spec_message_key(
                spec_weighted_score(*dimensions, *scenario),
                spec_primary_dim(*dimensions),
            ),
            lang,
        ),
        r.1@ == spec_lookup(
            default_table(),
            spec_advice_key(
                spec_weighted_score(*dimensions, *scenario),
                spec_primary_dim(*dimensions),
            ),
            lang,
        ),
        r.2@ == spec_lookup(
            default_table(),
            spec_color_key(*dimensions, *scenario, old(rng).seed(), old(rng).history()),
            lang,
        ),
        r.3@ == spec_lookup(
            default_table(),
            spec_time_key(
                *dimensions,
                *scenario,
                old(rng).seed(),
                old(rng).history().push(color_request(*dimensions, *scenario)),
            ),
            lang,
        ),
        final(rng).seed() == old(rng).seed(),
        final(rng).history() == old(rng).history().push(color_request(*dimensions, *scenario)).push(
            time_request(*dimensions, *scenario),
        ),
{
    let d = dimensions;
    let primary_dim: &str = if d.focus >= d.creativity && d.focus >= d.debugging && d.focus
        >= d.collaboration && d.focus >= d.risk_tolerance {
        "focus"
    } else if d.creativity >= d.debugging && d.creativity >= d.collaboration && d.creativity
        >= d.risk_tolerance {
        "creativity"
    } else if d.debugging >= d.collaboration && d.debugging >= d.risk_tolerance {
        "debugging"
    } else if d.collaboration >= d.risk_tolerance {
        "collaboration"
    } else {
        "risk_tolerance"
    };
    let message = generate_message(dimensions, primary_dim, scenario, lang);
    let advice = generate_advice(dimensions, primary_dim, scenario, lang);
    let color = generate_color(dimensions, scenario, rng, lang);
    let time = generate_time(dimensions, scenario, rng, lang);
    (message, advice, color, time)
}

// ---------------------------------------------------------------------------
// The full engine.
// ---------------------------------------------------------------------------

/// What a fortune for a date, an optional birthday and a locale must hold:
/// every field is a fixed function of those inputs alone.
pub open spec fn fortune_matches(
    f: Fortune,
    today: Seq<char>,
    birthday: Option<Seq<char>>,
    lang: Language,
) -> bool {
    let y = date8_year(today);
    let m = date8_month(today);
    let d = date8_day(today);
    let s = spec_scenario(y, m, d);
    let seed = spec_seed(today, birthday);
    let dims = spec_dimensions(seed, Seq::empty(), s);
    let score = spec_weighted_score(dims, s);
    let h5 = dims_requests(s);
    &&& f.scenario == s
    &&& f.dimensions == dims
    &&& dims_in_scenario_range(dims, s)
    &&& f.overall_score == score
    &&& 0 <= f.overall_score <= 100
    &&& f.message@ == spec_lookup(
        default_table(),
        spec_message_key(score, spec_primary_dim(dims)),
        lang,
    )
    &&& f.advice@ == spec_lookup(
        default_table(),
        spec_advice_key(score, spec_primary_dim(dims)),
        lang,
    )
    &&& f.lucky_color@ == spec_lookup(default_table(), spec_color_key(dims, s, seed, h5), lang)
    &&& f.lucky_time@ == spec_lookup(
        default_table(),
        spec_time_key(dims, s, seed, h5.push(color_request(dims, s))),
        lang,
    )
}

/// Determinism: two fortunes computed for the same date, birthday and locale
/// agree in every field.
pub proof fn lemma_fortune_deterministic(
    f1: Fortune,
    f2: Fortune,
    today: Seq<char>,
    birthday: Option<Seq<char>>,
    lang: Language,
)
    requires
        fortune_matches(f1, today, birthday, lang),
        fortune_matches(f2, today, birthday, lang),
    ensures
        f1.scenario == f2.scenario,
        f1.dimensions == f2.dimensions,
        f1.overall_score == f2.overall_score,
        f1.message@ == f2.message@,
        f1.advice@ == f2.advice@,
        f1.lucky_color@ == f2.lucky_color@,
        f1.lucky_time@ == f2.lucky_time@,
{
}

/// Computes the fortune of a `YYYYMMDD` date, personalized by the optional
/// birthday string, for the given locale.
pub fn generate_fortune_with_seed(today: &str, birthday: Option<&str>, lang: Language) -> (r:
    Fortune)
    requires
        valid_date8(today@),
    ensures
        fortune_matches(r, today@, opt_str_view(birthday), lang),
{
    let (year, month, day) = date8_parts(today);
    let wd = weekday(year as i32, month, day);
    let scenario = if wd == 0 || wd == 6 {
        WorkScenario::Weekend
    } else {
        WorkScenario::Workday
    };
    let seed = derive_seed(today, birthday);
    let mut rng = FortuneRng::from_seed(seed);
    let dimensions = generate_scenario_biased_dimensions(&scenario, &mut rng);
    let overall_score = calculate_scenario_weighted_score(&dimensions, &scenario);
    let (message, advice, color, time) = generate_fortune_content(
        &dimensions,
        &scenario,
        &mut rng,
        lang,
    );
    proof {
        assert(Seq::<(u64, u64, u64)>::empty() + dims_requests(scenario) =~= dims_requests(
            scenario,
        ));
    }
    Fortune {
        scenario,
        dimensions,
        overall_score,
        message,
        advice,
        lucky_color: color,
        lucky_time: time,
    }
}

} // verus!
