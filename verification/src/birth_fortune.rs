//! Birth-date numerology: personality traits and career advice keyed by the
//! life number, zodiac compatibility, and the lucky numbers — the six
//! smallest distinct values among the date's own digits-derived numbers and
//! three seeded draws.

use vstd::prelude::*;
use crate::birth_date::spec_life_number;
use crate::birth_date::spec_zodiac_key;
use crate::birth_date::BirthDate;
use crate::i18n::default_table;
use crate::i18n::i18n;
use crate::i18n::spec_lookup;
use crate::lang::Language;
use crate::rng::std_byte_draw;
use crate::rng::LuckyRng;
use crate::strings::str_eq;

verus! {

/// Everything the numerology derives from one birth date.
#[derive(Debug)]
pub struct BirthFortune {
    pub life_number: u8,
    pub zodiac_sign: String,
    pub personality_traits: Vec<String>,
    pub career_advice: String,
    pub lucky_numbers: Vec<u8>,
    pub compatibility: Vec<String>,
}

/// The seed of the lucky-number stream: the date packed as an eight-digit
/// decimal number.
pub open spec fn spec_lucky_seed(y: int, m: int, d: int) -> int {
    y * 10000 + m * 100 + d
}

/// The seven lucky-number candidates of a date, in the order they are
/// gathered: day, month, the year's last two digits, the life number, and
/// three seeded draws from 1 through 99.
pub open spec fn spec_lucky_candidates(y: int, m: int, d: int) -> Seq<u8> {
    let seed = spec_lucky_seed(y, m, d) as u64;
    let empty = Seq::<(u8, u8)>::empty();
    seq![
        d as u8,
        m as u8,
        (y % 100) as u8,
        spec_life_number(y, m, d) as u8,
        std_byte_draw(seed, empty, 1, 99),
        std_byte_draw(seed, empty.push((1u8, 99u8)), 1, 99),
        std_byte_draw(seed, empty.push((1u8, 99u8)).push((1u8, 99u8)), 1, 99),
    ]
}

/// Each element is strictly smaller than the next: sorted and free of
/// duplicates at once.
pub open spec fn strictly_increasing(s: Seq<u8>) -> bool {
    forall|i: int, j: int|
        #![trigger s[i], s[j]]
        0 <= i < j < s.len() ==> s[i] < s[j]
}

/// What the lucky numbers of a candidate list are: strictly increasing, at
/// most six, every entry a candidate, and covering every candidate value
/// except — when six are already taken — values above all of them.
pub open spec fn is_lucky_selection(r: Seq<u8>, cands: Seq<u8>) -> bool {
    &&& strictly_increasing(r)
    &&& r.len() <= 6
    &&& forall|i: int| 0 <= i < r.len() ==> cands.contains(#[trigger] r[i])
    &&& forall|x: u8|
        #[trigger] cands.contains(x) ==> r.contains(x) || (r.len() == 6 && forall|i: int|
            0 <= i < r.len() ==> #[trigger] r[i] < x)
}

/// Whether `x` occurs in `v`.
fn vec_contains(v: &Vec<u8>, x: u8) -> (r: bool)
    ensures
        r == v@.contains(x),
{
    let n = v.len();
    let mut i: usize = 0;
    while i < n
        invariant
            i <= n,
            n == v@.len(),
            forall|j: int| 0 <= j < i ==> v@[j] != x,
        decreases n - i,
    {
        if v[i] == x {
            return true;
        }
        i = i + 1;
    }
    false
}

/// The table keys of the personality traits of a life number.
pub open spec fn spec_personality_keys(n: int) -> Seq<Seq<char>> {
    if n == 1 {
        seq![("personality.leader")@, ("personality.independent")@, ("personality.innovative")@]
    } else if n == 2 {
        seq![
            ("personality.cooperative")@,
            ("personality.intuitive")@,
            ("personality.diplomatic")@,
        ]
    } else if n == 3 {
        seq![("personality.creative")@, ("personality.expressive")@, ("personality.optimistic")@]
    } else if n == 4 {
        seq![
            ("personality.reliable")@,
            ("personality.organized")@,
            ("personality.detail_oriented")@,
        ]
    } else if n == 5 {
        seq![("personality.adventurous")@, ("personality.adaptable")@, ("personality.curious")@]
    } else if n == 6 {
        seq![("personality.responsible")@, ("personality.caring")@, ("personality.artistic")@]
    } else if n == 7 {
        seq![
            ("personality.analytical")@,
            ("personality.intuitive")@,
            ("personality.truth_seeker")@,
        ]
    } else if n == 8 {
        seq![
            ("personality.business_minded")@,
            ("personality.ambitious")@,
            ("personality.goal_oriented")@,
        ]
    } else if n == 9 {
        seq![("personality.compassionate")@, ("personality.wise")@, ("personality.idealistic")@]
    } else {
        seq![("personality.mysterious")@, ("personality.enigmatic")@]
    }
}

/// The table key of the career advice of a life number.
pub open spec fn spec_career_key(n: int) -> Seq<char> {
    if n == 1 {
        ("career.leadership")@
    } else if n == 2 {
        ("career.teamwork")@
    } else if n == 3 {
        ("career.creative")@
    } else if n == 4 {
        ("career.technical")@
    } else if n == 5 {
        ("career.sales")@
    } else if n == 6 {
        ("career.service")@
    } else if n == 7 {
        ("career.research")@
    } else if n == 8 {
        ("career.finance")@
    } else if n == 9 {
        ("career.charity")@
    } else {
        ("career.mysticism")@
    }
}

/// The table keys of the signs compatible with a localized sign name,
/// resolved by comparing the name against each localized sign in a fixed
/// order.
pub open spec fn spec_compat_keys(z: Seq<char>, lang: Language) -> Seq<Seq<char>> {
    if z == spec_lookup(default_table(), ("zodiac.aries")@, lang) {
        seq![("zodiac.leo")@, ("zodiac.sagittarius")@, ("zodiac.gemini")@]
    } else if z == spec_lookup(default_table(), ("zodiac.taurus")@, lang) {
        seq![("zodiac.virgo")@, ("zodiac.capricorn")@, ("zodiac.cancer")@]
    } else if z == spec_lookup(default_table(), ("zodiac.gemini")@, lang) {
        seq![("zodiac.libra")@, ("zodiac.aquarius")@, ("zodiac.aries")@]
    } else if z == spec_lookup(default_table(), ("zodiac.cancer")@, lang) {
        seq![("zodiac.scorpio")@, ("zodiac.pisces")@, ("zodiac.taurus")@]
    } else if z == spec_lookup(default_table(), ("zodiac.leo")@, lang) {
        seq![("zodiac.aries")@, ("zodiac.sagittarius")@, ("zodiac.libra")@]
    } else if z == spec_lookup(default_table(), ("zodiac.virgo")@, lang) {
        seq![("zodiac.taurus")@, ("zodiac.capricorn")@, ("zodiac.scorpio")@]
    } else if z == spec_lookup(default_table(), ("zodiac.libra")@, lang) {
        seq![("zodiac.gemini")@, ("zodiac.aquarius")@, ("zodiac.leo")@]
    } else if z == spec_lookup(default_table(), ("zodiac.scorpio")@, lang) {
        seq![("zodiac.cancer")@, ("zodiac.pisces")@, ("zodiac.virgo")@]
    } else if z == spec_lookup(default_table(), ("zodiac.sagittarius")@, lang) {
        seq![("zodiac.aries")@, ("zodiac.leo")@, ("zodiac.aquarius")@]
    } else if z == spec_lookup(default_table(), ("zodiac.capricorn")@, lang) {
        seq![("zodiac.taurus")@, ("zodiac.virgo")@, ("zodiac.pisces")@]
    } else if z == spec_lookup(default_table(), ("zodiac.aquarius")@, lang) {
        seq![("zodiac.gemini")@, ("zodiac.libra")@, ("zodiac.sagittarius")@]
    } else if z == spec_lookup(default_table(), ("zodiac.pisces")@, lang) {
        seq![("zodiac.cancer")@, ("zodiac.scorpio")@, ("zodiac.capricorn")@]
    } else {
        seq![("zodiac.unknown")@]
    }
}

/// The numerology model: pure derivations from a validated birth date.
pub struct BirthFortuneModel;

impl BirthFortuneModel {
    /// Derives the full numerology of a birth date for a locale.
    pub fn calculate_fortune(birth_date: &BirthDate, lang: Language) -> (r: BirthFortune)
        requires
            birth_date.wf(),
        ensures
            ({
                let y = birth_date.year as int;
                let m = birth_date.month as int;
                let d = birth_date.day as int;
                let z = spec_lookup(default_table(), spec_zodiac_key(m, d), lang);
                &&& r.life_number == spec_life_number(y, m, d)
                &&& r.zodiac_sign@ == z
                &&& r.personality_traits@.len() == spec_personality_keys(
                    spec_life_number(y, m, d),
                ).len()
                &&& forall|i: int|
                    0 <= i < r.personality_traits@.len() ==> #[trigger] r.personality_traits@[i]@
                        == spec_lookup(
                        default_table(),
                        spec_personality_keys(spec_life_number(y, m, d))[i],
                        lang,
                    )
                &&& r.career_advice@ == spec_lookup(
                    default_table(),
                    spec_career_key(spec_life_number(y, m, d)),
                    lang,
                )
                &&& is_lucky_selection(r.lucky_numbers@, spec_lucky_candidates(y, m, d))
                &&& r.lucky_numbers@.len() >= 1
                &&& r.compatibility@.len() == spec_compat_keys(z, lang).len()
                &&& forall|i: int|
                    0 <= i < r.compatibility@.len() ==> #[trigger] r.compatibility@[i]@
                        == spec_lookup(default_table(), spec_compat_keys(z, lang)[i], lang)
            }),
    {
        let life_number = birth_date.calculate_life_number();
        let zodiac_sign = birth_date.get_zodiac_sign(lang);
        let personality_traits = Self::get_personality_traits(life_number, lang);
        let career_advice = Self::get_career_advice(life_number, zodiac_sign.as_str(), lang);
        let lucky_numbers = Self::calculate_lucky_numbers(birth_date);
        let compatibility = Self::get_compatibility(zodiac_sign.as_str(), lang);
        BirthFortune {
            life_number,
            zodiac_sign,
            personality_traits,
            career_advice,
            lucky_numbers,
            compatibility,
        }
    }

    /// The localized personality traits of a life number.
    pub fn get_personality_traits(life_number: u8, lang: Language) -> (r: Vec<String>)
        ensures
            r@.len() == spec_personality_keys(life_number as int).len(),
            forall|i: int|
                0 <= i < r@.len() ==> #[trigger] r@[i]@ == spec_lookup(
                    default_table(),
                    spec_personality_keys(life_number as int)[i],
                    lang,
                ),
    {
        match life_number {
            1 => vec![
                i18n("personality.leader", lang),
                i18n("personality.independent", lang),
                i18n("personality.innovative", lang),
            ],
            2 => vec![
                i18n("personality.cooperative", lang),
                i18n("personality.intuitive", lang),
                i18n("personality.diplomatic", lang),
            ],
            3 => vec![
                i18n("personality.creative", lang),
                i18n("personality.expressive", lang),
                i18n("personality.optimistic", lang),
            ],
            4 => vec![
                i18n("personality.reliable", lang),
                i18n("personality.organized", lang),
                i18n("personality.detail_oriented", lang),
            ],
            5 => vec![
                i18n("personality.adventurous", lang),
                i18n("personality.adaptable", lang),
                i18n("personality.curious", lang),
            ],
            6 => vec![
                i18n("personality.responsible", lang),
                i18n("personality.caring", lang),
                i18n("personality.artistic", lang),
            ],
            7 => vec![
                i18n("personality.analytical", lang),
                i18n("personality.intuitive", lang),
                i18n("personality.truth_seeker", lang),
            ],
            8 => vec![
                i18n("personality.business_minded", lang),
                i18n("personality.ambitious", lang),
                i18n("personality.goal_oriented", lang),
            ],
            9 => vec![
                i18n("personality.compassionate", lang),
                i18n("personality.wise", lang),
                i18n("personality.idealistic", lang),
            ],
            _ => vec![i18n("personality.mysterious", lang), i18n("personality.enigmatic", lang)],
        }
    }

    /// The localized career advice of a life number. The sign is accepted
    /// for context but does not influence the advice.
    pub fn get_career_advice(life_number: u8, _zodiac_sign: &str, lang: Language) -> (r: String)
        ensures
            r@ == spec_lookup(default_table(), spec_career_key(life_number as int), lang),
    {
        match life_number {
            1 => i18n("career.leadership", lang),
            2 => i18n("career.teamwork", lang),
            3 => i18n("career.creative", lang),
            4 => i18n("career.technical", lang),
            5 => i18n("career.sales", lang),
            6 => i18n("career.service", lang),
            7 => i18n("career.research", lang),
            8 => i18n("career.finance", lang),
            9 => i18n("career.charity", lang),
            _ => i18n("career.mysticism", lang),
        }
    }

    /// The lucky numbers of a date: the six smallest distinct values among
    /// the seven candidates, sorted ascending — never a duplicate, never
    /// more than six, never empty.
    pub fn calculate_lucky_numbers(birth_date: &BirthDate) -> (r: Vec<u8>)
        requires
            birth_date.wf(),
        ensures
            is_lucky_selection(
                r@,
                spec_lucky_candidates(
                    birth_date.year as int,
                    birth_date.month as int,
                    birth_date.day as int,
                ),
            ),
            r@.len() >= 1,
    {
        let mut numbers: Vec<u8> = Vec::new();
        numbers.push(birth_date.day as u8);
        numbers.push(birth_date.month as u8);
        numbers.push((birth_date.year % 100) as u8);
        let life_number = birth_date.calculate_life_number();
        numbers.push(life_number);
        let seed: i32 = birth_date.year * 10000 + (birth_date.month as i32) * 100 + (
        birth_date.day as i32);
        let mut rng = LuckyRng::from_seed(seed as u64);
        let n1 = rng.gen_byte_range(1, 99);
        numbers.push(n1);
        let n2 = rng.gen_byte_range(1, 99);
        numbers.push(n2);
        let n3 = rng.gen_byte_range(1, 99);
        numbers.push(n3);
        proof {
            assert(numbers@ =~= spec_lucky_candidates(
                birth_date.year as int,
                birth_date.month as int,
                birth_date.day as int,
            ));
        }
        // Walk the value space upward, keeping the first six present values:
        // the result is sorted, deduplicated and capped in one pass.
        let mut out: Vec<u8> = Vec::new();
        let mut v: u16 = 0;
        while v <= 255
            invariant
                v <= 256,
                out@.len() <= 6,
                strictly_increasing(out@),
                forall|i: int|
                    0 <= i < out@.len() ==> #[trigger] out@[i] < v && numbers@.contains(out@[i]),
                forall|x: u8|
                    x < v && #[trigger] numbers@.contains(x) ==> out@.contains(x) || (out@.len()
                        == 6 && forall|i: int| 0 <= i < out@.len() ==> #[trigger] out@[i] < x),
            decreases 256 - v,
        {
            if out.len() < 6 && vec_contains(&numbers, v as u8) {
                let ghost prev = out@;
                out.push(v as u8);
                proof {
                    assert forall|x: u8| x < v + 1 && #[trigger] numbers@.contains(x) implies
                        out@.contains(x) || (out@.len() == 6 && forall|i: int|
                            0 <= i < out@.len() ==> #[trigger] out@[i] < x) by {
                        if x == v as u8 {
                            assert(out@[prev.len() as int] == x);
                            assert(out@.contains(x));
                        } else if prev.contains(x) {
                            let i = choose|i: int| 0 <= i < prev.len() && prev[i] == x;
                            assert(out@[i] == x);
                            assert(out@.contains(x));
                        }
                    }
                }
            }
            v = v + 1;
        }
        proof {
            assert(numbers@.contains(numbers@[0]));
        }
        out
    }

    /// The localized names of the signs compatible with `zodiac_sign`,
    /// resolved by matching the localized name against each sign in turn.
    pub fn get_compatibility(zodiac_sign: &str, lang: Language) -> (r: Vec<String>)
        ensures
            r@.len() == spec_compat_keys(zodiac_sign@, lang).len(),
            forall|i: int|
                0 <= i < r@.len() ==> #[trigger] r@[i]@ == spec_lookup(
                    default_table(),
                    spec_compat_keys(zodiac_sign@, lang)[i],
                    lang,
                ),
    {
        if str_eq(zodiac_sign, i18n("zodiac.aries", lang).as_str()) {
            vec![
                i18n("zodiac.leo", lang),
                i18n("zodiac.sagittarius", lang),
                i18n("zodiac.gemini", lang),
            ]
        } else if str_eq(zodiac_sign, i18n("zodiac.taurus", lang).as_str()) {
            vec![
                i18n("zodiac.virgo", lang),
                i18n("zodiac.capricorn", lang),
                i18n("zodiac.cancer", lang),
            ]
        } else if str_eq(zodiac_sign, i18n("zodiac.gemini", lang).as_str()) {
            vec![
                i18n("zodiac.libra", lang),
                i18n("zodiac.aquarius", lang),
                i18n("zodiac.aries", lang),
            ]
        } else if str_eq(zodiac_sign, i18n("zodiac.cancer", lang).as_str()) {
            vec![
                i18n("zodiac.scorpio", lang),
                i18n("zodiac.pisces", lang),
                i18n("zodiac.taurus", lang),
            ]
        } else if str_eq(zodiac_sign, i18n("zodiac.leo", lang).as_str()) {
            vec![
                i18n("zodiac.aries", lang),
                i18n("zodiac.sagittarius", lang),
                i18n("zodiac.libra", lang),
            ]
        } else if str_eq(zodiac_sign, i18n("zodiac.virgo", lang).as_str()) {
            vec![
                i18n("zodiac.taurus", lang),
                i18n("zodiac.capricorn", lang),
                i18n("zodiac.scorpio", lang),
            ]
        } else if str_eq(zodiac_sign, i18n("zodiac.libra", lang).as_str()) {
            vec![
                i18n("zodiac.gemini", lang),
                i18n("zodiac.aquarius", lang),
                i18n("zodiac.leo", lang),
            ]
        } else if str_eq(zodiac_sign, i18n("zodiac.scorpio", lang).as_str()) {
            vec![
                i18n("zodiac.cancer", lang),
                i18n("zodiac.pisces", lang),
                i18n("zodiac.virgo", lang),
            ]
        } else if str_eq(zodiac_sign, i18n("zodiac.sagittarius", lang).as_str()) {
            vec![i18n("zodiac.aries", lang), i18n("zodiac.leo", lang), i18n(
                "zodiac.aquarius",
                lang,
            )]
        } else if str_eq(zodiac_sign, i18n("zodiac.capricorn", lang).as_str()) {
            vec![
                i18n("zodiac.taurus", lang),
                i18n("zodiac.virgo", lang),
                i18n("zodiac.pisces", lang),
            ]
        } else if str_eq(zodiac_sign, i18n("zodiac.aquarius", lang).as_str()) {
            vec![
                i18n("zodiac.gemini", lang),
                i18n("zodiac.libra", lang),
                i18n("zodiac.sagittarius", lang),
            ]
        } else if str_eq(zodiac_sign, i18n("zodiac.pisces", lang).as_str()) {
            vec![
                i18n("zodiac.cancer", lang),
                i18n("zodiac.scorpio", lang),
                i18n("zodiac.capricorn", lang),
            ]
        } else {
            vec![i18n("zodiac.unknown", lang)]
        }
    }
}

/// The entry points around birth fortunes: date validation lives here;
/// prompting for a date and displaying the result sit with the CLI.
pub struct BirthFortuneController;

impl BirthFortuneController {
    /// Parses and validates a `YYYY-MM-DD` birth-date string.
    pub fn validate_birth_date(date_str: &str) -> (r: Result<BirthDate, String>)
        ensures
            ({
                match crate::birth_date::spec_from_string(date_str@) {
                    Ok((y, m, d)) => r is Ok && r->Ok_0.year == y && r->Ok_0.month == m
                        && r->Ok_0.day == d,
                    Err(msg) => r is Err && r->Err_0@ == msg,
                }
            }),
    {
        BirthDate::from_string(date_str)
    }
}

} // verus!
