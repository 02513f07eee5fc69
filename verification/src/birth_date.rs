//! A validated birth date, with the numerology derived from it: the
//! digit-sum "life number" and the zodiac sign of the calendar boundary table.

use vstd::prelude::*;
use vstd::string::StrSliceExecFns;
use crate::calendar::is_valid_date;
use crate::calendar::valid_date;
use crate::i18n::default_table;
use crate::i18n::i18n;
use crate::i18n::spec_lookup;
use crate::lang::Language;
use crate::strings::all_digits;
use crate::strings::digits_value;
use crate::strings::parse_u32;

verus! {

/// A calendar-valid Gregorian birth date.
#[derive(Debug, Clone)]
pub struct BirthDate {
    pub year: i32,
    pub month: u32,
    pub day: u32,
}

/// The index of the first '-' in `s` at or after `i`, or `s.len()` if none.
pub open spec fn first_dash_from(s: Seq<char>, i: int) -> int
    decreases s.len() - i,
{
    if i < 0 || i >= s.len() {
        s.len() as int
    } else if s[i] == '-' {
        i
    } else {
        first_dash_from(s, i + 1)
    }
}

/// What parsing a `YYYY-MM-DD` string yields: the three numbers, or the
/// message for the first failure met, checked in this order: exactly two
/// dashes, a year of at most `i32::MAX`, a month, a day, a real date.
pub open spec fn spec_from_string(s: Seq<char>) -> Result<(int, int, int), Seq<char>> {
    let p1 = first_dash_from(s, 0);
    let p2 = first_dash_from(s, p1 + 1);
    if p1 >= s.len() || p2 >= s.len() || first_dash_from(s, p2 + 1) < s.len() {
        Err(("Invalid date format. Use YYYY-MM-DD")@)
    } else {
        let ys = s.subrange(0, p1);
        let ms = s.subrange(p1 + 1, p2);
        let ds = s.subrange(p2 + 1, s.len() as int);
        if ys.len() == 0 || !all_digits(ys) || digits_value(ys) > i32::MAX {
            Err(("Invalid year")@)
        } else if ms.len() == 0 || !all_digits(ms) || digits_value(ms) > u32::MAX {
            Err(("Invalid month")@)
        } else if ds.len() == 0 || !all_digits(ds) || digits_value(ds) > u32::MAX {
            Err(("Invalid day")@)
        } else if !is_valid_date(digits_value(ys), digits_value(ms), digits_value(ds)) {
            Err(("Invalid date")@)
        } else {
            Ok((digits_value(ys), digits_value(ms), digits_value(ds)))
        }
    }
}

/// Digit-sum reduction: split off the last decimal digit and add it back
/// until at most one digit remains.
pub open spec fn digit_sum_reduce(n: int) -> int
    decreases n,
{
    if n > 9 {
        digit_sum_reduce(n / 10 + n % 10)
    } else {
        n
    }
}

/// The life number of a date: its fields summed, then digit-reduced.
pub open spec fn spec_life_number(y: int, m: int, d: int) -> int {
    digit_sum_reduce(y + m + d)
}

/// The translation key of the zodiac sign for a month and day; the boundary
/// day belongs to the earlier sign.
pub open spec fn spec_zodiac_key(m: int, d: int) -> Seq<char> {
    if m == 1 {
        if d <= 19 {
            ("zodiac.capricorn")@
        } else {
            ("zodiac.aquarius")@
        }
    } else if m == 2 {
        if d <= 18 {
            ("zodiac.aquarius")@
        } else {
            ("zodiac.pisces")@
        }
    } else if m == 3 {
        if d <= 20 {
            ("zodiac.pisces")@
        } else {
            ("zodiac.aries")@
        }
    } else if m == 4 {
        if d <= 19 {
            ("zodiac.aries")@
        } else {
            ("zodiac.taurus")@
        }
    } else if m == 5 {
        if d <= 20 {
            ("zodiac.taurus")@
        } else {
            ("zodiac.gemini")@
        }
    } else if m == 6 {
        if d <= 21 {
            ("zodiac.gemini")@
        } else {
            ("zodiac.cancer")@
        }
    } else if m == 7 {
        if d <= 22 {
            ("zodiac.cancer")@
        } else {
            ("zodiac.leo")@
        }
    } else if m == 8 {
        if d <= 22 {
            ("zodiac.leo")@
        } else {
            ("zodiac.virgo")@
        }
    } else if m == 9 {
        if d <= 22 {
            ("zodiac.virgo")@
        } else {
            ("zodiac.libra")@
        }
    } else if m == 10 {
        if d <= 23 {
            ("zodiac.libra")@
        } else {
            ("zodiac.scorpio")@
        }
    } else if m == 11 {
        if d <= 22 {
            ("zodiac.scorpio")@
        } else {
            ("zodiac.sagittarius")@
        }
    } else if m == 12 {
        if d <= 21 {
            ("zodiac.sagittarius")@
        } else {
            ("zodiac.capricorn")@
        }
    } else {
        ("zodiac.unknown")@
    }
}

/// Finds the first '-' in `s` at or after `from`, or the length if none.
fn find_dash(s: &str, from: usize) -> (r: usize)
    requires
        from <= s@.len(),
    ensures
        r == first_dash_from(s@, from as int),
        from <= r <= s@.len(),
{
    let n = s.unicode_len();
    let mut i: usize = from;
    while i < n
        invariant
            from <= i <= n,
            n == s@.len(),
            first_dash_from(s@, from as int) == first_dash_from(s@, i as int),
        decreases n - i,
    {
        if s.get_char(i) == '-' {
            return i;
        }
        i = i + 1;
    }
    n
}

impl BirthDate {
    /// The type's invariant: the fields name a real calendar date.
    pub open spec fn wf(&self) -> bool {
        is_valid_date(self.year as int, self.month as int, self.day as int)
    }

    /// Accepts a real calendar date, rejects anything else.
    pub fn new(year: i32, month: u32, day: u32) -> (r: Result<Self, String>)
        ensures
            is_valid_date(year as int, month as int, day as int) ==> (r is Ok
                && r->Ok_0.year == year && r->Ok_0.month == month && r->Ok_0.day == day),
            !is_valid_date(year as int, month as int, day as int) ==> (r is Err && r->Err_0@
                == ("Invalid date")@),
    {
        if valid_date(year, month, day) {
            Ok(BirthDate { year, month, day })
        } else {
            Err("Invalid date".to_owned())
        }
    }

    /// Parses a `YYYY-MM-DD` string into a validated date.
    pub fn from_string(date_str: &str) -> (r: Result<Self, String>)
        ensures
            ({
                match spec_from_string(date_str@) {
                    Ok((y, m, d)) => r is Ok && r->Ok_0.year == y && r->Ok_0.month == m
                        && r->Ok_0.day == d,
                    Err(msg) => r is Err && r->Err_0@ == msg,
                }
            }),
    {
        let n = date_str.unicode_len();
        let p1 = find_dash(date_str, 0);
        if p1 >= n {
            return Err("Invalid date format. Use YYYY-MM-DD".to_owned());
        }
        let p2 = find_dash(date_str, p1 + 1);
        if p2 >= n {
            return Err("Invalid date format. Use YYYY-MM-DD".to_owned());
        }
        if find_dash(date_str, p2 + 1) < n {
            return Err("Invalid date format. Use YYYY-MM-DD".to_owned());
        }
        let year_part = date_str.substring_char(0, p1);
        let month_part = date_str.substring_char(p1 + 1, p2);
        let day_part = date_str.substring_char(p2 + 1, n);
        let year: i32 = match parse_u32(year_part) {
            Some(v) if v <= i32::MAX as u32 => v as i32,
            _ => {
                // A digit string too large for u32 is too large for i32 as well.
                proof {
                    if all_digits(date_str@.subrange(0, p1 as int)) && date_str@.subrange(
                        0,
                        p1 as int,
                    ).len() > 0 {
                        crate::strings::lemma_digits_value_nonneg(
                            date_str@.subrange(0, p1 as int),
                        );
                    }
                }
                return Err("Invalid year".to_owned());
            },
        };
        let month: u32 = match parse_u32(month_part) {
            Some(v) => v,
            None => {
                return Err("Invalid month".to_owned());
            },
        };
        let day: u32 = match parse_u32(day_part) {
            Some(v) => v,
            None => {
                return Err("Invalid day".to_owned());
            },
        };
        // The parsed numbers equal the digit values of their parts, which
        // takes knowing those values are not negative.
        proof {
            let s = date_str@;
            if all_digits(s.subrange(0, p1 as int)) {
                crate::strings::lemma_digits_value_nonneg(s.subrange(0, p1 as int));
            }
            if all_digits(s.subrange(p1 + 1, p2 as int)) {
                crate::strings::lemma_digits_value_nonneg(s.subrange(p1 + 1, p2 as int));
            }
            if all_digits(s.subrange(p2 + 1, s.len() as int)) {
                crate::strings::lemma_digits_value_nonneg(s.subrange(p2 + 1, s.len() as int));
            }
        }
        BirthDate::new(year, month, day)
    }

    /// The life number: year, month and day summed, then digit-reduced.
    /// Always a single digit from 1 through 9.
    pub fn calculate_life_number(&self) -> (r: u8)
        requires
            self.wf(),
        ensures
            r == spec_life_number(self.year as int, self.month as int, self.day as int),
            1 <= r <= 9,
    {
        let mut sum: u32 = self.year as u32 + self.month + self.day;
        while sum > 9
            invariant
                1 <= sum,
                digit_sum_reduce(sum as int) == spec_life_number(
                    self.year as int,
                    self.month as int,
                    self.day as int,
                ),
            decreases sum,
        {
            sum = sum / 10 + sum % 10;
        }
        sum as u8
    }

    /// The localized zodiac sign of this date's month and day.
    pub fn get_zodiac_sign(&self, lang: Language) -> (r: String)
        ensures
            r@ == spec_lookup(
                default_table(),
                spec_zodiac_key(self.month as int, self.day as int),
                lang,
            ),
    {
        let key: &str = match self.month {
            1 => if self.day <= 19 {
                "zodiac.capricorn"
            } else {
                "zodiac.aquarius"
            },
            2 => if self.day <= 18 {
                "zodiac.aquarius"
            } else {
                "zodiac.pisces"
            },
            3 => if self.day <= 20 {
                "zodiac.pisces"
            } else {
                "zodiac.aries"
            },
            4 => if self.day <= 19 {
                "zodiac.aries"
            } else {
                "zodiac.taurus"
            },
            5 => if self.day <= 20 {
                "zodiac.taurus"
            } else {
                "zodiac.gemini"
            },
            6 => if self.day <= 21 {
                "zodiac.gemini"
            } else {
                "zodiac.cancer"
            },
            7 => if self.day <= 22 {
                "zodiac.cancer"
            } else {
                "zodiac.leo"
            },
            8 => if self.day <= 22 {
                "zodiac.leo"
            } else {
                "zodiac.virgo"
            },
            9 => if self.day <= 22 {
                "zodiac.virgo"
            } else {
                "zodiac.libra"
            },
            10 => if self.day <= 23 {
                "zodiac.libra"
            } else {
                "zodiac.scorpio"
            },
            11 => if self.day <= 22 {
                "zodiac.scorpio"
            } else {
                "zodiac.sagittarius"
            },
            12 => if self.day <= 21 {
                "zodiac.sagittarius"
            } else {
                "zodiac.capricorn"
            },
            _ => "zodiac.unknown",
        };
        i18n(key, lang)
    }
}

} // verus!
