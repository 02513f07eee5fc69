//! The developer pressure analyzer's computing half: parsing the free-text
//! output of the version-control and test tools, the success-rate
//! arithmetic, and the threshold function that reduces the three metrics to
//! a categorical pressure level. Invoking those tools and timing the build
//! is the caller's business; everything here is a pure function of the text
//! and numbers handed in.
//!
//! Success rates are carried in per-mille (thousandths), so that the
//! thresholds of nine tenths, seven tenths and one half can be checked
//! exactly: a rate is below such a bound exactly when its floored per-mille
//! value is below the bound scaled by one thousand.

use vstd::prelude::*;
use crate::i18n::default_table;
use crate::i18n::i18n;
use crate::i18n::spec_lookup;
use crate::lang::Language;
use crate::strings::all_digits;
use crate::strings::digits_value;
use crate::strings::spec_parse_u32;
use crate::strings::to_char_vec;

verus! {

/// The four pressure levels, from relaxed to critical.
#[derive(Debug, Clone, Copy, PartialEq, Eq, Structural)]
pub enum PressureLevel {
    Low,
    Medium,
    High,
    Critical,
}

/// A pressure report: the three collected metrics and the level and advice
/// computed from them.
#[derive(Debug)]
pub struct DevPressure {
    pub git_diff_lines: i32,
    pub test_success_per_mille: u32,
    pub has_tests: bool,
    pub build_time_seconds: u32,
    pub pressure_level: PressureLevel,
    pub risk_threshold: String,
    pub patience_advice: String,
}

// ---------------------------------------------------------------------------
// The threshold function.
// ---------------------------------------------------------------------------

/// The score contributed by the changed-line volume.
pub open spec fn spec_diff_component(diff_lines: int) -> int {
    if diff_lines > 200 {
        40
    } else if diff_lines > 100 {
        30
    } else if diff_lines > 50 {
        20
    } else if diff_lines > 20 {
        10
    } else {
        0
    }
}

/// The score contributed by the test success rate, in per-mille.
pub open spec fn spec_rate_component(per_mille: int) -> int {
    if per_mille < 500 {
        30
    } else if per_mille < 700 {
        20
    } else if per_mille < 900 {
        10
    } else {
        0
    }
}

/// The score contributed by the build duration.
pub open spec fn spec_build_component(build_seconds: int) -> int {
    if build_seconds > 60 {
        30
    } else if build_seconds > 30 {
        20
    } else if build_seconds > 15 {
        10
    } else {
        0
    }
}

/// The cumulative pressure score, 0 through 100.
pub open spec fn spec_pressure_score(diff_lines: int, per_mille: int, build_seconds: int) -> int {
    spec_diff_component(diff_lines) + spec_rate_component(per_mille) + spec_build_component(
        build_seconds,
    )
}

/// The level a cumulative score maps to.
pub open spec fn spec_pressure_level(score: int) -> PressureLevel {
    if score >= 80 {
        PressureLevel::Critical
    } else if score >= 60 {
        PressureLevel::High
    } else if score >= 30 {
        PressureLevel::Medium
    } else {
        PressureLevel::Low
    }
}

/// Monotonicity: more changed lines, a longer build, or a lower success
/// rate never lowers the pressure score.
pub proof fn lemma_pressure_monotone(
    d1: int,
    r1: int,
    b1: int,
    d2: int,
    r2: int,
    b2: int,
)
    requires
        d1 <= d2,
        r2 <= r1,
        b1 <= b2,
    ensures
        spec_pressure_score(d1, r1, b1) <= spec_pressure_score(d2, r2, b2),
{
}

/// The pressure score always lies in 0 through 100.
pub proof fn lemma_pressure_score_range(diff_lines: int, per_mille: int, build_seconds: int)
    ensures
        0 <= spec_pressure_score(diff_lines, per_mille, build_seconds) <= 100,
{
}

/// Reduces the three metrics to a pressure level through the exact
/// threshold function.
pub fn calculate_pressure_level(
    git_diff_lines: i32,
    test_success_per_mille: u32,
    build_time_seconds: u32,
) -> (r: PressureLevel)
    ensures
        r == spec_pressure_level(
            spec_pressure_score(
                git_diff_lines as int,
                test_success_per_mille as int,
                build_time_seconds as int,
            ),
        ),
{
    let mut pressure_score: u32 = 0;
    if git_diff_lines > 200 {
        pressure_score = pressure_score + 40;
    } else if git_diff_lines > 100 {
        pressure_score = pressure_score + 30;
    } else if git_diff_lines > 50 {
        pressure_score = pressure_score + 20;
    } else if git_diff_lines > 20 {
        pressure_score = pressure_score + 10;
    }
    if test_success_per_mille < 500 {
        pressure_score = pressure_score + 30;
    } else if test_success_per_mille < 700 {
        pressure_score = pressure_score + 20;
    } else if test_success_per_mille < 900 {
        pressure_score = pressure_score + 10;
    }
    if build_time_seconds > 60 {
        pressure_score = pressure_score + 30;
    } else if build_time_seconds > 30 {
        pressure_score = pressure_score + 20;
    } else if build_time_seconds > 15 {
        pressure_score = pressure_score + 10;
    }
    if pressure_score >= 80 {
        PressureLevel::Critical
    } else if pressure_score >= 60 {
        PressureLevel::High
    } else if pressure_score >= 30 {
        PressureLevel::Medium
    } else {
        PressureLevel::Low
    }
}

// ---------------------------------------------------------------------------
// The success rate.
// ---------------------------------------------------------------------------

/// The success rate in per-mille: (total − failed) / total, floored to
/// thousandths and clamped to the unit interval; zero when no tests ran.
pub open spec fn spec_success_per_mille(total: int, failed: int) -> int {
    if total == 0 || failed >= total {
        0
    } else {
        (total - failed) * 1000 / total
    }
}

/// Computes the per-mille success rate and whether any tests ran.
pub fn success_per_mille(tests_total: u32, tests_failed: u32) -> (r: (u32, bool))
    ensures
        r.0 == spec_success_per_mille(tests_total as int, tests_failed as int),
        r.0 <= 1000,
        r.1 == (tests_total > 0),
{
    if tests_total == 0 {
        (0, false)
    } else if tests_failed >= tests_total {
        (0, true)
    } else {
        let passed: u64 = (tests_total - tests_failed) as u64;
        let total: u64 = tests_total as u64;
        let pm: u64 = passed * 1000 / total;
        proof {
            let p = passed as int;
            let t = total as int;
            assert(p * 1000 <= t * 1000) by (nonlinear_arith)
                requires
                    p <= t,
            ;
            assert(p * 1000 / t <= t * 1000 / t) by (nonlinear_arith)
                requires
                    p * 1000 <= t * 1000,
                    t > 0,
            ;
            assert(t * 1000 / t == 1000) by (nonlinear_arith)
                requires
                    t > 0,
            ;
        }
        (pm as u32, true)
    }
}

// ---------------------------------------------------------------------------
// Tool-output parsing.
// ---------------------------------------------------------------------------

/// Whether a character separates tokens or lines: ASCII whitespace.
pub open spec fn is_space(c: char) -> bool {
    c == ' ' || c == '\t' || c == '\r' || c == '\n' || c == '\u{b}' || c == '\u{c}'
}

/// The index of the first newline in `s` at or after `i`, or the length.
pub open spec fn line_end(s: Seq<char>, i: int) -> int
    decreases s.len() - i,
{
    if i < 0 || i >= s.len() {
        s.len() as int
    } else if s[i] == '\n' {
        i
    } else {
        line_end(s, i + 1)
    }
}

/// A line search never moves backwards nor past the end of the text.
pub proof fn lemma_line_end_bounds(s: Seq<char>, i: int)
    requires
        0 <= i <= s.len(),
    ensures
        i <= line_end(s, i) <= s.len(),
    decreases s.len() - i,
{
    if i < s.len() && s[i] != '\n' {
        lemma_line_end_bounds(s, i + 1);
    }
}

/// Where the content of the line starting at `start` ends: its newline, or
/// the carriage return just before a newline, or the end of the text.
pub open spec fn line_content_end(s: Seq<char>, start: int) -> int {
    let e = line_end(s, start);
    if e < s.len() && e > start && s[e - 1] == '\r' {
        e - 1
    } else {
        e
    }
}

/// Whether `pat` occurs inside `s` between `lo` and `hi`.
pub open spec fn contains_range(s: Seq<char>, lo: int, hi: int, pat: Seq<char>) -> bool {
    exists|k: int|
        lo <= k && k + pat.len() <= hi && #[trigger] s.subrange(k, k + pat.len() as int) == pat
}

/// The end of the token starting at `i`: the next separator before `end`,
/// or `end` itself.
pub open spec fn token_end(s: Seq<char>, i: int, end: int) -> int
    decreases end - i,
{
    if i < 0 || i >= end || i >= s.len() {
        i
    } else if is_space(s[i]) {
        i
    } else {
        token_end(s, i + 1, end)
    }
}

/// The first whitespace-separated token in `s[i..end)` that reads as an
/// unsigned 32-bit decimal number, or zero if none does. `in_token` says
/// whether position `i` continues a token that has already been rejected.
pub open spec fn first_count_from(s: Seq<char>, i: int, end: int, in_token: bool) -> int
    decreases end - i,
{
    if i < 0 || i >= end || i >= s.len() {
        0
    } else if is_space(s[i]) {
        first_count_from(s, i + 1, end, false)
    } else if in_token {
        first_count_from(s, i + 1, end, true)
    } else {
        let t = s.subrange(i, token_end(s, i, end));
        if all_digits(t) && digits_value(t) <= u32::MAX {
            digits_value(t)
        } else {
            first_count_from(s, i + 1, end, true)
        }
    }
}

/// What extracting a count from tool output yields: in the first line that
/// contains `pat`, the first token that reads as a number; zero when no
/// line matches or the matching line has no number.
pub open spec fn spec_extract_from(s: Seq<char>, pat: Seq<char>, start: int) -> int
    decreases s.len() - start,
    via spec_extract_from_dec
{
    if start < 0 || start >= s.len() {
        0
    } else {
        let e = line_end(s, start);
        let ce = line_content_end(s, start);
        if contains_range(s, start, ce, pat) {
            first_count_from(s, start, ce, false)
        } else if e >= s.len() {
            0
        } else {
            spec_extract_from(s, pat, e + 1)
        }
    }
}

#[via_fn]
proof fn spec_extract_from_dec(s: Seq<char>, pat: Seq<char>, start: int) {
    if 0 <= start < s.len() {
        lemma_line_end_bounds(s, start);
    }
}

/// The count extracted from `s` for `pat`, starting at the first line.
pub open spec fn spec_extract_test_count(s: Seq<char>, pat: Seq<char>) -> int {
    spec_extract_from(s, pat, 0)
}

/// Checks a character against the separator set.
fn is_separator(c: char) -> (r: bool)
    ensures
        r == is_space(c),
{
    c == ' ' || c == '\t' || c == '\r' || c == '\n' || c == '\u{b}' || c == '\u{c}'
}

/// Whether `chars[at..at+pat.len())` equals `pat`.
fn range_matches(chars: &Vec<char>, at: usize, pat: &Vec<char>) -> (r: bool)
    requires
        at + pat@.len() <= chars@.len(),
    ensures
        r == (chars@.subrange(at as int, at + pat@.len()) == pat@),
{
    let n = chars.len();
    let m = pat.len();
    let mut j: usize = 0;
    while j < m
        invariant
            j <= m,
            m == pat@.len(),
            n == chars@.len(),
            at + m <= n,
            forall|x: int| 0 <= x < j ==> chars@[at + x] == pat@[x],
        decreases m - j,
    {
        if chars[at + j] != pat[j] {
            proof {
                assert(chars@.subrange(at as int, at + pat@.len())[j as int] != pat@[j as int]);
            }
            return false;
        }
        j = j + 1;
    }
    proof {
        assert(chars@.subrange(at as int, at + pat@.len()) =~= pat@);
    }
    true
}

/// Whether `pat` occurs in `chars` between `lo` and `hi`.
fn contains_in_range(chars: &Vec<char>, lo: usize, hi: usize, pat: &Vec<char>) -> (r: bool)
    requires
        lo <= hi <= chars@.len(),
    ensures
        r == contains_range(chars@, lo as int, hi as int, pat@),
{
    let n = chars.len();
    let m = pat.len();
    if m > hi - lo {
        proof {
            assert(!contains_range(chars@, lo as int, hi as int, pat@));
        }
        return false;
    }
    if m == 0 {
        proof {
            assert(chars@.subrange(lo as int, lo as int + pat@.len() as int) =~= pat@);
            assert(contains_range(chars@, lo as int, hi as int, pat@));
        }
        return true;
    }
    let mut k: usize = lo;
    while k <= hi - m
        invariant
            lo <= k <= hi - m + 1,
            1 <= m == pat@.len(),
            m <= hi - lo,
            lo <= hi <= n,
            n == chars@.len(),
            forall|x: int|
                lo <= x < k ==> #[trigger] chars@.subrange(x, x + pat@.len()) != pat@,
        decreases hi - m + 1 - k,
    {
        if range_matches(chars, k, pat) {
            proof {
                assert(contains_range(chars@, lo as int, hi as int, pat@));
            }
            return true;
        }
        k = k + 1;
    }
    false
}

/// The value of the digits in `chars[lo..hi)`, when they form a number of
/// at most 32 bits.
fn parse_chars_range(chars: &Vec<char>, lo: usize, hi: usize) -> (r: Option<u32>)
    requires
        lo <= hi <= chars@.len(),
    ensures
        r == spec_parse_u32(chars@.subrange(lo as int, hi as int)),
{
    let ghost t = chars@.subrange(lo as int, hi as int);
    if lo == hi {
        return None;
    }
    let mut value: u64 = 0;
    let mut i: usize = lo;
    while i < hi
        invariant
            lo <= i <= hi <= chars@.len(),
            lo < hi,
            t == chars@.subrange(lo as int, hi as int),
            all_digits(t.take(i - lo)),
            value == digits_value(t.take(i - lo)),
            value <= u32::MAX,
        decreases hi - i,
    {
        let c = chars[i];
        proof {
            assert(t[i - lo] == c);
        }
        if c < '0' || c > '9' {
            assert(!all_digits(t));
            return None;
        }
        let d: u64 = (c as u32 as u64) - ('0' as u32 as u64);
        proof {
            assert(t.take(i + 1 - lo).drop_last() =~= t.take(i - lo));
            assert(t.take(i + 1 - lo).last() == t[i - lo]);
        }
        let next: u64 = value * 10 + d;
        i = i + 1;
        if next > u32::MAX as u64 {
            proof {
                if all_digits(t) {
                    crate::strings::lemma_digits_value_prefix(t, i - lo);
                }
            }
            return None;
        }
        value = next;
    }
    proof {
        assert(t.take(hi - lo) =~= t);
    }
    Some(value as u32)
}

/// Scans `chars[start..end)` for the first token that reads as a number.
fn first_count_in_line(chars: &Vec<char>, start: usize, end: usize) -> (r: u32)
    requires
        start <= end <= chars@.len(),
    ensures
        r == first_count_from(chars@, start as int, end as int, false),
{
    let mut i: usize = start;
    let mut in_token = false;
    while i < end
        invariant
            start <= i <= end <= chars@.len(),
            first_count_from(chars@, start as int, end as int, false) == first_count_from(
                chars@,
                i as int,
                end as int,
                in_token,
            ),
        decreases end - i,
    {
        let c = chars[i];
        if is_separator(c) {
            in_token = false;
            i = i + 1;
        } else if in_token {
            i = i + 1;
        } else {
            // A token starts here: find where it ends.
            let mut j: usize = i;
            while j < end && !is_separator(chars[j])
                invariant
                    i <= j <= end <= chars@.len(),
                    i < end,
                    !is_space(chars@[i as int]),
                    token_end(chars@, i as int, end as int) == token_end(
                        chars@,
                        j as int,
                        end as int,
                    ),
                decreases end - j,
            {
                j = j + 1;
            }
            proof {
                assert(token_end(chars@, j as int, end as int) == j as int);
                assert(j > i) by {
                    if j == i {
                        assert(j >= end || is_space(chars@[j as int]));
                    }
                }
            }
            match parse_chars_range(chars, i, j) {
                Some(v) => {
                    proof {
                        crate::strings::lemma_digits_value_nonneg(
                            chars@.subrange(i as int, j as int),
                        );
                    }
                    return v;
                },
                None => {
                    in_token = true;
                    i = i + 1;
                },
            }
        }
    }
    0
}

/// Finds the first newline in `chars` at or after `start`, or the length.
fn find_line_end(chars: &Vec<char>, start: usize) -> (r: usize)
    requires
        start <= chars@.len(),
    ensures
        r == line_end(chars@, start as int),
        start <= r <= chars@.len(),
        r < chars@.len() ==> chars@[r as int] == '\n',
{
    let n = chars.len();
    let mut i: usize = start;
    while i < n
        invariant
            start <= i <= n,
            n == chars@.len(),
            line_end(chars@, start as int) == line_end(chars@, i as int),
        decreases n - i,
    {
        if chars[i] == '\n' {
            return i;
        }
        i = i + 1;
    }
    n
}

/// Extracts a count from a tool's free-text output: in the first line that
/// contains `pattern`, the first whitespace-separated token that reads as
/// an unsigned 32-bit decimal number; zero when nothing matches. Missing or
/// malformed output therefore degrades to zero rather than failing.
pub fn extract_test_count(text: &str, pattern: &str) -> (r: u32)
    ensures
        r == spec_extract_test_count(text@, pattern@),
{
    let chars = to_char_vec(text);
    let pat = to_char_vec(pattern);
    let n = chars.len();
    let mut start: usize = 0;
    while start < n
        invariant
            start <= n,
            n == chars@.len(),
            chars@ == text@,
            pat@ == pattern@,
            spec_extract_test_count(text@, pattern@) == spec_extract_from(
                chars@,
                pat@,
                start as int,
            ),
        decreases n - start,
    {
        let e = find_line_end(&chars, start);
        let ce: usize = if e < n && e > start && chars[e - 1] == '\r' {
            e - 1
        } else {
            e
        };
        proof {
            assert(ce == line_content_end(chars@, start as int));
        }
        if contains_in_range(&chars, start, ce, &pat) {
            return first_count_in_line(&chars, start, ce);
        }
        if e >= n {
            return 0;
        }
        start = e + 1;
    }
    0
}

// ---------------------------------------------------------------------------
// Change-volume counting.
// ---------------------------------------------------------------------------

/// How many lines of `s` from `start` on are non-empty and do not begin
/// with the word "commit": the log lines that name touched files.
pub open spec fn spec_count_files(s: Seq<char>, start: int) -> int
    decreases s.len() - start,
    via spec_count_files_dec
{
    if start < 0 || start >= s.len() {
        0
    } else {
        let e = line_end(s, start);
        let ce = line_content_end(s, start);
        let c: int = if ce > start && !(ce - start >= 6 && s.subrange(start, start + 6)
            == ("commit")@) {
            1
        } else {
            0
        };
        if e >= s.len() {
            c
        } else {
            c + spec_count_files(s, e + 1)
        }
    }
}

#[via_fn]
proof fn spec_count_files_dec(s: Seq<char>, start: int) {
    if 0 <= start < s.len() {
        lemma_line_end_bounds(s, start);
    }
}

/// The changed-line estimate encoded in a log listing: each counted line
/// stands for a fixed volume of fifteen lines.
pub open spec fn spec_diff_lines(s: Seq<char>) -> int {
    15 * spec_count_files(s, 0)
}

/// Counts the file-naming lines of a log listing and scales each by the
/// fixed per-line weight. Empty output — an empty log — yields zero.
pub fn diff_lines_from_log(output: &str) -> (r: i32)
    requires
        output@.len() <= 100_000_000,
    ensures
        r == spec_diff_lines(output@),
        r >= 0,
{
    let chars = to_char_vec(output);
    let n = chars.len();
    let mut count: usize = 0;
    let mut start: usize = 0;
    let ghost total = spec_count_files(chars@, 0);
    while start < n
        invariant
            start <= n,
            n == chars@.len(),
            n <= 100_000_000,
            chars@ == output@,
            count <= start,
            total == spec_count_files(chars@, 0),
            total == count + spec_count_files(chars@, start as int),
        decreases n - start,
    {
        let e = find_line_end(&chars, start);
        let ce: usize = if e < n && e > start && chars[e - 1] == '\r' {
            e - 1
        } else {
            e
        };
        proof {
            assert(ce == line_content_end(chars@, start as int));
        }
        let starts_with_commit = if ce - start >= 6 {
            range_matches_commit(&chars, start)
        } else {
            false
        };
        if ce > start && !starts_with_commit {
            count = count + 1;
        }
        if e >= n {
            proof {
                assert(spec_count_files(chars@, start as int) == (if ce > start && !(ce - start
                    >= 6 && chars@.subrange(start as int, start + 6) == ("commit")@) {
                    1int
                } else {
                    0int
                }));
            }
            return (count * 15) as i32;
        }
        start = e + 1;
    }
    proof {
        assert(spec_count_files(chars@, start as int) == 0);
    }
    (count * 15) as i32
}

/// Whether the six characters at `at` spell "commit".
fn range_matches_commit(chars: &Vec<char>, at: usize) -> (r: bool)
    requires
        at + 6 <= chars@.len(),
    ensures
        r == (chars@.subrange(at as int, at + 6) == ("commit")@),
{
    proof {
        reveal_strlit("commit");
    }
    let n = chars.len();
    let r = chars[at] == 'c' && chars[at + 1] == 'o' && chars[at + 2] == 'm' && chars[at + 3]
        == 'm' && chars[at + 4] == 'i' && chars[at + 5] == 't';
    proof {
        if r {
            assert(chars@.subrange(at as int, at + 6) =~= ("commit")@);
        } else {
            assert(chars@.subrange(at as int, at + 6) != ("commit")@) by {
                if chars@.subrange(at as int, at + 6) == ("commit")@ {
                    assert(chars@[at as int] == ("commit")@[0]);
                    assert(chars@[at + 1] == ("commit")@[1]);
                    assert(chars@[at + 2] == ("commit")@[2]);
                    assert(chars@[at + 3] == ("commit")@[3]);
                    assert(chars@[at + 4] == ("commit")@[4]);
                    assert(chars@[at + 5] == ("commit")@[5]);
                }
            }
        }
    }
    r
}

// ---------------------------------------------------------------------------
// Advice and the assembled report.
// ---------------------------------------------------------------------------

/// The risk-advice key of a pressure level.
pub open spec fn spec_risk_key(l: PressureLevel) -> Seq<char> {
    match l {
        PressureLevel::Low => ("pressure.advice.low.risk")@,
        PressureLevel::Medium => ("pressure.advice.medium.risk")@,
        PressureLevel::High => ("pressure.advice.high.risk")@,
        PressureLevel::Critical => ("pressure.advice.critical.risk")@,
    }
}

/// The patience-advice key of a pressure level.
pub open spec fn spec_patience_key(l: PressureLevel) -> Seq<char> {
    match l {
        PressureLevel::Low => ("pressure.advice.low.patience")@,
        PressureLevel::Medium => ("pressure.advice.medium.patience")@,
        PressureLevel::High => ("pressure.advice.high.patience")@,
        PressureLevel::Critical => ("pressure.advice.critical.patience")@,
    }
}

/// Selects the localized risk and patience advice for a pressure level.
/// The metric arguments are carried for context but do not influence the text.
pub fn generate_pressure_advice(
    pressure_level: &PressureLevel,
    _git_diff_lines: i32,
    _test_success_per_mille: u32,
    _build_time_seconds: u32,
    lang: Language,
) -> (r: (String, String))
    ensures
        r.0@ == spec_lookup(default_table(), spec_risk_key(*pressure_level), lang),
        r.1@ == spec_lookup(default_table(), spec_patience_key(*pressure_level), lang),
{
    match pressure_level {
        PressureLevel::Low => (
            i18n("pressure.advice.low.risk", lang),
            i18n("pressure.advice.low.patience", lang),
        ),
        PressureLevel::Medium => (
            i18n("pressure.advice.medium.risk", lang),
            i18n("pressure.advice.medium.patience", lang),
        ),
        PressureLevel::High => (
            i18n("pressure.advice.high.risk", lang),
            i18n("pressure.advice.high.patience", lang),
        ),
        PressureLevel::Critical => (
            i18n("pressure.advice.critical.risk", lang),
            i18n("pressure.advice.critical.patience", lang),
        ),
    }
}

/// Assembles the pressure report from the collected metrics: the success
/// rate, the threshold function's level, and the advice for that level.
pub fn compute_dev_pressure(
    git_diff_lines: i32,
    tests_total: u32,
    tests_failed: u32,
    build_time_seconds: u32,
    lang: Language,
) -> (r: DevPressure)
    ensures
        r.git_diff_lines == git_diff_lines,
        r.test_success_per_mille == spec_success_per_mille(
            tests_total as int,
            tests_failed as int,
        ),
        r.has_tests == (tests_total > 0),
        r.build_time_seconds == build_time_seconds,
        r.pressure_level == spec_pressure_level(
            spec_pressure_score(
                git_diff_lines as int,
                spec_success_per_mille(tests_total as int, tests_failed as int),
                build_time_seconds as int,
            ),
        ),
        r.risk_threshold@ == spec_lookup(default_table(), spec_risk_key(r.pressure_level), lang),
        r.patience_advice@ == spec_lookup(
            default_table(),
            spec_patience_key(r.pressure_level),
            lang,
        ),
{
    let (test_success_per_mille, has_tests) = success_per_mille(tests_total, tests_failed);
    let pressure_level = calculate_pressure_level(
        git_diff_lines,
        test_success_per_mille,
        build_time_seconds,
    );
    let (risk_threshold, patience_advice) = generate_pressure_advice(
        &pressure_level,
        git_diff_lines,
        test_success_per_mille,
        build_time_seconds,
        lang,
    );
    DevPressure {
        git_diff_lines,
        test_success_per_mille,
        has_tests,
        build_time_seconds,
        pressure_level,
        risk_threshold,
        patience_advice,
    }
}

} // verus!
