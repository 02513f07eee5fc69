use findme::dev_pressure::{
    calculate_pressure_level, compute_dev_pressure, diff_lines_from_log, extract_test_count,
    success_per_mille,
};
use findme::i18n::i18n;
use findme::{Language, PressureLevel};

fn rank(level: &PressureLevel) -> u32 {
    match level {
        PressureLevel::Low => 0,
        PressureLevel::Medium => 1,
        PressureLevel::High => 2,
        PressureLevel::Critical => 3,
    }
}

#[test]
fn pressure_level_thresholds() {
    // Nothing amiss: everything passes quickly with no churn.
    assert_eq!(calculate_pressure_level(0, 1000, 0), PressureLevel::Low);
    // Exactly at each bucket's lower edge.
    assert_eq!(calculate_pressure_level(20, 900, 15), PressureLevel::Low);
    assert_eq!(calculate_pressure_level(21, 900, 15), PressureLevel::Low);
    assert_eq!(calculate_pressure_level(51, 800, 16), PressureLevel::Medium);
    assert_eq!(calculate_pressure_level(101, 600, 31), PressureLevel::High);
    assert_eq!(calculate_pressure_level(201, 600, 31), PressureLevel::Critical);
    assert_eq!(calculate_pressure_level(201, 400, 61), PressureLevel::Critical);
    // A total of 30 reaches Medium through any single metric.
    assert_eq!(calculate_pressure_level(0, 400, 0), PressureLevel::Medium);
    assert_eq!(calculate_pressure_level(0, 1000, 61), PressureLevel::Medium);
}

#[test]
fn pressure_level_monotone_in_each_metric() {
    let diffs = [0, 21, 51, 101, 201, 500];
    let rates = [1000, 899, 699, 499, 0];
    let builds = [0, 16, 31, 61, 120];
    for &r in &rates {
        for &b in &builds {
            let mut prev = 0;
            for &d in &diffs {
                let level = rank(&calculate_pressure_level(d, r, b));
                assert!(level >= prev);
                prev = level;
            }
        }
    }
    for &d in &diffs {
        for &b in &builds {
            let mut prev = 0;
            for &r in &rates {
                let level = rank(&calculate_pressure_level(d, r, b));
                assert!(level >= prev);
                prev = level;
            }
        }
    }
    for &d in &diffs {
        for &r in &rates {
            let mut prev = 0;
            for &b in &builds {
                let level = rank(&calculate_pressure_level(d, r, b));
                assert!(level >= prev);
                prev = level;
            }
        }
    }
}

#[test]
fn success_rate_per_mille_cases() {
    assert_eq!(success_per_mille(0, 0), (0, false));
    assert_eq!(success_per_mille(10, 0), (1000, true));
    assert_eq!(success_per_mille(10, 1), (900, true));
    assert_eq!(success_per_mille(3, 1), (666, true));
    assert_eq!(success_per_mille(5, 5), (0, true));
    // More failures than tests clamps to zero rather than wrapping.
    assert_eq!(success_per_mille(3, 5), (0, true));
}

#[test]
fn extract_test_count_parses_summary() {
    let out = "running 5 tests\n.....\ntest result: ok. 5 passed; 0 failed; 0 ignored\n";
    assert_eq!(extract_test_count(out, "test result: "), 5);
    let failed = "error\ntest result: FAILED. 3 passed; 2 failed\n";
    assert_eq!(extract_test_count(failed, "test result: FAILED"), 3);
}

#[test]
fn extract_test_count_takes_first_matching_line() {
    let out = "test result: ok. 7 passed\ntest result: ok. 9 passed\n";
    assert_eq!(extract_test_count(out, "test result: "), 7);
}

#[test]
fn extract_test_count_degrades_to_zero() {
    assert_eq!(extract_test_count("", "test result: "), 0);
    assert_eq!(extract_test_count("no summary here\n", "test result: "), 0);
    assert_eq!(
        extract_test_count("test result: ok. no numbers\n", "test result: "),
        0
    );
    // An oversized token does not parse; the next number is taken instead.
    assert_eq!(
        extract_test_count("test result: 99999999999 then 7 passed\n", "test result: "),
        7
    );
}

#[test]
fn diff_lines_counts_file_lines() {
    let log = "abc123 fix the widget\nsrc/widget.rs\nsrc/lib.rs\n\ncommit notes.txt\nREADME.md\n";
    // Four non-empty lines that do not start with "commit", fifteen lines each.
    assert_eq!(diff_lines_from_log(log), 60);
}

#[test]
fn diff_lines_empty_output_is_zero() {
    assert_eq!(diff_lines_from_log(""), 0);
    assert_eq!(diff_lines_from_log("\n\n"), 0);
}

#[test]
fn compute_dev_pressure_assembles_report() {
    let report = compute_dev_pressure(0, 0, 0, 0, Language::English);
    assert_eq!(report.git_diff_lines, 0);
    assert_eq!(report.test_success_per_mille, 0);
    assert!(!report.has_tests);
    assert_eq!(report.build_time_seconds, 0);
    // A zero success rate alone contributes thirty points: Medium.
    assert_eq!(report.pressure_level, PressureLevel::Medium);
    assert_eq!(
        report.risk_threshold,
        i18n("pressure.advice.medium.risk", Language::English)
    );
    assert_eq!(
        report.patience_advice,
        i18n("pressure.advice.medium.patience", Language::English)
    );

    let calm = compute_dev_pressure(10, 12, 0, 5, Language::English);
    assert_eq!(calm.test_success_per_mille, 1000);
    assert!(calm.has_tests);
    assert_eq!(calm.pressure_level, PressureLevel::Low);
    assert_eq!(
        calm.risk_threshold,
        i18n("pressure.advice.low.risk", Language::English)
    );
}
