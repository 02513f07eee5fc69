use findme::i18n::{i18n, I18n};
use findme::Language;

#[test]
fn translation_lookup_english() {
    assert_eq!(
        i18n("app.title", Language::English),
        "🎯 Developer's Daily Decompression Oracle"
    );
    assert_eq!(
        i18n("scenario.workday", Language::English),
        "Workday Mode - Execute/Deliver"
    );
    assert_eq!(
        i18n("pressure.level.low", Language::English),
        "Low Pressure - Relaxed"
    );
}

#[test]
fn translation_lookup_chinese() {
    assert_eq!(i18n("app.title", Language::Chinese), "🎯 程序员今日解压占卜");
    assert_eq!(
        i18n("scenario.weekend", Language::Chinese),
        "周末模式 - 学习/探索"
    );
}

#[test]
fn unmapped_key_falls_back_to_key() {
    assert_eq!(i18n("zodiac.pisces", Language::English), "zodiac.pisces");
    assert_eq!(i18n("no.such.key", Language::Chinese), "no.such.key");
    assert_eq!(i18n("", Language::English), "");
}

#[test]
fn store_matches_free_function() {
    let store = I18n::new();
    for key in ["app.title", "fortune.good", "advice.unknown", "missing.key"] {
        for lang in [Language::Chinese, Language::English] {
            assert_eq!(store.t(key, lang), i18n(key, lang));
        }
    }
}
