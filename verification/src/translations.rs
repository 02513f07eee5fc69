//! The built-in table contents: every (key, locale, text) entry the tool
//! ships, grouped by key prefix. Each group comes as a pair: a spec function
//! stating exactly which entries the group appends to a table, and an
//! executable function that records them in an [`I18n`] store.

use vstd::prelude::*;
use crate::i18n::I18n;
use crate::lang::Language;

verus! {

/// The entries of the `app.*` group, appended to `t`.
pub closed spec fn with_app_strings(
    t: Seq<(Seq<char>, Language, Seq<char>)>,
) -> Seq<(Seq<char>, Language, Seq<char>)> {
    t
        .push((("app.title")@, Language::Chinese, ("🎯 程序员今日解压占卜")@))
        .push((("app.title")@, Language::English, ("🎯 Developer's Daily Decompression Oracle")@))
}

pub(crate) fn add_app_strings(store: &mut I18n)
    ensures
        final(store).table() == with_app_strings(old(store).table()),
{
    store.add_translation("app.title", Language::Chinese, "🎯 程序员今日解压占卜");
    store.add_translation("app.title", Language::English, "🎯 Developer's Daily Decompression Oracle");
}

/// The entries of the `scenario.*` group, appended to `t`.
pub closed spec fn with_scenario_strings(
    t: Seq<(Seq<char>, Language, Seq<char>)>,
) -> Seq<(Seq<char>, Language, Seq<char>)> {
    t
        .push((("scenario.workday")@, Language::Chinese, ("工作日模式 - 执行/交付")@))
        .push((("scenario.workday")@, Language::English, ("Workday Mode - Execute/Deliver")@))
        .push((("scenario.weekend")@, Language::Chinese, ("周末模式 - 学习/探索")@))
        .push((("scenario.weekend")@, Language::English, ("Weekend Mode - Learn/Explore")@))
}

pub(crate) fn add_scenario_strings(store: &mut I18n)
    ensures
        final(store).table() == with_scenario_strings(old(store).table()),
{
    store.add_translation("scenario.workday", Language::Chinese, "工作日模式 - 执行/交付");
    store.add_translation("scenario.workday", Language::English, "Workday Mode - Execute/Deliver");
    store.add_translation("scenario.weekend", Language::Chinese, "周末模式 - 学习/探索");
    store.add_translation("scenario.weekend", Language::English, "Weekend Mode - Learn/Explore");
}

/// The entries of the `pressure.*` group, appended to `t`.
pub closed spec fn with_pressure_strings(
    t: Seq<(Seq<char>, Language, Seq<char>)>,
) -> Seq<(Seq<char>, Language, Seq<char>)> {
    t
        .push((("pressure.title")@, Language::Chinese, ("🔬 开发者体感气压")@))
        .push((("pressure.title")@, Language::English, ("🔬 Developer Pressure Index")@))
        .push((("pressure.level_label")@, Language::Chinese, ("气压等级")@))
        .push((("pressure.level_label")@, Language::English, ("Pressure Level")@))
        .push((("pressure.level.low")@, Language::Chinese, ("低气压 - 轻松状态")@))
        .push((("pressure.level.low")@, Language::English, ("Low Pressure - Relaxed")@))
        .push((("pressure.level.medium")@, Language::Chinese, ("中气压 - 正常状态")@))
        .push((("pressure.level.medium")@, Language::English, ("Medium Pressure - Normal")@))
        .push((("pressure.level.high")@, Language::Chinese, ("高气压 - 紧张状态")@))
        .push((("pressure.level.high")@, Language::English, ("High Pressure - Stressed")@))
        .push((("pressure.level.critical")@, Language::Chinese, ("临界气压 - 高压状态")@))
        .push((("pressure.level.critical")@, Language::English, ("Critical Pressure - Overwhelmed")@))
        .push((("pressure.metrics_label")@, Language::Chinese, ("📊 开发指标")@))
        .push((("pressure.metrics_label")@, Language::English, ("📊 Development Metrics")@))
        .push((("pressure.git_diff_label")@, Language::Chinese, ("Git变更行数")@))
        .push((("pressure.git_diff_label")@, Language::English, ("Git Diff Lines")@))
        .push((("pressure.lines")@, Language::Chinese, ("行")@))
        .push((("pressure.lines")@, Language::English, ("lines")@))
        .push((("pressure.test_success_label")@, Language::Chinese, ("测试成功率")@))
        .push((("pressure.test_success_label")@, Language::English, ("Test Success Rate")@))
        .push((("pressure.no_tests")@, Language::Chinese, ("还没测试过")@))
        .push((("pressure.no_tests")@, Language::English, ("No tests yet")@))
        .push((("pressure.build_time_label")@, Language::Chinese, ("构建耗时")@))
        .push((("pressure.build_time_label")@, Language::English, ("Build Time")@))
        .push((("pressure.advice_label")@, Language::Chinese, ("💭 今日建议")@))
        .push((("pressure.advice_label")@, Language::English, ("💭 Today's Advice")@))
        .push((("pressure.advice.low.risk")@, Language::Chinese, ("低风险阈值 - 可以尝试新功能")@))
        .push((("pressure.advice.low.risk")@, Language::English, ("Low Risk Threshold - Can try new features")@))
        .push((("pressure.advice.low.patience")@, Language::Chinese, ("保持当前节奏，适合探索性开发")@))
        .push((("pressure.advice.low.patience")@, Language::English, ("Maintain current pace, suitable for exploratory development")@))
        .push((("pressure.advice.medium.risk")@, Language::Chinese, ("中等风险阈值 - 谨慎推进")@))
        .push((("pressure.advice.medium.risk")@, Language::English, ("Medium Risk Threshold - Proceed with caution")@))
        .push((("pressure.advice.medium.patience")@, Language::Chinese, ("建议先完善现有功能，再考虑新特性")@))
        .push((("pressure.advice.medium.patience")@, Language::English, ("Suggest improving existing features first, then consider new ones")@))
        .push((("pressure.advice.high.risk")@, Language::Chinese, ("高风险阈值 - 优先修复问题")@))
        .push((("pressure.advice.high.risk")@, Language::English, ("High Risk Threshold - Prioritize fixing issues")@))
        .push((("pressure.advice.high.patience")@, Language::Chinese, ("建议先解决测试失败和构建问题")@))
        .push((("pressure.advice.high.patience")@, Language::English, ("Suggest fixing test failures and build issues first")@))
        .push((("pressure.advice.critical.risk")@, Language::Chinese, ("临界风险阈值 - 紧急修复模式")@))
        .push((("pressure.advice.critical.risk")@, Language::English, ("Critical Risk Threshold - Emergency fix mode")@))
        .push((("pressure.advice.critical.patience")@, Language::Chinese, ("建议暂停新功能开发，专注解决核心问题")@))
        .push((("pressure.advice.critical.patience")@, Language::English, ("Suggest pausing new feature development, focus on core issues")@))
}

pub(crate) fn add_pressure_strings(store: &mut I18n)
    ensures
        final(store).table() == with_pressure_strings(old(store).table()),
{
    store.add_translation("pressure.title", Language::Chinese, "🔬 开发者体感气压");
    store.add_translation("pressure.title", Language::English, "🔬 Developer Pressure Index");
    store.add_translation("pressure.level_label", Language::Chinese, "气压等级");
    store.add_translation("pressure.level_label", Language::English, "Pressure Level");
    store.add_translation("pressure.level.low", Language::Chinese, "低气压 - 轻松状态");
    store.add_translation("pressure.level.low", Language::English, "Low Pressure - Relaxed");
    store.add_translation("pressure.level.medium", Language::Chinese, "中气压 - 正常状态");
    store.add_translation("pressure.level.medium", Language::English, "Medium Pressure - Normal");
    store.add_translation("pressure.level.high", Language::Chinese, "高气压 - 紧张状态");
    store.add_translation("pressure.level.high", Language::English, "High Pressure - Stressed");
    store.add_translation("pressure.level.critical", Language::Chinese, "临界气压 - 高压状态");
    store.add_translation("pressure.level.critical", Language::English, "Critical Pressure - Overwhelmed");
    store.add_translation("pressure.metrics_label", Language::Chinese, "📊 开发指标");
    store.add_translation("pressure.metrics_label", Language::English, "📊 Development Metrics");
    store.add_translation("pressure.git_diff_label", Language::Chinese, "Git变更行数");
    store.add_translation("pressure.git_diff_label", Language::English, "Git Diff Lines");
    store.add_translation("pressure.lines", Language::Chinese, "行");
    store.add_translation("pressure.lines", Language::English, "lines");
    store.add_translation("pressure.test_success_label", Language::Chinese, "测试成功率");
    store.add_translation("pressure.test_success_label", Language::English, "Test Success Rate");
    store.add_translation("pressure.no_tests", Language::Chinese, "还没测试过");
    store.add_translation("pressure.no_tests", Language::English, "No tests yet");
    store.add_translation("pressure.build_time_label", Language::Chinese, "构建耗时");
    store.add_translation("pressure.build_time_label", Language::English, "Build Time");
    store.add_translation("pressure.advice_label", Language::Chinese, "💭 今日建议");
    store.add_translation("pressure.advice_label", Language::English, "💭 Today's Advice");
    store.add_translation("pressure.advice.low.risk", Language::Chinese, "低风险阈值 - 可以尝试新功能");
    store.add_translation("pressure.advice.low.risk", Language::English, "Low Risk Threshold - Can try new features");
    store.add_translation("pressure.advice.low.patience", Language::Chinese, "保持当前节奏，适合探索性开发");
    store.add_translation("pressure.advice.low.patience", Language::English, "Maintain current pace, suitable for exploratory development");
    store.add_translation("pressure.advice.medium.risk", Language::Chinese, "中等风险阈值 - 谨慎推进");
    store.add_translation("pressure.advice.medium.risk", Language::English, "Medium Risk Threshold - Proceed with caution");
    store.add_translation("pressure.advice.medium.patience", Language::Chinese, "建议先完善现有功能，再考虑新特性");
    store.add_translation("pressure.advice.medium.patience", Language::English, "Suggest improving existing features first, then consider new ones");
    store.add_translation("pressure.advice.high.risk", Language::Chinese, "高风险阈值 - 优先修复问题");
    store.add_translation("pressure.advice.high.risk", Language::English, "High Risk Threshold - Prioritize fixing issues");
    store.add_translation("pressure.advice.high.patience", Language::Chinese, "建议先解决测试失败和构建问题");
    store.add_translation("pressure.advice.high.patience", Language::English, "Suggest fixing test failures and build issues first");
    store.add_translation("pressure.advice.critical.risk", Language::Chinese, "临界风险阈值 - 紧急修复模式");
    store.add_translation("pressure.advice.critical.risk", Language::English, "Critical Risk Threshold - Emergency fix mode");
    store.add_translation("pressure.advice.critical.patience", Language::Chinese, "建议暂停新功能开发，专注解决核心问题");
    store.add_translation("pressure.advice.critical.patience", Language::English, "Suggest pausing new feature development, focus on core issues");
}

/// The entries of the `fortune.*` group, appended to `t`.
pub closed spec fn with_fortune_strings(
    t: Seq<(Seq<char>, Language, Seq<char>)>,
) -> Seq<(Seq<char>, Language, Seq<char>)> {
    t
        .push((("fortune.overall_score_label")@, Language::Chinese, ("📊 综合评分")@))
        .push((("fortune.overall_score_label")@, Language::English, ("📊 Overall Score")@))
        .push((("fortune.dimensions_label")@, Language::Chinese, ("🎯 技术五维")@))
        .push((("fortune.dimensions_label")@, Language::English, ("🎯 Tech Dimensions")@))
        .push((("fortune.focus_label")@, Language::Chinese, ("🎯 专注力")@))
        .push((("fortune.focus_label")@, Language::English, ("🎯 Focus")@))
        .push((("fortune.creativity_label")@, Language::Chinese, ("💡 创造力")@))
        .push((("fortune.creativity_label")@, Language::English, ("💡 Creativity")@))
        .push((("fortune.debugging_label")@, Language::Chinese, ("🐛 调试手感")@))
        .push((("fortune.debugging_label")@, Language::English, ("🐛 Debugging")@))
        .push((("fortune.collaboration_label")@, Language::Chinese, ("🤝 协作指数")@))
        .push((("fortune.collaboration_label")@, Language::English, ("🤝 Collaboration")@))
        .push((("fortune.risk_label")@, Language::Chinese, ("⚡ 风险偏好")@))
        .push((("fortune.risk_label")@, Language::English, ("⚡ Risk Tolerance")@))
        .push((("fortune.message_label")@, Language::Chinese, ("💬 今日状态")@))
        .push((("fortune.message_label")@, Language::English, ("💬 Today's Status")@))
        .push((("fortune.advice_label")@, Language::Chinese, ("💡 技术建议")@))
        .push((("fortune.advice_label")@, Language::English, ("💡 Tech Advice")@))
        .push((("fortune.lucky_color_label")@, Language::Chinese, ("🎨 推荐颜色")@))
        .push((("fortune.lucky_color_label")@, Language::English, ("🎨 Recommended Color")@))
        .push((("fortune.lucky_time_label")@, Language::Chinese, ("⏰ 最佳时间")@))
        .push((("fortune.lucky_time_label")@, Language::English, ("⏰ Best Time")@))
        .push((("fortune.detailed_advice_title")@, Language::Chinese, ("📋 今日工作建议")@))
        .push((("fortune.detailed_advice_title")@, Language::English, ("📋 Today's Work Advice")@))
        .push((("fortune.excellent")@, Language::Chinese, ("🌟 今日状态爆表！")@))
        .push((("fortune.excellent")@, Language::English, ("🌟 Today's state is off the charts!")@))
        .push((("fortune.excellent.focus")@, Language::Chinese, ("🎯 专注力拉满，代码如丝般顺滑")@))
        .push((("fortune.excellent.focus")@, Language::English, ("🎯 Focus maxed out, code flows like silk")@))
        .push((("fortune.excellent.creativity")@, Language::Chinese, ("💡 创造力爆棚，灵感如泉涌")@))
        .push((("fortune.excellent.creativity")@, Language::English, ("💡 Creativity overflowing, ideas gushing")@))
}

pub(crate) fn add_fortune_strings(store: &mut I18n)
    ensures
        final(store).table() == with_fortune_strings(old(store).table()),
{
    store.add_translation("fortune.overall_score_label", Language::Chinese, "📊 综合评分");
    store.add_translation("fortune.overall_score_label", Language::English, "📊 Overall Score");
    store.add_translation("fortune.dimensions_label", Language::Chinese, "🎯 技术五维");
    store.add_translation("fortune.dimensions_label", Language::English, "🎯 Tech Dimensions");
    store.add_translation("fortune.focus_label", Language::Chinese, "🎯 专注力");
    store.add_translation("fortune.focus_label", Language::English, "🎯 Focus");
    store.add_translation("fortune.creativity_label", Language::Chinese, "💡 创造力");
    store.add_translation("fortune.creativity_label", Language::English, "💡 Creativity");
    store.add_translation("fortune.debugging_label", Language::Chinese, "🐛 调试手感");
    store.add_translation("fortune.debugging_label", Language::English, "🐛 Debugging");
    store.add_translation("fortune.collaboration_label", Language::Chinese, "🤝 协作指数");
    store.add_translation("fortune.collaboration_label", Language::English, "🤝 Collaboration");
    store.add_translation("fortune.risk_label", Language::Chinese, "⚡ 风险偏好");
    store.add_translation("fortune.risk_label", Language::English, "⚡ Risk Tolerance");
    store.add_translation("fortune.message_label", Language::Chinese, "💬 今日状态");
    store.add_translation("fortune.message_label", Language::English, "💬 Today's Status");
    store.add_translation("fortune.advice_label", Language::Chinese, "💡 技术建议");
    store.add_translation("fortune.advice_label", Language::English, "💡 Tech Advice");
    store.add_translation("fortune.lucky_color_label", Language::Chinese, "🎨 推荐颜色");
    store.add_translation("fortune.lucky_color_label", Language::English, "🎨 Recommended Color");
    store.add_translation("fortune.lucky_time_label", Language::Chinese, "⏰ 最佳时间");
    store.add_translation("fortune.lucky_time_label", Language::English, "⏰ Best Time");
    store.add_translation("fortune.detailed_advice_title", Language::Chinese, "📋 今日工作建议");
    store.add_translation("fortune.detailed_advice_title", Language::English, "📋 Today's Work Advice");
    store.add_translation("fortune.excellent", Language::Chinese, "🌟 今日状态爆表！");
    store.add_translation("fortune.excellent", Language::English, "🌟 Today's state is off the charts!");
    store.add_translation("fortune.excellent.focus", Language::Chinese, "🎯 专注力拉满，代码如丝般顺滑");
    store.add_translation("fortune.excellent.focus", Language::English, "🎯 Focus maxed out, code flows like silk");
    store.add_translation("fortune.excellent.creativity", Language::Chinese, "💡 创造力爆棚，灵感如泉涌");
    store.add_translation("fortune.excellent.creativity", Language::English, "💡 Creativity overflowing, ideas gushing");
}

/// The entries of the `fortune.*` group, appended to `t`.
pub closed spec fn with_fortune_more_strings(
    t: Seq<(Seq<char>, Language, Seq<char>)>,
) -> Seq<(Seq<char>, Language, Seq<char>)> {
    t
        .push((("fortune.excellent.debugging")@, Language::Chinese, ("🐛 调试手感绝佳，bug无处遁形")@))
        .push((("fortune.excellent.debugging")@, Language::English, ("🐛 Perfect debugging touch, bugs have nowhere to hide")@))
        .push((("fortune.excellent.collaboration")@, Language::Chinese, ("🤝 协作指数爆表，团队效率翻倍")@))
        .push((("fortune.excellent.collaboration")@, Language::English, ("🤝 Collaboration off the charts, team efficiency doubled")@))
        .push((("fortune.excellent.risk")@, Language::Chinese, ("⚡ 风险偏好拉满，敢于尝试新技术")@))
        .push((("fortune.excellent.risk")@, Language::English, ("⚡ Risk tolerance maxed, ready to try new tech")@))
        .push((("fortune.great")@, Language::Chinese, ("✨ 今日状态很棒")@))
        .push((("fortune.great")@, Language::English, ("✨ Great state today")@))
        .push((("fortune.great.focus")@, Language::Chinese, ("🎯 专注力在线，代码质量有保障")@))
        .push((("fortune.great.focus")@, Language::English, ("🎯 Focus is on point, code quality guaranteed")@))
        .push((("fortune.great.creativity")@, Language::Chinese, ("💡 创造力在线，创新想法不断")@))
        .push((("fortune.great.creativity")@, Language::English, ("💡 Creativity is flowing, innovative ideas keep coming")@))
        .push((("fortune.great.debugging")@, Language::Chinese, ("🐛 调试手感不错，问题解决效率高")@))
        .push((("fortune.great.debugging")@, Language::English, ("🐛 Good debugging touch, high problem-solving efficiency")@))
        .push((("fortune.great.collaboration")@, Language::Chinese, ("🤝 协作指数不错，团队配合默契")@))
        .push((("fortune.great.collaboration")@, Language::English, ("🤝 Good collaboration, team synergy is strong")@))
        .push((("fortune.great.risk")@, Language::Chinese, ("⚡ 风险偏好适中，敢于适度冒险")@))
        .push((("fortune.great.risk")@, Language::English, ("⚡ Moderate risk tolerance, ready for calculated risks")@))
        .push((("fortune.good")@, Language::Chinese, ("👍 今日状态不错")@))
        .push((("fortune.good")@, Language::English, ("👍 Good state today")@))
        .push((("fortune.average")@, Language::Chinese, ("😐 今日状态一般")@))
        .push((("fortune.average")@, Language::English, ("😐 Average state today")@))
        .push((("fortune.careful")@, Language::Chinese, ("⚠️ 今日需要小心")@))
        .push((("fortune.careful")@, Language::English, ("⚠️ Need to be careful today")@))
        .push((("fortune.poor")@, Language::Chinese, ("😰 今日状态不佳")@))
        .push((("fortune.poor")@, Language::English, ("😰 Poor state today")@))
        .push((("fortune.challenging")@, Language::Chinese, ("🚨 今日挑战很大")@))
        .push((("fortune.challenging")@, Language::English, ("🚨 Major challenges today")@))
        .push((("fortune.unknown")@, Language::Chinese, ("🤔 今日状态未知")@))
        .push((("fortune.unknown")@, Language::English, ("🤔 Unknown state today")@))
}

pub(crate) fn add_fortune_more_strings(store: &mut I18n)
    ensures
        final(store).table() == with_fortune_more_strings(old(store).table()),
{
    store.add_translation("fortune.excellent.debugging", Language::Chinese, "🐛 调试手感绝佳，bug无处遁形");
    store.add_translation("fortune.excellent.debugging", Language::English, "🐛 Perfect debugging touch, bugs have nowhere to hide");
    store.add_translation("fortune.excellent.collaboration", Language::Chinese, "🤝 协作指数爆表，团队效率翻倍");
    store.add_translation("fortune.excellent.collaboration", Language::English, "🤝 Collaboration off the charts, team efficiency doubled");
    store.add_translation("fortune.excellent.risk", Language::Chinese, "⚡ 风险偏好拉满，敢于尝试新技术");
    store.add_translation("fortune.excellent.risk", Language::English, "⚡ Risk tolerance maxed, ready to try new tech");
    store.add_translation("fortune.great", Language::Chinese, "✨ 今日状态很棒");
    store.add_translation("fortune.great", Language::English, "✨ Great state today");
    store.add_translation("fortune.great.focus", Language::Chinese, "🎯 专注力在线，代码质量有保障");
    store.add_translation("fortune.great.focus", Language::English, "🎯 Focus is on point, code quality guaranteed");
    store.add_translation("fortune.great.creativity", Language::Chinese, "💡 创造力在线，创新想法不断");
    store.add_translation("fortune.great.creativity", Language::English, "💡 Creativity is flowing, innovative ideas keep coming");
    store.add_translation("fortune.great.debugging", Language::Chinese, "🐛 调试手感不错，问题解决效率高");
    store.add_translation("fortune.great.debugging", Language::English, "🐛 Good debugging touch, high problem-solving efficiency");
    store.add_translation("fortune.great.collaboration", Language::Chinese, "🤝 协作指数不错，团队配合默契");
    store.add_translation("fortune.great.collaboration", Language::English, "🤝 Good collaboration, team synergy is strong");
    store.add_translation("fortune.great.risk", Language::Chinese, "⚡ 风险偏好适中，敢于适度冒险");
    store.add_translation("fortune.great.risk", Language::English, "⚡ Moderate risk tolerance, ready for calculated risks");
    store.add_translation("fortune.good", Language::Chinese, "👍 今日状态不错");
    store.add_translation("fortune.good", Language::English, "👍 Good state today");
    store.add_translation("fortune.average", Language::Chinese, "😐 今日状态一般");
    store.add_translation("fortune.average", Language::English, "😐 Average state today");
    store.add_translation("fortune.careful", Language::Chinese, "⚠️ 今日需要小心");
    store.add_translation("fortune.careful", Language::English, "⚠️ Need to be careful today");
    store.add_translation("fortune.poor", Language::Chinese, "😰 今日状态不佳");
    store.add_translation("fortune.poor", Language::English, "😰 Poor state today");
    store.add_translation("fortune.challenging", Language::Chinese, "🚨 今日挑战很大");
    store.add_translation("fortune.challenging", Language::English, "🚨 Major challenges today");
    store.add_translation("fortune.unknown", Language::Chinese, "🤔 今日状态未知");
    store.add_translation("fortune.unknown", Language::English, "🤔 Unknown state today");
}

/// The entries of the `language.*` group, appended to `t`.
pub closed spec fn with_language_strings(
    t: Seq<(Seq<char>, Language, Seq<char>)>,
) -> Seq<(Seq<char>, Language, Seq<char>)> {
    t
        .push((("language.choose")@, Language::Chinese, ("🌍 请选择语言 / Please select language:")@))
        .push((("language.choose")@, Language::English, ("🌍 Please select language:")@))
        .push((("language.chinese")@, Language::Chinese, ("1. 中文 (Chinese)")@))
        .push((("language.chinese")@, Language::English, ("1. Chinese")@))
        .push((("language.english")@, Language::Chinese, ("2. English")@))
        .push((("language.english")@, Language::English, ("2. English")@))
        .push((("language.enter_choice")@, Language::Chinese, ("请输入选择 (Enter choice): ")@))
        .push((("language.enter_choice")@, Language::English, ("Enter choice: ")@))
        .push((("language.invalid_choice")@, Language::Chinese, ("❌ 无效选择，请输入 1 或 2 / Invalid choice, please enter 1 or 2")@))
        .push((("language.invalid_choice")@, Language::English, ("❌ Invalid choice, please enter 1 or 2")@))
        .push((("language.set_chinese")@, Language::Chinese, ("✅ 语言已设置为中文")@))
        .push((("language.set_chinese")@, Language::English, ("✅ Language set to Chinese")@))
        .push((("language.set_english")@, Language::Chinese, ("✅ Language set to English")@))
        .push((("language.set_english")@, Language::English, ("✅ Language set to English")@))
        .push((("language.first_time")@, Language::Chinese, ("🌍 首次使用，请选择语言 / First time use, please select language:")@))
        .push((("language.first_time")@, Language::English, ("🌍 First time use, please select language:")@))
        .push((("language.cannot_save")@, Language::Chinese, ("⚠️ 无法保存语言设置 / Cannot save language setting: {}")@))
        .push((("language.cannot_save")@, Language::English, ("⚠️ Cannot save language setting: {}")@))
        .push((("language.invalid_option")@, Language::Chinese, ("❌ 无效的语言选项 / Invalid language option: {}")@))
        .push((("language.invalid_option")@, Language::English, ("❌ Invalid language option: {}")@))
        .push((("language.use_zh_en")@, Language::Chinese, ("请使用: zh/en / Please use: zh/en")@))
        .push((("language.use_zh_en")@, Language::English, ("Please use: zh/en")@))
}

pub(crate) fn add_language_strings(store: &mut I18n)
    ensures
        final(store).table() == with_language_strings(old(store).table()),
{
    store.add_translation("language.choose", Language::Chinese, "🌍 请选择语言 / Please select language:");
    store.add_translation("language.choose", Language::English, "🌍 Please select language:");
    store.add_translation("language.chinese", Language::Chinese, "1. 中文 (Chinese)");
    store.add_translation("language.chinese", Language::English, "1. Chinese");
    store.add_translation("language.english", Language::Chinese, "2. English");
    store.add_translation("language.english", Language::English, "2. English");
    store.add_translation("language.enter_choice", Language::Chinese, "请输入选择 (Enter choice): ");
    store.add_translation("language.enter_choice", Language::English, "Enter choice: ");
    store.add_translation("language.invalid_choice", Language::Chinese, "❌ 无效选择，请输入 1 或 2 / Invalid choice, please enter 1 or 2");
    store.add_translation("language.invalid_choice", Language::English, "❌ Invalid choice, please enter 1 or 2");
    store.add_translation("language.set_chinese", Language::Chinese, "✅ 语言已设置为中文");
    store.add_translation("language.set_chinese", Language::English, "✅ Language set to Chinese");
    store.add_translation("language.set_english", Language::Chinese, "✅ Language set to English");
    store.add_translation("language.set_english", Language::English, "✅ Language set to English");
    store.add_translation("language.first_time", Language::Chinese, "🌍 首次使用，请选择语言 / First time use, please select language:");
    store.add_translation("language.first_time", Language::English, "🌍 First time use, please select language:");
    store.add_translation("language.cannot_save", Language::Chinese, "⚠️ 无法保存语言设置 / Cannot save language setting: {}");
    store.add_translation("language.cannot_save", Language::English, "⚠️ Cannot save language setting: {}");
    store.add_translation("language.invalid_option", Language::Chinese, "❌ 无效的语言选项 / Invalid language option: {}");
    store.add_translation("language.invalid_option", Language::English, "❌ Invalid language option: {}");
    store.add_translation("language.use_zh_en", Language::Chinese, "请使用: zh/en / Please use: zh/en");
    store.add_translation("language.use_zh_en", Language::English, "Please use: zh/en");
}

/// The entries of the `advice.*` group, appended to `t`.
pub closed spec fn with_advice_strings(
    t: Seq<(Seq<char>, Language, Seq<char>)>,
) -> Seq<(Seq<char>, Language, Seq<char>)> {
    t
        .push((("advice.excellent")@, Language::Chinese, ("适合进行重要的代码重构或系统升级，一切都会很顺利。")@))
        .push((("advice.excellent")@, Language::English, ("Perfect for important code refactoring or system upgrades, everything will go smoothly.")@))
        .push((("advice.excellent.focus")@, Language::Chinese, ("专注力爆表，适合处理复杂的算法和架构设计，代码质量会很高。")@))
        .push((("advice.excellent.focus")@, Language::English, ("Focus is maxed out, perfect for complex algorithms and architecture design, code quality will be excellent.")@))
        .push((("advice.excellent.creativity")@, Language::Chinese, ("创造力爆棚，适合尝试新的技术栈、设计模式和创新解决方案。")@))
        .push((("advice.excellent.creativity")@, Language::English, ("Creativity is overflowing, perfect for trying new tech stacks, design patterns, and innovative solutions.")@))
        .push((("advice.excellent.debugging")@, Language::Chinese, ("调试手感绝佳，适合处理复杂的bug和性能优化，问题解决效率极高。")@))
        .push((("advice.excellent.debugging")@, Language::English, ("Perfect debugging touch, ideal for complex bugs and performance optimization, problem-solving efficiency is extremely high.")@))
        .push((("advice.excellent.collaboration")@, Language::Chinese, ("协作指数爆表，适合进行代码审查、技术分享和团队协作项目。")@))
        .push((("advice.excellent.collaboration")@, Language::English, ("Collaboration is off the charts, perfect for code reviews, tech sharing, and team collaboration projects.")@))
        .push((("advice.excellent.risk")@, Language::Chinese, ("风险偏好拉满，适合尝试新技术、重构遗留代码和探索前沿技术。")@))
        .push((("advice.excellent.risk")@, Language::English, ("Risk tolerance is maxed, perfect for trying new technologies, refactoring legacy code, and exploring cutting-edge tech.")@))
        .push((("advice.great")@, Language::Chinese, ("代码质量会很高，bug率很低，适合处理复杂的技术问题。")@))
        .push((("advice.great")@, Language::English, ("Code quality will be high, low bug rate, suitable for handling complex technical issues.")@))
        .push((("advice.great.focus")@, Language::Chinese, ("专注力在线，适合处理需要深度思考的编程任务，代码质量有保障。")@))
        .push((("advice.great.focus")@, Language::English, ("Focus is on point, suitable for programming tasks requiring deep thinking, code quality is guaranteed.")@))
        .push((("advice.great.creativity")@, Language::Chinese, ("创造力在线，适合优化现有代码、设计新功能和探索创新方案。")@))
        .push((("advice.great.creativity")@, Language::English, ("Creativity is flowing, suitable for optimizing existing code, designing new features, and exploring innovative solutions.")@))
        .push((("advice.great.debugging")@, Language::Chinese, ("调试手感不错，适合处理中等复杂度的bug和代码优化任务。")@))
        .push((("advice.great.debugging")@, Language::English, ("Good debugging touch, suitable for medium-complexity bugs and code optimization tasks.")@))
        .push((("advice.great.collaboration")@, Language::Chinese, ("协作指数不错，适合参与团队项目、技术讨论和知识分享。")@))
        .push((("advice.great.collaboration")@, Language::English, ("Good collaboration, suitable for team projects, technical discussions, and knowledge sharing.")@))
        .push((("advice.great.risk")@, Language::Chinese, ("风险偏好适中，适合尝试新工具、优化现有流程和适度创新。")@))
        .push((("advice.great.risk")@, Language::English, ("Moderate risk tolerance, suitable for trying new tools, optimizing existing processes, and moderate innovation.")@))
        .push((("advice.good")@, Language::Chinese, ("编程效率较高，但要注意代码审查，避免小错误。")@))
        .push((("advice.good")@, Language::English, ("High programming efficiency, but pay attention to code review, avoid small errors.")@))
        .push((("advice.average")@, Language::Chinese, ("写代码时要多测试，避免留下隐患。")@))
        .push((("advice.average")@, Language::English, ("Write code carefully, avoid leaving hidden dangers.")@))
        .push((("advice.careful")@, Language::Chinese, ("代码容易出错，建议多写单元测试，仔细检查逻辑。")@))
        .push((("advice.careful")@, Language::English, ("Code is prone to errors, suggest writing more unit tests, check logic carefully.")@))
        .push((("advice.poor")@, Language::Chinese, ("容易遇到技术难题，建议多查阅文档，不要急于求成。")@))
        .push((("advice.poor")@, Language::English, ("Easy to encounter technical difficulties, suggest consulting documentation, don't rush.")@))
        .push((("advice.challenging")@, Language::Chinese, ("代码容易出bug，建议专注于简单任务，避免复杂操作。")@))
        .push((("advice.challenging")@, Language::English, ("Code is prone to bugs, suggest focusing on simple tasks, avoid complex operations.")@))
        .push((("advice.unknown")@, Language::Chinese, ("保持平常心，专注工作即可。")@))
        .push((("advice.unknown")@, Language::English, ("Keep calm and focus on work.")@))
        .push((("advice.excellent.refactor")@, Language::Chinese, ("适合进行代码重构和系统优化")@))
        .push((("advice.excellent.refactor")@, Language::English, ("Suitable for code refactoring and system optimization")@))
        .push((("advice.excellent.framework")@, Language::Chinese, ("可以尝试新的技术栈或框架")@))
        .push((("advice.excellent.framework")@, Language::English, ("Can try new tech stacks or frameworks")@))
        .push((("advice.excellent.review")@, Language::Chinese, ("代码审查会非常顺利")@))
        .push((("advice.excellent.review")@, Language::English, ("Code review will be very smooth")@))
        .push((("advice.excellent.problem")@, Language::Chinese, ("适合解决复杂的技术难题")@))
        .push((("advice.excellent.problem")@, Language::English, ("Suitable for solving complex technical problems")@))
        .push((("advice.great.efficiency")@, Language::Chinese, ("编程效率很高，bug率低")@))
        .push((("advice.great.efficiency")@, Language::English, ("High programming efficiency, low bug rate")@))
}

pub(crate) fn add_advice_strings(store: &mut I18n)
    ensures
        final(store).table() == with_advice_strings(old(store).table()),
{
    store.add_translation("advice.excellent", Language::Chinese, "适合进行重要的代码重构或系统升级，一切都会很顺利。");
    store.add_translation("advice.excellent", Language::English, "Perfect for important code refactoring or system upgrades, everything will go smoothly.");
    store.add_translation("advice.excellent.focus", Language::Chinese, "专注力爆表，适合处理复杂的算法和架构设计，代码质量会很高。");
    store.add_translation("advice.excellent.focus", Language::English, "Focus is maxed out, perfect for complex algorithms and architecture design, code quality will be excellent.");
    store.add_translation("advice.excellent.creativity", Language::Chinese, "创造力爆棚，适合尝试新的技术栈、设计模式和创新解决方案。");
    store.add_translation("advice.excellent.creativity", Language::English, "Creativity is overflowing, perfect for trying new tech stacks, design patterns, and innovative solutions.");
    store.add_translation("advice.excellent.debugging", Language::Chinese, "调试手感绝佳，适合处理复杂的bug和性能优化，问题解决效率极高。");
    store.add_translation("advice.excellent.debugging", Language::English, "Perfect debugging touch, ideal for complex bugs and performance optimization, problem-solving efficiency is extremely high.");
    store.add_translation("advice.excellent.collaboration", Language::Chinese, "协作指数爆表，适合进行代码审查、技术分享和团队协作项目。");
    store.add_translation("advice.excellent.collaboration", Language::English, "Collaboration is off the charts, perfect for code reviews, tech sharing, and team collaboration projects.");
    store.add_translation("advice.excellent.risk", Language::Chinese, "风险偏好拉满，适合尝试新技术、重构遗留代码和探索前沿技术。");
    store.add_translation("advice.excellent.risk", Language::English, "Risk tolerance is maxed, perfect for trying new technologies, refactoring legacy code, and exploring cutting-edge tech.");
    store.add_translation("advice.great", Language::Chinese, "代码质量会很高，bug率很低，适合处理复杂的技术问题。");
    store.add_translation("advice.great", Language::English, "Code quality will be high, low bug rate, suitable for handling complex technical issues.");
    store.add_translation("advice.great.focus", Language::Chinese, "专注力在线，适合处理需要深度思考的编程任务，代码质量有保障。");
    store.add_translation("advice.great.focus", Language::English, "Focus is on point, suitable for programming tasks requiring deep thinking, code quality is guaranteed.");
    store.add_translation("advice.great.creativity", Language::Chinese, "创造力在线，适合优化现有代码、设计新功能和探索创新方案。");
    store.add_translation("advice.great.creativity", Language::English, "Creativity is flowing, suitable for optimizing existing code, designing new features, and exploring innovative solutions.");
    store.add_translation("advice.great.debugging", Language::Chinese, "调试手感不错，适合处理中等复杂度的bug和代码优化任务。");
    store.add_translation("advice.great.debugging", Language::English, "Good debugging touch, suitable for medium-complexity bugs and code optimization tasks.");
    store.add_translation("advice.great.collaboration", Language::Chinese, "协作指数不错，适合参与团队项目、技术讨论和知识分享。");
    store.add_translation("advice.great.collaboration", Language::English, "Good collaboration, suitable for team projects, technical discussions, and knowledge sharing.");
    store.add_translation("advice.great.risk", Language::Chinese, "风险偏好适中，适合尝试新工具、优化现有流程和适度创新。");
    store.add_translation("advice.great.risk", Language::English, "Moderate risk tolerance, suitable for trying new tools, optimizing existing processes, and moderate innovation.");
    store.add_translation("advice.good", Language::Chinese, "编程效率较高，但要注意代码审查，避免小错误。");
    store.add_translation("advice.good", Language::English, "High programming efficiency, but pay attention to code review, avoid small errors.");
    store.add_translation("advice.average", Language::Chinese, "写代码时要多测试，避免留下隐患。");
    store.add_translation("advice.average", Language::English, "Write code carefully, avoid leaving hidden dangers.");
    store.add_translation("advice.careful", Language::Chinese, "代码容易出错，建议多写单元测试，仔细检查逻辑。");
    store.add_translation("advice.careful", Language::English, "Code is prone to errors, suggest writing more unit tests, check logic carefully.");
    store.add_translation("advice.poor", Language::Chinese, "容易遇到技术难题，建议多查阅文档，不要急于求成。");
    store.add_translation("advice.poor", Language::English, "Easy to encounter technical difficulties, suggest consulting documentation, don't rush.");
    store.add_translation("advice.challenging", Language::Chinese, "代码容易出bug，建议专注于简单任务，避免复杂操作。");
    store.add_translation("advice.challenging", Language::English, "Code is prone to bugs, suggest focusing on simple tasks, avoid complex operations.");
    store.add_translation("advice.unknown", Language::Chinese, "保持平常心，专注工作即可。");
    store.add_translation("advice.unknown", Language::English, "Keep calm and focus on work.");
    store.add_translation("advice.excellent.refactor", Language::Chinese, "适合进行代码重构和系统优化");
    store.add_translation("advice.excellent.refactor", Language::English, "Suitable for code refactoring and system optimization");
    store.add_translation("advice.excellent.framework", Language::Chinese, "可以尝试新的技术栈或框架");
    store.add_translation("advice.excellent.framework", Language::English, "Can try new tech stacks or frameworks");
    store.add_translation("advice.excellent.review", Language::Chinese, "代码审查会非常顺利");
    store.add_translation("advice.excellent.review", Language::English, "Code review will be very smooth");
    store.add_translation("advice.excellent.problem", Language::Chinese, "适合解决复杂的技术难题");
    store.add_translation("advice.excellent.problem", Language::English, "Suitable for solving complex technical problems");
    store.add_translation("advice.great.efficiency", Language::Chinese, "编程效率很高，bug率低");
    store.add_translation("advice.great.efficiency", Language::English, "High programming efficiency, low bug rate");
}

/// The entries of the `advice.*` group, appended to `t`.
pub closed spec fn with_advice_more_strings(
    t: Seq<(Seq<char>, Language, Seq<char>)>,
) -> Seq<(Seq<char>, Language, Seq<char>)> {
    t
        .push((("advice.great.development")@, Language::Chinese, ("适合处理重要的功能开发")@))
        .push((("advice.great.development")@, Language::English, ("Suitable for important feature development")@))
        .push((("advice.great.quality")@, Language::Chinese, ("代码质量会很好")@))
        .push((("advice.great.quality")@, Language::English, ("Code quality will be excellent")@))
        .push((("advice.great.standards")@, Language::Chinese, ("注意保持代码规范")@))
        .push((("advice.great.standards")@, Language::English, ("Pay attention to code standards")@))
        .push((("advice.good.condition")@, Language::Chinese, ("整体工作状态不错")@))
        .push((("advice.good.condition")@, Language::English, ("Overall work condition is good")@))
        .push((("advice.good.check")@, Language::Chinese, ("写代码时要仔细检查")@))
        .push((("advice.good.check")@, Language::English, ("Check code carefully when writing")@))
        .push((("advice.good.documentation")@, Language::Chinese, ("建议多写注释和文档")@))
        .push((("advice.good.documentation")@, Language::English, ("Suggest writing more comments and documentation")@))
        .push((("advice.good.optimization")@, Language::Chinese, ("避免过度优化")@))
        .push((("advice.good.optimization")@, Language::English, ("Avoid over-optimization")@))
        .push((("advice.average.careful")@, Language::Chinese, ("编程时要多加小心")@))
        .push((("advice.average.careful")@, Language::English, ("Be extra careful when programming")@))
        .push((("advice.average.tests")@, Language::Chinese, ("建议多写单元测试")@))
        .push((("advice.average.tests")@, Language::English, ("Suggest writing more unit tests")@))
        .push((("advice.average.logic")@, Language::Chinese, ("避免复杂的逻辑判断")@))
        .push((("advice.average.logic")@, Language::English, ("Avoid complex logic judgments")@))
        .push((("advice.average.review")@, Language::Chinese, ("代码审查要仔细")@))
        .push((("advice.average.review")@, Language::English, ("Code review should be thorough")@))
        .push((("advice.careful.mistakes")@, Language::Chinese, ("今日容易出错，需要格外小心")@))
        .push((("advice.careful.mistakes")@, Language::English, ("Easy to make mistakes today, need extra care")@))
        .push((("advice.careful.simple")@, Language::Chinese, ("建议专注于简单任务")@))
        .push((("advice.careful.simple")@, Language::English, ("Suggest focusing on simple tasks")@))
        .push((("advice.careful.documentation")@, Language::Chinese, ("多查阅文档和参考资料")@))
        .push((("advice.careful.documentation")@, Language::English, ("Consult documentation and references more")@))
        .push((("advice.careful.rush")@, Language::Chinese, ("避免急于求成")@))
        .push((("advice.careful.rush")@, Language::English, ("Avoid rushing things")@))
        .push((("advice.poor.challenges")@, Language::Chinese, ("技术挑战很大，建议谨慎行事")@))
        .push((("advice.poor.challenges")@, Language::English, ("Major technical challenges, suggest proceeding with caution")@))
        .push((("advice.poor.complex")@, Language::Chinese, ("避免处理复杂的技术问题")@))
        .push((("advice.poor.complex")@, Language::English, ("Avoid handling complex technical issues")@))
        .push((("advice.poor.help")@, Language::Chinese, ("多向同事请教")@))
        .push((("advice.poor.help")@, Language::English, ("Ask colleagues for help more")@))
        .push((("advice.poor.patience")@, Language::Chinese, ("保持耐心，不要急躁")@))
        .push((("advice.poor.patience")@, Language::English, ("Keep patience, don't be impatient")@))
        .push((("advice.terrible.fortune")@, Language::Chinese, ("今日技术运势很差，建议")@))
        .push((("advice.terrible.fortune")@, Language::English, ("Poor technical fortune today, suggest")@))
        .push((("advice.terrible.learning")@, Language::Chinese, ("专注于学习和文档阅读")@))
        .push((("advice.terrible.learning")@, Language::English, ("Focus on learning and documentation reading")@))
        .push((("advice.terrible.avoid")@, Language::Chinese, ("避免重要的代码修改")@))
        .push((("advice.terrible.avoid")@, Language::English, ("Avoid important code modifications")@))
        .push((("advice.terrible.attitude")@, Language::Chinese, ("保持积极心态，明天会更好")@))
        .push((("advice.terrible.attitude")@, Language::English, ("Keep positive attitude, tomorrow will be better")@))
}

pub(crate) fn add_advice_more_strings(store: &mut I18n)
    ensures
        final(store).table() == with_advice_more_strings(old(store).table()),
{
    store.add_translation("advice.great.development", Language::Chinese, "适合处理重要的功能开发");
    store.add_translation("advice.great.development", Language::English, "Suitable for important feature development");
    store.add_translation("advice.great.quality", Language::Chinese, "代码质量会很好");
    store.add_translation("advice.great.quality", Language::English, "Code quality will be excellent");
    store.add_translation("advice.great.standards", Language::Chinese, "注意保持代码规范");
    store.add_translation("advice.great.standards", Language::English, "Pay attention to code standards");
    store.add_translation("advice.good.condition", Language::Chinese, "整体工作状态不错");
    store.add_translation("advice.good.condition", Language::English, "Overall work condition is good");
    store.add_translation("advice.good.check", Language::Chinese, "写代码时要仔细检查");
    store.add_translation("advice.good.check", Language::English, "Check code carefully when writing");
    store.add_translation("advice.good.documentation", Language::Chinese, "建议多写注释和文档");
    store.add_translation("advice.good.documentation", Language::English, "Suggest writing more comments and documentation");
    store.add_translation("advice.good.optimization", Language::Chinese, "避免过度优化");
    store.add_translation("advice.good.optimization", Language::English, "Avoid over-optimization");
    store.add_translation("advice.average.careful", Language::Chinese, "编程时要多加小心");
    store.add_translation("advice.average.careful", Language::English, "Be extra careful when programming");
    store.add_translation("advice.average.tests", Language::Chinese, "建议多写单元测试");
    store.add_translation("advice.average.tests", Language::English, "Suggest writing more unit tests");
    store.add_translation("advice.average.logic", Language::Chinese, "避免复杂的逻辑判断");
    store.add_translation("advice.average.logic", Language::English, "Avoid complex logic judgments");
    store.add_translation("advice.average.review", Language::Chinese, "代码审查要仔细");
    store.add_translation("advice.average.review", Language::English, "Code review should be thorough");
    store.add_translation("advice.careful.mistakes", Language::Chinese, "今日容易出错，需要格外小心");
    store.add_translation("advice.careful.mistakes", Language::English, "Easy to make mistakes today, need extra care");
    store.add_translation("advice.careful.simple", Language::Chinese, "建议专注于简单任务");
    store.add_translation("advice.careful.simple", Language::English, "Suggest focusing on simple tasks");
    store.add_translation("advice.careful.documentation", Language::Chinese, "多查阅文档和参考资料");
    store.add_translation("advice.careful.documentation", Language::English, "Consult documentation and references more");
    store.add_translation("advice.careful.rush", Language::Chinese, "避免急于求成");
    store.add_translation("advice.careful.rush", Language::English, "Avoid rushing things");
    store.add_translation("advice.poor.challenges", Language::Chinese, "技术挑战很大，建议谨慎行事");
    store.add_translation("advice.poor.challenges", Language::English, "Major technical challenges, suggest proceeding with caution");
    store.add_translation("advice.poor.complex", Language::Chinese, "避免处理复杂的技术问题");
    store.add_translation("advice.poor.complex", Language::English, "Avoid handling complex technical issues");
    store.add_translation("advice.poor.help", Language::Chinese, "多向同事请教");
    store.add_translation("advice.poor.help", Language::English, "Ask colleagues for help more");
    store.add_translation("advice.poor.patience", Language::Chinese, "保持耐心，不要急躁");
    store.add_translation("advice.poor.patience", Language::English, "Keep patience, don't be impatient");
    store.add_translation("advice.terrible.fortune", Language::Chinese, "今日技术运势很差，建议");
    store.add_translation("advice.terrible.fortune", Language::English, "Poor technical fortune today, suggest");
    store.add_translation("advice.terrible.learning", Language::Chinese, "专注于学习和文档阅读");
    store.add_translation("advice.terrible.learning", Language::English, "Focus on learning and documentation reading");
    store.add_translation("advice.terrible.avoid", Language::Chinese, "避免重要的代码修改");
    store.add_translation("advice.terrible.avoid", Language::English, "Avoid important code modifications");
    store.add_translation("advice.terrible.attitude", Language::Chinese, "保持积极心态，明天会更好");
    store.add_translation("advice.terrible.attitude", Language::English, "Keep positive attitude, tomorrow will be better");
}

/// The entries of the `cli.*` group, appended to `t`.
pub closed spec fn with_cli_strings(
    t: Seq<(Seq<char>, Language, Seq<char>)>,
) -> Seq<(Seq<char>, Language, Seq<char>)> {
    t
        .push((("cli.about")@, Language::Chinese, ("显示今日技术工作运势 / Show today's tech work fortune")@))
        .push((("cli.about")@, Language::English, ("Show today's tech work fortune")@))
        .push((("cli.verbose_help")@, Language::Chinese, ("显示详细帮助信息 / Show verbose help information")@))
        .push((("cli.verbose_help")@, Language::English, ("Show verbose help information")@))
        .push((("cli.date_help")@, Language::Chinese, ("指定日期 (格式: YYYY-MM-DD) / Specify date (format: YYYY-MM-DD)")@))
        .push((("cli.date_help")@, Language::English, ("Specify date (format: YYYY-MM-DD)")@))
        .push((("cli.language_help")@, Language::Chinese, ("语言选择 / Language selection (zh/en)")@))
        .push((("cli.language_help")@, Language::English, ("Language selection (zh/en)")@))
        .push((("cli.set_language_help")@, Language::Chinese, ("设置语言 / Set language")@))
        .push((("cli.set_language_help")@, Language::English, ("Set language")@))
}

pub(crate) fn add_cli_strings(store: &mut I18n)
    ensures
        final(store).table() == with_cli_strings(old(store).table()),
{
    store.add_translation("cli.about", Language::Chinese, "显示今日技术工作运势 / Show today's tech work fortune");
    store.add_translation("cli.about", Language::English, "Show today's tech work fortune");
    store.add_translation("cli.verbose_help", Language::Chinese, "显示详细帮助信息 / Show verbose help information");
    store.add_translation("cli.verbose_help", Language::English, "Show verbose help information");
    store.add_translation("cli.date_help", Language::Chinese, "指定日期 (格式: YYYY-MM-DD) / Specify date (format: YYYY-MM-DD)");
    store.add_translation("cli.date_help", Language::English, "Specify date (format: YYYY-MM-DD)");
    store.add_translation("cli.language_help", Language::Chinese, "语言选择 / Language selection (zh/en)");
    store.add_translation("cli.language_help", Language::English, "Language selection (zh/en)");
    store.add_translation("cli.set_language_help", Language::Chinese, "设置语言 / Set language");
    store.add_translation("cli.set_language_help", Language::English, "Set language");
}

/// The entries of the `comment.*` group, appended to `t`.
pub closed spec fn with_comment_strings(
    t: Seq<(Seq<char>, Language, Seq<char>)>,
) -> Seq<(Seq<char>, Language, Seq<char>)> {
    t
        .push((("comment.handle_language_setting")@, Language::Chinese, ("处理语言设置")@))
        .push((("comment.handle_language_setting")@, Language::English, ("Handle language setting")@))
        .push((("comment.determine_language")@, Language::Chinese, ("确定使用的语言")@))
        .push((("comment.determine_language")@, Language::English, ("Determine language to use")@))
        .push((("comment.generate_daily_fortune")@, Language::Chinese, ("生成今日运势")@))
        .push((("comment.generate_daily_fortune")@, Language::English, ("Generate daily fortune")@))
        .push((("comment.display_fortune")@, Language::Chinese, ("显示运势")@))
        .push((("comment.display_fortune")@, Language::English, ("Display fortune")@))
}

pub(crate) fn add_comment_strings(store: &mut I18n)
    ensures
        final(store).table() == with_comment_strings(old(store).table()),
{
    store.add_translation("comment.handle_language_setting", Language::Chinese, "处理语言设置");
    store.add_translation("comment.handle_language_setting", Language::English, "Handle language setting");
    store.add_translation("comment.determine_language", Language::Chinese, "确定使用的语言");
    store.add_translation("comment.determine_language", Language::English, "Determine language to use");
    store.add_translation("comment.generate_daily_fortune", Language::Chinese, "生成今日运势");
    store.add_translation("comment.generate_daily_fortune", Language::English, "Generate daily fortune");
    store.add_translation("comment.display_fortune", Language::Chinese, "显示运势");
    store.add_translation("comment.display_fortune", Language::English, "Display fortune");
}

/// The entries of the `color.*` group, appended to `t`.
pub closed spec fn with_color_strings(
    t: Seq<(Seq<char>, Language, Seq<char>)>,
) -> Seq<(Seq<char>, Language, Seq<char>)> {
    t
        .push((("color.blue")@, Language::Chinese, ("蓝色")@))
        .push((("color.blue")@, Language::English, ("Blue")@))
        .push((("color.green")@, Language::Chinese, ("绿色")@))
        .push((("color.green")@, Language::English, ("Green")@))
        .push((("color.purple")@, Language::Chinese, ("紫色")@))
        .push((("color.purple")@, Language::English, ("Purple")@))
        .push((("color.orange")@, Language::Chinese, ("橙色")@))
        .push((("color.orange")@, Language::English, ("Orange")@))
        .push((("color.red")@, Language::Chinese, ("红色")@))
        .push((("color.red")@, Language::English, ("Red")@))
        .push((("color.yellow")@, Language::Chinese, ("黄色")@))
        .push((("color.yellow")@, Language::English, ("Yellow")@))
        .push((("color.cyan")@, Language::Chinese, ("青色")@))
        .push((("color.cyan")@, Language::English, ("Cyan")@))
        .push((("color.pink")@, Language::Chinese, ("粉色")@))
        .push((("color.pink")@, Language::English, ("Pink")@))
}

pub(crate) fn add_color_strings(store: &mut I18n)
    ensures
        final(store).table() == with_color_strings(old(store).table()),
{
    store.add_translation("color.blue", Language::Chinese, "蓝色");
    store.add_translation("color.blue", Language::English, "Blue");
    store.add_translation("color.green", Language::Chinese, "绿色");
    store.add_translation("color.green", Language::English, "Green");
    store.add_translation("color.purple", Language::Chinese, "紫色");
    store.add_translation("color.purple", Language::English, "Purple");
    store.add_translation("color.orange", Language::Chinese, "橙色");
    store.add_translation("color.orange", Language::English, "Orange");
    store.add_translation("color.red", Language::Chinese, "红色");
    store.add_translation("color.red", Language::English, "Red");
    store.add_translation("color.yellow", Language::Chinese, "黄色");
    store.add_translation("color.yellow", Language::English, "Yellow");
    store.add_translation("color.cyan", Language::Chinese, "青色");
    store.add_translation("color.cyan", Language::English, "Cyan");
    store.add_translation("color.pink", Language::Chinese, "粉色");
    store.add_translation("color.pink", Language::English, "Pink");
}

/// The entries of the `time.*` group, appended to `t`.
pub closed spec fn with_time_strings(
    t: Seq<(Seq<char>, Language, Seq<char>)>,
) -> Seq<(Seq<char>, Language, Seq<char>)> {
    t
        .push((("time.morning_9_11")@, Language::Chinese, ("上午9-11点")@))
        .push((("time.morning_9_11")@, Language::English, ("9-11 AM")@))
        .push((("time.afternoon_2_4")@, Language::Chinese, ("下午2-4点")@))
        .push((("time.afternoon_2_4")@, Language::English, ("2-4 PM")@))
        .push((("time.evening_7_9")@, Language::Chinese, ("晚上7-9点")@))
        .push((("time.evening_7_9")@, Language::English, ("7-9 PM")@))
        .push((("time.night_1_3")@, Language::Chinese, ("凌晨1-3点")@))
        .push((("time.night_1_3")@, Language::English, ("1-3 AM")@))
        .push((("time.noon_12_1")@, Language::Chinese, ("中午12-1点")@))
        .push((("time.noon_12_1")@, Language::English, ("12-1 PM")@))
        .push((("time.afternoon_5_6")@, Language::Chinese, ("下午5-6点")@))
        .push((("time.afternoon_5_6")@, Language::English, ("5-6 PM")@))
        .push((("time.evening_10_11")@, Language::Chinese, ("晚上10-11点")@))
        .push((("time.evening_10_11")@, Language::English, ("10-11 PM")@))
}

pub(crate) fn add_time_strings(store: &mut I18n)
    ensures
        final(store).table() == with_time_strings(old(store).table()),
{
    store.add_translation("time.morning_9_11", Language::Chinese, "上午9-11点");
    store.add_translation("time.morning_9_11", Language::English, "9-11 AM");
    store.add_translation("time.afternoon_2_4", Language::Chinese, "下午2-4点");
    store.add_translation("time.afternoon_2_4", Language::English, "2-4 PM");
    store.add_translation("time.evening_7_9", Language::Chinese, "晚上7-9点");
    store.add_translation("time.evening_7_9", Language::English, "7-9 PM");
    store.add_translation("time.night_1_3", Language::Chinese, "凌晨1-3点");
    store.add_translation("time.night_1_3", Language::English, "1-3 AM");
    store.add_translation("time.noon_12_1", Language::Chinese, "中午12-1点");
    store.add_translation("time.noon_12_1", Language::English, "12-1 PM");
    store.add_translation("time.afternoon_5_6", Language::Chinese, "下午5-6点");
    store.add_translation("time.afternoon_5_6", Language::English, "5-6 PM");
    store.add_translation("time.evening_10_11", Language::Chinese, "晚上10-11点");
    store.add_translation("time.evening_10_11", Language::English, "10-11 PM");
}

/// The entries of the `lang.*` group, appended to `t`.
pub closed spec fn with_lang_strings(
    t: Seq<(Seq<char>, Language, Seq<char>)>,
) -> Seq<(Seq<char>, Language, Seq<char>)> {
    t
        .push((("lang.chinese")@, Language::Chinese, ("中文")@))
        .push((("lang.chinese")@, Language::English, ("Chinese")@))
        .push((("lang.english")@, Language::Chinese, ("英文")@))
        .push((("lang.english")@, Language::English, ("English")@))
}

pub(crate) fn add_lang_strings(store: &mut I18n)
    ensures
        final(store).table() == with_lang_strings(old(store).table()),
{
    store.add_translation("lang.chinese", Language::Chinese, "中文");
    store.add_translation("lang.chinese", Language::English, "Chinese");
    store.add_translation("lang.english", Language::Chinese, "英文");
    store.add_translation("lang.english", Language::English, "English");
}

/// The whole built-in table, appended to `t`: every group in load order.
pub closed spec fn with_all_strings(
    t: Seq<(Seq<char>, Language, Seq<char>)>,
) -> Seq<(Seq<char>, Language, Seq<char>)> {
    let t = with_app_strings(t);
    let t = with_scenario_strings(t);
    let t = with_pressure_strings(t);
    let t = with_fortune_strings(t);
    let t = with_fortune_more_strings(t);
    let t = with_language_strings(t);
    let t = with_advice_strings(t);
    let t = with_advice_more_strings(t);
    let t = with_cli_strings(t);
    let t = with_comment_strings(t);
    let t = with_color_strings(t);
    let t = with_time_strings(t);
    with_lang_strings(t)
}

pub(crate) fn add_all_strings(store: &mut I18n)
    ensures
        final(store).table() == with_all_strings(old(store).table()),
{
    add_app_strings(store);
    add_scenario_strings(store);
    add_pressure_strings(store);
    add_fortune_strings(store);
    add_fortune_more_strings(store);
    add_language_strings(store);
    add_advice_strings(store);
    add_advice_more_strings(store);
    add_cli_strings(store);
    add_comment_strings(store);
    add_color_strings(store);
    add_time_strings(store);
    add_lang_strings(store);
}

} // verus!
