//! A small oracle for developers: a deterministic "daily fortune" derived from
//! the calendar date (optionally personalized by a birth date), plus a
//! "developer pressure" analyzer that reduces repository telemetry to a
//! categorical pressure level, and a little birth-date numerology on the side.
//!
//! Everything that computes lives here and is verified; reading the clock,
//! spawning external tools and painting the terminal are left to callers.

pub mod birth_date;
pub mod birth_fortune;
pub mod calendar;
pub mod daily_fortune;
pub mod dev_pressure;
pub mod hashing;
pub mod i18n;
pub mod lang;
pub mod rng;
pub mod strings;
pub mod translations;

pub use birth_date::BirthDate;
pub use birth_fortune::BirthFortune;
pub use birth_fortune::BirthFortuneController;
pub use birth_fortune::BirthFortuneModel;
pub use daily_fortune::derive_seed;
pub use daily_fortune::generate_fortune_with_seed;
pub use daily_fortune::Fortune;
pub use daily_fortune::FortuneTemplate;
pub use daily_fortune::TechDimensions;
pub use daily_fortune::WorkScenario;
pub use dev_pressure::DevPressure;
pub use dev_pressure::PressureLevel;
pub use i18n::i18n;
pub use i18n::I18n;
pub use lang::Language;
