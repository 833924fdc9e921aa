//! Weather data model: a weather-condition taxonomy mapped from a
//! provider's numeric codes, a lunar-phase enumeration with display
//! glyphs, and the decimal-text parsing the code lookup needs.

pub mod condition;
pub mod digits;
pub mod moon;

pub use condition::Condition;
pub use moon::MoonPhase;
