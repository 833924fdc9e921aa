//! Weather-condition taxonomy and the provider code table.
//!
//! A `Condition` is constructed only by looking a provider-specific
//! numeric code up in a fixed table; codes outside the table yield no
//! mapping rather than a default. The table is many-to-one: distinct
//! provider codes may share a `Condition`, and every documented code is
//! kept, since the table is a compatibility contract with the provider's
//! vocabulary.

use crate::digits::{parse_u16, parse_u16_spec};
use vstd::prelude::*;

verus! {

#[derive(Debug, Clone, Copy, PartialEq, Eq, Structural)]
pub enum Condition {
    /// Little or no clouds; also called Sunny
    Clear,
    PartlyCloudy,
    Cloudy,
    /// Very cloudy
    Overcast,
    Fog,
    LightShowers,
    HeavyShowers,
    ThunderyShowers,
    LightRain,
    HeavyRain,
    ThunderyHeavyRain,
    LightSleet,
    LightSleetShowers,
    LightSnowShowers,
    HeavySnowShowers,
    ThunderySnowShowers,
    LightSnow,
    HeavySnow,
}

/// The World Weather Online code table: which `Condition`, if any, a
/// provider code denotes.
pub open spec fn wwo_condition(code: u16) -> Option<Condition> {
    if code == 113 {
        Some(Condition::Clear)
    } else if code == 116 {
        Some(Condition::PartlyCloudy)
    } else if code == 119 {
        Some(Condition::Cloudy)
    } else if code == 122 {
        Some(Condition::Overcast)
    } else if code == 143 || code == 248 || code == 260 {
        Some(Condition::Fog)
    } else if code == 176 || code == 263 || code == 353 {
        Some(Condition::LightShowers)
    } else if code == 179 || code == 362 || code == 365 || code == 374 {
        Some(Condition::LightSleetShowers)
    } else if code == 182 || code == 185 || code == 281 || code == 284 || code == 311 || code == 314
        || code == 317 || code == 350 || code == 377 {
        Some(Condition::LightSleet)
    } else if code == 200 || code == 386 {
        Some(Condition::ThunderyShowers)
    } else if code == 227 || code == 320 {
        Some(Condition::LightSnow)
    } else if code == 230 || code == 338 {
        Some(Condition::HeavySnow)
    } else if code == 266 || code == 293 || code == 296 {
        Some(Condition::LightRain)
    } else if code == 299 || code == 305 || code == 356 {
        Some(Condition::HeavyShowers)
    } else if code == 302 || code == 308 || code == 359 {
        Some(Condition::HeavyRain)
    } else if code == 323 || code == 326 || code == 368 {
        Some(Condition::LightSnowShowers)
    } else if code == 329 || code == 332 {
        Some(Condition::HeavySnow)
    } else if code == 335 || code == 371 || code == 395 {
        Some(Condition::HeavySnowShowers)
    } else if code == 389 {
        Some(Condition::ThunderyHeavyRain)
    } else if code == 392 {
        Some(Condition::ThunderySnowShowers)
    } else {
        None
    }
}

/// The code table applied to a code delivered as decimal text: malformed
/// text, like an unmapped code, yields no match.
pub open spec fn wwo_condition_of_text(s: Seq<char>) -> Option<Condition> {
    match parse_u16_spec(s) {
        Some(code) => wwo_condition(code),
        None => None,
    }
}

impl Condition {
    /// World Weather Online code
    ///
    /// See: https://www.worldweatheronline.com/developer/api/docs/weather-icons.aspx
    pub fn from_wwo(code: u16) -> (r: Option<Condition>)
        ensures
            r == wwo_condition(code),
    {
        if code == 113 {
            Some(Condition::Clear)
        } else if code == 116 {
            Some(Condition::PartlyCloudy)
        } else if code == 119 {
            Some(Condition::Cloudy)
        } else if code == 122 {
            Some(Condition::Overcast)
        } else if code == 143 || code == 248 || code == 260 {
            Some(Condition::Fog)
        } else if code == 176 || code == 263 || code == 353 {
            Some(Condition::LightShowers)
        } else if code == 179 || code == 362 || code == 365 || code == 374 {
            Some(Condition::LightSleetShowers)
        } else if code == 182 || code == 185 || code == 281 || code == 284 || code == 311
            || code == 314 || code == 317 || code == 350 || code == 377 {
            Some(Condition::LightSleet)
        } else if code == 200 || code == 386 {
            Some(Condition::ThunderyShowers)
        } else if code == 227 || code == 320 {
            Some(Condition::LightSnow)
        } else if code == 230 || code == 338 {
            Some(Condition::HeavySnow)
        } else if code == 266 || code == 293 || code == 296 {
            Some(Condition::LightRain)
        } else if code == 299 || code == 305 || code == 356 {
            Some(Condition::HeavyShowers)
        } else if code == 302 || code == 308 || code == 359 {
            Some(Condition::HeavyRain)
        } else if code == 323 || code == 326 || code == 368 {
            Some(Condition::LightSnowShowers)
        } else if code == 329 || code == 332 {
            Some(Condition::HeavySnow)
        } else if code == 335 || code == 371 || code == 395 {
            Some(Condition::HeavySnowShowers)
        } else if code == 389 {
            Some(Condition::ThunderyHeavyRain)
        } else if code == 392 {
            Some(Condition::ThunderySnowShowers)
        } else {
            None
        }
    }

    /// The code table applied to a code delivered as decimal text, as the
    /// provider's JSON carries it.
    pub fn wwo_from_str(s: &str) -> (r: Option<Condition>)
        ensures
            r == wwo_condition_of_text(s@),
    {
        match parse_u16(s) {
            Some(code) => Self::from_wwo(code),
            None => None,
        }
    }
}

} // verus!
