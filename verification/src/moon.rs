//! Lunar-phase enumeration with a fixed display glyph per phase.

use vstd::prelude::*;

verus! {

#[derive(Debug, Clone, Copy, PartialEq, Eq, Structural)]
pub enum MoonPhase {
    New,
    WaxingCrescent,
    FirstQuarter,
    WaxingGibbous,
    Full,
    WaningGibbous,
    ThirdQuarter,
    WaningCrescent,
}

/// The symbolic glyph shown for each lunar phase.
pub open spec fn phase_glyph(p: MoonPhase) -> Seq<char> {
    match p {
        MoonPhase::New => "🌑"@,
        MoonPhase::WaxingCrescent => "🌒"@,
        MoonPhase::FirstQuarter => "🌓"@,
        MoonPhase::WaxingGibbous => "🌔"@,
        MoonPhase::Full => "🌕"@,
        MoonPhase::WaningGibbous => "🌖"@,
        MoonPhase::ThirdQuarter => "🌗"@,
        MoonPhase::WaningCrescent => "🌘"@,
    }
}

impl MoonPhase {
    /// The glyph this phase displays as.
    pub fn glyph(&self) -> (r: &'static str)
        ensures
            r@ == phase_glyph(*self),
    {
        match self {
            MoonPhase::New => "🌑",
            MoonPhase::WaxingCrescent => "🌒",
            MoonPhase::FirstQuarter => "🌓",
            MoonPhase::WaxingGibbous => "🌔",
            MoonPhase::Full => "🌕",
            MoonPhase::WaningGibbous => "🌖",
            MoonPhase::ThirdQuarter => "🌗",
            MoonPhase::WaningCrescent => "🌘",
        }
    }
}

} // verus!
