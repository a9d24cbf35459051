//! The performer's visual choices: style, intensity, flash and palette, with
//! the names they carry in saved settings.
use vstd::prelude::*;

use crate::text::owned;

verus! {

/// The visual style; `Auto` lets the director choose scenes.
#[derive(Clone, Copy, Debug, PartialEq, Eq, Structural)]
pub enum VisualStyle {
    Auto,
    Fluid,
    Waves,
    Pulse,
    Tunnel,
    Burst,
}

/// How hard the visuals react.
#[derive(Clone, Copy, Debug, PartialEq, Eq, Structural)]
pub enum IntensityProfile {
    Chill,
    Balanced,
    Wild,
}

/// Whether full-screen flashes are allowed, and how strong.
#[derive(Clone, Copy, Debug, PartialEq, Eq, Structural)]
pub enum FlashProfile {
    Off,
    Moderate,
    High,
}

/// The colour palette; `Auto` follows the music.
#[derive(Clone, Copy, Debug, PartialEq, Eq, Structural)]
pub enum PaletteName {
    Auto,
    Electric,
    Neon,
    Sunset,
    Ocean,
    Infrared,
    PurpleBlue,
    Warm,
    Monochrome,
    RainbowFlow,
}

impl Default for VisualStyle {
    fn default() -> (r: Self)
        ensures
            r == VisualStyle::Auto,
    {
        VisualStyle::Auto
    }
}

impl Default for IntensityProfile {
    fn default() -> (r: Self)
        ensures
            r == IntensityProfile::Balanced,
    {
        IntensityProfile::Balanced
    }
}

impl Default for FlashProfile {
    fn default() -> (r: Self)
        ensures
            r == FlashProfile::Off,
    {
        FlashProfile::Off
    }
}

impl Default for PaletteName {
    fn default() -> (r: Self)
        ensures
            r == PaletteName::Auto,
    {
        PaletteName::Auto
    }
}

pub open spec fn spec_style_wire(style: VisualStyle) -> Seq<char> {
    match style {
        VisualStyle::Auto => "auto"@,
        VisualStyle::Fluid => "fluid"@,
        VisualStyle::Waves => "waves"@,
        VisualStyle::Pulse => "pulse"@,
        VisualStyle::Tunnel => "tunnel"@,
        VisualStyle::Burst => "burst"@,
    }
}

pub open spec fn spec_intensity_wire(intensity: IntensityProfile) -> Seq<char> {
    match intensity {
        IntensityProfile::Chill => "chill"@,
        IntensityProfile::Balanced => "balanced"@,
        IntensityProfile::Wild => "wild"@,
    }
}

pub open spec fn spec_flash_wire(flash: FlashProfile) -> Seq<char> {
    match flash {
        FlashProfile::Off => "off"@,
        FlashProfile::Moderate => "moderate"@,
        FlashProfile::High => "high"@,
    }
}

pub open spec fn spec_palette_wire(palette: PaletteName) -> Seq<char> {
    match palette {
        PaletteName::Auto => "auto"@,
        PaletteName::Electric => "electric"@,
        PaletteName::Neon => "neon"@,
        PaletteName::Sunset => "sunset"@,
        PaletteName::Ocean => "ocean"@,
        PaletteName::Infrared => "infrared"@,
        PaletteName::PurpleBlue => "purpleBlue"@,
        PaletteName::Warm => "warm"@,
        PaletteName::Monochrome => "monochrome"@,
        PaletteName::RainbowFlow => "rainbowFlow"@,
    }
}

impl VisualStyle {
    /// The camel-case name used in saved settings.
    pub fn wire_name(self) -> (r: &'static str)
        ensures
            r@ == spec_style_wire(self),
    {
        match self {
            VisualStyle::Auto => "auto",
            VisualStyle::Fluid => "fluid",
            VisualStyle::Waves => "waves",
            VisualStyle::Pulse => "pulse",
            VisualStyle::Tunnel => "tunnel",
            VisualStyle::Burst => "burst",
        }
    }
}

impl IntensityProfile {
    /// The camel-case name used in saved settings.
    pub fn wire_name(self) -> (r: &'static str)
        ensures
            r@ == spec_intensity_wire(self),
    {
        match self {
            IntensityProfile::Chill => "chill",
            IntensityProfile::Balanced => "balanced",
            IntensityProfile::Wild => "wild",
        }
    }
}

impl FlashProfile {
    /// The camel-case name used in saved settings.
    pub fn wire_name(self) -> (r: &'static str)
        ensures
            r@ == spec_flash_wire(self),
    {
        match self {
            FlashProfile::Off => "off",
            FlashProfile::Moderate => "moderate",
            FlashProfile::High => "high",
        }
    }
}

impl PaletteName {
    /// The camel-case name used in saved settings.
    pub fn wire_name(self) -> (r: &'static str)
        ensures
            r@ == spec_palette_wire(self),
    {
        match self {
            PaletteName::Auto => "auto",
            PaletteName::Electric => "electric",
            PaletteName::Neon => "neon",
            PaletteName::Sunset => "sunset",
            PaletteName::Ocean => "ocean",
            PaletteName::Infrared => "infrared",
            PaletteName::PurpleBlue => "purpleBlue",
            PaletteName::Warm => "warm",
            PaletteName::Monochrome => "monochrome",
            PaletteName::RainbowFlow => "rainbowFlow",
        }
    }
}

/// The shortest PCM buffer a setting may ask for, in seconds.
pub const MIN_BUFFER_SECONDS: u8 = 5;

/// The longest PCM buffer a setting may ask for, in seconds.
pub const MAX_BUFFER_SECONDS: u8 = 30;

/// A saved buffer length brought into 5 to 30 seconds.
pub fn sanitized_buffer_seconds(seconds: u8) -> (r: u8)
    ensures
        r == (if seconds < MIN_BUFFER_SECONDS {
            MIN_BUFFER_SECONDS
        } else if seconds > MAX_BUFFER_SECONDS {
            MAX_BUFFER_SECONDS
        } else {
            seconds
        }),
{
    if seconds < MIN_BUFFER_SECONDS {
        MIN_BUFFER_SECONDS
    } else if seconds > MAX_BUFFER_SECONDS {
        MAX_BUFFER_SECONDS
    } else {
        seconds
    }
}

/// A saved audio source: an empty one falls back to the Rekordbox process
/// route.
pub fn sanitized_source_id(source_id: String) -> (r: String)
    ensures
        source_id@.len() == 0 ==> r@ == "process:auto"@,
        source_id@.len() > 0 ==> r == source_id,
{
    if source_id.as_str().is_empty() {
        owned("process:auto")
    } else {
        source_id
    }
}

} // verus!
