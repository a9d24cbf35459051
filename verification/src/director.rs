//! Scene direction: the scene library, which scenes suit which phrase,
//! compatible modifiers, palettes, deterministic seeds, the bounded history
//! of recent scenes, and the director's choice of the next scene.
use vstd::prelude::*;

use std::collections::VecDeque;

use vstd::string::StringSliceAdditionalSpecFns;

use crate::phrase::{MusicState, PhraseKind};
use crate::visual_settings::{IntensityProfile, PaletteName, VisualStyle};

verus! {

/// A scene of the library, numbered as the shaders number them.
#[derive(Clone, Copy, Debug, PartialEq, Eq, Hash, Structural)]
pub enum VisualFamily {
    WarpSpiral,
    MoireRings,
    InfiniteChecker,
    NeonLattice,
    TwistedStripes,
    RotatingSnakes,
    HyperbolicTunnel,
    ChromaticMaze,
    VortexChevron,
    GlassOrbit,
    SineInterference,
    ImpossibleCubes,
    PolarFan,
    GravityLens,
    RibbonWormhole,
    QuantumWeave,
    FractalCompass,
    LiquidCircuit,
    AlienHeads,
    PrismVortex,
    DiamondDrift,
    OrbitalMesh,
    HelixPortal,
    RadialEscalator,
    ElectricTopography,
    EventHorizon,
    MagneticSwarm,
    LiquidRelic,
    ImpossibleArchitecture,
    AuroraVeil,
    KineticSculpture,
    TopographicOcean,
    Tron,
    TronGridHighway,
    TronLightTrails,
    TronLaserGates,
    TronHexCorridor,
    TronIdentityDiscs,
    TronCircuitBoard,
    TronNeonArena,
    TronSolarSails,
    TronDigitalCity,
    TronHelixDrive,
    TronDataRain,
    TronReactorIris,
}

impl Default for VisualFamily {
    fn default() -> (r: Self)
        ensures
            r == VisualFamily::WarpSpiral,
    {
        VisualFamily::WarpSpiral
    }
}

/// The shader number of a scene.
pub open spec fn spec_family_number(family: VisualFamily) -> u32 {
    match family {
        VisualFamily::WarpSpiral => 0,
        VisualFamily::MoireRings => 1,
        VisualFamily::InfiniteChecker => 2,
        VisualFamily::NeonLattice => 3,
        VisualFamily::TwistedStripes => 4,
        VisualFamily::RotatingSnakes => 5,
        VisualFamily::HyperbolicTunnel => 6,
        VisualFamily::ChromaticMaze => 7,
        VisualFamily::VortexChevron => 8,
        VisualFamily::GlassOrbit => 9,
        VisualFamily::SineInterference => 10,
        VisualFamily::ImpossibleCubes => 11,
        VisualFamily::PolarFan => 12,
        VisualFamily::GravityLens => 13,
        VisualFamily::RibbonWormhole => 14,
        VisualFamily::QuantumWeave => 15,
        VisualFamily::FractalCompass => 16,
        VisualFamily::LiquidCircuit => 17,
        VisualFamily::AlienHeads => 18,
        VisualFamily::PrismVortex => 19,
        VisualFamily::DiamondDrift => 20,
        VisualFamily::OrbitalMesh => 21,
        VisualFamily::HelixPortal => 22,
        VisualFamily::RadialEscalator => 23,
        VisualFamily::ElectricTopography => 24,
        VisualFamily::EventHorizon => 25,
        VisualFamily::MagneticSwarm => 26,
        VisualFamily::LiquidRelic => 27,
        VisualFamily::ImpossibleArchitecture => 28,
        VisualFamily::AuroraVeil => 29,
        VisualFamily::KineticSculpture => 30,
        VisualFamily::TopographicOcean => 31,
        VisualFamily::Tron => 32,
        VisualFamily::TronGridHighway => 33,
        VisualFamily::TronLightTrails => 34,
        VisualFamily::TronLaserGates => 35,
        VisualFamily::TronHexCorridor => 36,
        VisualFamily::TronIdentityDiscs => 37,
        VisualFamily::TronCircuitBoard => 38,
        VisualFamily::TronNeonArena => 39,
        VisualFamily::TronSolarSails => 40,
        VisualFamily::TronDigitalCity => 41,
        VisualFamily::TronHelixDrive => 42,
        VisualFamily::TronDataRain => 43,
        VisualFamily::TronReactorIris => 44,
    }
}

/// The scene with shader number `n` (numbers past the library give the
/// last scene).
pub open spec fn spec_family_of(n: u32) -> VisualFamily {
    match n {
        0 => VisualFamily::WarpSpiral,
        1 => VisualFamily::MoireRings,
        2 => VisualFamily::InfiniteChecker,
        3 => VisualFamily::NeonLattice,
        4 => VisualFamily::TwistedStripes,
        5 => VisualFamily::RotatingSnakes,
        6 => VisualFamily::HyperbolicTunnel,
        7 => VisualFamily::ChromaticMaze,
        8 => VisualFamily::VortexChevron,
        9 => VisualFamily::GlassOrbit,
        10 => VisualFamily::SineInterference,
        11 => VisualFamily::ImpossibleCubes,
        12 => VisualFamily::PolarFan,
        13 => VisualFamily::GravityLens,
        14 => VisualFamily::RibbonWormhole,
        15 => VisualFamily::QuantumWeave,
        16 => VisualFamily::FractalCompass,
        17 => VisualFamily::LiquidCircuit,
        18 => VisualFamily::AlienHeads,
        19 => VisualFamily::PrismVortex,
        20 => VisualFamily::DiamondDrift,
        21 => VisualFamily::OrbitalMesh,
        22 => VisualFamily::HelixPortal,
        23 => VisualFamily::RadialEscalator,
        24 => VisualFamily::ElectricTopography,
        25 => VisualFamily::EventHorizon,
        26 => VisualFamily::MagneticSwarm,
        27 => VisualFamily::LiquidRelic,
        28 => VisualFamily::ImpossibleArchitecture,
        29 => VisualFamily::AuroraVeil,
        30 => VisualFamily::KineticSculpture,
        31 => VisualFamily::TopographicOcean,
        32 => VisualFamily::Tron,
        33 => VisualFamily::TronGridHighway,
        34 => VisualFamily::TronLightTrails,
        35 => VisualFamily::TronLaserGates,
        36 => VisualFamily::TronHexCorridor,
        37 => VisualFamily::TronIdentityDiscs,
        38 => VisualFamily::TronCircuitBoard,
        39 => VisualFamily::TronNeonArena,
        40 => VisualFamily::TronSolarSails,
        41 => VisualFamily::TronDigitalCity,
        42 => VisualFamily::TronHelixDrive,
        43 => VisualFamily::TronDataRain,
        44 => VisualFamily::TronReactorIris,
        _ => VisualFamily::TronReactorIris,
    }
}

/// The number of scenes, the spatial and themed ones included.
pub const FAMILY_COUNT: u32 = 45;

/// The number of scenes the automatic director chooses from.
pub const ILLUSION_COUNT: usize = 32;

/// Scene numbers and scenes correspond one to one.
pub proof fn lemma_family_numbers(family: VisualFamily, n: u32)
    ensures
        n < FAMILY_COUNT ==> spec_family_number(spec_family_of(n)) == n,
        spec_family_of(spec_family_number(family)) == family,
        spec_family_number(family) < FAMILY_COUNT,
{
}

impl VisualFamily {
    /// The shader number of this scene.
    pub fn number(self) -> (r: u32)
        ensures
            r == spec_family_number(self),
    {
        match self {
            VisualFamily::WarpSpiral => 0,
            VisualFamily::MoireRings => 1,
            VisualFamily::InfiniteChecker => 2,
            VisualFamily::NeonLattice => 3,
            VisualFamily::TwistedStripes => 4,
            VisualFamily::RotatingSnakes => 5,
            VisualFamily::HyperbolicTunnel => 6,
            VisualFamily::ChromaticMaze => 7,
            VisualFamily::VortexChevron => 8,
            VisualFamily::GlassOrbit => 9,
            VisualFamily::SineInterference => 10,
            VisualFamily::ImpossibleCubes => 11,
            VisualFamily::PolarFan => 12,
            VisualFamily::GravityLens => 13,
            VisualFamily::RibbonWormhole => 14,
            VisualFamily::QuantumWeave => 15,
            VisualFamily::FractalCompass => 16,
            VisualFamily::LiquidCircuit => 17,
            VisualFamily::AlienHeads => 18,
            VisualFamily::PrismVortex => 19,
            VisualFamily::DiamondDrift => 20,
            VisualFamily::OrbitalMesh => 21,
            VisualFamily::HelixPortal => 22,
            VisualFamily::RadialEscalator => 23,
            VisualFamily::ElectricTopography => 24,
            VisualFamily::EventHorizon => 25,
            VisualFamily::MagneticSwarm => 26,
            VisualFamily::LiquidRelic => 27,
            VisualFamily::ImpossibleArchitecture => 28,
            VisualFamily::AuroraVeil => 29,
            VisualFamily::KineticSculpture => 30,
            VisualFamily::TopographicOcean => 31,
            VisualFamily::Tron => 32,
            VisualFamily::TronGridHighway => 33,
            VisualFamily::TronLightTrails => 34,
            VisualFamily::TronLaserGates => 35,
            VisualFamily::TronHexCorridor => 36,
            VisualFamily::TronIdentityDiscs => 37,
            VisualFamily::TronCircuitBoard => 38,
            VisualFamily::TronNeonArena => 39,
            VisualFamily::TronSolarSails => 40,
            VisualFamily::TronDigitalCity => 41,
            VisualFamily::TronHelixDrive => 42,
            VisualFamily::TronDataRain => 43,
            VisualFamily::TronReactorIris => 44,
        }
    }

    /// The scene with shader number `n`, if there is one.
    pub fn from_number(n: u32) -> (r: Option<VisualFamily>)
        ensures
            n < FAMILY_COUNT ==> r == Some(spec_family_of(n)),
            n >= FAMILY_COUNT ==> r is None,
    {
        match n {
        0 => Some(VisualFamily::WarpSpiral),
        1 => Some(VisualFamily::MoireRings),
        2 => Some(VisualFamily::InfiniteChecker),
        3 => Some(VisualFamily::NeonLattice),
        4 => Some(VisualFamily::TwistedStripes),
        5 => Some(VisualFamily::RotatingSnakes),
        6 => Some(VisualFamily::HyperbolicTunnel),
        7 => Some(VisualFamily::ChromaticMaze),
        8 => Some(VisualFamily::VortexChevron),
        9 => Some(VisualFamily::GlassOrbit),
        10 => Some(VisualFamily::SineInterference),
        11 => Some(VisualFamily::ImpossibleCubes),
        12 => Some(VisualFamily::PolarFan),
        13 => Some(VisualFamily::GravityLens),
        14 => Some(VisualFamily::RibbonWormhole),
        15 => Some(VisualFamily::QuantumWeave),
        16 => Some(VisualFamily::FractalCompass),
        17 => Some(VisualFamily::LiquidCircuit),
        18 => Some(VisualFamily::AlienHeads),
        19 => Some(VisualFamily::PrismVortex),
        20 => Some(VisualFamily::DiamondDrift),
        21 => Some(VisualFamily::OrbitalMesh),
        22 => Some(VisualFamily::HelixPortal),
        23 => Some(VisualFamily::RadialEscalator),
        24 => Some(VisualFamily::ElectricTopography),
        25 => Some(VisualFamily::EventHorizon),
        26 => Some(VisualFamily::MagneticSwarm),
        27 => Some(VisualFamily::LiquidRelic),
        28 => Some(VisualFamily::ImpossibleArchitecture),
        29 => Some(VisualFamily::AuroraVeil),
        30 => Some(VisualFamily::KineticSculpture),
        31 => Some(VisualFamily::TopographicOcean),
        32 => Some(VisualFamily::Tron),
        33 => Some(VisualFamily::TronGridHighway),
        34 => Some(VisualFamily::TronLightTrails),
        35 => Some(VisualFamily::TronLaserGates),
        36 => Some(VisualFamily::TronHexCorridor),
        37 => Some(VisualFamily::TronIdentityDiscs),
        38 => Some(VisualFamily::TronCircuitBoard),
        39 => Some(VisualFamily::TronNeonArena),
        40 => Some(VisualFamily::TronSolarSails),
        41 => Some(VisualFamily::TronDigitalCity),
        42 => Some(VisualFamily::TronHelixDrive),
        43 => Some(VisualFamily::TronDataRain),
        44 => Some(VisualFamily::TronReactorIris),
            _ => None,
        }
    }

    /// Whether this is one of the spatial scenes (shader number 26 or more).
    pub fn is_spatial(self) -> (r: bool)
        ensures
            r == spec_is_spatial(self),
    {
        self.number() >= 26
    }

    /// The composition class of a scene, so that the director avoids
    /// another tunnel just after a tunnel even under another name.
    pub fn composition(self) -> (r: u8)
        ensures
            r == spec_composition(self),
    {
        match self {
            VisualFamily::TopographicOcean => 1,
            VisualFamily::LiquidRelic | VisualFamily::AuroraVeil | VisualFamily::SineInterference
            | VisualFamily::QuantumWeave | VisualFamily::ElectricTopography => 2,
            VisualFamily::ImpossibleArchitecture | VisualFamily::WarpSpiral
            | VisualFamily::HyperbolicTunnel | VisualFamily::RibbonWormhole
            | VisualFamily::HelixPortal | VisualFamily::RadialEscalator | VisualFamily::PrismVortex
            | VisualFamily::VortexChevron => 3,
            VisualFamily::KineticSculpture | VisualFamily::GlassOrbit | VisualFamily::GravityLens
            | VisualFamily::EventHorizon | VisualFamily::OrbitalMesh | VisualFamily::MoireRings => 4,
            _ => 5,
        }
    }
}

pub open spec fn spec_is_spatial(family: VisualFamily) -> bool {
    spec_family_number(family) >= 26
}

pub open spec fn spec_composition(family: VisualFamily) -> u8 {
    match family {
        VisualFamily::TopographicOcean => 1,
        VisualFamily::LiquidRelic | VisualFamily::AuroraVeil | VisualFamily::SineInterference
        | VisualFamily::QuantumWeave | VisualFamily::ElectricTopography => 2,
        VisualFamily::ImpossibleArchitecture | VisualFamily::WarpSpiral
        | VisualFamily::HyperbolicTunnel | VisualFamily::RibbonWormhole | VisualFamily::HelixPortal
        | VisualFamily::RadialEscalator | VisualFamily::PrismVortex | VisualFamily::VortexChevron => 3,
        VisualFamily::KineticSculpture | VisualFamily::GlassOrbit | VisualFamily::GravityLens
        | VisualFamily::EventHorizon | VisualFamily::OrbitalMesh | VisualFamily::MoireRings => 4,
        _ => 5,
    }
}

/// The automatic library: the scenes numbered 0 to 31, in order.
pub open spec fn spec_all_illusions() -> Seq<VisualFamily> {
    Seq::new(ILLUSION_COUNT as nat, |i: int| spec_family_of(i as u32))
}

/// The automatic library, scene numbers 0 to 31 in order.
pub fn all_illusions() -> (r: Vec<VisualFamily>)
    ensures
        r@ == spec_all_illusions(),
{
    let mut v: Vec<VisualFamily> = Vec::new();
    let mut n: u32 = 0;
    while n < 32
        invariant
            n <= 32,
            v@.len() == n,
            forall|i: int| 0 <= i < n ==> v@[i] == spec_family_of(i as u32),
        decreases 32 - n,
    {
        let family = VisualFamily::from_number(n);
        match family {
            Some(f) => v.push(f),
            None => {
                assert(false);
            },
        }
        n = n + 1;
    }
    assert(v@ =~= spec_all_illusions());
    v
}

/// The automatic library holds thirty-two distinct scenes, none of them a
/// themed Tron look.
pub proof fn law_library_has_thirty_two_distinct_scenes()
    ensures
        spec_all_illusions().len() == 32,
        forall|i: int, j: int|
            0 <= i < j < 32 ==> spec_all_illusions()[i] != spec_all_illusions()[j],
        forall|i: int| 0 <= i < 32 ==> spec_family_number(#[trigger] spec_all_illusions()[i]) < 32,
{
    assert forall|i: int, j: int| 0 <= i < j < 32 implies spec_all_illusions()[i]
        != spec_all_illusions()[j] by {
        lemma_family_numbers(VisualFamily::WarpSpiral, i as u32);
        lemma_family_numbers(VisualFamily::WarpSpiral, j as u32);
    }
    assert forall|i: int| 0 <= i < 32 implies spec_family_number(
        #[trigger] spec_all_illusions()[i],
    ) < 32 by {
        lemma_family_numbers(VisualFamily::WarpSpiral, i as u32);
    }
}

/// An effect layered over the base scene.
#[derive(Clone, Copy, Debug, PartialEq, Eq, Structural)]
pub enum ModifierKind {
    PaletteDrift,
    BeatZoom,
    BassWarp,
    HighSparkle,
    EchoTrails,
    MirrorFold,
    ChromaticSplit,
    ImpactBloom,
}

pub open spec fn spec_modifier_number(kind: ModifierKind) -> u32 {
    match kind {
        ModifierKind::PaletteDrift => 0,
        ModifierKind::BeatZoom => 1,
        ModifierKind::BassWarp => 2,
        ModifierKind::HighSparkle => 3,
        ModifierKind::EchoTrails => 4,
        ModifierKind::MirrorFold => 5,
        ModifierKind::ChromaticSplit => 6,
        ModifierKind::ImpactBloom => 7,
    }
}

impl ModifierKind {
    /// The shader number of this modifier.
    pub fn number(self) -> (r: u32)
        ensures
            r == spec_modifier_number(self),
    {
        match self {
            ModifierKind::PaletteDrift => 0,
            ModifierKind::BeatZoom => 1,
            ModifierKind::BassWarp => 2,
            ModifierKind::HighSparkle => 3,
            ModifierKind::EchoTrails => 4,
            ModifierKind::MirrorFold => 5,
            ModifierKind::ChromaticSplit => 6,
            ModifierKind::ImpactBloom => 7,
        }
    }
}

/// Why the current scene was chosen.
#[derive(Clone, Copy, Debug, PartialEq, Eq, Structural)]
pub enum SceneReason {
    Phrase,
    InferredState,
    ManualOverride,
    Fallback,
}

impl Default for SceneReason {
    fn default() -> (r: Self)
        ensures
            r == SceneReason::Fallback,
    {
        SceneReason::Fallback
    }
}

/// The scene the performer holds, or `Auto` to let the director choose.
#[derive(Clone, Copy, Debug, PartialEq, Eq, Structural)]
pub enum SceneSelection {
    Auto,
    Tron,
    TronGridHighway,
    TronLightTrails,
    TronLaserGates,
    TronHexCorridor,
    TronIdentityDiscs,
    TronCircuitBoard,
    TronNeonArena,
    TronSolarSails,
    TronDigitalCity,
    TronHelixDrive,
    TronDataRain,
    TronReactorIris,
    MagneticSwarm,
    LiquidRelic,
    ImpossibleArchitecture,
    AuroraVeil,
    KineticSculpture,
    TopographicOcean,
}

impl Default for SceneSelection {
    fn default() -> (r: Self)
        ensures
            r == SceneSelection::Auto,
    {
        SceneSelection::Auto
    }
}

pub open spec fn spec_selection_wire(selection: SceneSelection) -> Seq<char> {
    match selection {
        SceneSelection::Auto => "auto"@,
        SceneSelection::Tron => "tron"@,
        SceneSelection::TronGridHighway => "tronGridHighway"@,
        SceneSelection::TronLightTrails => "tronLightTrails"@,
        SceneSelection::TronLaserGates => "tronLaserGates"@,
        SceneSelection::TronHexCorridor => "tronHexCorridor"@,
        SceneSelection::TronIdentityDiscs => "tronIdentityDiscs"@,
        SceneSelection::TronCircuitBoard => "tronCircuitBoard"@,
        SceneSelection::TronNeonArena => "tronNeonArena"@,
        SceneSelection::TronSolarSails => "tronSolarSails"@,
        SceneSelection::TronDigitalCity => "tronDigitalCity"@,
        SceneSelection::TronHelixDrive => "tronHelixDrive"@,
        SceneSelection::TronDataRain => "tronDataRain"@,
        SceneSelection::TronReactorIris => "tronReactorIris"@,
        SceneSelection::MagneticSwarm => "magneticSwarm"@,
        SceneSelection::LiquidRelic => "liquidRelic"@,
        SceneSelection::ImpossibleArchitecture => "impossibleArchitecture"@,
        SceneSelection::AuroraVeil => "auroraVeil"@,
        SceneSelection::KineticSculpture => "kineticSculpture"@,
        SceneSelection::TopographicOcean => "topographicOcean"@,
    }
}

/// The scene a selection holds.
pub open spec fn spec_focus_for_selection(selection: SceneSelection) -> Option<VisualFamily> {
    match selection {
        SceneSelection::Auto => None,
        SceneSelection::Tron => Some(VisualFamily::Tron),
        SceneSelection::TronGridHighway => Some(VisualFamily::TronGridHighway),
        SceneSelection::TronLightTrails => Some(VisualFamily::TronLightTrails),
        SceneSelection::TronLaserGates => Some(VisualFamily::TronLaserGates),
        SceneSelection::TronHexCorridor => Some(VisualFamily::TronHexCorridor),
        SceneSelection::TronIdentityDiscs => Some(VisualFamily::TronIdentityDiscs),
        SceneSelection::TronCircuitBoard => Some(VisualFamily::TronCircuitBoard),
        SceneSelection::TronNeonArena => Some(VisualFamily::TronNeonArena),
        SceneSelection::TronSolarSails => Some(VisualFamily::TronSolarSails),
        SceneSelection::TronDigitalCity => Some(VisualFamily::TronDigitalCity),
        SceneSelection::TronHelixDrive => Some(VisualFamily::TronHelixDrive),
        SceneSelection::TronDataRain => Some(VisualFamily::TronDataRain),
        SceneSelection::TronReactorIris => Some(VisualFamily::TronReactorIris),
        SceneSelection::MagneticSwarm => Some(VisualFamily::MagneticSwarm),
        SceneSelection::LiquidRelic => Some(VisualFamily::LiquidRelic),
        SceneSelection::ImpossibleArchitecture => Some(VisualFamily::ImpossibleArchitecture),
        SceneSelection::AuroraVeil => Some(VisualFamily::AuroraVeil),
        SceneSelection::KineticSculpture => Some(VisualFamily::KineticSculpture),
        SceneSelection::TopographicOcean => Some(VisualFamily::TopographicOcean),
    }
}

impl SceneSelection {
    /// The camel-case name used in saved settings.
    pub fn wire_name(self) -> (r: &'static str)
        ensures
            r@ == spec_selection_wire(self),
    {
        match self {
            SceneSelection::Auto => "auto",
            SceneSelection::Tron => "tron",
            SceneSelection::TronGridHighway => "tronGridHighway",
            SceneSelection::TronLightTrails => "tronLightTrails",
            SceneSelection::TronLaserGates => "tronLaserGates",
            SceneSelection::TronHexCorridor => "tronHexCorridor",
            SceneSelection::TronIdentityDiscs => "tronIdentityDiscs",
            SceneSelection::TronCircuitBoard => "tronCircuitBoard",
            SceneSelection::TronNeonArena => "tronNeonArena",
            SceneSelection::TronSolarSails => "tronSolarSails",
            SceneSelection::TronDigitalCity => "tronDigitalCity",
            SceneSelection::TronHelixDrive => "tronHelixDrive",
            SceneSelection::TronDataRain => "tronDataRain",
            SceneSelection::TronReactorIris => "tronReactorIris",
            SceneSelection::MagneticSwarm => "magneticSwarm",
            SceneSelection::LiquidRelic => "liquidRelic",
            SceneSelection::ImpossibleArchitecture => "impossibleArchitecture",
            SceneSelection::AuroraVeil => "auroraVeil",
            SceneSelection::KineticSculpture => "kineticSculpture",
            SceneSelection::TopographicOcean => "topographicOcean",
        }
    }
}

/// The scene a selection holds; `Auto` holds none.
pub fn focus_for_selection(selection: SceneSelection) -> (r: Option<VisualFamily>)
    ensures
        r == spec_focus_for_selection(selection),
{
    match selection {
        SceneSelection::Auto => None,
        SceneSelection::Tron => Some(VisualFamily::Tron),
        SceneSelection::TronGridHighway => Some(VisualFamily::TronGridHighway),
        SceneSelection::TronLightTrails => Some(VisualFamily::TronLightTrails),
        SceneSelection::TronLaserGates => Some(VisualFamily::TronLaserGates),
        SceneSelection::TronHexCorridor => Some(VisualFamily::TronHexCorridor),
        SceneSelection::TronIdentityDiscs => Some(VisualFamily::TronIdentityDiscs),
        SceneSelection::TronCircuitBoard => Some(VisualFamily::TronCircuitBoard),
        SceneSelection::TronNeonArena => Some(VisualFamily::TronNeonArena),
        SceneSelection::TronSolarSails => Some(VisualFamily::TronSolarSails),
        SceneSelection::TronDigitalCity => Some(VisualFamily::TronDigitalCity),
        SceneSelection::TronHelixDrive => Some(VisualFamily::TronHelixDrive),
        SceneSelection::TronDataRain => Some(VisualFamily::TronDataRain),
        SceneSelection::TronReactorIris => Some(VisualFamily::TronReactorIris),
        SceneSelection::MagneticSwarm => Some(VisualFamily::MagneticSwarm),
        SceneSelection::LiquidRelic => Some(VisualFamily::LiquidRelic),
        SceneSelection::ImpossibleArchitecture => Some(VisualFamily::ImpossibleArchitecture),
        SceneSelection::AuroraVeil => Some(VisualFamily::AuroraVeil),
        SceneSelection::KineticSculpture => Some(VisualFamily::KineticSculpture),
        SceneSelection::TopographicOcean => Some(VisualFamily::TopographicOcean),
    }
}

/// The scenes that suit a phrase.
pub open spec fn spec_candidates(kind: PhraseKind) -> Seq<VisualFamily> {
    match kind {
        PhraseKind::Intro | PhraseKind::Outro => seq![VisualFamily::AuroraVeil, VisualFamily::TopographicOcean, VisualFamily::GlassOrbit, VisualFamily::SineInterference, VisualFamily::GravityLens, VisualFamily::RibbonWormhole, VisualFamily::QuantumWeave, VisualFamily::DiamondDrift, VisualFamily::OrbitalMesh, VisualFamily::EventHorizon],
        PhraseKind::Verse => seq![VisualFamily::MagneticSwarm, VisualFamily::KineticSculpture, VisualFamily::LiquidRelic, VisualFamily::WarpSpiral, VisualFamily::InfiniteChecker, VisualFamily::NeonLattice, VisualFamily::TwistedStripes, VisualFamily::RotatingSnakes, VisualFamily::LiquidCircuit, VisualFamily::ElectricTopography],
        PhraseKind::Up => seq![VisualFamily::ImpossibleArchitecture, VisualFamily::MagneticSwarm, VisualFamily::HyperbolicTunnel, VisualFamily::ChromaticMaze, VisualFamily::VortexChevron, VisualFamily::PolarFan, VisualFamily::RadialEscalator, VisualFamily::HelixPortal, VisualFamily::WarpSpiral],
        PhraseKind::Chorus | PhraseKind::Fill => seq![VisualFamily::MagneticSwarm, VisualFamily::LiquidRelic, VisualFamily::ImpossibleArchitecture, VisualFamily::KineticSculpture, VisualFamily::MoireRings, VisualFamily::PrismVortex, VisualFamily::FractalCompass, VisualFamily::AlienHeads, VisualFamily::ImpossibleCubes, VisualFamily::NeonLattice, VisualFamily::VortexChevron],
        PhraseKind::Down => seq![VisualFamily::AuroraVeil, VisualFamily::TopographicOcean, VisualFamily::LiquidRelic, VisualFamily::GlassOrbit, VisualFamily::GravityLens, VisualFamily::SineInterference, VisualFamily::EventHorizon, VisualFamily::RibbonWormhole, VisualFamily::DiamondDrift],
        PhraseKind::Bridge => seq![VisualFamily::TopographicOcean, VisualFamily::KineticSculpture, VisualFamily::QuantumWeave, VisualFamily::LiquidCircuit, VisualFamily::OrbitalMesh, VisualFamily::ElectricTopography, VisualFamily::ImpossibleCubes],
        PhraseKind::Unknown => spec_all_illusions(),
    }
}

/// The scenes that suit a phrase, in order of preference on equal score.
pub fn candidates_for_phrase(kind: PhraseKind) -> (r: Vec<VisualFamily>)
    ensures
        r@ == spec_candidates(kind),
{
    match kind {
        PhraseKind::Intro | PhraseKind::Outro => {
            let mut v: Vec<VisualFamily> = Vec::new();
            v.push(VisualFamily::AuroraVeil);
            v.push(VisualFamily::TopographicOcean);
            v.push(VisualFamily::GlassOrbit);
            v.push(VisualFamily::SineInterference);
            v.push(VisualFamily::GravityLens);
            v.push(VisualFamily::RibbonWormhole);
            v.push(VisualFamily::QuantumWeave);
            v.push(VisualFamily::DiamondDrift);
            v.push(VisualFamily::OrbitalMesh);
            v.push(VisualFamily::EventHorizon);
            v
        },
        PhraseKind::Verse => {
            let mut v: Vec<VisualFamily> = Vec::new();
            v.push(VisualFamily::MagneticSwarm);
            v.push(VisualFamily::KineticSculpture);
            v.push(VisualFamily::LiquidRelic);
            v.push(VisualFamily::WarpSpiral);
            v.push(VisualFamily::InfiniteChecker);
            v.push(VisualFamily::NeonLattice);
            v.push(VisualFamily::TwistedStripes);
            v.push(VisualFamily::RotatingSnakes);
            v.push(VisualFamily::LiquidCircuit);
            v.push(VisualFamily::ElectricTopography);
            v
        },
        PhraseKind::Up => {
            let mut v: Vec<VisualFamily> = Vec::new();
            v.push(VisualFamily::ImpossibleArchitecture);
            v.push(VisualFamily::MagneticSwarm);
            v.push(VisualFamily::HyperbolicTunnel);
            v.push(VisualFamily::ChromaticMaze);
            v.push(VisualFamily::VortexChevron);
            v.push(VisualFamily::PolarFan);
            v.push(VisualFamily::RadialEscalator);
            v.push(VisualFamily::HelixPortal);
            v.push(VisualFamily::WarpSpiral);
            v
        },
        PhraseKind::Chorus | PhraseKind::Fill => {
            let mut v: Vec<VisualFamily> = Vec::new();
            v.push(VisualFamily::MagneticSwarm);
            v.push(VisualFamily::LiquidRelic);
            v.push(VisualFamily::ImpossibleArchitecture);
            v.push(VisualFamily::KineticSculpture);
            v.push(VisualFamily::MoireRings);
            v.push(VisualFamily::PrismVortex);
            v.push(VisualFamily::FractalCompass);
            v.push(VisualFamily::AlienHeads);
            v.push(VisualFamily::ImpossibleCubes);
            v.push(VisualFamily::NeonLattice);
            v.push(VisualFamily::VortexChevron);
            v
        },
        PhraseKind::Down => {
            let mut v: Vec<VisualFamily> = Vec::new();
            v.push(VisualFamily::AuroraVeil);
            v.push(VisualFamily::TopographicOcean);
            v.push(VisualFamily::LiquidRelic);
            v.push(VisualFamily::GlassOrbit);
            v.push(VisualFamily::GravityLens);
            v.push(VisualFamily::SineInterference);
            v.push(VisualFamily::EventHorizon);
            v.push(VisualFamily::RibbonWormhole);
            v.push(VisualFamily::DiamondDrift);
            v
        },
        PhraseKind::Bridge => {
            let mut v: Vec<VisualFamily> = Vec::new();
            v.push(VisualFamily::TopographicOcean);
            v.push(VisualFamily::KineticSculpture);
            v.push(VisualFamily::QuantumWeave);
            v.push(VisualFamily::LiquidCircuit);
            v.push(VisualFamily::OrbitalMesh);
            v.push(VisualFamily::ElectricTopography);
            v.push(VisualFamily::ImpossibleCubes);
            v
        },
        PhraseKind::Unknown => all_illusions(),
    }
}

/// Whether `family` is among the scenes offered for `kind`.
pub open spec fn offered_for(kind: PhraseKind, family: VisualFamily) -> bool {
    spec_candidates(kind).contains(family)
}

/// Every scene of the automatic library is offered for at least one named
/// phrase (intro, verse, up, chorus, down or bridge).
pub proof fn law_library_is_reachable(n: u32)
    requires
        n < 32,
    ensures
        offered_for(PhraseKind::Intro, spec_family_of(n)) || offered_for(
            PhraseKind::Verse,
            spec_family_of(n),
        ) || offered_for(PhraseKind::Up, spec_family_of(n)) || offered_for(
            PhraseKind::Chorus,
            spec_family_of(n),
        ) || offered_for(PhraseKind::Down, spec_family_of(n)) || offered_for(
            PhraseKind::Bridge,
            spec_family_of(n),
        ),
{
    let f = spec_family_of(n);
    let intro = spec_candidates(PhraseKind::Intro);
    let verse = spec_candidates(PhraseKind::Verse);
    let up = spec_candidates(PhraseKind::Up);
    let chorus = spec_candidates(PhraseKind::Chorus);
    let down = spec_candidates(PhraseKind::Down);
    let bridge = spec_candidates(PhraseKind::Bridge);
    assert(intro[0] == VisualFamily::AuroraVeil && intro[1] == VisualFamily::TopographicOcean
        && intro[2] == VisualFamily::GlassOrbit && intro[3] == VisualFamily::SineInterference
        && intro[4] == VisualFamily::GravityLens && intro[5] == VisualFamily::RibbonWormhole
        && intro[6] == VisualFamily::QuantumWeave && intro[7] == VisualFamily::DiamondDrift
        && intro[8] == VisualFamily::OrbitalMesh && intro[9] == VisualFamily::EventHorizon);
    assert(verse[0] == VisualFamily::MagneticSwarm && verse[1] == VisualFamily::KineticSculpture
        && verse[2] == VisualFamily::LiquidRelic && verse[3] == VisualFamily::WarpSpiral
        && verse[4] == VisualFamily::InfiniteChecker && verse[5] == VisualFamily::NeonLattice
        && verse[6] == VisualFamily::TwistedStripes && verse[7] == VisualFamily::RotatingSnakes
        && verse[8] == VisualFamily::LiquidCircuit && verse[9]
        == VisualFamily::ElectricTopography);
    assert(up[0] == VisualFamily::ImpossibleArchitecture && up[2] == VisualFamily::HyperbolicTunnel
        && up[3] == VisualFamily::ChromaticMaze && up[4] == VisualFamily::VortexChevron && up[5]
        == VisualFamily::PolarFan && up[6] == VisualFamily::RadialEscalator && up[7]
        == VisualFamily::HelixPortal);
    assert(chorus[4] == VisualFamily::MoireRings && chorus[5] == VisualFamily::PrismVortex
        && chorus[6] == VisualFamily::FractalCompass && chorus[7] == VisualFamily::AlienHeads
        && chorus[8] == VisualFamily::ImpossibleCubes);
    assert(down[0] == VisualFamily::AuroraVeil);
    assert(bridge[0] == VisualFamily::TopographicOcean);
}

/// The modifiers that suit a phrase.
pub open spec fn spec_modifier_candidates(kind: PhraseKind) -> Seq<ModifierKind> {
    match kind {
        PhraseKind::Intro | PhraseKind::Outro => seq![ModifierKind::PaletteDrift, ModifierKind::EchoTrails],
        PhraseKind::Verse => seq![ModifierKind::BeatZoom, ModifierKind::PaletteDrift, ModifierKind::HighSparkle],
        PhraseKind::Up => seq![ModifierKind::BassWarp, ModifierKind::ChromaticSplit, ModifierKind::BeatZoom],
        PhraseKind::Chorus => seq![ModifierKind::BeatZoom, ModifierKind::MirrorFold, ModifierKind::ChromaticSplit],
        PhraseKind::Down => seq![ModifierKind::EchoTrails, ModifierKind::PaletteDrift],
        PhraseKind::Bridge => seq![ModifierKind::MirrorFold, ModifierKind::PaletteDrift, ModifierKind::HighSparkle],
        PhraseKind::Fill => seq![ModifierKind::ImpactBloom, ModifierKind::BeatZoom],
        PhraseKind::Unknown => seq![ModifierKind::PaletteDrift, ModifierKind::BeatZoom],
    }
}

/// The modifier offered for `phrase` under the deterministic `key`.
pub fn modifier_for_phrase(phrase: PhraseKind, key: u64) -> (r: ModifierKind)
    ensures
        r == spec_modifier_candidates(phrase)[(key % (spec_modifier_candidates(phrase).len() as u64)) as int],
{
    let candidates: Vec<ModifierKind> = match phrase {
        PhraseKind::Intro | PhraseKind::Outro => {
            let mut v: Vec<ModifierKind> = Vec::new();
            v.push(ModifierKind::PaletteDrift);
            v.push(ModifierKind::EchoTrails);
            v
        },
        PhraseKind::Verse => {
            let mut v: Vec<ModifierKind> = Vec::new();
            v.push(ModifierKind::BeatZoom);
            v.push(ModifierKind::PaletteDrift);
            v.push(ModifierKind::HighSparkle);
            v
        },
        PhraseKind::Up => {
            let mut v: Vec<ModifierKind> = Vec::new();
            v.push(ModifierKind::BassWarp);
            v.push(ModifierKind::ChromaticSplit);
            v.push(ModifierKind::BeatZoom);
            v
        },
        PhraseKind::Chorus => {
            let mut v: Vec<ModifierKind> = Vec::new();
            v.push(ModifierKind::BeatZoom);
            v.push(ModifierKind::MirrorFold);
            v.push(ModifierKind::ChromaticSplit);
            v
        },
        PhraseKind::Down => {
            let mut v: Vec<ModifierKind> = Vec::new();
            v.push(ModifierKind::EchoTrails);
            v.push(ModifierKind::PaletteDrift);
            v
        },
        PhraseKind::Bridge => {
            let mut v: Vec<ModifierKind> = Vec::new();
            v.push(ModifierKind::MirrorFold);
            v.push(ModifierKind::PaletteDrift);
            v.push(ModifierKind::HighSparkle);
            v
        },
        PhraseKind::Fill => {
            let mut v: Vec<ModifierKind> = Vec::new();
            v.push(ModifierKind::ImpactBloom);
            v.push(ModifierKind::BeatZoom);
            v
        },
        PhraseKind::Unknown => {
            let mut v: Vec<ModifierKind> = Vec::new();
            v.push(ModifierKind::PaletteDrift);
            v.push(ModifierKind::BeatZoom);
            v
        },
    };
    let count: u64 = candidates.len() as u64;
    let index: u64 = key % count;
    candidates[index as usize]
}

/// Whether `modifier` may be layered over `base`: spatial scenes take only
/// palette drift, and a few flat scenes refuse the effect that would fight
/// their own geometry.
pub open spec fn spec_modifier_compatible(base: VisualFamily, modifier: ModifierKind) -> bool {
    if spec_is_spatial(base) {
        modifier == ModifierKind::PaletteDrift
    } else {
        match modifier {
            ModifierKind::MirrorFold => !(base == VisualFamily::WarpSpiral || base
                == VisualFamily::RotatingSnakes || base == VisualFamily::RadialEscalator),
            ModifierKind::EchoTrails => !(base == VisualFamily::MoireRings || base
                == VisualFamily::NeonLattice || base == VisualFamily::OrbitalMesh),
            ModifierKind::HighSparkle => base != VisualFamily::EventHorizon,
            ModifierKind::ChromaticSplit => base != VisualFamily::PrismVortex,
            _ => true,
        }
    }
}

pub fn modifier_compatible(base: VisualFamily, modifier: ModifierKind) -> (r: bool)
    ensures
        r == spec_modifier_compatible(base, modifier),
{
    if base.is_spatial() {
        return modifier == ModifierKind::PaletteDrift;
    }
    match modifier {
        ModifierKind::MirrorFold => !(base == VisualFamily::WarpSpiral || base
            == VisualFamily::RotatingSnakes || base == VisualFamily::RadialEscalator),
        ModifierKind::EchoTrails => !(base == VisualFamily::MoireRings || base
            == VisualFamily::NeonLattice || base == VisualFamily::OrbitalMesh),
        ModifierKind::HighSparkle => base != VisualFamily::EventHorizon,
        ModifierKind::ChromaticSplit => base != VisualFamily::PrismVortex,
        _ => true,
    }
}

/// Spatial scenes accept palette drift and nothing else.
pub proof fn law_spatial_scenes_take_only_palette_drift(base: VisualFamily, modifier: ModifierKind)
    requires
        spec_is_spatial(base),
    ensures
        spec_modifier_compatible(base, modifier) <==> modifier == ModifierKind::PaletteDrift,
{
}

/// Palette drift suits every scene.
pub proof fn law_palette_drift_is_always_compatible(base: VisualFamily)
    ensures
        spec_modifier_compatible(base, ModifierKind::PaletteDrift),
{
}

/// The pair of palettes that suit a phrase; verses and bridges follow the
/// dominant band.
pub open spec fn spec_palette_pair(kind: PhraseKind, band: usize) -> (PaletteName, PaletteName) {
    match kind {
        PhraseKind::Intro | PhraseKind::Down | PhraseKind::Outro => (
            PaletteName::Ocean,
            PaletteName::PurpleBlue,
        ),
        PhraseKind::Up => (PaletteName::Sunset, PaletteName::Warm),
        PhraseKind::Chorus | PhraseKind::Fill => (PaletteName::Neon, PaletteName::RainbowFlow),
        PhraseKind::Verse | PhraseKind::Bridge => if band == 0 {
            (PaletteName::Electric, PaletteName::Infrared)
        } else if band == 2 {
            (PaletteName::Neon, PaletteName::Sunset)
        } else {
            (PaletteName::PurpleBlue, PaletteName::RainbowFlow)
        },
        PhraseKind::Unknown => (PaletteName::Ocean, PaletteName::Electric),
    }
}

pub open spec fn spec_palette_for_music(kind: PhraseKind, key: u64, band: usize) -> PaletteName {
    if spec_mix_seed(key, 0xc010_1234) % 2 == 0 {
        spec_palette_pair(kind, band).0
    } else {
        spec_palette_pair(kind, band).1
    }
}

/// The palette for a phrase: one of the phrase's pair, picked by `key`.
pub fn palette_for_music(kind: PhraseKind, key: u64, band: usize) -> (r: PaletteName)
    ensures
        r == spec_palette_for_music(kind, key, band),
{
    let pair = match kind {
        PhraseKind::Intro | PhraseKind::Down | PhraseKind::Outro => (
            PaletteName::Ocean,
            PaletteName::PurpleBlue,
        ),
        PhraseKind::Up => (PaletteName::Sunset, PaletteName::Warm),
        PhraseKind::Chorus | PhraseKind::Fill => (PaletteName::Neon, PaletteName::RainbowFlow),
        PhraseKind::Verse | PhraseKind::Bridge => {
            if band == 0 {
                (PaletteName::Electric, PaletteName::Infrared)
            } else if band == 2 {
                (PaletteName::Neon, PaletteName::Sunset)
            } else {
                (PaletteName::PurpleBlue, PaletteName::RainbowFlow)
            }
        },
        PhraseKind::Unknown => (PaletteName::Ocean, PaletteName::Electric),
    };
    if mix_seed(key, 0xc010_1234) % 2 == 0 {
        pair.0
    } else {
        pair.1
    }
}

pub open spec fn spec_phrase_for_music_state(state: MusicState) -> PhraseKind {
    match state {
        MusicState::Quiet => PhraseKind::Intro,
        MusicState::Flow | MusicState::Groove => PhraseKind::Verse,
        MusicState::Build => PhraseKind::Up,
        MusicState::Impact | MusicState::Peak => PhraseKind::Chorus,
        MusicState::Breakdown => PhraseKind::Down,
    }
}

/// The phrase a musical state stands for when no phrase metadata is fresh.
pub fn phrase_for_music_state(state: MusicState) -> (r: PhraseKind)
    ensures
        r == spec_phrase_for_music_state(state),
{
    match state {
        MusicState::Quiet => PhraseKind::Intro,
        MusicState::Flow | MusicState::Groove => PhraseKind::Verse,
        MusicState::Build => PhraseKind::Up,
        MusicState::Impact | MusicState::Peak => PhraseKind::Chorus,
        MusicState::Breakdown => PhraseKind::Down,
    }
}

pub open spec fn spec_manual_family(style: VisualStyle) -> VisualFamily {
    match style {
        VisualStyle::Auto | VisualStyle::Tunnel => VisualFamily::WarpSpiral,
        VisualStyle::Fluid => VisualFamily::LiquidCircuit,
        VisualStyle::Waves => VisualFamily::SineInterference,
        VisualStyle::Pulse => VisualFamily::MoireRings,
        VisualStyle::Burst => VisualFamily::PrismVortex,
    }
}

/// The scene a manual style stands for.
pub fn manual_family(style: VisualStyle) -> (r: VisualFamily)
    ensures
        r == spec_manual_family(style),
{
    match style {
        VisualStyle::Auto | VisualStyle::Tunnel => VisualFamily::WarpSpiral,
        VisualStyle::Fluid => VisualFamily::LiquidCircuit,
        VisualStyle::Waves => VisualFamily::SineInterference,
        VisualStyle::Pulse => VisualFamily::MoireRings,
        VisualStyle::Burst => VisualFamily::PrismVortex,
    }
}

pub open spec fn spec_phrase_kind_id(kind: PhraseKind) -> u64 {
    match kind {
        PhraseKind::Intro => 1,
        PhraseKind::Verse => 2,
        PhraseKind::Up => 3,
        PhraseKind::Chorus => 4,
        PhraseKind::Down => 5,
        PhraseKind::Bridge => 6,
        PhraseKind::Outro => 7,
        PhraseKind::Fill => 8,
        PhraseKind::Unknown => 9,
    }
}

/// The number mixed into scene keys for a phrase kind.
pub fn phrase_kind_id(kind: PhraseKind) -> (r: u64)
    ensures
        r == spec_phrase_kind_id(kind),
{
    match kind {
        PhraseKind::Intro => 1,
        PhraseKind::Verse => 2,
        PhraseKind::Up => 3,
        PhraseKind::Chorus => 4,
        PhraseKind::Down => 5,
        PhraseKind::Bridge => 6,
        PhraseKind::Outro => 7,
        PhraseKind::Fill => 8,
        PhraseKind::Unknown => 9,
    }
}

pub open spec fn spec_music_state_id(state: MusicState) -> u64 {
    match state {
        MusicState::Quiet => 1,
        MusicState::Flow => 2,
        MusicState::Groove => 3,
        MusicState::Build => 4,
        MusicState::Impact => 5,
        MusicState::Peak => 6,
        MusicState::Breakdown => 7,
    }
}

/// The number mixed into scene keys for a musical state.
pub fn music_state_id(state: MusicState) -> (r: u64)
    ensures
        r == spec_music_state_id(state),
{
    match state {
        MusicState::Quiet => 1,
        MusicState::Flow => 2,
        MusicState::Groove => 3,
        MusicState::Build => 4,
        MusicState::Impact => 5,
        MusicState::Peak => 6,
        MusicState::Breakdown => 7,
    }
}

/// 64-bit FNV-1a offset basis and prime.
pub const FNV_OFFSET: u64 = 0xcbf2_9ce4_8422_2325;

pub const FNV_PRIME: u64 = 0x0000_0100_0000_01b3;

/// The 64-bit FNV-1a hash of a byte string.
pub open spec fn spec_stable_hash(bytes: Seq<u8>) -> u64
    decreases bytes.len(),
{
    if bytes.len() == 0 {
        FNV_OFFSET
    } else {
        (spec_stable_hash(bytes.drop_last()) ^ (bytes.last() as u64)).wrapping_mul(FNV_PRIME)
    }
}

/// The FNV-1a hash of `bytes`.
pub fn stable_hash_bytes(bytes: &[u8]) -> (r: u64)
    ensures
        r == spec_stable_hash(bytes@),
{
    let mut hash: u64 = FNV_OFFSET;
    let mut i: usize = 0;
    while i < bytes.len()
        invariant
            i <= bytes@.len(),
            hash == spec_stable_hash(bytes@.take(i as int)),
        decreases bytes@.len() - i,
    {
        assert(bytes@.take(i as int + 1).drop_last() =~= bytes@.take(i as int));
        hash = (hash ^ (bytes[i] as u64)).wrapping_mul(FNV_PRIME);
        i = i + 1;
    }
    assert(bytes@.take(i as int) =~= bytes@);
    hash
}

/// The FNV-1a hash of the UTF-8 bytes of `value`, stable across runs.
pub fn stable_hash(value: &str) -> (r: u64)
    ensures
        r == spec_stable_hash(value.spec_bytes()),
{
    stable_hash_bytes(value.as_bytes())
}

/// SplitMix64 finalisation of `left` mixed with `right`.
pub open spec fn spec_mix_seed(left: u64, right: u64) -> u64 {
    let value = left ^ right.wrapping_add(0x9e37_79b9_7f4a_7c15);
    let value = value ^ (value >> 30u64);
    let value = value.wrapping_mul(0xbf58_476d_1ce4_e5b9);
    let value = value ^ (value >> 27u64);
    let value = value.wrapping_mul(0x94d0_49bb_1331_11eb);
    value ^ (value >> 31u64)
}

/// Mixes two keys into a well-spread deterministic seed.
pub fn mix_seed(left: u64, right: u64) -> (r: u64)
    ensures
        r == spec_mix_seed(left, right),
{
    let mut value: u64 = left ^ right.wrapping_add(0x9e37_79b9_7f4a_7c15);
    value = value ^ (value >> 30u64);
    value = value.wrapping_mul(0xbf58_476d_1ce4_e5b9);
    value = value ^ (value >> 27u64);
    value = value.wrapping_mul(0x94d0_49bb_1331_11eb);
    value ^ (value >> 31u64)
}

/// `value` rotated left by `shift` bits.
pub open spec fn spec_rotate_left(value: u64, shift: u64) -> u64 {
    (value << shift) | (value >> ((64 - shift) as u64))
}

/// Rotates `value` left by `shift` bits.
pub fn rotate_left(value: u64, shift: u64) -> (r: u64)
    requires
        0 < shift < 64,
    ensures
        r == spec_rotate_left(value, shift),
{
    (value << shift) | (value >> (64 - shift))
}

/// Different phrase kinds, musical states and modifiers never share a
/// number, so keys mixed from them tell them apart; phrase and state numbers
/// are never zero, and modifier numbers fit the shader's eight slots.
pub proof fn law_numbers_tell_kinds_apart(
    a: PhraseKind,
    b: PhraseKind,
    s: MusicState,
    t: MusicState,
    m: ModifierKind,
    n: ModifierKind,
)
    ensures
        a != b ==> spec_phrase_kind_id(a) != spec_phrase_kind_id(b),
        spec_phrase_kind_id(a) != 0,
        s != t ==> spec_music_state_id(s) != spec_music_state_id(t),
        spec_music_state_id(s) != 0,
        m != n ==> spec_modifier_number(m) != spec_modifier_number(n),
        spec_modifier_number(m) < 8,
{
}

/// The palette for a phrase is always one of the two that suit it, and
/// every phrase has two different palettes to choose between.
pub proof fn law_palettes_come_from_the_phrase_pair(kind: PhraseKind, key: u64, band: usize)
    ensures
        spec_palette_for_music(kind, key, band) == spec_palette_pair(kind, band).0
            || spec_palette_for_music(kind, key, band) == spec_palette_pair(kind, band).1,
        spec_palette_pair(kind, band).0 != spec_palette_pair(kind, band).1,
{
}

/// Without fresh metadata the musical state stands for a phrase the way the
/// audio-inferred phrase tracker suggests it: flowing and grooving music is
/// a verse, a build is an up, an impact or peak a chorus, quiet music an
/// intro at the start, and a breakdown a down.
pub proof fn law_states_stand_for_the_tracked_phrases(state: MusicState)
    ensures
        state != MusicState::Breakdown ==> spec_phrase_for_music_state(state)
            == crate::phrase::spec_phrase_for_state(state, 0),
        state == MusicState::Breakdown ==> spec_phrase_for_music_state(state)
            == crate::phrase::spec_phrase_for_state(state, 1),
        state == MusicState::Impact || state == MusicState::Peak ==> spec_phrase_for_music_state(
            state,
        ) == PhraseKind::Chorus,
        state == MusicState::Flow || state == MusicState::Groove ==> spec_phrase_for_music_state(
            state,
        ) == PhraseKind::Verse,
{
}

} // verus!
