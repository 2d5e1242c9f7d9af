//! Configuration sections that the library reads, with their defaults.

use vstd::prelude::*;

verus! {

/// Appearance section: theme name, weather name and an optional solid
/// background color.
#[derive(Clone, Debug)]
pub struct Appearance {
    pub theme: String,
    /// `rain`, `snow` or `clear`.
    pub weather: String,
    pub solid_background_color: String,
}

impl Default for Appearance {
    /// The `cyberpunk` theme, rain, no solid background.
    fn default() -> (r: Self)
        ensures
            r.theme@ == "cyberpunk"@,
            r.weather@ == "rain"@,
            r.solid_background_color@ == Seq::<char>::empty(),
    {
        Appearance {
            theme: String::from_str("cyberpunk"),
            weather: String::from_str("rain"),
            solid_background_color: String::new(),
        }
    }
}

/// Engine section: frame rate, starting scene, scene cycling.
#[derive(Clone, Debug)]
pub struct EngineConfig {
    pub fps: u32,
    pub scene: String,
    pub cycle_seconds: u32,
    pub shuffle: bool,
    pub oled_shift: bool,
}

impl Default for EngineConfig {
    /// 30 fps, the cafe scene, no cycling, no shuffle, no OLED shift.
    fn default() -> (r: Self)
        ensures
            r.fps == 30,
            r.scene@ == "cafe"@,
            r.cycle_seconds == 0,
            !r.shuffle,
            !r.oled_shift,
    {
        EngineConfig {
            fps: 30,
            scene: String::from_str("cafe"),
            cycle_seconds: 0,
            shuffle: false,
            oled_shift: false,
        }
    }
}

/// Monolith section: custom sign text and color, distro override.
#[derive(Clone, Debug)]
pub struct MonolithConfig {
    pub custom_text: String,
    pub custom_color: String,
    pub override_distro: String,
}

impl Default for MonolithConfig {
    /// Everything empty: the sign shows the detected distro.
    fn default() -> (r: Self)
        ensures
            r.custom_text@ == Seq::<char>::empty(),
            r.custom_color@ == Seq::<char>::empty(),
            r.override_distro@ == Seq::<char>::empty(),
    {
        MonolithConfig {
            custom_text: String::new(),
            custom_color: String::new(),
            override_distro: String::new(),
        }
    }
}

/// Neon text section: the phrases the signs may show.
#[derive(Clone, Debug)]
pub struct NeonTextConfig {
    pub phrases: Vec<String>,
}

/// The default neon phrases.
pub open spec fn default_phrases() -> Seq<Seq<char>> {
    seq![
        "METROCITY"@,
        "NEO TOKYO"@,
        "CYBERCORP"@,
        "GRID//LINK"@,
        "SYNTH-WAVE"@,
        "DATASTREAM"@,
        "GRID_RUNNER"@,
        "NETRUNNER"@,
    ]
}

impl Default for NeonTextConfig {
    /// Eight cyberpunk phrases.
    fn default() -> (r: Self)
        ensures
            r.phrases@.len() == 8,
            forall|i: int| 0 <= i < 8 ==> (#[trigger] r.phrases@[i])@ == default_phrases()[i],
    {
        let mut phrases: Vec<String> = Vec::new();
        phrases.push(String::from_str("METROCITY"));
        phrases.push(String::from_str("NEO TOKYO"));
        phrases.push(String::from_str("CYBERCORP"));
        phrases.push(String::from_str("GRID//LINK"));
        phrases.push(String::from_str("SYNTH-WAVE"));
        phrases.push(String::from_str("DATASTREAM"));
        phrases.push(String::from_str("GRID_RUNNER"));
        phrases.push(String::from_str("NETRUNNER"));
        NeonTextConfig { phrases }
    }
}

} // verus!
