//! Starting the screensaver: the command-line overrides applied to the
//! loaded configuration, the scene to run, and the city scene's settings
//! derived from them.

use vstd::prelude::*;
use crate::config::{Appearance, EngineConfig, MonolithConfig};
use crate::scenes::city::distro::monolith_sign_text;
use crate::scenes::city::weather::{Weather, resolve_weather, weather_of};
use crate::text::{all_ascii, ascii_lowercase, ascii_uppercase, lowercase, uppercase};

verus! {

/// The command-line options that override the configuration.
pub struct Overrides {
    /// `--theme`: replaces the configured theme.
    pub theme: Option<String>,
    /// `--weather`: replaces the configured weather.
    pub weather: Option<String>,
    /// `--fps`: replaces the configured frame rate.
    pub fps: Option<u32>,
    /// `--scene`: locks the screensaver to this scene.
    pub scene: Option<String>,
}

/// Everything the screensaver starts with once the overrides are applied.
pub struct Startup {
    /// The appearance section after the overrides.
    pub appearance: Appearance,
    /// The engine section after the overrides.
    pub engine: EngineConfig,
    /// The weather the city scene shows.
    pub weather: Weather,
    /// The text on the city's monolith.
    pub sign_text: String,
    /// The name of the scene to run.
    pub scene: String,
}

/// The scene the screensaver runs: the one `--scene` names, else the city.
pub open spec fn chosen_scene(by: Option<String>) -> Seq<char> {
    match by {
        Some(s) => s@,
        None => "city"@,
    }
}

/// `Some(s)` replaces `current`; `None` keeps it.
pub open spec fn overridden(current: Seq<char>, by: Option<String>) -> Seq<char> {
    match by {
        Some(s) => s@,
        None => current,
    }
}

fn apply_override(current: &String, by: &Option<String>) -> (r: String)
    ensures
        r@ == overridden(current@, *by),
{
    match by {
        Some(s) => s.clone(),
        None => current.clone(),
    }
}

/// Applies the command-line overrides to the loaded configuration (the
/// configured frame rate holds unless `--fps` is given), picks the scene
/// (the one `--scene` names, else the city) and resolves the city scene's
/// settings: the weather from the (overridden)
/// weather name, ignoring case, and the monolith's sign from the custom text
/// or, when that is empty, from the detected distro.
pub fn run_screensaver(
    cli: &Overrides,
    appearance: &Appearance,
    engine: &EngineConfig,
    monolith: &MonolithConfig,
    distro: &str,
) -> (s: Startup)
    ensures
        s.appearance.theme@ == overridden(appearance.theme@, cli.theme),
        s.appearance.weather@ == overridden(appearance.weather@, cli.weather),
        s.appearance.solid_background_color@ == appearance.solid_background_color@,
        s.engine.fps == (match cli.fps {
            Some(f) => f,
            None => engine.fps,
        }),
        s.scene@ == chosen_scene(cli.scene),
        s.engine.scene@ == engine.scene@,
        s.engine.cycle_seconds == engine.cycle_seconds,
        s.engine.shuffle == engine.shuffle,
        s.engine.oled_shift == engine.oled_shift,
        s.weather == weather_of(lowercase(s.appearance.weather@)),
        s.sign_text@ == (if monolith.custom_text@.len() == 0 {
            uppercase(distro@) + " CORP"@
        } else {
            monolith.custom_text@
        }),
        all_ascii(s.appearance.weather@) ==> s.weather == weather_of(ascii_lowercase(s.appearance.weather@)),
        monolith.custom_text@.len() == 0 && all_ascii(distro@) ==> s.sign_text@ == ascii_uppercase(distro@) + " CORP"@,
{
    let theme = apply_override(&appearance.theme, &cli.theme);
    let weather_name = apply_override(&appearance.weather, &cli.weather);
    let weather = resolve_weather(weather_name.as_str());
    let sign_text = monolith_sign_text(monolith.custom_text.as_str(), distro);
    let new_appearance = Appearance {
        theme,
        weather: weather_name,
        solid_background_color: appearance.solid_background_color.clone(),
    };
    let fps = match cli.fps {
        Some(f) => f,
        None => engine.fps,
    };
    let scene = match &cli.scene {
        Some(s) => s.clone(),
        None => String::from_str("city"),
    };
    let new_engine = EngineConfig {
        fps,
        scene: engine.scene.clone(),
        cycle_seconds: engine.cycle_seconds,
        shuffle: engine.shuffle,
        oled_shift: engine.oled_shift,
    };
    Startup { appearance: new_appearance, engine: new_engine, weather, sign_text, scene }
}

} // verus!
