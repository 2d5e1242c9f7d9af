use metrocity::config::{Appearance, EngineConfig, MonolithConfig, NeonTextConfig};
use metrocity::engine::{Engine, EngineAction, EngineEvent, MAX_STEP_NANOS};
use metrocity::scenes::city::weather::Weather;
use metrocity::scenes::names;
use metrocity::screensaver::{run_screensaver, Overrides};

fn engine_at(fps: u32) -> Engine {
    let mut c = EngineConfig::default();
    c.fps = fps;
    Engine::new(&c)
}

#[test]
fn defaults() {
    let a = Appearance::default();
    assert_eq!(a.theme, "cyberpunk");
    assert_eq!(a.weather, "rain");
    assert_eq!(a.solid_background_color, "");
    let e = EngineConfig::default();
    assert_eq!(e.fps, 30);
    assert_eq!(e.scene, "cafe");
    assert_eq!(e.cycle_seconds, 0);
    assert!(!e.shuffle && !e.oled_shift);
    let m = MonolithConfig::default();
    assert!(m.custom_text.is_empty() && m.custom_color.is_empty() && m.override_distro.is_empty());
    let n = NeonTextConfig::default();
    assert_eq!(
        n.phrases,
        vec!["METROCITY", "NEO TOKYO", "CYBERCORP", "GRID//LINK", "SYNTH-WAVE", "DATASTREAM", "GRID_RUNNER", "NETRUNNER"]
    );
}

#[test]
fn scene_names_in_listing_order() {
    assert_eq!(names(), vec!["city", "cafe", "meadow"]);
}

#[test]
fn engine_frame_rate_is_at_least_one() {
    assert_eq!(engine_at(0).fps(), 1);
    assert_eq!(engine_at(60).fps(), 60);
}

#[test]
fn tick_rate_is_whole_milliseconds() {
    assert_eq!(engine_at(30).tick_rate_nanos(), 33_000_000);
    assert_eq!(engine_at(1).tick_rate_nanos(), 1_000_000_000);
    assert_eq!(engine_at(3000).tick_rate_nanos(), 0);
}

#[test]
fn poll_timeout_is_the_rest_of_the_frame() {
    let e = engine_at(30);
    assert_eq!(e.poll_timeout(0), 33_000_000);
    assert_eq!(e.poll_timeout(10_000_000), 23_000_000);
    assert_eq!(e.poll_timeout(40_000_000), 0);
    assert!(!e.frame_due(32_999_999));
    assert!(e.frame_due(33_000_000));
}

#[test]
fn any_key_press_exits_and_resize_reinitializes() {
    let e = engine_at(30);
    assert_eq!(e.on_event(EngineEvent::KeyPress), EngineAction::Exit);
    assert_eq!(e.on_event(EngineEvent::KeyOther), EngineAction::Continue);
    assert_eq!(e.on_event(EngineEvent::Resize), EngineAction::Reinit);
    assert_eq!(e.on_event(EngineEvent::Other), EngineAction::Continue);
}

#[test]
fn time_step_is_capped_at_a_tenth_of_a_second() {
    let e = engine_at(30);
    assert_eq!(e.step_nanos(16_000_000), 16_000_000);
    assert_eq!(e.step_nanos(MAX_STEP_NANOS), 100_000_000);
    assert_eq!(e.step_nanos(5_000_000_000), 100_000_000);
}

#[test]
fn command_line_overrides_the_configuration() {
    let cli = Overrides { theme: Some("matrix".to_string()), weather: Some("SNOW".to_string()), fps: Some(60), scene: None };
    let s = run_screensaver(&cli, &Appearance::default(), &EngineConfig::default(), &MonolithConfig::default(), "arch");
    assert_eq!(s.appearance.theme, "matrix");
    assert_eq!(s.appearance.weather, "SNOW");
    assert_eq!(s.weather, Weather::Snow);
    assert_eq!(s.engine.fps, 60);
    assert_eq!(s.engine.scene, "cafe");
    assert_eq!(s.sign_text, "ARCH CORP");
}

#[test]
fn configuration_is_kept_without_overrides() {
    let cli = Overrides { theme: None, weather: None, fps: None, scene: None };
    let mut monolith = MonolithConfig::default();
    monolith.custom_text = "ACME".to_string();
    let mut appearance = Appearance::default();
    appearance.weather = "fog".to_string();
    let s = run_screensaver(&cli, &appearance, &EngineConfig::default(), &monolith, "debian");
    assert_eq!(s.appearance.theme, "cyberpunk");
    assert_eq!(s.weather, Weather::Clear);
    assert_eq!(s.sign_text, "ACME");
    assert_eq!(s.engine.fps, 30);
    assert_eq!(s.scene, "city");
}

#[test]
fn configured_frame_rate_holds_without_fps_option() {
    let cli = Overrides { theme: None, weather: None, fps: None, scene: Some("cafe".to_string()) };
    let mut engine = EngineConfig::default();
    engine.fps = 60;
    let s = run_screensaver(&cli, &Appearance::default(), &engine, &MonolithConfig::default(), "arch");
    assert_eq!(s.engine.fps, 60);
    assert_eq!(Engine::new(&s.engine).fps(), 60);
    assert_eq!(s.scene, "cafe");
}

#[test]
fn fps_option_replaces_the_configured_frame_rate() {
    let cli = Overrides { theme: None, weather: None, fps: Some(0), scene: None };
    let mut engine = EngineConfig::default();
    engine.fps = 60;
    let s = run_screensaver(&cli, &Appearance::default(), &engine, &MonolithConfig::default(), "arch");
    assert_eq!(s.engine.fps, 0);
    assert_eq!(Engine::new(&s.engine).fps(), 1);
    assert_eq!(s.scene, "city");
}

#[test]
fn new_engine_keeps_the_cursor_hidden() {
    assert!(!engine_at(30).show_cursor());
}
