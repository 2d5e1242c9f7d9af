pub mod buffer;
pub mod config;
pub mod engine;
pub mod kitty;
pub mod layout;
pub mod random;
pub mod screensaver;
pub mod scenes;
pub mod sprite;
pub mod style;
pub mod text;
pub mod theme;
