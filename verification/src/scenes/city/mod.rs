pub mod buildings;
pub mod clock;
pub mod distro;
pub mod logos;
pub mod render;
pub mod scene;
pub mod skyline;
pub mod utils;
pub mod vehicles;
pub mod weather;
