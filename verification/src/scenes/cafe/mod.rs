pub mod background;
pub mod cats;
pub mod components;
pub mod decor;
pub mod layout;
pub mod paint;
pub mod palette;
