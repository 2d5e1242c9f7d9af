pub mod animals;
pub mod decor;
pub mod layout;
pub mod paint;
