pub mod layout;
pub mod skyline;
pub mod tree;
