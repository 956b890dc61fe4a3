//! Release tables of Linux distributions.
pub mod debian;
pub mod ubuntu;
