//! Traffic through an unsignalled four-way intersection: vehicles enter from
//! one of four edges, follow the path their lane fixes, give way to each other
//! on conflict, and are counted when they leave the window.

pub mod types;
pub mod cars;
pub mod traffic;
pub mod report;
pub mod laws;
mod outside;
