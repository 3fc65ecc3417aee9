//! Game rules of a burger kitchen: an evolving menu, randomly generated
//! orders, the burger being assembled, and the score that comes of it.
//!
//! Everything here is plain data in and plain data out. Drawing, sound and
//! keyboard handling belong to the program that embeds this crate.

pub mod audio;
pub mod chance;
pub mod cooking;
pub mod customer;
pub mod game_over;
pub mod ingredients;
pub mod order;
pub mod recipe;
pub mod restaurant;
pub mod score;
pub mod seen;
pub mod session;
pub mod title;
