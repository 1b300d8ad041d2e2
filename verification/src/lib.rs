//! Arithmetic over simple axis-aligned rectangles, together with a small
//! set of named workflow steps for a restaurant's front of house.

pub mod front_of_house;
pub mod rectangle;
