//! The front of house of a restaurant: the stations that face the guests,
//! grouped by the kind of work they do.

pub mod hosting;
pub mod serving;
