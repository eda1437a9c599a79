//! Finds the service point ("dispenser") closest to a caller-supplied
//! geographic coordinate.
//!
//! Coordinates are IEEE-754 double-precision values; throughout the library
//! they are carried as their 64-bit patterns, so that ordering and selection
//! can be reasoned about exactly.

pub mod fbits;
pub mod handler;
pub mod models;
pub mod status;
