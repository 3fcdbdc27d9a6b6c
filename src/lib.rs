//! Decisions of the coordinate transforms between the standard, the
//! nationally obfuscated and the provider coordinate systems, taken on the
//! IEEE-754 bit patterns of the coordinates: the region gate of the forward
//! transform and the bisection controller of the iterative inverse.
pub mod ieee;
pub mod region;
pub mod search;
