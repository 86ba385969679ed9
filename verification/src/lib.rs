//! Soap in the tub: the bookkeeping of a bar of soap that erodes in water.
//!
//! The bar is a grid of square cells, each a collider of the physics world
//! coupled with a boundary object of the fluid simulation. Wet cells shrink,
//! faster once they have broken off the bar; a cell that has shrunk too far is
//! removed from both simulations.
pub mod cell;
pub mod erosion;
pub mod laws;
pub mod outside;
pub mod roster;
pub mod schedule;
