//! Verified core of a first-person shooter prototype: the revolver's cylinder,
//! hammer and cartridges, a simpler magazine-fed gun, and the integer side of the
//! player's controls.

pub mod controls;
pub mod magazine;
pub mod revolver;
