//! Wearable equipment: a catalog of clothing and armor, and the slot manager
//! that tracks what a character wears on each body position.

pub mod item;
pub mod apparel;
pub mod placement;
pub mod laws;
