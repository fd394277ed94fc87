//! Game rules of a side-scrolling magic dungeon crawler: the spell book,
//! the scene flow, the radial element menu, player intent, combat and the
//! light-fan mesh topology.

pub mod magic;
pub mod scene;
pub mod radial;
pub mod player;
pub mod combat;
pub mod light;
pub mod collision;
