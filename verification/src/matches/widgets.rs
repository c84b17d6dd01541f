//! What the match views compute before drawing.

pub mod buddy_badges;
pub mod match_renderer;
