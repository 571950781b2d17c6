pub mod alignment;
pub mod calculated;
pub mod common;
pub mod constraints;
pub mod dimension;
pub mod directional;
pub mod element;
pub mod laws;
pub mod mock;
pub mod model;
pub mod padding;
pub mod position;
pub mod rect;
pub mod text;
