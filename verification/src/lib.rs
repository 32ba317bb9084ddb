pub mod bounce;
pub mod breakout;
pub mod chance;
pub mod common;
pub mod geometry;
pub mod heading;
pub mod math;
pub mod screens;
pub mod sprites;
