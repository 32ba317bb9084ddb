pub mod ball;
pub mod bricks;
pub mod paddle;
