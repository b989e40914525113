//! A minimal breakout-style game cartridge for a fixed-resolution fantasy
//! console: axis-aligned rectangles for the paddle, ball, walls and bricks,
//! an integer physics step that reflects the ball's velocity on collision,
//! and a render step that emits draw requests for the host drawing surface.

pub mod entities;
pub mod game;
pub mod geometry;

pub use entities::{Ball, Brick, Wall};
pub use game::{Game, BUTTON_DOWN, BUTTON_LEFT, BUTTON_RIGHT, BUTTON_UP};
pub use geometry::{DrawCommand, Orientation, Rect};
