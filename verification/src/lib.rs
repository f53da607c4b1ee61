//! The simulation core of a side-scrolling avoidance game.
//!
//! A bird falls under gravity and is pushed upward while the jump key is
//! held. Pairs of walls enter at the right edge of the viewport and scroll
//! to the left; touching one ends the round and clears the field.
//!
//! The crate holds no window, no renderer and no clock. A host samples the
//! jump key and the elapsed time once per frame, hands both to
//! [`game::Game::frame`], and draws what [`render::drawables`] returns.
//!
//! All lengths are fixed-point numbers, see [`fixed`]. The vertical axis
//! points down: a negative vertical speed moves the bird up the screen.

pub mod collision;
pub mod components;
pub mod fixed;
pub mod game;
pub mod motion;
pub mod render;
pub mod store;
pub mod timestep;
pub mod viewport;
pub mod walls;
