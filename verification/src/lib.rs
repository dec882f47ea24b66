//! The rules of a two-player Pong game with power-ups: menus and screens,
//! scoring with shields, paddle shrinking and speeding up, and the
//! abilities that players collect with the ball.
//!
//! Everything here is discrete. Positions, velocities and timers are
//! floating-point values and live with the program that draws the game;
//! it asks this library what to do and hands back plain values.

pub mod side;
pub mod paddle;
pub mod ball;
pub mod ability;
pub mod score;
pub mod screen;
