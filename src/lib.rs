//! The verified core of a small arcade shooter: a turret fires at drifting
//! meteors inside a bounded arena, hits are scored, and short-lived effects
//! fade away. All quantities are fixed-point integers:
//! lengths in micro-pixels, directions in thousandths, time in milliseconds.

pub mod geometry;
pub mod timer;
pub mod actors;
pub mod motion;
pub mod player;
pub mod effects;
pub mod world;
pub mod collision;
pub mod detect;
pub mod setup;
pub mod plugins;
pub mod spawn;
pub mod firing;
pub mod config;
pub mod tick;
pub mod debug;
