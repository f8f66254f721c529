//! A verified model of a small demo scene that a real-time engine hosts:
//! a three-phase state machine (loading, menu, playing), a per-frame
//! loading-progress reporter, a fixed scene description built on entering
//! the playing phase, and an animator that rotates and bounces one entity.
//!
//! Every quantity is a fixed-point integer: angles in microradians (and
//! accumulated yaw in picoradians), lengths in micro-units, colour channels
//! and material factors in thousandths. The host computes the sine of the
//! bounce phase and hands the scaled value in; everything else is exact
//! integer arithmetic, so the contracts pin each result down.

pub mod game;
pub mod loading;
pub mod session;
pub mod world;
