//! A first-person character controller: mouse look (yaw/pitch with an
//! absolute pitch clamp) and per-tick locomotion (gravity, jumping and
//! steered horizontal movement), computed over fixed-point scalars.
//!
//! The host engine delivers raw input samples and commits the resulting
//! velocity to its physics step; this crate holds the arithmetic in between.

pub mod fixed;

pub mod sqrt;

pub mod vec;

pub mod basis;

pub mod look;

pub mod locomotion;

pub mod laws;
