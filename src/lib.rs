//! A stereo effect that swaps the mid and side components of a two-channel signal.
//!
//! `layout` offers the one channel configuration the effect runs in, `lifecycle`
//! carries an instance through initialize, reset and process, and `processor`
//! runs a per-frame stereo transform over a block in place.

pub mod layout;
pub mod lifecycle;
pub mod processor;
