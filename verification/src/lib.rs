//! A box that bounces around a fixed-size frame, the software renderer that
//! paints it, and the state machine that drives both from window events.

pub mod driver;
pub mod paint;
pub mod world;
