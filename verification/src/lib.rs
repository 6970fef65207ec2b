//! Tick-driven rendering controller for a small monochrome lock display.
//!
//! The crate is organised around two capabilities: [`Component`], the
//! cooperative-scheduling entry point that every subsystem implements, and
//! [`display::Display`], the drawing surface the controller renders to.
//! [`display::Controller`] owns the current UI [`display::State`] and redraws
//! the whole frame from scratch on every tick.

use vstd::prelude::*;

pub mod display;
pub mod frame;
pub mod sim;

verus! {

/// Implemented by every subsystem that takes part in the cooperative
/// scheduling loop.
pub trait Component {
    /// Called regularly from the main loop. Must not block.
    /// `us`: number of microseconds since device startup.
    fn tick(&mut self, us: u64);
}

} // verus!
