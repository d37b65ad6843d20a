//! A minimal terminal tab bar shell, as verified state machines: the frame
//! it paints, the render loop that paints and reads, and the lifecycle of the
//! terminal session around it. A driver performs the I/O each machine asks
//! for and reports back.
use vstd::prelude::*;

/// The frame painted on every tick.
pub mod frame;
/// The input events the render loop decides on.
pub mod input;
/// The render loop: paint, read one event, continue or stop.
pub mod render_loop;
/// Opening the terminal session, running the loop, closing the session.
pub mod session;

verus! {

} // verus!
