//! Rollback and resimulation of component state, frame by frame.
//!
//! A client predicts the state of a game. When the server's authoritative values for a past frame
//! arrive, it goes back to that frame, takes them over, and simulates again up to the present.
//!
//! - [`frame_buffer`]: values by frame, over a window of frames;
//! - [`timewarp`]: what is remembered of a component, and of a rollback;
//! - [`requests`]: the queue of rollback requests;
//! - [`systems`]: the steps of recording, rolling back and resimulating;
//! - [`laws`]: what holds of all of this together;
//! - [`buffer_laws`], [`history_laws`], [`step_laws`]: how the results of calls hang together.

pub mod clock;
pub mod frame_buffer;
pub mod history_laws;
pub mod laws;
pub mod buffer_laws;
pub mod requests;
pub mod step_laws;
pub mod systems;
pub mod timewarp;

use vstd::prelude::*;

verus! {

/// Number of a simulation frame.
pub type FrameNumber = u32;

} // verus!
