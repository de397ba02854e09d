//! A FLAC music player's core: a streaming decoder, the audio thread's state
//! machine and the player's control side, the playlist and the window's
//! playback display.

use vstd::prelude::*;

pub mod flac;
pub mod player;
pub mod playlist;
pub mod window;

verus! {

} // verus!
