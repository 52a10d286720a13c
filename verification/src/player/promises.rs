//! What the player promises, said of what it knew before, what the audio output shows, and what
//! it does then.
pub mod control;
pub mod disk;
pub mod lists;
pub mod output;
pub mod walk;
