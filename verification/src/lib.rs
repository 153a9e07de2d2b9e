//! Named git identity profiles: an ordered store of profiles with an optional
//! selected one, the operations that add, look up and select profiles, and
//! the text and commands that the command line shows and runs for them.

pub mod command;
pub mod laws;
pub mod storage;
