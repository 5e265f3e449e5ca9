//! Decision logic and remote-structure decoding for a speedrun timer that
//! watches the memory of a running game.
//!
//! The library never touches the game itself. The host reads bytes from the
//! game and records them in a [`remote::MemoryImage`]; every function here is
//! a pure function of such recorded values, and says which read it still lacks
//! whenever the image does not yet hold what it needs.

pub mod autosplitting;
pub mod bytes;
pub mod csharp;
pub mod memory;
pub mod module;
pub mod oracle;
pub mod pointer_path;
pub mod remote;
pub mod scene_manager;
pub mod settings;
pub mod signature;
pub mod watcher;
