//! The verified core of a terminal music player: a file browser that walks
//! a directory tree and orders album folders by their embedded track
//! numbers, and the command protocol of a background playback worker. The
//! surrounding terminal, filesystem and audio plumbing hand plain values in
//! and carry the decisions out.

use vstd::prelude::*;

pub mod browser_list;
pub mod fs_path;
pub mod layout;
pub mod ordering;
pub mod player;
pub mod playlist;
pub mod queue;
pub mod song;
pub mod text;

verus! {

/// The error kinds the library surfaces: an unreadable directory or file,
/// a missing or malformed tag on a single file, a command that could not be
/// sent because the player already shut down, and a file the player could
/// not decode.
#[derive(Clone, Copy, Debug, PartialEq, Eq, Structural)]
pub enum CoreError {
    IoError,
    MetadataError,
    ChannelError,
    DecodeError,
}

} // verus!
