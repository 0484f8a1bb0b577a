//! Typed records of the Spotify Web API responses, with the small
//! accessors the commands use.

pub mod common;
pub mod album;
pub mod artist;
pub mod playback;
pub mod playlist;
pub mod track;
pub mod user;
