//! Plays a release song on all Sonos speakers of the local network.

pub mod check_github_ci;
pub mod cooldown;
pub mod device;
pub mod discovery;
pub mod group_speakers;
pub mod kill_music;
pub mod listen_to_ci;
pub mod patterns;
pub mod play_track;
pub mod soap;
pub mod start_music;
pub mod step;
pub mod text;
pub mod xml_text;
