//! Core logic of the radiod internet-radio daemon: station URIs, now-playing
//! metadata, the MPRIS station/playback state machine, retry policy and the
//! text that the control tool prints.

pub mod text;
pub mod station;
pub mod config;
pub mod metadata;
pub mod player;
pub mod mpris;
pub mod orbox;
pub mod retry;
pub mod ctl;
