//! Voice-room automation core: classifies presence transitions, accounts for
//! time spent in voice, picks names for ephemeral rooms, and decides when
//! rooms are provisioned or reaped. Network and storage I/O live outside this
//! crate; everything here is verified.

pub mod config;
pub mod cron;
pub mod error;
pub mod handlers;
pub mod rarety;
pub mod voice_stats;
