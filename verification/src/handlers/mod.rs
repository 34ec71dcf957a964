pub mod voice_state_update;
