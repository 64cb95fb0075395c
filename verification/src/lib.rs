//! A step sequencer for a drum machine and a polyphonic synthesizer:
//! the transport clock, the schedule of tick deadlines, the fan-out of
//! commands to instrument workers and the resolution of drum and chord
//! patterns, with every function proved against its contract.

pub mod composer;
pub mod display;
pub mod drummer;
pub mod instr_comm;
pub mod instrument;
pub mod keyboard;
pub mod midi_controller;
pub mod midi_device;
pub mod player;
pub mod schedule;
pub mod song;
pub mod songs;
pub mod sound_panel;
pub mod text;
pub mod timing;
pub mod validate;
pub mod volca_drum;
pub mod volca_keys;
pub mod yaml_patch_reader;
pub mod yaml_reader;
pub mod yaml_song_reader;
