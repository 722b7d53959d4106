//! A command-line front end for local neural text-to-speech, as a verified
//! library: the catalog of downloadable voices and their on-disk layout, the
//! installation of a voice or of the synthesis engine as a state machine,
//! download specifications and batches, the command line handed to the
//! engine, text preparation, and the errors reported to the user.
//!
//! The program around it (argument parsing, network, processes, playback)
//! performs the actions this library decides and reports back.

pub mod text;
pub mod layout;
pub mod error;
pub mod voice;
pub mod cli;
pub mod engine;
pub mod sherpa;
pub mod install;
pub mod batch;
pub mod markdown;
