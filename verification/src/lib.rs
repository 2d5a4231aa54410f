//! Provisioning and invocation pipeline for extracting the audio track of a
//! hosted video into an MP3 file by means of two external command-line tools.

pub mod text;
pub mod sanitize;
pub mod command;
pub mod archive;
pub mod provision;
pub mod outcome;
pub mod download;
