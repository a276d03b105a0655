//! Date-based organisation of photo and video files.
//!
//! The library holds the decisions of the organiser: which files are media,
//! how a capture date is read out of EXIF and QuickTime metadata, how a date
//! becomes a target directory, how a free file name is found, and the state
//! machine that drives a whole run. The program around it performs the file
//! system work that the state machine asks for.
pub mod text;
pub mod types;
pub mod media_time;
pub mod layout;
pub mod processor;
pub mod theme;
pub mod gui;
pub mod cli;
