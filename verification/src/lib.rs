//! Browsing a list of podcast episodes and driving one cancellable download
//! at a time: the selection cursor, the destination file name, the progress
//! percentage and the download state machine.

pub mod controller;
pub mod entry;
pub mod filename;
pub mod interaction;
pub mod listing;
pub mod progress;
pub mod selection;
pub mod text;
