//! Core of a media-download manager: it turns the text output of an external
//! downloader process into a structured progress stream, builds the argument
//! vector that the process is started with, and keeps the registry of
//! cancellation signals for the downloads that are in flight.

pub mod cancel;
pub mod event;
pub mod launcher;
pub mod percent;
pub mod progress;
pub mod records;
pub mod registry;
pub mod supervisor;
pub mod text;
