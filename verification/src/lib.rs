//! Sorting of image files into a year/month directory hierarchy by the
//! capture time recorded in their embedded metadata.
//!
//! The library decides; the caller touches the file system. For each file the
//! caller hands over the file's bytes and name and receives the directory to
//! create and the path to move the file to.

pub mod month;
pub mod decimal;
pub mod timestamp;
pub mod destination;
pub mod relocate;
pub mod walker;
