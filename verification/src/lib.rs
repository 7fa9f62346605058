//! Turns what a filesystem reports about a path into one line of JSON.
//!
//! The library works on plain values: the caller reads the path names and
//! queries the filesystem, and hands over what came back. Everything that is
//! decided from there on (which file type a path has, which shape its
//! permissions take, how its modification time is written, how the record is
//! laid out as JSON, and when a run over many paths stops) is decided here.

pub mod stat;
