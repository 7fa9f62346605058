//! What one metadata query reports about a filesystem entry, as plain values.

use vstd::prelude::*;

verus! {

/// The answers of the platform's file-type predicates for one entry.
///
/// On a platform without devices, FIFOs or sockets the last four are `false`.
#[derive(Clone, Copy, Debug, PartialEq, Eq)]
pub struct FileTypeProbe {
    pub is_dir: bool,
    pub is_file: bool,
    pub is_symlink: bool,
    pub is_block_device: bool,
    pub is_char_device: bool,
    pub is_fifo: bool,
    pub is_socket: bool,
}

/// What the platform exposes of an entry's permissions.
///
/// `mode` holds the POSIX permission bits where the platform has them and is
/// `None` where it has not; `readonly` is the coarse flag every platform has.
#[derive(Clone, Copy, Debug, PartialEq, Eq)]
pub struct PermissionsProbe {
    pub mode: Option<u32>,
    pub readonly: bool,
}

/// A point in time: the nanoseconds between the Unix epoch
/// (1970-01-01T00:00:00Z) and it, negative before the epoch.
#[derive(Clone, Copy, Debug, PartialEq, Eq)]
pub struct Timestamp {
    pub unix_nanos: i128,
}

impl Timestamp {
    /// The point in time that lies `secs` seconds and `nanos` nanoseconds
    /// after the epoch.
    pub fn after_epoch(secs: u64, nanos: u32) -> (t: Timestamp)
        ensures
            t.unix_nanos == secs * 1_000_000_000 + nanos,
    {
        Timestamp { unix_nanos: (secs as i128) * 1_000_000_000 + (nanos as i128) }
    }

    /// The point in time that lies `secs` seconds and `nanos` nanoseconds
    /// before the epoch.
    pub fn before_epoch(secs: u64, nanos: u32) -> (t: Timestamp)
        ensures
            t.unix_nanos == -(secs * 1_000_000_000 + nanos),
    {
        Timestamp { unix_nanos: -((secs as i128) * 1_000_000_000 + (nanos as i128)) }
    }
}

/// What one successful metadata query reports about an entry.
#[derive(Clone, Copy, Debug, PartialEq, Eq)]
pub struct Metadata {
    /// The length in bytes, as the filesystem gives it.
    pub len: u64,
    pub permissions: PermissionsProbe,
    /// The time of the last modification; `None` where the platform cannot
    /// supply one.
    pub modified: Option<Timestamp>,
    pub file_type: FileTypeProbe,
}

} // verus!
