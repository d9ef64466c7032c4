//! Plain-value models of the filesystem metadata that the library reads.

use vstd::prelude::*;

verus! {

/// A point in time, as a duration since the Unix epoch.
#[derive(Clone, Copy, Debug, PartialEq, Eq, Structural)]
pub struct Timestamp {
    /// Whole seconds since the epoch.
    pub secs: u64,
    /// The sub-second remainder, in nanoseconds.
    pub nanos: u32,
}

/// What a successful metadata read reports about an entry. A modification
/// time that the platform cannot give, or that lies before the epoch, is
/// reported as unavailable.
#[derive(Clone, Copy, Debug, PartialEq, Eq, Structural)]
pub struct FsMetadata {
    /// The entry's length in bytes.
    pub len: u64,
    /// The modification time, when available.
    pub modified: Option<Timestamp>,
}

/// The modification time that a best-effort metadata read yields.
pub open spec fn spec_modified_time(m: Option<FsMetadata>) -> Option<Timestamp> {
    match m {
        None => None,
        Some(md) => md.modified,
    }
}

/// The size that a best-effort metadata read yields: the length as a signed
/// 64-bit count, when it fits.
pub open spec fn spec_size(m: Option<FsMetadata>) -> Option<i64> {
    match m {
        None => None,
        Some(md) => if md.len <= 0x7fffffffffffffff {
            Some(md.len as i64)
        } else {
            None
        },
    }
}

/// Best-effort readings off an optional metadata record: a failed metadata
/// read degrades every field to `None` rather than propagating an error.
pub trait MetadataMethods {
    /// The record the readings are taken from.
    spec fn meta_view(&self) -> Option<FsMetadata>;

    /// The modification time, when metadata and time are both available.
    fn get_modified_time(&self) -> (r: Option<Timestamp>)
        ensures
            r == spec_modified_time(self.meta_view()),
    ;

    /// The length as a signed 64-bit count, when metadata is available and
    /// the length fits.
    fn get_size(&self) -> (r: Option<i64>)
        ensures
            r == spec_size(self.meta_view()),
    ;
}

impl MetadataMethods for Option<FsMetadata> {
    open spec fn meta_view(&self) -> Option<FsMetadata> {
        *self
    }

    fn get_modified_time(&self) -> (r: Option<Timestamp>)
        ensures
            r == spec_modified_time(self.meta_view()),
    {
        match self {
            None => None,
            Some(md) => md.modified,
        }
    }

    fn get_size(&self) -> (r: Option<i64>)
        ensures
            r == spec_size(self.meta_view()),
    {
        match self {
            None => None,
            Some(md) => {
                if md.len <= 0x7fffffffffffffff {
                    Some(md.len as i64)
                } else {
                    None
                }
            },
        }
    }
}

} // verus!
