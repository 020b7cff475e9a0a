//! The disk tier's rule. Files are read and written elsewhere; what is
//! decided here is whether a file that was found may be served.
//!
//! A resource lives at the path of its key text below the cache root. Its
//! modification time is the moment it was stored, and the same expiry
//! window applies as in memory.

use crate::clock::is_fresh_age;
use crate::clock::EXPIRY_NANOS;
use vstd::prelude::*;

verus! {

/// What a look at a path in the disk tier found.
#[derive(Clone, Copy, Debug, PartialEq, Eq)]
pub enum FileProbe {
    /// Nothing could be learned of the path.
    Missing,
    /// Something other than a regular file.
    NotAFile,
    /// A regular file whose modification time cannot be read, or is later
    /// than the present.
    Undated,
    /// A regular file that was last modified this many nanoseconds ago.
    Aged(u128),
}

/// Whether the file that was found may be served: a regular file, modified
/// within the expiry window.
pub open spec fn is_servable(probe: FileProbe) -> bool {
    probe matches FileProbe::Aged(age) && is_fresh_age(age)
}

/// What is made of a path whose metadata could be read: whether it is a
/// regular file, and the age of its last modification where that is known
/// and not negative.
pub open spec fn found(is_file: bool, age: Option<u128>) -> FileProbe {
    if !is_file {
        FileProbe::NotAFile
    } else {
        match age {
            Some(age) => FileProbe::Aged(age),
            None => FileProbe::Undated,
        }
    }
}

impl FileProbe {
    /// What is made of a path whose metadata could be read. The result may
    /// be served exactly if the path is a regular file of known age within
    /// the expiry window.
    pub fn found(is_file: bool, age: Option<u128>) -> (probe: FileProbe)
        ensures
            probe == found(is_file, age),
            is_servable(probe) <==> is_file && (age matches Some(a) && is_fresh_age(a)),
    {
        if !is_file {
            FileProbe::NotAFile
        } else {
            match age {
                Some(age) => FileProbe::Aged(age),
                None => FileProbe::Undated,
            }
        }
    }

    /// Whether the file that was found may be served.
    pub fn is_servable(&self) -> (b: bool)
        ensures
            b == is_servable(*self),
    {
        match self {
            FileProbe::Aged(age) => *age < EXPIRY_NANOS,
            _ => false,
        }
    }
}

/// A file as old as the expiry window, or older, is never served.
pub proof fn law_stale_file_is_a_miss(age: u128)
    requires
        age >= EXPIRY_NANOS,
    ensures
        !is_servable(FileProbe::Aged(age)),
{
}

} // verus!
