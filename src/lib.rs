//! Secure file deletion: overwrite a file's content according to a sanitization
//! standard, verify the overwrite, and only then remove the file.
//!
//! The library decides; the caller performs. [`session::WipeSession`] is the
//! orchestrator of one wipe: it is fed the outcome of each file operation and
//! answers with the next operation to perform, until it finishes.

pub mod patterns;
pub mod plan;
pub mod secure_erase;
pub mod session;
pub mod standards;
pub mod storage;
pub mod text;

use vstd::prelude::*;
use crate::standards::WipeStandard;
use crate::storage::StorageType;

verus! {

/// `std::io::Error`, carried unopened in `WipeError::Io` from the caller's
/// I/O back to the caller.
#[verifier::external_type_specification]
#[verifier::external_body]
pub struct ExIoError(std::io::Error);

/// `std::num::ParseIntError`, carried unopened in `WipeError::Parse`.
#[verifier::external_type_specification]
#[verifier::external_body]
pub struct ExParseIntError(std::num::ParseIntError);

/// The ways a wipe can fail.
#[derive(Debug)]
pub enum WipeError {
    /// an operating-system I/O failure (not found, permission denied, device fault)
    Io(std::io::Error),
    /// content read back did not match what was written
    VerificationFailed(String),
    /// the platform or device cannot do what was asked, or a safety check refused it
    UnsupportedOperation(String),
    /// a collaborator handed back malformed numeric text
    Parse(std::num::ParseIntError),
}

/// Smallest write chunk, in bytes.
pub const MIN_BUFFER_SIZE: usize = 4096;

/// Largest write chunk, in bytes.
pub const MAX_BUFFER_SIZE: usize = 16777216;

/// Write chunk of a new shredder, in bytes.
pub const DEFAULT_BUFFER_SIZE: usize = 1048576;

/// Smallest pass buffer for files of at least this many bytes.
pub const MIN_PASS_BUFFER: u64 = 4096;

/// Largest pass buffer, in bytes.
pub const MAX_PASS_BUFFER: u64 = 8388608;

/// `size` brought into `[lo, hi]`.
pub open spec fn clamp(size: int, lo: int, hi: int) -> int {
    if size < lo {
        lo
    } else if size > hi {
        hi
    } else {
        size
    }
}

/// Length of the buffer one pass is generated into: the whole file when it is
/// smaller than a page, else about one percent of it within `[4 KiB, 8 MiB]`.
pub open spec fn optimal_buffer_size(file_size: u64) -> int {
    if file_size < MIN_PASS_BUFFER {
        file_size as int
    } else {
        clamp(file_size as int / 100, MIN_PASS_BUFFER as int, MAX_PASS_BUFFER as int)
    }
}

/// A wipe policy: a standard, the device it runs on, and the write chunk size.
/// It holds no state between wipes and can be reused.
#[derive(Debug, Clone)]
pub struct Shredder {
    standard: WipeStandard,
    storage_type: StorageType,
    buffer_size: usize,
}

impl Shredder {
    /// The configured standard.
    pub closed spec fn standard(&self) -> WipeStandard {
        self.standard
    }

    /// The configured device.
    pub closed spec fn storage_type(&self) -> StorageType {
        self.storage_type
    }

    /// The configured write chunk size.
    pub closed spec fn buffer_size(&self) -> usize {
        self.buffer_size
    }

    /// A usable policy: well-formed patterns and a chunk size within bounds.
    pub open spec fn wf(&self) -> bool {
        &&& self.standard().wf()
        &&& MIN_BUFFER_SIZE <= self.buffer_size() <= MAX_BUFFER_SIZE
    }

    /// A policy for `standard` on `storage_type`, writing in 1 MiB chunks.
    pub fn new(standard: WipeStandard, storage_type: StorageType) -> (r: Self)
        requires
            standard.wf(),
        ensures
            r.wf(),
            r.standard() == standard,
            r.storage_type() == storage_type,
            r.buffer_size() == DEFAULT_BUFFER_SIZE,
    {
        Shredder { standard, storage_type, buffer_size: DEFAULT_BUFFER_SIZE }
    }

    /// The same policy with the write chunk set to `size` clamped to
    /// `[4 KiB, 16 MiB]`.
    pub fn with_buffer_size(self, size: usize) -> (r: Self)
        ensures
            r.standard() == self.standard(),
            r.storage_type() == self.storage_type(),
            r.buffer_size() == clamp(size as int, MIN_BUFFER_SIZE as int, MAX_BUFFER_SIZE as int),
            self.wf() ==> r.wf(),
    {
        let mut s = self;
        s.buffer_size = if size < MIN_BUFFER_SIZE {
            MIN_BUFFER_SIZE
        } else if size > MAX_BUFFER_SIZE {
            MAX_BUFFER_SIZE
        } else {
            size
        };
        s
    }

    /// The write chunk size in bytes.
    pub fn get_buffer_size(&self) -> (r: usize)
        ensures
            r == self.buffer_size(),
    {
        self.buffer_size
    }

    /// Read access to the configured standard.
    pub fn get_standard(&self) -> (r: &WipeStandard)
        ensures
            *r == self.standard(),
    {
        &self.standard
    }

    /// The configured device.
    pub fn get_storage_type(&self) -> (r: StorageType)
        ensures
            r == self.storage_type(),
    {
        self.storage_type
    }

    /// Length of the buffer a pass is generated into for a file of `file_size` bytes.
    pub fn calculate_optimal_buffer_size(&self, file_size: u64) -> (r: usize)
        ensures
            r == optimal_buffer_size(file_size),
    {
        if file_size < MIN_PASS_BUFFER {
            return file_size as usize;
        }
        let share = file_size / 100;
        let scaled = if share < MIN_PASS_BUFFER {
            MIN_PASS_BUFFER
        } else if share > MAX_PASS_BUFFER {
            MAX_PASS_BUFFER
        } else {
            share
        };
        scaled as usize
    }
}

} // verus!
