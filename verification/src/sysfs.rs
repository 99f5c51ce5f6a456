//! The sysfs writer: one exact byte string written atomically to one
//! sysfs attribute.
//!
//! The verified core describes each write as a [`SysfsWriteRequest`]
//! (which path, which bytes) and decides the outcome from what the
//! operating system returned: sysfs attributes are line-oriented and
//! accept a single atomic write, so a count smaller than the input is
//! an error, never something to retry.

use vstd::prelude::*;
use vstd::string::StringExecFns;

verus! {

/// Why a sysfs attribute write failed.
#[derive(Debug, Clone, PartialEq, Eq)]
pub enum SystemFileHandlerError {
    /// The attribute path does not exist on this platform.
    SysfsAbsent { fpath: String },
    /// The attribute exists but could not be opened.
    SysfsOpenFailed { fpath: String, errno: i32 },
    /// The write itself failed.
    SysfsWriteFailed { fpath: String, errno: i32 },
    /// The kernel accepted fewer bytes than were supplied.
    SysfsWriteShort { fpath: String, expected: usize, written: usize },
}

/// What the operating system reported for one attempted attribute
/// write: the runtime opens the path, issues one `write`, closes, and
/// hands back which step ended how.
#[derive(Debug, Clone, PartialEq, Eq)]
pub enum SysfsOutcome {
    /// The path was not there at all.
    Absent,
    /// `open` failed with this errno.
    OpenFailed { errno: i32 },
    /// `write` failed with this errno.
    WriteFailed { errno: i32 },
    /// `write` returned, accepting this many bytes.
    Written { count: usize },
}

/// One exact byte string to be written to one sysfs attribute.
#[derive(Debug)]
pub struct SysfsWriteRequest {
    pub path: String,
    pub data: Vec<u8>,
}

/// The verdict the sysfs writer reaches for a request and what the
/// operating system reported for it.
pub open spec fn spec_complete(
    path: Seq<char>,
    data: Seq<u8>,
    outcome: SysfsOutcome,
    r: Result<(), SystemFileHandlerError>,
) -> bool {
    match outcome {
        SysfsOutcome::Absent => r matches Err(SystemFileHandlerError::SysfsAbsent { fpath })
            && fpath@ == path,
        SysfsOutcome::OpenFailed { errno } => r matches Err(
            SystemFileHandlerError::SysfsOpenFailed { fpath, errno: e },
        ) && fpath@ == path && e == errno,
        SysfsOutcome::WriteFailed { errno } => r matches Err(
            SystemFileHandlerError::SysfsWriteFailed { fpath, errno: e },
        ) && fpath@ == path && e == errno,
        SysfsOutcome::Written { count } => if count == data.len() {
            r is Ok
        } else {
            r matches Err(SystemFileHandlerError::SysfsWriteShort { fpath, expected, written })
                && fpath@ == path && expected == data.len() && written == count
        },
    }
}

impl SysfsWriteRequest {
    /// Package one attribute write.
    pub fn new(path: String, data: Vec<u8>) -> (r: Self)
        ensures
            r.path@ == path@,
            r.data@ == data@,
    {
        SysfsWriteRequest { path, data }
    }

    /// Judge what the operating system reported for this request: the
    /// write succeeded only if every byte was accepted in one call.
    pub fn complete(&self, outcome: SysfsOutcome) -> (r: Result<(), SystemFileHandlerError>)
        ensures
            spec_complete(self.path@, self.data@, outcome, r),
            (outcome matches SysfsOutcome::Written { count } && count == self.data@.len()) <==> r
                is Ok,
    {
        match outcome {
            SysfsOutcome::Absent => Err(
                SystemFileHandlerError::SysfsAbsent { fpath: self.path.clone() },
            ),
            SysfsOutcome::OpenFailed { errno } => Err(
                SystemFileHandlerError::SysfsOpenFailed { fpath: self.path.clone(), errno },
            ),
            SysfsOutcome::WriteFailed { errno } => Err(
                SystemFileHandlerError::SysfsWriteFailed { fpath: self.path.clone(), errno },
            ),
            SysfsOutcome::Written { count } => {
                if count == self.data.len() {
                    Ok(())
                } else {
                    Err(
                        SystemFileHandlerError::SysfsWriteShort {
                            fpath: self.path.clone(),
                            expected: self.data.len(),
                            written: count,
                        },
                    )
                }
            },
        }
    }
}

} // verus!
