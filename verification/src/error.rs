//! Why a pass cannot run at all.

use vstd::prelude::*;

verus! {

/// The errors that are fatal to a whole pass. Each of them is found before
/// any file is touched.
#[derive(Clone, Copy, Debug, PartialEq, Eq, Structural)]
pub enum PassError {
    /// The exclude pattern is no valid glob.
    InvalidExclude,
    /// The minimum size is no valid size expression.
    InvalidMinSize,
    /// The directory cannot be listed.
    Unlistable,
    /// The directory holds no source file, so there is no latest file to protect.
    NoFiles,
}

impl PassError {
    /// A sentence for the operator.
    pub fn message(&self) -> (r: &'static str)
        ensures
            r@ == match *self {
                PassError::InvalidExclude => "exclude is not a valid glob pattern"@,
                PassError::InvalidMinSize => "minimum size is not a valid size expression"@,
                PassError::Unlistable => "directory cannot be listed"@,
                PassError::NoFiles => "No files in directory"@,
            },
    {
        match self {
            PassError::InvalidExclude => "exclude is not a valid glob pattern",
            PassError::InvalidMinSize => "minimum size is not a valid size expression",
            PassError::Unlistable => "directory cannot be listed",
            PassError::NoFiles => "No files in directory",
        }
    }
}

} // verus!
