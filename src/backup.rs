//! Errors of saving and loading a backup of the configuration and templates.
use vstd::prelude::*;
use crate::library::IoErrorKind;

verus! {

/// Why a backup could not be saved or loaded.
#[derive(Debug, Clone)]
pub enum BackupError {
    WriteFailed,
    FormatFailed,
    FileNotFound,
    BadConfiguration(String),
    FileSystemError(IoErrorKind),
}

} // verus!
