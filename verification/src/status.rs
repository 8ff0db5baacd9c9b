//! Native status codes and the closed set of errors they stand for.

use vstd::prelude::*;

verus! {

/// The integer that the notification module returns for each of its named
/// results. The numbers belong to the native header; this library only relies
/// on what each one means.
#[derive(Clone, Copy, Debug, PartialEq, Eq, Structural)]
pub struct StatusCodes {
    pub success: i32,
    pub module_not_found: i32,
    pub module_missing_export: i32,
    pub unsupported_version: i32,
    pub invalid_argument: i32,
    pub lib_uninitialized: i32,
    pub unsupported_command: i32,
    pub overlay_not_ready: i32,
    pub unsupported_type: i32,
    pub allocation_failed: i32,
    pub invalid_handle: i32,
}

/// Why an operation on the notification overlay failed.
#[derive(Clone, Copy, Debug, PartialEq, Eq, Structural)]
pub enum NotificationError {
    ModuleNotFound,
    ModuleMissingExport,
    UnsupportedVersion,
    InvalidArgument,
    LibUninitialized,
    UnsupportedCommand,
    OverlayNotReady,
    UnsupportedType,
    AllocationFailed,
    InvalidHandle,
    /// A status that is neither success nor one of the named failures; the
    /// raw code is kept.
    Unknown(i32),
    /// The text holds a zero byte, at this index of its UTF-8 encoding.
    InternalZeroByte(usize),
}

impl StatusCodes {
    /// No two named results share a code.
    pub open spec fn distinct(self) -> bool {
        let all = seq![
            self.success,
            self.module_not_found,
            self.module_missing_export,
            self.unsupported_version,
            self.invalid_argument,
            self.lib_uninitialized,
            self.unsupported_command,
            self.overlay_not_ready,
            self.unsupported_type,
            self.allocation_failed,
            self.invalid_handle,
        ];
        forall|i: int, j: int| 0 <= i < j < all.len() ==> all[i] != all[j]
    }

    /// The failure that `value` stands for, or `None` for the success code.
    /// Where two named results share a code, the one listed first wins.
    pub open spec fn error_of(self, value: i32) -> Option<NotificationError> {
        if value == self.success {
            None
        } else if value == self.module_not_found {
            Some(NotificationError::ModuleNotFound)
        } else if value == self.module_missing_export {
            Some(NotificationError::ModuleMissingExport)
        } else if value == self.unsupported_version {
            Some(NotificationError::UnsupportedVersion)
        } else if value == self.invalid_argument {
            Some(NotificationError::InvalidArgument)
        } else if value == self.lib_uninitialized {
            Some(NotificationError::LibUninitialized)
        } else if value == self.unsupported_command {
            Some(NotificationError::UnsupportedCommand)
        } else if value == self.overlay_not_ready {
            Some(NotificationError::OverlayNotReady)
        } else if value == self.unsupported_type {
            Some(NotificationError::UnsupportedType)
        } else if value == self.allocation_failed {
            Some(NotificationError::AllocationFailed)
        } else if value == self.invalid_handle {
            Some(NotificationError::InvalidHandle)
        } else {
            Some(NotificationError::Unknown(value))
        }
    }

    /// What a native call that returned `value` amounts to.
    pub open spec fn outcome(self, value: i32) -> Result<(), NotificationError> {
        match self.error_of(value) {
            None => Ok(()),
            Some(e) => Err(e),
        }
    }

    /// The success code is the only status that is not a failure.
    pub proof fn lemma_only_success_passes(self, value: i32)
        ensures
            self.outcome(value) is Ok <==> value == self.success,
    {
    }

    /// Two different statuses never map to the same result: every failing code
    /// has a failure of its own.
    pub proof fn lemma_outcome_injective(self, a: i32, b: i32)
        requires
            self.outcome(a) == self.outcome(b),
        ensures
            a == b,
    {
    }

    /// With pairwise distinct codes, each named code maps to the failure of
    /// that name.
    pub proof fn lemma_named_codes(self)
        requires
            self.distinct(),
        ensures
            self.error_of(self.success) is None,
            self.error_of(self.module_not_found) == Some(NotificationError::ModuleNotFound),
            self.error_of(self.module_missing_export) == Some(
                NotificationError::ModuleMissingExport,
            ),
            self.error_of(self.unsupported_version) == Some(NotificationError::UnsupportedVersion),
            self.error_of(self.invalid_argument) == Some(NotificationError::InvalidArgument),
            self.error_of(self.lib_uninitialized) == Some(NotificationError::LibUninitialized),
            self.error_of(self.unsupported_command) == Some(NotificationError::UnsupportedCommand),
            self.error_of(self.overlay_not_ready) == Some(NotificationError::OverlayNotReady),
            self.error_of(self.unsupported_type) == Some(NotificationError::UnsupportedType),
            self.error_of(self.allocation_failed) == Some(NotificationError::AllocationFailed),
            self.error_of(self.invalid_handle) == Some(NotificationError::InvalidHandle),
    {
        let all = seq![
            self.success,
            self.module_not_found,
            self.module_missing_export,
            self.unsupported_version,
            self.invalid_argument,
            self.lib_uninitialized,
            self.unsupported_command,
            self.overlay_not_ready,
            self.unsupported_type,
            self.allocation_failed,
            self.invalid_handle,
        ];
        assert forall|i: int, j: int| 0 <= i < j < 11 implies all[i] != all[j] by {}
        assert(all[0] == self.success);
        assert(all[1] == self.module_not_found);
        assert(all[2] == self.module_missing_export);
        assert(all[3] == self.unsupported_version);
        assert(all[4] == self.invalid_argument);
        assert(all[5] == self.lib_uninitialized);
        assert(all[6] == self.unsupported_command);
        assert(all[7] == self.overlay_not_ready);
        assert(all[8] == self.unsupported_type);
        assert(all[9] == self.allocation_failed);
        assert(all[10] == self.invalid_handle);
    }
}

impl NotificationError {
    /// Maps the status of a native call: `Ok` for the success code, and
    /// for every other code the failure that it stands for.
    pub fn try_from(codes: &StatusCodes, value: i32) -> (r: Result<(), NotificationError>)
        ensures
            r == codes.outcome(value),
            r is Ok <==> value == codes.success,
    {
        if value == codes.success {
            Ok(())
        } else if value == codes.module_not_found {
            Err(NotificationError::ModuleNotFound)
        } else if value == codes.module_missing_export {
            Err(NotificationError::ModuleMissingExport)
        } else if value == codes.unsupported_version {
            Err(NotificationError::UnsupportedVersion)
        } else if value == codes.invalid_argument {
            Err(NotificationError::InvalidArgument)
        } else if value == codes.lib_uninitialized {
            Err(NotificationError::LibUninitialized)
        } else if value == codes.unsupported_command {
            Err(NotificationError::UnsupportedCommand)
        } else if value == codes.overlay_not_ready {
            Err(NotificationError::OverlayNotReady)
        } else if value == codes.unsupported_type {
            Err(NotificationError::UnsupportedType)
        } else if value == codes.allocation_failed {
            Err(NotificationError::AllocationFailed)
        } else if value == codes.invalid_handle {
            Err(NotificationError::InvalidHandle)
        } else {
            Err(NotificationError::Unknown(value))
        }
    }

    /// A short description, for callers that want to print the error.
    pub fn message(&self) -> (r: &'static str)
        ensures
            (*self is InternalZeroByte) ==> r@ == "Internal 0-byte"@,
            !(*self is InternalZeroByte) ==> r@ == ""@,
    {
        match self {
            NotificationError::InternalZeroByte(_) => "Internal 0-byte",
            _ => "",
        }
    }
}

} // verus!
