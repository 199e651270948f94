use vstd::prelude::*;

verus! {

/// How a file-system operation failed, as far as the decisions care.
#[derive(Clone, Copy, Debug, PartialEq, Eq, Structural)]
pub enum IoKind {
    NotFound,
    PermissionDenied,
    Other,
}

/// Failures of the icon pools and of the rotation schedule.
#[derive(Clone, Copy, Debug, PartialEq, Eq, Structural)]
pub enum BotError {
    /// Invalid settings: bounds out of order, a pool path that is no directory,
    /// a delay too large to represent, a path without a file name.
    Configuration,
    /// A file-system operation failed.
    Io(IoKind),
    /// Both the rename and the copy fallback of a relocation failed (or the
    /// copy worked and removing the source did not); both causes are kept.
    Relocation { rename: IoKind, fallback: IoKind },
    /// A call to the chat platform failed.
    Platform,
}

impl BotError {
    /// Whether this failure is a permission problem that callers downgrade
    /// to a warning.
    pub fn is_permission_denied(&self) -> (r: bool)
        ensures
            r == (*self == BotError::Io(IoKind::PermissionDenied)),
    {
        match self {
            BotError::Io(IoKind::PermissionDenied) => true,
            _ => false,
        }
    }
}

} // verus!
