//! The error codes the system calls report for each kind of I/O failure, by
//! their numbers in the C library the simulated programs link against.

use crate::os::io_error::{
    spec_close_errno, spec_read_errno, spec_seek_errno, spec_write_errno, IoErrorKind,
};
use vstd::prelude::*;

verus! {

/// A failed `read` reports `EFAULT` (14) for a bad address, `EAGAIN` (11)
/// when it would block, `EISDIR` (21) on a directory, `EINVAL` (22) for bad
/// input, `EINTR` (4) when interrupted and `EIO` (5) for anything else.
pub proof fn law_read_error_codes(kind: IoErrorKind)
    ensures
        spec_read_errno(kind) == match kind {
            IoErrorKind::AddrNotAvailable => 14,
            IoErrorKind::WouldBlock => 11,
            IoErrorKind::IsADirectory => 21,
            IoErrorKind::InvalidInput => 22,
            IoErrorKind::Interrupted => 4,
            _ => 5i32,
        },
{
}

/// A failed `write` reports `EPERM` (1) when not permitted, `EFAULT` (14) for
/// a bad address, `EPIPE` (32) on a broken pipe, `EAGAIN` (11) when it would
/// block, `EINVAL` (22) on a read-only file system, `ENOSPC` (28) when the
/// storage is full, `EFBIG` (27) when the file grows too large, `EINTR` (4)
/// when interrupted and `EIO` (5) for anything else.
pub proof fn law_write_error_codes(kind: IoErrorKind)
    ensures
        spec_write_errno(kind) == match kind {
            IoErrorKind::PermissionDenied => 1,
            IoErrorKind::AddrNotAvailable => 14,
            IoErrorKind::BrokenPipe => 32,
            IoErrorKind::WouldBlock => 11,
            IoErrorKind::ReadOnlyFilesystem => 22,
            IoErrorKind::StorageFull => 28,
            IoErrorKind::FileTooLarge => 27,
            IoErrorKind::Interrupted => 4,
            _ => 5i32,
        },
{
}

/// A failed `close` reports `ENOSPC` (28) when the storage is full, `EINTR`
/// (4) when interrupted and `EIO` (5) for anything else; a failed `lseek`
/// reports `ESPIPE` (29) on a stream that cannot seek and `EOVERFLOW` (139)
/// otherwise.
pub proof fn law_close_and_seek_error_codes(kind: IoErrorKind)
    ensures
        spec_close_errno(kind) == match kind {
            IoErrorKind::StorageFull => 28,
            IoErrorKind::Interrupted => 4,
            _ => 5i32,
        },
        spec_seek_errno(kind) == match kind {
            IoErrorKind::NotSeekable => 29,
            _ => 139i32,
        },
{
}

} // verus!
