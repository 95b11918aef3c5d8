//! The error codes that the system calls set when a stream or file fails, by
//! the kind of the failure.

use super::errno::{
    Errno, EAGAIN, EFAULT, EFBIG, EINTR, EINVAL, EIO, EISDIR, ENOSPC, EOVERFLOW, EPERM, EPIPE,
    ESPIPE,
};
use super::{spec_write_bytes, write_bytes, OsFnResult, Result};
use crate::memory::{Address, Memory};
use core::ops::Range;
use vstd::prelude::*;

verus! {

/// The kinds of I/O failure that the system calls tell apart; every other
/// kind is `Other`.
#[derive(Clone, Copy, Debug, PartialEq, Eq, Structural)]
pub enum IoErrorKind {
    PermissionDenied,
    AddrNotAvailable,
    BrokenPipe,
    WouldBlock,
    ReadOnlyFilesystem,
    StorageFull,
    FileTooLarge,
    Interrupted,
    IsADirectory,
    InvalidInput,
    NotSeekable,
    Other,
}

/// The error code of a failed `read`.
pub open spec fn spec_read_errno(kind: IoErrorKind) -> Errno {
    match kind {
        IoErrorKind::AddrNotAvailable => EFAULT,
        IoErrorKind::WouldBlock => EAGAIN,
        IoErrorKind::IsADirectory => EISDIR,
        IoErrorKind::InvalidInput => EINVAL,
        IoErrorKind::Interrupted => EINTR,
        _ => EIO,
    }
}

/// The error code of a failed `write`.
pub open spec fn spec_write_errno(kind: IoErrorKind) -> Errno {
    match kind {
        IoErrorKind::PermissionDenied => EPERM,
        IoErrorKind::AddrNotAvailable => EFAULT,
        IoErrorKind::BrokenPipe => EPIPE,
        IoErrorKind::WouldBlock => EAGAIN,
        IoErrorKind::ReadOnlyFilesystem => EINVAL,
        IoErrorKind::StorageFull => ENOSPC,
        IoErrorKind::FileTooLarge => EFBIG,
        IoErrorKind::Interrupted => EINTR,
        _ => EIO,
    }
}

/// The error code of a failed `close`.
pub open spec fn spec_close_errno(kind: IoErrorKind) -> Errno {
    match kind {
        IoErrorKind::StorageFull => ENOSPC,
        IoErrorKind::Interrupted => EINTR,
        _ => EIO,
    }
}

/// The error code of a failed `lseek`.
pub open spec fn spec_seek_errno(kind: IoErrorKind) -> Errno {
    match kind {
        IoErrorKind::NotSeekable => ESPIPE,
        _ => EOVERFLOW,
    }
}

/// The error code of a failed `read`.
pub fn read_errno(kind: IoErrorKind) -> (r: Errno)
    ensures
        r == spec_read_errno(kind),
{
    match kind {
        IoErrorKind::AddrNotAvailable => EFAULT,
        IoErrorKind::WouldBlock => EAGAIN,
        IoErrorKind::IsADirectory => EISDIR,
        IoErrorKind::InvalidInput => EINVAL,
        IoErrorKind::Interrupted => EINTR,
        _ => EIO,
    }
}

/// The error code of a failed `write`.
pub fn write_errno(kind: IoErrorKind) -> (r: Errno)
    ensures
        r == spec_write_errno(kind),
{
    match kind {
        IoErrorKind::PermissionDenied => EPERM,
        IoErrorKind::AddrNotAvailable => EFAULT,
        IoErrorKind::BrokenPipe => EPIPE,
        IoErrorKind::WouldBlock => EAGAIN,
        IoErrorKind::ReadOnlyFilesystem => EINVAL,
        IoErrorKind::StorageFull => ENOSPC,
        IoErrorKind::FileTooLarge => EFBIG,
        IoErrorKind::Interrupted => EINTR,
        _ => EIO,
    }
}

/// The error code of a failed `close`.
pub fn close_errno(kind: IoErrorKind) -> (r: Errno)
    ensures
        r == spec_close_errno(kind),
{
    match kind {
        IoErrorKind::StorageFull => ENOSPC,
        IoErrorKind::Interrupted => EINTR,
        _ => EIO,
    }
}

/// The error code of a failed `lseek`.
pub fn seek_errno(kind: IoErrorKind) -> (r: Errno)
    ensures
        r == spec_seek_errno(kind),
{
    match kind {
        IoErrorKind::NotSeekable => ESPIPE,
        _ => EOVERFLOW,
    }
}

/// Ends a `read` into the memory range `addr_range` once the stream has
/// answered `outcome`, having left `data` in the buffer: on success the
/// buffer goes to memory and the byte count is returned; on failure memory is
/// left as it was and the error code follows the kind of the failure.
pub fn finish_read(
    mem: &mut Memory,
    addr_range: Range<Address>,
    data: &[u8],
    outcome: core::result::Result<usize, IoErrorKind>,
) -> (r: Result)
    requires
        addr_range.start <= addr_range.end,
        addr_range.end <= old(mem)@.len(),
    ensures
        match outcome {
            Ok(n) => r == Ok::<OsFnResult, (OsFnResult, Errno)>(n as i32) && final(mem)@
                == spec_write_bytes(old(mem)@, addr_range.start, addr_range.end, data@),
            Err(kind) => r == Err::<OsFnResult, (OsFnResult, Errno)>(
                (-1i32, spec_read_errno(kind)),
            ) && final(mem)@ == old(mem)@,
        },
{
    match outcome {
        Ok(byte_count) => {
            write_bytes(mem, addr_range, data);
            Ok(byte_count as i32)
        },
        Err(kind) => Err((-1i32, read_errno(kind))),
    }
}

/// Ends a `write` once the stream has answered `outcome`: the byte count on
/// success; on failure the error code follows the kind of the failure.
pub fn finish_write(outcome: core::result::Result<usize, IoErrorKind>) -> (r: Result)
    ensures
        match outcome {
            Ok(n) => r == Ok::<OsFnResult, (OsFnResult, Errno)>(n as i32),
            Err(kind) => r == Err::<OsFnResult, (OsFnResult, Errno)>(
                (-1i32, spec_write_errno(kind)),
            ),
        },
{
    match outcome {
        Ok(byte_count) => Ok(byte_count as i32),
        Err(kind) => Err((-1i32, write_errno(kind))),
    }
}

} // verus!
