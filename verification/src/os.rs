//! A minimal operating system serving the system calls of a simulated program.
//!
//! The program's standard streams are the only files it can use: descriptors
//! 0, 1 and 2 are always open and no other descriptor is ever opened.

pub use self::errno::Errno;
use self::io_error::{finish_read, finish_write};
use crate::memory::{splice, Address, Memory};
use crate::ui::streams::{latin1, StdStream};
use core::ops::Range;
use vstd::prelude::*;

pub mod errno;
pub mod io_error;
pub mod loader;

verus! {

/// What a system call returns on success.
pub type OsFnResult = i32;

/// A file descriptor.
pub type Fd = i32;

/// The outcome of a system call: its return value, or the value it returns
/// together with the error code it sets.
pub type Result = core::result::Result<OsFnResult, (OsFnResult, Errno)>;

/// The host's `struct stat` as far as `fstat` needs it.
pub struct StatLayout {
    /// The size of the structure in bytes.
    pub size: u32,
    /// Where `st_mode` starts within the structure.
    pub mode_offset: u32,
    /// The bytes of an `st_mode` that marks a character device.
    pub char_device_mode: Vec<u8>,
}

#[verifier::external_type_specification]
#[verifier::external_body]
pub struct ExStat(libc::stat);

/// The file-type bits of a character device.
pub const CHAR_DEVICE_BITS: u32 = 0o2_0000;

/// `libc::S_IFCHR`: the file-type bits of a character device, which libc
/// defines as `0o20000` for Linux (`linux_like/mod.rs`), as a `mode_t`
/// (`u32` on Linux).
#[verifier::external_body]
fn char_device_bits() -> (r: u32)
    ensures
        r == CHAR_DEVICE_BITS,
{
    libc::S_IFCHR
}

/// The bytes of `x`, least significant first.
pub open spec fn le_u32_bytes(x: u32) -> Seq<u8> {
    seq![(x & 0xff) as u8, ((x >> 8u32) & 0xff) as u8, ((x >> 16u32) & 0xff) as u8, (x >> 24u32) as u8]
}

/// The bytes of `x`, most significant first.
pub open spec fn be_u32_bytes(x: u32) -> Seq<u8> {
    seq![(x >> 24u32) as u8, ((x >> 16u32) & 0xff) as u8, ((x >> 8u32) & 0xff) as u8, (x & 0xff) as u8]
}

/// `u32::to_ne_bytes`: the bytes of `x` in the host's byte order, which is
/// little- or big-endian; which of the two depends on the machine and is not
/// stated.
#[verifier::external_body]
fn native_bytes(x: u32) -> (r: [u8; 4])
    ensures
        r@ == le_u32_bytes(x) || r@ == be_u32_bytes(x),
{
    x.to_ne_bytes()
}

impl StatLayout {
    /// The layout of the host's `struct stat` (`libc::stat`), with `st_mode`
    /// at `mode_offset` and a character device's mode in the host's byte
    /// order; `None` where the structure's size does not fit in a `u32` or a
    /// `mode_t` at `mode_offset` would not fit in the structure.
    pub fn host(mode_offset: u32) -> (r: Option<StatLayout>)
        ensures
            r is Some <==> (vstd::layout::size_of::<libc::stat>() <= u32::MAX && mode_offset + 4
                <= vstd::layout::size_of::<libc::stat>()),
            r matches Some(layout) ==> ({
                &&& layout.size == vstd::layout::size_of::<libc::stat>()
                &&& layout.mode_offset == mode_offset
                &&& (layout.char_device_mode@ == le_u32_bytes(CHAR_DEVICE_BITS)
                    || layout.char_device_mode@ == be_u32_bytes(CHAR_DEVICE_BITS))
            }),
    {
        let size = core::mem::size_of::<libc::stat>();
        if size > u32::MAX as usize {
            return None;
        }
        let size = size as u32;
        if mode_offset > size || size - mode_offset < 4 {
            return None;
        }
        let bytes = native_bytes(char_device_bits());
        Some(StatLayout {
            size,
            mode_offset,
            char_device_mode: vec![bytes[0], bytes[1], bytes[2], bytes[3]],
        })
    }
}

/// The state of the operating system, as seen by system calls.
pub struct OsState {
    /// Where the program keeps `errno`, if it has one.
    pub errno_addr: Option<Address>,
    /// The first address after the program's static data.
    pub end_addr: Address,
    /// The current end of the heap; 0 before the first `sbrk`.
    pub heap_end: Address,
    /// The text of the standard input.
    pub stdin: Seq<char>,
    /// The text written to the standard output.
    pub stdout: Seq<char>,
    /// The text written to the standard error.
    pub stderr: Seq<char>,
}

/// The operating system that serves one simulated program.
pub struct Os {
    errno_addr: Option<Address>,
    _end_addr: Address,
    heap_end: Address,
    stdin: StdStream,
    stdout: StdStream,
    stderr: StdStream,
}

impl View for Os {
    type V = OsState;

    closed spec fn view(&self) -> OsState {
        OsState {
            errno_addr: self.errno_addr,
            end_addr: self._end_addr,
            heap_end: self.heap_end,
            stdin: self.stdin@,
            stdout: self.stdout@,
            stderr: self.stderr@,
        }
    }
}

/// The bytes of `mem` from `start` up to `end`.
pub open spec fn spec_read_bytes(mem: Seq<u8>, start: int, end: int) -> Seq<u8> {
    mem.subrange(start, end)
}

/// How many bytes `write_bytes` stores: as many as both the range and the data hold.
pub open spec fn write_count(start: Address, end: Address, data_len: nat) -> nat {
    if end <= start {
        0
    } else if (end - start) < data_len {
        (end - start) as nat
    } else {
        data_len
    }
}

/// `mem` after `write_bytes` stores `data` into the addresses from `start` up to `end`.
pub open spec fn spec_write_bytes(mem: Seq<u8>, start: Address, end: Address, data: Seq<u8>) -> Seq<
    u8,
> {
    splice(mem, start as int, data.take(write_count(start, end, data.len()) as int))
}

/// Reads the bytes of `mem` in `addr_range`.
pub fn read_bytes(mem: &Memory, addr_range: Range<Address>) -> (r: Vec<u8>)
    requires
        addr_range.start <= addr_range.end,
        addr_range.end <= mem@.len(),
    ensures
        r@ == spec_read_bytes(mem@, addr_range.start as int, addr_range.end as int),
{
    let mut bytes = Vec::<u8>::with_capacity((addr_range.end - addr_range.start) as usize);
    let mut addr = addr_range.start;
    while addr < addr_range.end
        invariant
            addr_range.start <= addr <= addr_range.end,
            addr_range.end <= mem@.len(),
            bytes@ == mem@.subrange(addr_range.start as int, addr as int),
        decreases addr_range.end - addr,
    {
        bytes.push(mem.read(addr));
        proof {
            assert(bytes@ =~= mem@.subrange(addr_range.start as int, addr + 1));
        }
        addr = addr + 1;
    }
    bytes
}

/// Stores `data` into the addresses of `addr_range`, stopping at whichever
/// runs out first.
pub fn write_bytes(mem: &mut Memory, addr_range: Range<Address>, data: &[u8])
    requires
        addr_range.start + write_count(addr_range.start, addr_range.end, data@.len())
            <= old(mem)@.len(),
    ensures
        final(mem)@ == spec_write_bytes(old(mem)@, addr_range.start, addr_range.end, data@),
{
    let count = write_count_exec(addr_range.start, addr_range.end, data.len());
    let mut i: usize = 0;
    while i < count
        invariant
            i <= count,
            count == write_count(addr_range.start, addr_range.end, data@.len()),
            addr_range.start + count <= old(mem)@.len(),
            mem@ == splice(old(mem)@, addr_range.start as int, data@.take(i as int)),
        decreases count - i,
    {
        mem.write(addr_range.start + i as Address, data[i]);
        proof {
            assert(mem@ =~= splice(old(mem)@, addr_range.start as int, data@.take(i + 1)));
        }
        i = i + 1;
    }
}

/// `x` read as a two's-complement 32-bit number.
pub open spec fn as_signed(x: u32) -> int {
    if x < 0x8000_0000 {
        x as int
    } else {
        x - 0x1_0000_0000
    }
}

/// The 32-bit pattern of the two's-complement number `v`.
pub open spec fn as_unsigned(v: int) -> u32 {
    if v >= 0 {
        v as u32
    } else {
        (v + 0x1_0000_0000) as u32
    }
}

/// The heap end that `sbrk` starts from: the end of static data until the
/// heap has been set up.
pub open spec fn current_heap_end(s: OsState) -> Address {
    if s.heap_end == 0 {
        s.end_addr
    } else {
        s.heap_end
    }
}

/// Whether moving the heap end of `s` by `incr` stays within 32-bit signed
/// arithmetic.
pub open spec fn sbrk_defined(s: OsState, incr: i32) -> bool {
    i32::MIN <= as_signed(current_heap_end(s)) + incr <= i32::MAX
}

/// `x` as a two's-complement number, computed.
fn to_signed(x: u32) -> (r: i32)
    ensures
        r == as_signed(x),
{
    let r = x as i32;
    assert(r as int == (if x < 0x8000_0000 {
        x as int
    } else {
        x - 0x1_0000_0000
    })) by (bit_vector)
        requires
            r == x as i32,
    ;
    r
}

/// The 32-bit pattern of `v`, computed.
fn to_unsigned(v: i32) -> (r: u32)
    ensures
        r == as_unsigned(v as int),
{
    let r = v as u32;
    assert(r as int == (if v >= 0 {
        v as int
    } else {
        v + 0x1_0000_0000
    })) by (bit_vector)
        requires
            r == v as u32,
    ;
    r
}

impl Os {
    /// An operating system with the given standard streams, before any
    /// program has been loaded.
    pub fn new(stdin: StdStream, stdout: StdStream, stderr: StdStream) -> (r: Self)
        ensures
            r@ == (OsState {
                errno_addr: None,
                end_addr: 0,
                heap_end: 0,
                stdin: stdin@,
                stdout: stdout@,
                stderr: stderr@,
            }),
    {
        Os { errno_addr: None, _end_addr: 0, heap_end: 0, stdin, stdout, stderr }
    }

    /// The standard input.
    pub fn stdin(&self) -> (r: &StdStream)
        ensures
            r@ == self@.stdin,
    {
        &self.stdin
    }

    /// The standard input, for changing it.
    pub fn stdin_mut(&mut self) -> (r: &mut StdStream)
        ensures
            r@ == old(self)@.stdin,
            final(self)@ == (OsState { stdin: final(r)@, ..old(self)@ }),
    {
        &mut self.stdin
    }

    /// The standard output.
    pub fn stdout(&self) -> (r: &StdStream)
        ensures
            r@ == self@.stdout,
    {
        &self.stdout
    }

    /// The standard error.
    pub fn stderr(&self) -> (r: &StdStream)
        ensures
            r@ == self@.stderr,
    {
        &self.stderr
    }

    /// Records where the program keeps `errno`.
    fn set_errno_addr(&mut self, addr: Option<Address>)
        ensures
            final(self)@ == (OsState { errno_addr: addr, ..old(self)@ }),
    {
        self.errno_addr = addr;
    }

    /// Records the first address after the program's static data.
    #[allow(non_snake_case)]
    fn set__end_addr(&mut self, addr: Address)
        ensures
            final(self)@ == (OsState { end_addr: addr, ..old(self)@ }),
    {
        self._end_addr = addr;
    }

    /// Stores `errno` where the program keeps it; does nothing when the program
    /// has no `errno`.
    pub fn set_errno(&mut self, mem: &mut Memory, errno: Errno)
        requires
            old(self)@.errno_addr matches Some(addr) ==> addr + 4 <= old(mem)@.len(),
        ensures
            final(self)@ == old(self)@,
            final(mem)@ == (match old(self)@.errno_addr {
                Some(addr) => splice(old(mem)@, addr as int, crate::memory::le_bytes(errno)),
                None => old(mem)@,
            }),
    {
        if let Some(addr) = self.errno_addr {
            mem.write_i32(addr, errno);
        }
    }

    /// `close`: only the standard streams are open, and they cannot be closed.
    pub fn close(&mut self, file: Fd) -> (r: Result)
        ensures
            r == Err::<OsFnResult, (OsFnResult, Errno)>((-1i32, errno::EBADF)),
            final(self)@ == old(self)@,
    {
        if file < 0 {
            return Err((-1i32, errno::EBADF));
        }
        if 0 <= file && file <= 2 {
            return Err((-1i32, errno::EBADF));
        }
        Err((-1i32, errno::EBADF))
    }

    /// `lseek`: the standard streams cannot seek, and no other file is open.
    pub fn lseek(&mut self, file: Fd, offset: i32, whence: i32) -> (r: Result)
        ensures
            r == (if 0 <= file <= 2 {
                Err::<OsFnResult, (OsFnResult, Errno)>((-1i32, errno::ESPIPE))
            } else {
                Err((-1i32, errno::EBADF))
            }),
            final(self)@ == old(self)@,
    {
        if file < 0 {
            return Err((-1i32, errno::EBADF));
        }
        if 0 <= file && file <= 2 {
            return Err((-1i32, errno::ESPIPE));
        }
        Err((-1i32, errno::EBADF))
    }

    /// `sbrk`: moves the end of the heap by `incr` and returns where it was.
    ///
    /// The move fails with `ENOMEM` when the new end would pass `stack_ptr`;
    /// the heap end has moved all the same.
    pub fn sbrk(&mut self, stack_ptr: Address, incr: i32) -> (r: Result)
        requires
            sbrk_defined(old(self)@, incr),
        ensures
            ({
                let start = current_heap_end(old(self)@);
                let new_end = as_unsigned(as_signed(start) + incr);
                &&& final(self)@ == (OsState { heap_end: new_end, ..old(self)@ })
                &&& r == (if new_end > stack_ptr {
                    Err::<OsFnResult, (OsFnResult, Errno)>((-1i32, errno::ENOMEM))
                } else {
                    Ok(as_signed(start) as i32)
                })
            }),
    {
        if self.heap_end == 0 {
            self.heap_end = self._end_addr;
        }

        let prev_heap_end = self.heap_end;
        self.heap_end = to_unsigned(to_signed(self.heap_end) + incr);
        if self.heap_end > stack_ptr {
            return Err((-1i32, errno::ENOMEM));
        }

        Ok(to_signed(prev_heap_end))
    }

    /// `read`: the standard input never has data, so reading it gives 0 bytes;
    /// no other descriptor can be read. Memory is left as it was.
    pub fn read(&mut self, mem: &mut Memory, file: Fd, buf: Address, count: u32) -> (r: Result)
        requires
            file >= 0 ==> buf + count <= u32::MAX && buf + count <= old(mem)@.len(),
        ensures
            r == (if file == 0 {
                Ok::<OsFnResult, (OsFnResult, Errno)>(0)
            } else {
                Err((-1i32, errno::EBADF))
            }),
            final(self)@ == old(self)@,
            final(mem)@ == old(mem)@,
    {
        if file < 0 {
            return Err((-1i32, errno::EBADF));
        }
        let addr_range = buf..buf + count;
        let mut bytes = read_bytes(mem, buf..buf + count);
        match file {
            0 => {
                let byte_count = self.stdin.read(bytes.as_mut_slice());
                let r = finish_read(mem, addr_range, bytes.as_slice(), Ok(byte_count));
                proof {
                    assert(bytes@.take(count as int) =~= bytes@);
                    assert(mem@ =~= old(mem)@);
                }
                r
            },
            _ => Err((-1i32, errno::EBADF)),
        }
    }

    /// `write`: appends the `count` bytes at `buf` to the standard output
    /// (descriptor 1) or the standard error (descriptor 2), as Latin-1 text, and
    /// returns `count`; no other descriptor can be written.
    pub fn write(&mut self, mem: &Memory, file: Fd, buf: Address, count: u32) -> (r: Result)
        requires
            file >= 0 ==> buf + count <= u32::MAX && buf + count <= mem@.len(),
        ensures
            ({
                let text = latin1(mem@.subrange(buf as int, buf + count));
                if file == 1 {
                    &&& r == Ok::<OsFnResult, (OsFnResult, Errno)>(count as i32)
                    &&& final(self)@ == (OsState { stdout: old(self)@.stdout + text, ..old(self)@ })
                } else if file == 2 {
                    &&& r == Ok::<OsFnResult, (OsFnResult, Errno)>(count as i32)
                    &&& final(self)@ == (OsState { stderr: old(self)@.stderr + text, ..old(self)@ })
                } else {
                    &&& r == Err::<OsFnResult, (OsFnResult, Errno)>((-1i32, errno::EBADF))
                    &&& final(self)@ == old(self)@
                }
            }),
    {
        if file < 0 {
            return Err((-1i32, errno::EBADF));
        }
        let bytes = read_bytes(mem, buf..buf + count);
        let byte_count = match file {
            0 => return Err((-1i32, errno::EBADF)),
            1 => self.stdout.write(bytes.as_slice()),
            2 => self.stderr.write(bytes.as_slice()),
            _ => return Err((-1i32, errno::EBADF)),
        };
        assert((count as usize) as i32 == count as i32) by (bit_vector);
        finish_write(Ok(byte_count))
    }

    /// `fstat`: a standard stream is reported as a character device by setting
    /// the `st_mode` of the `stat` structure at `statbuf`; the rest of the
    /// structure is left as it was. No other descriptor is open.
    pub fn fstat(&mut self, mem: &mut Memory, file: Fd, statbuf: Address, layout: &StatLayout) -> (r:
        Result)
        requires
            layout.mode_offset + layout.char_device_mode@.len() <= layout.size,
            0 <= file <= 2 ==> statbuf + layout.size <= u32::MAX && statbuf + layout.size
                <= old(mem)@.len(),
        ensures
            final(self)@ == old(self)@,
            0 <= file <= 2 ==> r == Ok::<OsFnResult, (OsFnResult, Errno)>(0) && final(mem)@ == splice(
                old(mem)@,
                statbuf + layout.mode_offset,
                layout.char_device_mode@,
            ),
            !(0 <= file <= 2) ==> r == Err::<OsFnResult, (OsFnResult, Errno)>((-1i32, errno::EBADF))
                && final(mem)@ == old(mem)@,
    {
        if file < 0 {
            return Err((-1i32, errno::EBADF));
        }
        if file <= 2 {
            let addr_range = statbuf..statbuf + layout.size;
            let mut bytes = read_bytes(mem, statbuf..statbuf + layout.size);
            let ghost before = bytes@;
            let offset = layout.mode_offset as usize;
            let mode = &layout.char_device_mode;
            let mut i: usize = 0;
            while i < mode.len()
                invariant
                    i <= mode@.len(),
                    offset + mode@.len() <= before.len(),
                    before.len() == layout.size,
                    bytes@.len() == before.len(),
                    bytes@ == splice(before, offset as int, mode@.take(i as int)),
                decreases mode.len() - i,
            {
                bytes.set(offset + i, mode[i]);
                proof {
                    assert(bytes@ =~= splice(before, offset as int, mode@.take(i + 1)));
                }
                i = i + 1;
            }
            write_bytes(mem, addr_range, bytes.as_slice());
            proof {
                assert(mode@.take(mode@.len() as int) =~= mode@);
                assert(bytes@.take(layout.size as int) =~= bytes@);
                assert(mem@ =~= splice(
                    old(mem)@,
                    statbuf + layout.mode_offset,
                    layout.char_device_mode@,
                ));
            }
            Ok(0)
        } else {
            Err((-1i32, errno::EBADF))
        }
    }
}

/// [`write_count`], computed.
fn write_count_exec(start: Address, end: Address, data_len: usize) -> (r: usize)
    ensures
        r == write_count(start, end, data_len as nat),
{
    if end <= start {
        0
    } else if ((end - start) as usize) < data_len {
        (end - start) as usize
    } else {
        data_len
    }
}

} // verus!
