//! Properties that hold across the operations of the library.

pub mod decode;
pub mod errors;
pub mod registers;
pub mod ui;

use crate::memory::{le_bytes, Address};
use crate::os::loader::{load_result, loadable, LoaderError, ProgramStart, STACK_SIZE};
use crate::os::{as_signed, as_unsigned, current_heap_end, spec_read_bytes, spec_write_bytes, OsState};
use crate::ui::selected::{next_index, prev_index};
use vstd::prelude::*;

verus! {

/// Reading back a range that was just written gives the bytes written to it.
pub proof fn law_read_after_write(mem: Seq<u8>, start: Address, end: Address, data: Seq<u8>)
    requires
        start <= end,
        end <= mem.len(),
        end - start <= data.len(),
    ensures
        spec_read_bytes(spec_write_bytes(mem, start, end, data), start as int, end as int)
            == data.take(end - start),
{
    let written = spec_write_bytes(mem, start, end, data);
    assert(spec_read_bytes(written, start as int, end as int) =~= data.take(end - start));
}

/// Writing a range touches no byte outside it.
pub proof fn law_write_is_local(mem: Seq<u8>, start: Address, end: Address, data: Seq<u8>, addr: int)
    requires
        start <= end,
        end <= mem.len(),
        0 <= addr < mem.len(),
        !(start <= addr < end),
    ensures
        spec_write_bytes(mem, start, end, data)[addr] == mem[addr],
        spec_write_bytes(mem, start, end, data).len() == mem.len(),
{
}

/// Writing back the bytes just read from a range leaves memory as it was.
pub proof fn law_write_back_read_is_identity(mem: Seq<u8>, start: Address, end: Address)
    requires
        start <= end,
        end <= mem.len(),
    ensures
        spec_write_bytes(mem, start, end, spec_read_bytes(mem, start as int, end as int)) == mem,
{
    let bytes = spec_read_bytes(mem, start as int, end as int);
    assert(spec_write_bytes(mem, start, end, bytes) =~= mem);
}

/// The four bytes stored for a 32-bit value are its two's-complement pattern,
/// least significant byte first.
pub proof fn law_le_bytes_value(value: i32)
    ensures
        le_bytes(value).len() == 4,
        le_bytes(value)[0] + 0x100 * le_bytes(value)[1] + 0x1_0000 * le_bytes(value)[2]
            + 0x100_0000 * le_bytes(value)[3] == as_unsigned(value as int),
{
    let v = value as u32;
    assert(v as int == (if value >= 0 {
        value as int
    } else {
        value + 0x1_0000_0000
    })) by (bit_vector)
        requires
            v == value as u32,
    ;
    assert((v & 0xff) as u8 + 0x100 * ((v >> 8u32) & 0xff) as u8 + 0x1_0000 * ((v >> 16u32)
        & 0xff) as u8 + 0x100_0000 * (v >> 24u32) as u8 == v) by (bit_vector);
}

/// Stepping to the next item and back returns to where one started, unless one
/// started on the last item.
pub proof fn law_prev_undoes_next(count: nat, index: nat)
    requires
        index + 1 < count,
    ensures
        prev_index(next_index(count, index)) == index,
{
}

/// Stepping to the previous item and forward again returns to where one
/// started, unless one started on the first item.
pub proof fn law_next_undoes_prev(count: nat, index: nat)
    requires
        0 < index < count,
    ensures
        next_index(count, prev_index(index)) == index,
{
}

/// The selection never leaves the items: stepping either way from one of
/// `count` items lands on one of them, and the ends stay put.
pub proof fn law_selection_stays_in_range(count: nat, index: nat)
    requires
        index < count,
    ensures
        next_index(count, index) < count,
        prev_index(index) < count,
        index + 1 == count ==> next_index(count, index) == index,
        index == 0 ==> prev_index(index) == index,
{
}

/// Once `sbrk` has moved the heap end to a non-zero address, the next `sbrk`
/// starts from there: successive heap blocks follow each other.
pub proof fn law_sbrk_contiguous(s: OsState, incr: i32)
    requires
        i32::MIN <= as_signed(current_heap_end(s)) + incr <= i32::MAX,
        as_unsigned(as_signed(current_heap_end(s)) + incr) != 0,
    ensures
        ({
            let moved = OsState {
                heap_end: as_unsigned(as_signed(current_heap_end(s)) + incr),
                ..s
            };
            as_signed(current_heap_end(moved)) == as_signed(current_heap_end(s)) + incr
        }),
{
    let v = as_signed(current_heap_end(s)) + incr;
    assert(as_signed(as_unsigned(v)) == v);
}

/// A program that loads starts with its stack pointer `STACK_SIZE` bytes
/// above the end of its static data, as recorded by the operating system, and
/// loading changes nothing else of the operating system but where `errno` is.
pub proof fn law_loaded_stack_above_static_data(
    bin: Seq<u8>,
    mem: Seq<u8>,
    os: OsState,
    start: ProgramStart,
    new_mem: Seq<u8>,
    new_os: OsState,
)
    requires
        loadable(bin, mem.len()),
        load_result(bin, mem, os, Ok::<ProgramStart, LoaderError>(start), new_mem, new_os),
    ensures
        start.stack_pointer == new_os.end_addr + STACK_SIZE,
        new_os == (OsState { errno_addr: new_os.errno_addr, end_addr: new_os.end_addr, ..os }),
{
}

} // verus!
