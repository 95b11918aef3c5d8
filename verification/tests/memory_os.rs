use cpu_sim::memory::Memory;
use cpu_sim::os::errno::{
    EAGAIN, EBADF, EFAULT, EFBIG, EINTR, EINVAL, EIO, EISDIR, ENOMEM, ENOSPC, EOVERFLOW, EPERM, EPIPE,
    ESPIPE,
};
use cpu_sim::os::io_error::{
    close_errno, finish_read, finish_write, read_errno, seek_errno, write_errno, IoErrorKind,
};
use cpu_sim::os::{read_bytes, write_bytes, Os, StatLayout};
use cpu_sim::ui::streams::StdStream;

fn new_os() -> Os {
    Os::new(StdStream::default(), StdStream::default(), StdStream::default())
}

fn memory_with(bytes: &[u8], size: usize) -> Memory {
    let mut mem = Memory::new(size);
    mem.copy_from_slice(0, bytes);
    mem
}

#[test]
fn new_memory_is_zeroed() {
    let mem = Memory::new(16);
    assert_eq!(mem.len(), 16);
    for addr in 0..16 {
        assert_eq!(mem.read(addr), 0);
    }
}

#[test]
fn write_then_read_a_byte() {
    let mut mem = Memory::new(8);
    mem.write(3, 0xAB);
    assert_eq!(mem.read(3), 0xAB);
    assert_eq!(mem.read(2), 0);
}

#[test]
fn write_i32_is_little_endian() {
    let mut mem = Memory::new(8);
    mem.write_i32(2, 0x0102_0304);
    assert_eq!(read_bytes(&mem, 2..6), vec![4, 3, 2, 1]);
    mem.write_i32(0, -1);
    assert_eq!(read_bytes(&mem, 0..4), vec![0xFF; 4]);
}

#[test]
fn read_bytes_takes_the_range() {
    let mem = memory_with(&[1, 2, 3, 4, 5], 8);
    assert_eq!(read_bytes(&mem, 1..4), vec![2, 3, 4]);
    assert_eq!(read_bytes(&mem, 2..2), Vec::<u8>::new());
}

#[test]
fn write_bytes_stores_as_much_as_fits() {
    let mut mem = Memory::new(8);
    write_bytes(&mut mem, 2..4, &[9, 8, 7]);
    assert_eq!(read_bytes(&mem, 0..8), vec![0, 0, 9, 8, 0, 0, 0, 0]);
    write_bytes(&mut mem, 5..8, &[1]);
    assert_eq!(read_bytes(&mem, 0..8), vec![0, 0, 9, 8, 0, 1, 0, 0]);
}

#[test]
fn write_to_stdout_and_stderr() {
    let mem = memory_with(b"hi\nerr", 16);
    let mut os = new_os();
    assert_eq!(os.write(&mem, 1, 0, 3), Ok(3));
    assert_eq!(os.write(&mem, 2, 3, 3), Ok(3));
    assert_eq!(os.stdout().inner(), "hi\n");
    assert_eq!(os.stderr().inner(), "err");
    assert_eq!(os.stdin().inner(), "");
}

#[test]
fn write_is_latin1() {
    let mem = memory_with(&[0xE9, 0x41], 4);
    let mut os = new_os();
    assert_eq!(os.write(&mem, 1, 0, 2), Ok(2));
    assert_eq!(os.stdout().inner(), "\u{e9}A");
}

#[test]
fn write_to_other_descriptors_fails() {
    let mem = memory_with(b"abc", 4);
    let mut os = new_os();
    assert_eq!(os.write(&mem, 0, 0, 3), Err((-1, EBADF)));
    assert_eq!(os.write(&mem, 3, 0, 3), Err((-1, EBADF)));
    assert_eq!(os.write(&mem, -1, 0, 3), Err((-1, EBADF)));
    assert_eq!(os.stdout().inner(), "");
}

#[test]
fn read_from_stdin_gives_nothing() {
    let mut mem = memory_with(&[5, 6, 7], 4);
    let mut os = new_os();
    assert_eq!(os.read(&mut mem, 0, 0, 3), Ok(0));
    assert_eq!(read_bytes(&mem, 0..3), vec![5, 6, 7]);
    assert_eq!(os.read(&mut mem, 1, 0, 3), Err((-1, EBADF)));
    assert_eq!(os.read(&mut mem, -4, 0, 3), Err((-1, EBADF)));
}

#[test]
fn close_always_fails() {
    let mut os = new_os();
    assert_eq!(os.close(0), Err((-1, EBADF)));
    assert_eq!(os.close(1), Err((-1, EBADF)));
    assert_eq!(os.close(7), Err((-1, EBADF)));
    assert_eq!(os.close(-1), Err((-1, EBADF)));
}

#[test]
fn lseek_on_streams_is_espipe() {
    let mut os = new_os();
    assert_eq!(os.lseek(0, 0, 0), Err((-1, ESPIPE)));
    assert_eq!(os.lseek(2, 4, 1), Err((-1, ESPIPE)));
    assert_eq!(os.lseek(3, 0, 0), Err((-1, EBADF)));
    assert_eq!(os.lseek(-2, 0, 0), Err((-1, EBADF)));
}

#[test]
fn sbrk_starts_at_end_of_data_and_grows() {
    let mut os = new_os();
    assert_eq!(os.sbrk(0x1000, 0x10), Ok(0));
    assert_eq!(os.sbrk(0x1000, 0x20), Ok(0x10));
    assert_eq!(os.sbrk(0x1000, -0x8), Ok(0x30));
    assert_eq!(os.sbrk(0x1000, 0), Ok(0x28));
}

#[test]
fn sbrk_past_the_stack_is_enomem() {
    let mut os = new_os();
    assert_eq!(os.sbrk(0x100, 0x80), Ok(0));
    assert_eq!(os.sbrk(0x100, 0x100), Err((-1, ENOMEM)));
    assert_eq!(os.sbrk(0x1000, 0), Ok(0x180));
}

#[test]
fn fstat_marks_streams_as_character_devices() {
    let layout = StatLayout { size: 8, mode_offset: 4, char_device_mode: vec![0x00, 0x20, 0, 0] };
    let mut mem = memory_with(&[1, 1, 1, 1, 1, 1, 1, 1, 1, 1], 12);
    let mut os = new_os();
    assert_eq!(os.fstat(&mut mem, 1, 2, &layout), Ok(0));
    assert_eq!(read_bytes(&mem, 0..12), vec![1, 1, 1, 1, 1, 1, 0x00, 0x20, 0, 0, 0, 0]);
}

#[test]
fn fstat_of_other_descriptors_fails() {
    let layout = StatLayout { size: 8, mode_offset: 4, char_device_mode: vec![0x00, 0x20, 0, 0] };
    let mut mem = memory_with(&[1; 12], 12);
    let mut os = new_os();
    assert_eq!(os.fstat(&mut mem, 3, 0, &layout), Err((-1, EBADF)));
    assert_eq!(os.fstat(&mut mem, -1, 0, &layout), Err((-1, EBADF)));
    assert_eq!(read_bytes(&mem, 0..12), vec![1; 12]);
}

#[test]
fn set_errno_without_errno_changes_nothing() {
    let mut mem = Memory::new(8);
    let mut os = new_os();
    os.set_errno(&mut mem, 9);
    assert_eq!(read_bytes(&mem, 0..8), vec![0; 8]);
}

#[test]
fn std_stream_write_read_and_flush() {
    let mut s = StdStream::default();
    assert_eq!(s.write(b"ab"), 2);
    assert_eq!(s.write(b"c"), 1);
    s.flush();
    assert_eq!(s.inner(), "abc");
    let mut buf = [7u8; 3];
    assert_eq!(s.read(&mut buf), 0);
    assert_eq!(buf, [7, 7, 7]);
    let copy = s.clone();
    assert_eq!(copy.inner(), "abc");
}

#[test]
fn stdin_is_reachable_for_feeding() {
    let mut os = new_os();
    assert_eq!(os.stdin_mut().write(b"42\n"), 3);
    assert_eq!(os.stdin().inner(), "42\n");
    let mut mem = Memory::new(4);
    assert_eq!(os.read(&mut mem, 0, 0, 4), Ok(0));
}

#[test]
fn host_stat_layout_marks_character_devices() {
    let size = std::mem::size_of::<libc::stat>() as u32;
    let layout = StatLayout::host(0).unwrap();
    assert_eq!(layout.size, size);
    assert_eq!(layout.mode_offset, 0);
    assert_eq!(layout.char_device_mode, (libc::S_IFCHR as u32).to_ne_bytes().to_vec());
    assert_eq!(layout.char_device_mode, 0o20000u32.to_ne_bytes().to_vec());
    assert!(StatLayout::host(size - 4).is_some());
    assert!(StatLayout::host(size - 3).is_none());
    assert!(StatLayout::host(u32::MAX).is_none());
}

#[test]
fn fstat_with_the_host_layout() {
    let layout = StatLayout::host(0).unwrap();
    let mut mem = Memory::new(layout.size as usize + 8);
    let mut os = new_os();
    assert_eq!(os.fstat(&mut mem, 2, 8, &layout), Ok(0));
    assert_eq!(read_bytes(&mem, 8..12), 0o20000u32.to_ne_bytes().to_vec());
    assert_eq!(read_bytes(&mem, 0..8), vec![0; 8]);
}

#[test]
fn read_errors_follow_the_kind() {
    let mut mem = memory_with(&[1, 2, 3, 4], 4);
    assert_eq!(finish_read(&mut mem, 0..4, &[9, 9, 9, 9], Err(IoErrorKind::WouldBlock)), Err((-1, EAGAIN)));
    assert_eq!(read_bytes(&mem, 0..4), vec![1, 2, 3, 4]);
    assert_eq!(finish_read(&mut mem, 0..4, &[9], Err(IoErrorKind::BrokenPipe)), Err((-1, EIO)));
    assert_eq!(read_errno(IoErrorKind::AddrNotAvailable), EFAULT);
    assert_eq!(read_errno(IoErrorKind::IsADirectory), EISDIR);
    assert_eq!(read_errno(IoErrorKind::InvalidInput), EINVAL);
    assert_eq!(read_errno(IoErrorKind::Interrupted), EINTR);
}

#[test]
fn a_read_with_data_lands_in_memory() {
    let mut mem = memory_with(&[1, 2, 3, 4, 5], 6);
    assert_eq!(finish_read(&mut mem, 1..4, &[7, 8, 9], Ok(3)), Ok(3));
    assert_eq!(read_bytes(&mem, 0..6), vec![1, 7, 8, 9, 5, 0]);
}

#[test]
fn write_errors_follow_the_kind() {
    assert_eq!(finish_write(Ok(5)), Ok(5));
    assert_eq!(finish_write(Err(IoErrorKind::PermissionDenied)), Err((-1, EPERM)));
    assert_eq!(write_errno(IoErrorKind::BrokenPipe), EPIPE);
    assert_eq!(write_errno(IoErrorKind::ReadOnlyFilesystem), EINVAL);
    assert_eq!(write_errno(IoErrorKind::StorageFull), ENOSPC);
    assert_eq!(write_errno(IoErrorKind::FileTooLarge), EFBIG);
    assert_eq!(write_errno(IoErrorKind::WouldBlock), EAGAIN);
    assert_eq!(write_errno(IoErrorKind::Other), EIO);
}

#[test]
fn close_and_seek_errors_follow_the_kind() {
    assert_eq!(close_errno(IoErrorKind::StorageFull), ENOSPC);
    assert_eq!(close_errno(IoErrorKind::Interrupted), EINTR);
    assert_eq!(close_errno(IoErrorKind::NotSeekable), EIO);
    assert_eq!(seek_errno(IoErrorKind::NotSeekable), ESPIPE);
    assert_eq!(seek_errno(IoErrorKind::Other), EOVERFLOW);
}
