use gb_core::executor::ExecutionError;
use gb_core::memory::MemoryMap;

#[test]
fn fresh_memory_is_zeroed() {
    let mem = MemoryMap::new();
    assert_eq!(mem.size(), 65536);
    assert_eq!(mem.read_byte(0).unwrap(), 0);
    assert_eq!(mem.read_byte(65535).unwrap(), 0);
}

#[test]
fn byte_write_reads_back() {
    let mut mem = MemoryMap::new();
    mem.write_byte(0xC000, 0x7F).unwrap();
    assert_eq!(mem.read_byte(0xC000).unwrap(), 0x7F);
    assert_eq!(mem.read_byte(0xC001).unwrap(), 0);
}

#[test]
fn byte_access_out_of_bounds() {
    let mut mem = MemoryMap::new();
    assert!(matches!(mem.read_byte(65536), Err(ExecutionError::MemoryOutOfBoundsError(65536))));
    assert!(matches!(
        mem.write_byte(70000, 1),
        Err(ExecutionError::MemoryOutOfBoundsError(70000))
    ));
}

#[test]
fn words_are_little_endian() {
    let mut mem = MemoryMap::new();
    mem.write_word(0x8000, 0x1234).unwrap();
    assert_eq!(mem.read_byte(0x8000).unwrap(), 0x34);
    assert_eq!(mem.read_byte(0x8001).unwrap(), 0x12);
    assert_eq!(mem.read_word(0x8000).unwrap(), 0x1234);
}

#[test]
fn word_access_at_the_last_byte_fails() {
    let mut mem = MemoryMap::new();
    assert!(matches!(mem.read_word(65535), Err(ExecutionError::MemoryOutOfBoundsError(65535))));
    assert!(matches!(
        mem.write_word(65535, 0xABCD),
        Err(ExecutionError::MemoryOutOfBoundsError(65535))
    ));
    // The failed write left memory untouched.
    assert_eq!(mem.read_byte(65535).unwrap(), 0);
    // A word ending exactly at the top is fine.
    mem.write_word(65534, 0xABCD).unwrap();
    assert_eq!(mem.read_word(65534).unwrap(), 0xABCD);
}

#[test]
fn bulk_transfer_round_trip() {
    let mut mem = MemoryMap::new();
    mem.write_bytes(0x0100, vec![1, 2, 3, 4]).unwrap();
    assert_eq!(mem.read_bytes(0x0100, 4).unwrap(), vec![1, 2, 3, 4]);
    assert_eq!(mem.read_bytes(0x00FF, 2).unwrap(), vec![0, 1]);
}

#[test]
fn bulk_read_past_the_end_fails() {
    let mem = MemoryMap::new();
    assert!(matches!(
        mem.read_bytes(65535, 2),
        Err(ExecutionError::MemoryOutOfBoundsError(65536))
    ));
    assert_eq!(mem.read_bytes(65535, 1).unwrap(), vec![0]);
}

#[test]
fn bulk_write_past_the_end_keeps_the_prefix() {
    let mut mem = MemoryMap::new();
    let r = mem.write_bytes(65534, vec![0xAA, 0xBB, 0xCC]);
    assert!(matches!(r, Err(ExecutionError::MemoryOutOfBoundsError(65536))));
    assert_eq!(mem.read_byte(65534).unwrap(), 0xAA);
    assert_eq!(mem.read_byte(65535).unwrap(), 0xBB);
    assert!(mem.write_bytes(70000, vec![]).is_ok());
}

#[test]
fn incr_and_decr_wrap() {
    let mut mem = MemoryMap::new();
    mem.write_byte(0x1000, 0xFF).unwrap();
    mem.incr_byte(0x1000, 1).unwrap();
    assert_eq!(mem.read_byte(0x1000).unwrap(), 0x00);
    mem.decr_byte(0x1000, 1).unwrap();
    assert_eq!(mem.read_byte(0x1000).unwrap(), 0xFF);
}
