use forge_vm::error::VmError;
use forge_vm::memory::Memory;

#[test]
fn test_memory_create() {
    let memory = Memory::new(1024);
    assert_eq!(memory.capacity(), 1024);
}

#[test]
fn test_memory_read_write() {
    let mut memory = Memory::new(1024);

    memory.write::<u32>(0, 0x12345678).unwrap();
    assert_eq!(memory.read::<u32>(0).unwrap(), 0x12345678);
}

#[test]
fn test_memory_out_of_bounds_u8() {
    let mut memory = Memory::new(1024);

    assert!(memory.read::<u8>(1023).is_ok());
    assert!(memory.read::<u8>(1024).is_err());
    assert!(memory.write::<u8>(1023, 0x12).is_ok());
    assert!(memory.write::<u8>(1024, 0x34).is_err());
}

#[test]
fn test_memory_out_of_bounds_u32() {
    let mut memory = Memory::new(1024);

    assert!(memory.read::<u32>(1020).is_ok());
    assert!(memory.read::<u32>(1021).is_err());
    assert!(memory.write::<u32>(1020, 0x12345678).is_ok());
    assert!(memory.write::<u32>(1021, 0x12345678).is_err());
}

#[test]
fn test_memory_not_aligned_u16() {
    let mut memory = Memory::new(1024);

    assert!(memory.read::<u16>(0).is_ok());
    assert!(memory.read::<u16>(1).is_err());
    assert!(memory.write::<u16>(0, 0x1234).is_ok());
    assert!(memory.write::<u16>(1, 0x1234).is_err());
}

/// A violated bounds check reports `MemoryOutOfBounds` with the offending
/// address and access width.
#[test]
fn test_memory_out_of_bounds_error_values() {
    let mut memory = Memory::new(1024);
    assert_eq!(
        memory.read::<u32>(1021).unwrap_err(),
        VmError::MemoryOutOfBounds { address: 1021, size: 4 }
    );
    assert_eq!(
        memory.write::<u32>(1024, 7).unwrap_err(),
        VmError::MemoryOutOfBounds { address: 1024, size: 4 }
    );
    assert_eq!(
        memory.read::<u8>(1024).unwrap_err(),
        VmError::MemoryOutOfBounds { address: 1024, size: 1 }
    );
}

/// An access within bounds that violates only the alignment check reports
/// `MemoryNotAligned` with the offending address and access width.
#[test]
fn test_memory_not_aligned_error_values() {
    let mut memory = Memory::new(1024);
    assert_eq!(
        memory.read::<u16>(1).unwrap_err(),
        VmError::MemoryNotAligned { address: 1, size: 2 }
    );
    assert_eq!(
        memory.write::<u32>(2, 7).unwrap_err(),
        VmError::MemoryNotAligned { address: 2, size: 4 }
    );
    assert_eq!(
        memory.read::<i32>(6).unwrap_err(),
        VmError::MemoryNotAligned { address: 6, size: 4 }
    );
}

/// Write-read round trips for every supported width, including a negative
/// signed value, at aligned in-bounds addresses.
#[test]
fn test_memory_round_trip_all_widths() {
    let mut memory = Memory::new(64);
    memory.write::<u8>(3, 0xAB).unwrap();
    assert_eq!(memory.read::<u8>(3).unwrap(), 0xAB);
    memory.write::<u16>(4, 0xBEEF).unwrap();
    assert_eq!(memory.read::<u16>(4).unwrap(), 0xBEEF);
    memory.write::<u32>(8, 0xDEADBEEF).unwrap();
    assert_eq!(memory.read::<u32>(8).unwrap(), 0xDEADBEEF);
    memory.write::<i32>(12, -123456789).unwrap();
    assert_eq!(memory.read::<i32>(12).unwrap(), -123456789);
}

/// Values are stored little-endian: the bytes of a 32-bit word can be read
/// back individually, least significant first.
#[test]
fn test_memory_little_endian_layout() {
    let mut memory = Memory::new(16);
    memory.write::<u32>(0, 0x12345678).unwrap();
    assert_eq!(memory.read::<u8>(0).unwrap(), 0x78);
    assert_eq!(memory.read::<u8>(1).unwrap(), 0x56);
    assert_eq!(memory.read::<u8>(2).unwrap(), 0x34);
    assert_eq!(memory.read::<u8>(3).unwrap(), 0x12);
}

/// Clearing zeroes every byte and keeps the capacity.
#[test]
fn test_memory_clear_zeroes() {
    let mut memory = Memory::new(16);
    memory.write::<u32>(4, 0xFFFFFFFF).unwrap();
    memory.clear();
    assert_eq!(memory.capacity(), 16);
    assert_eq!(memory.read::<u32>(4).unwrap(), 0);
}
