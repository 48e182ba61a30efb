use mips_datapath::datapath::Fault;
use mips_datapath::mips::memory::{Memory, CAPACITY};

#[test]
fn default_memory_is_zeroed() {
    let mem = Memory::default();
    assert_eq!(mem.memory.len(), CAPACITY);
    for byte in mem.memory.iter() {
        assert_eq!(*byte, 0u8);
    }
}

#[test]
fn word_round_trip() {
    let mut mem = Memory::default();
    mem.store_word(0, 0xDEADBEEF).unwrap();
    assert_eq!(mem.load_word(0).unwrap(), 0xDEADBEEF);
    mem.store_word(5, 0x01020304).unwrap();
    assert_eq!(mem.load_word(5).unwrap(), 0x01020304);
    mem.store_word(12, 0xFFFFFFFF).unwrap();
    assert_eq!(mem.load_word(12).unwrap(), 0xFFFFFFFF);
    mem.store_word(3, 0).unwrap();
    assert_eq!(mem.load_word(3).unwrap(), 0);
}

#[test]
fn words_are_stored_big_endian() {
    let mut mem = Memory::default();
    mem.store_word(0, 0x01020304).unwrap();
    assert_eq!(mem.memory[0], 0x01);
    assert_eq!(mem.memory[1], 0x02);
    assert_eq!(mem.memory[2], 0x03);
    assert_eq!(mem.memory[3], 0x04);
}

#[test]
fn out_of_bounds_store_faults() {
    let mut mem = Memory::default();
    // The last valid word address is CAPACITY - 4; anything within the
    // final three bytes overruns the end.
    assert!(mem.store_word(CAPACITY as u64 - 4, 7).is_ok());
    assert_eq!(
        mem.store_word(CAPACITY as u64 - 3, 7),
        Err(Fault::OutOfBoundsMemoryAccess)
    );
    assert_eq!(
        mem.store_word(CAPACITY as u64 - 2, 7),
        Err(Fault::OutOfBoundsMemoryAccess)
    );
    assert_eq!(
        mem.store_word(CAPACITY as u64 - 1, 7),
        Err(Fault::OutOfBoundsMemoryAccess)
    );
    assert_eq!(
        mem.store_word(CAPACITY as u64, 7),
        Err(Fault::OutOfBoundsMemoryAccess)
    );
    assert_eq!(mem.store_word(u64::MAX, 7), Err(Fault::OutOfBoundsMemoryAccess));
}

#[test]
fn out_of_bounds_load_faults() {
    let mem = Memory::default();
    assert!(mem.load_word(CAPACITY as u64 - 4).is_ok());
    assert_eq!(
        mem.load_word(CAPACITY as u64 - 3),
        Err(Fault::OutOfBoundsMemoryAccess)
    );
    assert_eq!(mem.load_word(u64::MAX), Err(Fault::OutOfBoundsMemoryAccess));
}

#[test]
fn failed_store_changes_nothing() {
    let mut mem = Memory::default();
    mem.store_word(0, 0x11223344).unwrap();
    let before = mem.memory.clone();
    assert!(mem.store_word(CAPACITY as u64 - 1, 0xFF).is_err());
    assert_eq!(mem.memory, before);
}
