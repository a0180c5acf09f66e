use universal_machine::fault::Fault;
use universal_machine::memory::Memory;

#[test]
fn fresh_identifiers_count_up_from_one() {
    let mut m = Memory::new(vec![0x7000_0000]);
    assert_eq!(m.allocate(4), 1);
    assert_eq!(m.allocate(8), 2);
    assert_eq!(m.allocate(0), 3);
}

#[test]
fn identifier_reuse_is_lifo() {
    let mut m = Memory::new(vec![]);
    let id1 = m.allocate(4);
    let id2 = m.allocate(4);
    let id3 = m.allocate(4);
    assert_eq!(m.deallocate(id1), Ok(()));
    assert_eq!(m.deallocate(id3), Ok(()));
    // The most recently freed identifier comes back first.
    assert_eq!(m.allocate(2), id3);
    assert_eq!(m.allocate(2), id1);
    // Both free slots used up: the next one is fresh.
    assert_eq!(m.allocate(2), id2 + 2);
}

#[test]
fn freed_identifier_comes_back_at_once() {
    let mut m = Memory::new(vec![]);
    let id1 = m.allocate(6);
    assert_eq!(m.deallocate(id1), Ok(()));
    let id2 = m.allocate(3);
    assert_eq!(id2, id1);
}

#[test]
fn platters_are_zero_initialized() {
    let mut m = Memory::new(vec![]);
    let id = m.allocate(5);
    for off in 0..5 {
        assert_eq!(m.read(id, off), Ok(0));
    }
}

#[test]
fn platter_contents_survive_other_operations() {
    let mut m = Memory::new(vec![]);
    let id = m.allocate(4);
    assert_eq!(m.write(id, 3, 0xDEAD_BEEF), Ok(()));
    // Allocate, write, and free other platters in between.
    let other = m.allocate(9);
    assert_eq!(m.write(other, 0, 7), Ok(()));
    assert_eq!(m.deallocate(other), Ok(()));
    let again = m.allocate(1);
    assert_eq!(again, other);
    // The original platter still reads back what was written.
    assert_eq!(m.read(id, 3), Ok(0xDEAD_BEEF));
    assert_eq!(m.read(id, 0), Ok(0));
}

#[test]
fn read_faults() {
    let mut m = Memory::new(vec![1, 2, 3]);
    assert_eq!(m.read(9, 0), Err(Fault::BadIdentifier));
    assert_eq!(m.read(0, 3), Err(Fault::OutOfBounds));
    assert_eq!(m.read(0, 2), Ok(3));
    let id = m.allocate(2);
    assert_eq!(m.read(id, 2), Err(Fault::OutOfBounds));
}

#[test]
fn write_faults() {
    let mut m = Memory::new(vec![1, 2]);
    assert_eq!(m.write(5, 0, 1), Err(Fault::BadIdentifier));
    assert_eq!(m.write(0, 2, 1), Err(Fault::OutOfBounds));
    // Writing segment 0 itself is permitted.
    assert_eq!(m.write(0, 1, 42), Ok(()));
    assert_eq!(m.read(0, 1), Ok(42));
}

#[test]
fn deallocate_faults() {
    let mut m = Memory::new(vec![]);
    assert_eq!(m.deallocate(0), Err(Fault::BadIdentifier));
    assert_eq!(m.deallocate(1), Err(Fault::BadIdentifier));
    let id = m.allocate(1);
    assert_eq!(m.deallocate(id), Ok(()));
    assert_eq!(m.deallocate(id), Err(Fault::BadIdentifier));
}

#[test]
fn load_program_replaces_segment_zero_and_keeps_source() {
    let mut m = Memory::new(vec![10, 20]);
    let id = m.allocate(3);
    assert_eq!(m.write(id, 0, 100), Ok(()));
    assert_eq!(m.write(id, 1, 200), Ok(()));
    assert_eq!(m.write(id, 2, 300), Ok(()));
    assert_eq!(m.load_program(id), Ok(()));
    // Segment 0 is now an equal-length, element-wise equal copy.
    assert_eq!(m.seg0_len(), 3);
    assert_eq!(m.fetch(0), Ok(100));
    assert_eq!(m.fetch(1), Ok(200));
    assert_eq!(m.fetch(2), Ok(300));
    // The source platter is unaffected.
    assert_eq!(m.read(id, 0), Ok(100));
    assert_eq!(m.read(id, 2), Ok(300));
    // And it is a copy: amending segment 0 leaves the source alone.
    assert_eq!(m.write(0, 0, 1), Ok(()));
    assert_eq!(m.read(id, 0), Ok(100));
}

#[test]
fn load_program_from_zero_changes_nothing() {
    let mut m = Memory::new(vec![10, 20]);
    assert_eq!(m.load_program(0), Ok(()));
    assert_eq!(m.seg0_len(), 2);
    assert_eq!(m.fetch(0), Ok(10));
    assert_eq!(m.fetch(1), Ok(20));
}

#[test]
fn load_program_faults_on_dead_identifier() {
    let mut m = Memory::new(vec![10]);
    assert_eq!(m.load_program(4), Err(Fault::BadIdentifier));
    let id = m.allocate(1);
    assert_eq!(m.deallocate(id), Ok(()));
    assert_eq!(m.load_program(id), Err(Fault::BadIdentifier));
}

#[test]
fn allocation_is_possible_at_start() {
    let m = Memory::new(vec![]);
    assert!(m.can_alloc());
    assert_eq!(m.seg0_len(), 0);
}

#[test]
fn fetch_faults_past_the_end() {
    let m = Memory::new(vec![7]);
    assert_eq!(m.fetch(0), Ok(7));
    assert_eq!(m.fetch(1), Err(Fault::OutOfBounds));
}
