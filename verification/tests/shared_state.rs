use mozwer::layout::{pointer_size, push_le, read_le};
use mozwer::memory::ForeignMemory;
use mozwer::shared_state::{InProcessCrashContext, SharedCrashState};

fn sample_name() -> [u8; 40] {
    let mut name = [0u8; 40];
    name.copy_from_slice(b"0f8fad5b-d9cb-469f-a165-70867728950e.dmp");
    name
}

fn sample() -> SharedCrashState {
    SharedCrashState {
        notify_entry: 0x7ff6_1234_5678,
        child_pid: 4711,
        minidump_name: sample_name(),
        oom_allocation_size: 0x1_0000_0001,
    }
}

#[test]
fn little_endian_numbers() {
    let mut out = vec![0xaau8];
    push_le(&mut out, 0x0102_0304, 4);
    assert_eq!(out, vec![0xaa, 4, 3, 2, 1]);
    assert_eq!(read_le(&out, 1, 4), 0x0102_0304);
    assert_eq!(read_le(&out, 1, 2), 0x0304);
    assert_eq!(read_le(&out, 0, 0), 0);
    let mut wide = Vec::new();
    push_le(&mut wide, u64::MAX - 1, 8);
    assert_eq!(read_le(&wide, 0, 8), u64::MAX - 1);
}

#[test]
fn record_layout_on_a_64_bit_target() {
    assert_eq!(pointer_size(), 8);
    assert_eq!(SharedCrashState::size(), 64);
    let bytes = sample().to_bytes();
    assert_eq!(bytes.len(), 64);
    assert_eq!(&bytes[0..8], &0x7ff6_1234_5678u64.to_le_bytes());
    assert_eq!(&bytes[8..12], &4711u32.to_le_bytes());
    assert_eq!(&bytes[12..52], &sample_name()[..]);
    assert_eq!(&bytes[52..56], &[0u8; 4]);
    assert_eq!(&bytes[56..64], &0x1_0000_0001u64.to_le_bytes());
}

#[test]
fn record_reads_back_field_for_field() {
    let state = sample();
    let read = SharedCrashState::from_bytes(&state.to_bytes()).unwrap();
    assert_eq!(read.notify_entry, state.notify_entry);
    assert_eq!(read.child_pid, state.child_pid);
    assert_eq!(read.minidump_name, state.minidump_name);
    assert_eq!(read.oom_allocation_size, state.oom_allocation_size);
}

#[test]
fn record_of_another_size_is_refused() {
    assert!(SharedCrashState::from_bytes(&vec![0u8; 63]).is_err());
    assert!(SharedCrashState::from_bytes(&vec![0u8; 65]).is_err());
    assert!(SharedCrashState::from_bytes(&Vec::new()).is_err());
    assert!(SharedCrashState::from_bytes(&vec![0u8; 64]).is_ok());
}

#[test]
fn crash_replaces_all_but_the_notification_routine() {
    let mut name = [b'x'; 40];
    name[39] = b'y';
    let after = sample().with_crash(99, name, 12);
    assert_eq!(after.notify_entry, 0x7ff6_1234_5678);
    assert_eq!(after.child_pid, 99);
    assert_eq!(after.minidump_name, name);
    assert_eq!(after.oom_allocation_size, 12);
}

#[test]
fn process_context_layout() {
    assert_eq!(InProcessCrashContext::size(), 16);
    let mut bytes = Vec::new();
    bytes.extend_from_slice(&3u32.to_le_bytes());
    bytes.extend_from_slice(&[0xee; 4]);
    bytes.extend_from_slice(&0x1122_3344_5566u64.to_le_bytes());
    let context = InProcessCrashContext::from_bytes(&bytes).unwrap();
    assert_eq!(context.process_type, 3);
    assert_eq!(context.oom_allocation_size_ptr, 0x1122_3344_5566);
    assert!(!context.is_main_process());
    assert!(InProcessCrashContext::from_bytes(&bytes[..15].to_vec()).is_err());
    let main = InProcessCrashContext { process_type: 0, oom_allocation_size_ptr: 0 };
    assert!(main.is_main_process());
}

#[test]
fn write_then_read_over_simulated_memory() {
    let mut memory = ForeignMemory::new(0x1000, vec![0xcc; 256]);
    let state = sample();
    assert_eq!(memory.write_shared_state(&state, 0x1040), Ok(()));
    let read = memory.read_shared_state(0x1040).unwrap();
    assert_eq!(read.notify_entry, state.notify_entry);
    assert_eq!(read.child_pid, state.child_pid);
    assert_eq!(read.minidump_name, state.minidump_name);
    assert_eq!(read.oom_allocation_size, state.oom_allocation_size);
    // Nothing outside the record has changed.
    assert!(memory.bytes[..0x40].iter().all(|b| *b == 0xcc));
    assert!(memory.bytes[0x80..].iter().all(|b| *b == 0xcc));
}

#[test]
fn reads_and_writes_are_all_or_nothing() {
    let mut memory = ForeignMemory::new(0x1000, vec![7; 100]);
    assert_eq!(memory.read(0x1000, 100), Ok(vec![7; 100]));
    assert_eq!(memory.read(0x1000, 101), Err(()));
    assert_eq!(memory.read(0x0fff, 1), Err(()));
    assert_eq!(memory.read(0x1064, 0), Ok(Vec::new()));
    assert_eq!(memory.read(0x1065, 0), Err(()));
    assert_eq!(memory.read(usize::MAX, 2), Err(()));
    assert_eq!(memory.write(0x1060, &vec![1; 5]), Err(()));
    assert_eq!(memory.bytes, vec![7; 100]);
    assert_eq!(memory.write(0x105f, &vec![1; 5]), Ok(()));
    assert_eq!(&memory.bytes[0x5e..], &[7, 1, 1, 1, 1, 1]);
    assert!(memory.read_shared_state(0x1000 + 37).is_err());
    assert!(memory.write_shared_state(&sample(), 0x1000 + 37).is_err());
}

#[test]
fn arrays_whose_size_overflows_are_refused() {
    let memory = ForeignMemory::new(16, vec![1, 0, 2, 0, 3, 0xff]);
    assert_eq!(memory.read_array(16, 2, 3), Ok(vec![1, 0, 2, 0, 3, 0xff]));
    assert_eq!(memory.read_array(16, 2, 4), Err(()));
    assert_eq!(memory.read_array(16, usize::MAX, 2), Err(()));
    assert_eq!(memory.read_array(16, 0, usize::MAX), Ok(Vec::new()));
    assert_eq!(memory.read_wide(16, 3), Ok(vec![1, 2, 0xff03]));
    assert_eq!(memory.read_wide(18, 2), Ok(vec![2, 0xff03]));
    assert_eq!(memory.read_wide(16, 4), Err(()));
    assert_eq!(memory.read_wide(16, usize::MAX), Err(()));
}

#[test]
fn child_crash_is_entered_into_the_parents_record() {
    let mut bytes = vec![0x55u8; 32];
    bytes.extend_from_slice(&sample().to_bytes());
    bytes.extend_from_slice(&[0x66u8; 8]);
    let mut memory = ForeignMemory::new(0x20_0000, bytes);
    let mut name = [b'n'; 40];
    name[0] = b'm';
    let entry = memory.record_child_crash(0x20_0020, 31337, name, 4096);
    assert_eq!(entry, Ok(0x7ff6_1234_5678));
    let after = memory.read_shared_state(0x20_0020).unwrap();
    assert_eq!(after.notify_entry, 0x7ff6_1234_5678);
    assert_eq!(after.child_pid, 31337);
    assert_eq!(after.minidump_name, name);
    assert_eq!(after.oom_allocation_size, 4096);
    assert!(memory.bytes[..32].iter().all(|b| *b == 0x55));
    assert!(memory.bytes[96..].iter().all(|b| *b == 0x66));
    // A record that does not lie in the memory is neither read nor written.
    let before = memory.bytes.clone();
    assert_eq!(memory.record_child_crash(0x20_0030, 1, name, 1), Err(()));
    assert_eq!(memory.bytes, before);
}
