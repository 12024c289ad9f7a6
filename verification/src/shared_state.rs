//! The two records that the crashed application keeps for this module, and how
//! they lie in memory: the per-child record that the main process owns, and the
//! per-process record whose address the host hands over.
use crate::layout::{le_bytes, le_value, lemma_le_bytes_len, lemma_le_value_bound, lemma_le_value_of_bytes, lemma_pow256_values, pointer_size, pointer_width, push_le, read_le};
use vstd::prelude::*;

verus! {

/// The number of bytes kept for the name of a minidump.
pub const MINIDUMP_NAME_LEN: usize = 40;

/// The process type that marks the application's main process.
pub const MAIN_PROCESS_TYPE: u32 = 0;

/// The record through which a child's crash reaches the main process. The main
/// process keeps one for every child.
pub struct SharedCrashState {
    /// Address, in the main process, of the routine to run once the record is
    /// filled.
    pub notify_entry: usize,
    /// Id of the child that crashed.
    pub child_pid: u32,
    /// Name of the minidump written for the crash.
    pub minidump_name: [u8; 40],
    /// Size of the allocation that failed, or zero.
    pub oom_allocation_size: usize,
}

/// The record that every process keeps about itself.
#[derive(Clone, Copy, PartialEq, Eq, Structural, Debug)]
pub struct InProcessCrashContext {
    /// The role of the process; `MAIN_PROCESS_TYPE` for the main process.
    pub process_type: u32,
    /// Address, in that process, of the size of the allocation that failed.
    pub oom_allocation_size_ptr: usize,
}

/// Offset of the child's id in the shared record.
pub open spec fn pid_offset() -> nat {
    pointer_width()
}

/// Offset of the minidump name in the shared record.
pub open spec fn name_offset() -> nat {
    pointer_width() + 4
}

/// Offset of the allocation size in the shared record: the first multiple of
/// the pointer width behind the name.
pub open spec fn oom_offset() -> nat {
    if pointer_width() == 8 {
        56
    } else {
        48
    }
}

/// The number of bytes of the shared record.
pub open spec fn shared_state_size() -> nat {
    oom_offset() + pointer_width()
}

/// The number of bytes of the per-process record.
pub open spec fn context_size() -> nat {
    2 * pointer_width()
}

/// The allocation size lies at the first multiple of the pointer width that
/// leaves room for the name.
pub proof fn lemma_oom_offset_aligned()
    ensures
        oom_offset() % pointer_width() == 0,
        name_offset() + MINIDUMP_NAME_LEN <= oom_offset() < name_offset() + MINIDUMP_NAME_LEN
            + pointer_width(),
{
}

/// Whether `state` is what the bytes of a shared record hold.
pub open spec fn decodes_to(bytes: Seq<u8>, state: SharedCrashState) -> bool {
    &&& bytes.len() == shared_state_size()
    &&& state.notify_entry == le_value(bytes.subrange(0, pid_offset() as int))
    &&& state.child_pid == le_value(bytes.subrange(pid_offset() as int, name_offset() as int))
    &&& state.minidump_name@ == bytes.subrange(
        name_offset() as int,
        name_offset() + MINIDUMP_NAME_LEN,
    )
    &&& state.oom_allocation_size == le_value(
        bytes.subrange(oom_offset() as int, shared_state_size() as int),
    )
}

/// Whether `context` is what the bytes of a per-process record hold.
pub open spec fn context_decodes_to(bytes: Seq<u8>, context: InProcessCrashContext) -> bool {
    &&& bytes.len() == context_size()
    &&& context.process_type == le_value(bytes.subrange(0, 4))
    &&& context.oom_allocation_size_ptr == le_value(
        bytes.subrange(pointer_width() as int, context_size() as int),
    )
}

impl SharedCrashState {
    /// The bytes of the record: the fields in order, each at its natural
    /// alignment, with zeros between.
    pub open spec fn encoding(self) -> Seq<u8> {
        le_bytes(self.notify_entry as nat, pointer_width()) + le_bytes(self.child_pid as nat, 4)
            + self.minidump_name@ + Seq::new(
            (oom_offset() - name_offset() - MINIDUMP_NAME_LEN) as nat,
            |i: int| 0u8,
        ) + le_bytes(self.oom_allocation_size as nat, pointer_width())
    }

    /// The number of bytes of the record on this target.
    pub fn size() -> (n: usize)
        ensures
            n == shared_state_size(),
    {
        if pointer_size() == 8 {
            64
        } else {
            52
        }
    }

    /// Writes the record out as it lies in memory.
    pub fn to_bytes(&self) -> (out: Vec<u8>)
        ensures
            out@ == self.encoding(),
            out@.len() == shared_state_size(),
    {
        let width = pointer_size();
        let oom_at: usize = if width == 8 {
            56
        } else {
            48
        };
        let mut out: Vec<u8> = Vec::new();
        push_le(&mut out, self.notify_entry as u64, width);
        push_le(&mut out, self.child_pid as u64, 4);
        proof {
            lemma_le_bytes_len(self.notify_entry as nat, pointer_width());
            lemma_le_bytes_len(self.child_pid as nat, 4);
        }
        let ghost head = out@;
        let mut i: usize = 0;
        while i < MINIDUMP_NAME_LEN
            invariant
                i <= MINIDUMP_NAME_LEN,
                out@ == head + self.minidump_name@.take(i as int),
            decreases MINIDUMP_NAME_LEN - i,
        {
            out.push(self.minidump_name[i]);
            i = i + 1;
        }
        assert(self.minidump_name@.take(MINIDUMP_NAME_LEN as int) == self.minidump_name@);
        let ghost named = out@;
        let gap: usize = oom_at - width - 4 - MINIDUMP_NAME_LEN;
        let mut k: usize = 0;
        while k < gap
            invariant
                k <= gap,
                out@ == named + Seq::new(k as nat, |i: int| 0u8),
            decreases gap - k,
        {
            out.push(0u8);
            k = k + 1;
        }
        push_le(&mut out, self.oom_allocation_size as u64, width);
        proof {
            lemma_le_bytes_len(self.oom_allocation_size as nat, pointer_width());
        }
        out
    }

    /// Reads a record from the bytes that hold it; fails unless they are exactly
    /// as many as a record has.
    pub fn from_bytes(bytes: &Vec<u8>) -> (r: Result<SharedCrashState, ()>)
        ensures
            r is Ok <==> bytes@.len() == shared_state_size(),
            r matches Ok(state) ==> decodes_to(bytes@, state),
    {
        let width = pointer_size();
        let oom_at: usize = if width == 8 {
            56
        } else {
            48
        };
        if bytes.len() != oom_at + width {
            return Err(());
        }
        proof {
            lemma_pow256_values();
            lemma_le_value_bound(bytes@.subrange(0, width as int));
            lemma_le_value_bound(bytes@.subrange(width as int, width + 4));
            lemma_le_value_bound(bytes@.subrange(oom_at as int, oom_at + width));
        }
        let notify_entry = read_le(bytes, 0, width) as usize;
        let child_pid = read_le(bytes, width, 4) as u32;
        let mut minidump_name: [u8; 40] = [0u8;40];
        let mut i: usize = 0;
        while i < MINIDUMP_NAME_LEN
            invariant
                i <= MINIDUMP_NAME_LEN,
                width + 4 + MINIDUMP_NAME_LEN <= bytes.len(),
                forall|j: int| 0 <= j < i ==> minidump_name@[j] == bytes@[width + 4 + j],
            decreases MINIDUMP_NAME_LEN - i,
        {
            minidump_name[i] = bytes[width + 4 + i];
            i = i + 1;
        }
        assert(minidump_name@ == bytes@.subrange(width + 4, width + 4 + MINIDUMP_NAME_LEN));
        let oom_allocation_size = read_le(bytes, oom_at, width) as usize;
        Ok(SharedCrashState { notify_entry, child_pid, minidump_name, oom_allocation_size })
    }

    /// The record as the main process should find it after this crash: the
    /// child's id, the minidump's name and the allocation size are replaced,
    /// the notification routine is kept.
    pub fn with_crash(self, child_pid: u32, minidump_name: [u8; 40], oom_allocation_size: usize) -> (r:
        SharedCrashState)
        ensures
            r.notify_entry == self.notify_entry,
            r.child_pid == child_pid,
            r.minidump_name == minidump_name,
            r.oom_allocation_size == oom_allocation_size,
    {
        SharedCrashState {
            notify_entry: self.notify_entry,
            child_pid,
            minidump_name,
            oom_allocation_size,
        }
    }
}

impl InProcessCrashContext {
    /// The number of bytes of the record on this target.
    pub fn size() -> (n: usize)
        ensures
            n == context_size(),
    {
        2 * pointer_size()
    }

    /// Reads the record from the bytes that hold it; fails unless they are
    /// exactly as many as the record has.
    pub fn from_bytes(bytes: &Vec<u8>) -> (r: Result<InProcessCrashContext, ()>)
        ensures
            r is Ok <==> bytes@.len() == context_size(),
            r matches Ok(context) ==> context_decodes_to(bytes@, context),
    {
        let width = pointer_size();
        if bytes.len() != 2 * width {
            return Err(());
        }
        proof {
            lemma_pow256_values();
            lemma_le_value_bound(bytes@.subrange(0, 4));
            lemma_le_value_bound(bytes@.subrange(width as int, width + width));
        }
        let process_type = read_le(bytes, 0, 4) as u32;
        let oom_allocation_size_ptr = read_le(bytes, width, width) as usize;
        Ok(InProcessCrashContext { process_type, oom_allocation_size_ptr })
    }

    /// Whether the record belongs to the application's main process.
    pub fn is_main_process(&self) -> (r: bool)
        ensures
            r == (self.process_type == MAIN_PROCESS_TYPE),
    {
        self.process_type == MAIN_PROCESS_TYPE
    }
}

/// The bytes of a record hold that record: every field read back is the field
/// that was written.
pub proof fn lemma_encoding_decodes(state: SharedCrashState)
    ensures
        state.encoding().len() == shared_state_size(),
        decodes_to(state.encoding(), state),
{
    let bytes = state.encoding();
    let a = le_bytes(state.notify_entry as nat, pointer_width());
    let b = le_bytes(state.child_pid as nat, 4);
    let c = state.minidump_name@;
    let d = Seq::new((oom_offset() - name_offset() - MINIDUMP_NAME_LEN) as nat, |i: int| 0u8);
    let e = le_bytes(state.oom_allocation_size as nat, pointer_width());
    lemma_le_bytes_len(state.notify_entry as nat, pointer_width());
    lemma_le_bytes_len(state.child_pid as nat, 4);
    lemma_le_bytes_len(state.oom_allocation_size as nat, pointer_width());
    lemma_pow256_values();
    lemma_le_value_of_bytes(state.notify_entry as nat, pointer_width());
    lemma_le_value_of_bytes(state.child_pid as nat, 4);
    lemma_le_value_of_bytes(state.oom_allocation_size as nat, pointer_width());
    assert(c.len() == 40);
    assert(bytes.subrange(0, pid_offset() as int) == a);
    assert(bytes.subrange(pid_offset() as int, name_offset() as int) == b);
    assert(bytes.subrange(name_offset() as int, name_offset() + MINIDUMP_NAME_LEN) == c);
    assert(bytes.subrange(oom_offset() as int, shared_state_size() as int) == e);
}

/// Given bytes hold at most one record.
pub proof fn lemma_decoding_unique(bytes: Seq<u8>, first: SharedCrashState, second: SharedCrashState)
    requires
        decodes_to(bytes, first),
        decodes_to(bytes, second),
    ensures
        first == second,
{
    assert(first.minidump_name@ == second.minidump_name@);
    assert(first.minidump_name == second.minidump_name);
}

} // verus!
