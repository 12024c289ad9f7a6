//! A stand-in for another process's address space: one run of bytes at a base
//! address. Reads and writes either transfer every byte asked for or fail and
//! change nothing.
use crate::shared_state::{decodes_to, lemma_encoding_decodes, shared_state_size, SharedCrashState};
use vstd::prelude::*;

verus! {

/// A run of bytes that a process holds from `base` on.
pub struct ForeignMemory {
    /// Address of the first byte.
    pub base: usize,
    /// The bytes, in address order.
    pub bytes: Vec<u8>,
}

/// `contents` with `data` laid over it from `offset` on.
pub open spec fn overlay(contents: Seq<u8>, offset: int, data: Seq<u8>) -> Seq<u8> {
    Seq::new(
        contents.len(),
        |i: int|
            if offset <= i < offset + data.len() {
                data[i - offset]
            } else {
                contents[i]
            },
    )
}

/// The 16-bit units that `bytes` hold, least significant byte first.
pub open spec fn wide_units(bytes: Seq<u8>) -> Seq<u16> {
    Seq::new(bytes.len() / 2, |i: int| (bytes[2 * i] as int + 256 * (bytes[2 * i + 1] as int)) as u16)
}

impl ForeignMemory {
    /// Whether the `len` bytes from `address` on all lie in this memory.
    pub open spec fn holds(self, address: int, len: int) -> bool {
        self.base <= address && address + len <= self.base + self.bytes@.len()
    }

    /// The `len` bytes from `address` on.
    pub open spec fn range(self, address: int, len: int) -> Seq<u8> {
        self.bytes@.subrange(address - self.base, address - self.base + len)
    }

    /// Memory that holds `bytes` from `base` on.
    pub fn new(base: usize, bytes: Vec<u8>) -> (memory: ForeignMemory)
        ensures
            memory.base == base,
            memory.bytes@ == bytes@,
    {
        ForeignMemory { base, bytes }
    }

    /// Copies `len` bytes from `address` on; fails unless all of them are there.
    pub fn read(&self, address: usize, len: usize) -> (r: Result<Vec<u8>, ()>)
        ensures
            r is Ok <==> self.holds(address as int, len as int),
            r matches Ok(data) ==> data@ == self.range(address as int, len as int),
    {
        if address < self.base {
            return Err(());
        }
        let offset: usize = address - self.base;
        if offset > self.bytes.len() || len > self.bytes.len() - offset {
            return Err(());
        }
        let mut data: Vec<u8> = Vec::new();
        let mut i: usize = 0;
        while i < len
            invariant
                i <= len,
                offset + len <= self.bytes.len(),
                data@ == self.bytes@.subrange(offset as int, offset + i),
            decreases len - i,
        {
            data.push(self.bytes[offset + i]);
            i = i + 1;
        }
        Ok(data)
    }

    /// Copies `data` into the memory from `address` on; fails, and changes
    /// nothing, unless all of it has room there.
    pub fn write(&mut self, address: usize, data: &Vec<u8>) -> (r: Result<(), ()>)
        ensures
            r is Ok <==> old(self).holds(address as int, data@.len() as int),
            final(self).base == old(self).base,
            r is Ok ==> final(self).bytes@ == overlay(
                old(self).bytes@,
                address - old(self).base,
                data@,
            ),
            r is Err ==> final(self).bytes@ == old(self).bytes@,
    {
        if address < self.base {
            return Err(());
        }
        let offset: usize = address - self.base;
        if offset > self.bytes.len() || data.len() > self.bytes.len() - offset {
            return Err(());
        }
        let mut i: usize = 0;
        while i < data.len()
            invariant
                i <= data.len(),
                self.base == old(self).base,
                self.bytes.len() == old(self).bytes.len(),
                offset + data.len() <= self.bytes.len(),
                self.bytes@ == overlay(old(self).bytes@, offset as int, data@.take(i as int)),
            decreases data.len() - i,
        {
            self.bytes.set(offset + i, data[i]);
            i = i + 1;
        }
        assert(data@.take(data@.len() as int) == data@);
        Ok(())
    }

    /// Copies `count` elements of `element_size` bytes each from `address` on;
    /// fails where the byte count overflows or not all of them are there.
    pub fn read_array(&self, address: usize, element_size: usize, count: usize) -> (r: Result<
        Vec<u8>,
        (),
    >)
        ensures
            r is Ok <==> element_size * count <= usize::MAX && self.holds(
                address as int,
                element_size * count,
            ),
            r matches Ok(data) ==> data@ == self.range(address as int, element_size * count),
    {
        match element_size.checked_mul(count) {
            None => Err(()),
            Some(len) => self.read(address, len),
        }
    }

    /// Copies `count` 16-bit units from `address` on.
    pub fn read_wide(&self, address: usize, count: usize) -> (r: Result<Vec<u16>, ()>)
        ensures
            r is Ok <==> 2 * count <= usize::MAX && self.holds(address as int, 2 * count),
            r matches Ok(units) ==> units@ == wide_units(self.range(address as int, 2 * count)),
    {
        match self.read_array(address, 2, count) {
            Err(_) => Err(()),
            Ok(data) => {
                let mut units: Vec<u16> = Vec::new();
                let mut i: usize = 0;
                while i < count
                    invariant
                        i <= count,
                        data.len() == 2 * count,
                        units@ == wide_units(data@).take(i as int),
                    decreases count - i,
                {
                    let low: u16 = data[2 * i] as u16;
                    let high: u16 = data[2 * i + 1] as u16;
                    units.push(low + 256 * high);
                    i = i + 1;
                }
                assert(wide_units(data@).take(count as int) == wide_units(data@));
                Ok(units)
            },
        }
    }

    /// Reads the shared record that lies at `address`.
    pub fn read_shared_state(&self, address: usize) -> (r: Result<SharedCrashState, ()>)
        ensures
            r is Ok <==> self.holds(address as int, shared_state_size() as int),
            r matches Ok(state) ==> decodes_to(
                self.range(address as int, shared_state_size() as int),
                state,
            ),
    {
        match self.read(address, SharedCrashState::size()) {
            Err(_) => Err(()),
            Ok(data) => SharedCrashState::from_bytes(&data),
        }
    }

    /// Writes the shared record `state` at `address`.
    pub fn write_shared_state(&mut self, state: &SharedCrashState, address: usize) -> (r: Result<
        (),
        (),
    >)
        ensures
            r is Ok <==> old(self).holds(address as int, shared_state_size() as int),
            final(self).base == old(self).base,
            r is Ok ==> final(self).bytes@ == overlay(
                old(self).bytes@,
                address - old(self).base,
                state.encoding(),
            ),
            r is Err ==> final(self).bytes@ == old(self).bytes@,
    {
        let data = state.to_bytes();
        self.write(address, &data)
    }

    /// Hands a child's crash over to the main process whose memory this is:
    /// reads the child's record at `address`, puts in the child's id, the
    /// minidump's name and the allocation size, writes the record back, and
    /// returns the address of the routine that the main process wants run.
    pub fn record_child_crash(
        &mut self,
        address: usize,
        child_pid: u32,
        minidump_name: [u8; 40],
        oom_allocation_size: usize,
    ) -> (r: Result<usize, ()>)
        ensures
            r is Ok <==> old(self).holds(address as int, shared_state_size() as int),
            final(self).base == old(self).base,
            r is Err ==> final(self).bytes@ == old(self).bytes@,
            r matches Ok(entry) ==> exists|before: SharedCrashState, after: SharedCrashState|
                {
                    &&& decodes_to(
                        old(self).range(address as int, shared_state_size() as int),
                        before,
                    )
                    &&& entry == before.notify_entry
                    &&& after.notify_entry == before.notify_entry
                    &&& after.child_pid == child_pid
                    &&& after.minidump_name == minidump_name
                    &&& after.oom_allocation_size == oom_allocation_size
                    &&& final(self).bytes@ == overlay(
                        old(self).bytes@,
                        address - old(self).base,
                        after.encoding(),
                    )
                },
    {
        match self.read_shared_state(address) {
            Err(_) => Err(()),
            Ok(before) => {
                let entry = before.notify_entry;
                let ghost seen = before;
                let after = before.with_crash(child_pid, minidump_name, oom_allocation_size);
                match self.write_shared_state(&after, address) {
                    Err(_) => Err(()),
                    Ok(()) => {
                        proof {
                            assert(after.notify_entry == seen.notify_entry);
                        }
                        Ok(entry)
                    },
                }
            },
        }
    }
}

/// What was written is what is read: after a record is written at an address
/// that has room for it, the bytes there hold that record, field for field, and
/// no byte outside it has changed.
pub proof fn lemma_write_then_read(contents: Seq<u8>, offset: int, state: SharedCrashState)
    requires
        0 <= offset,
        offset + shared_state_size() <= contents.len(),
    ensures
        decodes_to(
            overlay(contents, offset, state.encoding()).subrange(
                offset,
                offset + shared_state_size(),
            ),
            state,
        ),
        forall|i: int|
            0 <= i < contents.len() && !(offset <= i < offset + shared_state_size()) ==> overlay(
                contents,
                offset,
                state.encoding(),
            )[i] == contents[i],
{
    lemma_encoding_decodes(state);
    assert(overlay(contents, offset, state.encoding()).subrange(
        offset,
        offset + shared_state_size(),
    ) == state.encoding());
}

} // verus!
