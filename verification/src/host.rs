//! What the operating system's answers mean: truth values, ids and handles that
//! are zero on failure, and the status handed back to the host.
use vstd::prelude::*;

verus! {

/// The status that tells the host that the event was handled.
pub const S_OK: i32 = 0;

/// The status that tells the host that handling the event failed.
pub const E_UNEXPECTED: i32 = -2147418113i32;

/// The exception code of a breakpoint, which the host raises for a hang.
pub const EXCEPTION_BREAKPOINT: i32 = -2147483645i32;

/// The status of a query that succeeded.
pub const STATUS_SUCCESS: i32 = 0;

/// What a wait returns when the awaited object was signalled.
pub const WAIT_OBJECT_0: u32 = 0;

/// How long the main process gets to take note of a child's crash, in
/// milliseconds.
pub const NOTIFY_TIMEOUT_MS: u32 = 5000;

/// The largest number of 16-bit units of a path, the terminator not counted.
pub const MAX_PATH: u32 = 260;

/// Reads a truth value of the operating system: zero is false, all else true.
pub fn to_bool(raw: i32) -> (r: bool)
    ensures
        r == (raw != 0),
{
    raw != 0
}

/// Hands `value` on where the operating system's answer was true.
pub fn if_true<T>(raw: i32, value: T) -> (r: Result<T, ()>)
    ensures
        raw != 0 ==> r == Ok::<T, ()>(value),
        raw == 0 ==> r is Err,
{
    if to_bool(raw) {
        Ok(value)
    } else {
        Err(())
    }
}

/// Succeeds where the operating system's answer was true.
pub fn success(raw: i32) -> (r: Result<(), ()>)
    ensures
        r is Ok <==> raw != 0,
{
    if_true(raw, ())
}

/// The process id that a query returned: zero stands for failure.
pub fn get_process_id(raw: u32) -> (r: Result<u32, ()>)
    ensures
        raw != 0 ==> r == Ok::<u32, ()>(raw),
        raw == 0 ==> r is Err,
{
    if raw == 0 {
        Err(())
    } else {
        Ok(raw)
    }
}

/// The process handle that opening a process returned: zero stands for
/// failure.
pub fn get_process_handle(raw: isize) -> (r: Result<isize, ()>)
    ensures
        raw != 0 ==> r == Ok::<isize, ()>(raw),
        raw == 0 ==> r is Err,
{
    if raw != 0 {
        Ok(raw)
    } else {
        Err(())
    }
}

/// The length of the executable's path that a query into a buffer of
/// `MAX_PATH + 1` units returned: zero stands for failure, and a full buffer
/// for a path that was cut short.
pub fn get_application_path_length(returned: u32) -> (r: Result<usize, ()>)
    ensures
        0 < returned <= MAX_PATH ==> r == Ok::<usize, ()>(returned as usize),
        returned == 0 || returned > MAX_PATH ==> r is Err,
{
    if returned == 0 || returned > MAX_PATH {
        Err(())
    } else {
        Ok(returned as usize)
    }
}

/// What the host is told, and whether the module claims the crash and ends the
/// crashed process: both exactly where handling the event did not fail.
pub fn host_status(handled: bool) -> (r: (i32, bool))
    ensures
        handled ==> r == (S_OK, true),
        !handled ==> r == (E_UNEXPECTED, false),
{
    if handled {
        (S_OK, true)
    } else {
        (E_UNEXPECTED, false)
    }
}

/// Seconds between the first of January 1601 and the first of January 1970.
pub const SECONDS_TO_UNIX_EPOCH: u64 = 11644473600;

/// The number of 100 ns ticks in a second.
pub const TICKS_PER_SECOND: u64 = 10000000;

/// The ticks that the two halves of a file time stand for.
pub open spec fn file_time_ticks(high: u32, low: u32) -> nat {
    (high as nat) * 0x1_0000_0000 + low as nat
}

/// The second, counted from 1970, in which a file time lies.
pub open spec fn unix_seconds(high: u32, low: u32) -> int {
    file_time_ticks(high, low) as int / 10000000 - 11644473600
}

/// Turns the time at which a process was created, as the operating system
/// reports it (ticks of 100 ns since 1601, in two halves), into seconds since
/// 1970. Fails for a time before 1970.
pub fn get_startup_time(high: u32, low: u32) -> (r: Result<u64, ()>)
    ensures
        unix_seconds(high, low) >= 0 ==> r == Ok::<u64, ()>(unix_seconds(high, low) as u64),
        unix_seconds(high, low) < 0 ==> r is Err,
{
    let ticks: u64 = (high as u64) * 0x1_0000_0000 + low as u64;
    let seconds: u64 = ticks / TICKS_PER_SECOND;
    if seconds < SECONDS_TO_UNIX_EPOCH {
        Err(())
    } else {
        Ok(seconds - SECONDS_TO_UNIX_EPOCH)
    }
}

/// The version of an operating system.
#[derive(Clone, Copy, PartialEq, Eq, Structural, Debug)]
pub struct OsVersion {
    pub major: u32,
    pub minor: u32,
    pub service_pack_major: u16,
    pub service_pack_minor: u16,
}

impl OsVersion {
    /// Whether this version is `floor` or a later one: the first of major
    /// version, minor version and the two parts of the service pack in which
    /// they differ is greater here.
    pub open spec fn at_least(self, floor: OsVersion) -> bool {
        if self.major != floor.major {
            self.major > floor.major
        } else if self.minor != floor.minor {
            self.minor > floor.minor
        } else if self.service_pack_major != floor.service_pack_major {
            self.service_pack_major > floor.service_pack_major
        } else {
            self.service_pack_minor >= floor.service_pack_minor
        }
    }

    /// The first version of Windows 8: 6.2, without a service pack.
    pub fn windows8() -> (version: OsVersion)
        ensures
            version == (OsVersion {
                major: 6,
                minor: 2,
                service_pack_major: 0,
                service_pack_minor: 0,
            }),
    {
        OsVersion { major: 6, minor: 2, service_pack_major: 0, service_pack_minor: 0 }
    }

    /// Whether this version is `floor` or a later one.
    pub fn is_at_least(&self, floor: &OsVersion) -> (r: bool)
        ensures
            r == self.at_least(*floor),
    {
        if self.major != floor.major {
            self.major > floor.major
        } else if self.minor != floor.minor {
            self.minor > floor.minor
        } else if self.service_pack_major != floor.service_pack_major {
            self.service_pack_major > floor.service_pack_major
        } else {
            self.service_pack_minor >= floor.service_pack_minor
        }
    }
}

/// Whether a system of the given version is Windows 8 or later.
pub fn is_windows8_or_later(version: &OsVersion) -> (r: bool)
    ensures
        r == version.at_least(
            OsVersion { major: 6, minor: 2, service_pack_major: 0, service_pack_minor: 0 },
        ),
{
    let floor = OsVersion::windows8();
    version.is_at_least(&floor)
}

/// Being at least a version is an order: every version is at least itself,
/// and what is at least a version is at least every version below that one.
pub proof fn lemma_at_least_is_an_order(a: OsVersion, b: OsVersion, c: OsVersion)
    ensures
        a.at_least(a),
        a.at_least(b) && b.at_least(c) ==> a.at_least(c),
        a.at_least(b) || b.at_least(a),
        a.at_least(b) && b.at_least(a) ==> a == b,
{
}

} // verus!
