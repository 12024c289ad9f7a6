//! A crash report: its id, the files that are written for it, and how much
//! goes into its minidump.
use crate::annotations::{annotations_json, annotations_of, Annotations};
use crate::application::ApplicationInformation;
use crate::paths::{FilePath, FilePathView};
use crate::shared_state::{decodes_to, shared_state_size, SharedCrashState};
use crate::text::{chars_of, decimal_string, decimal_text};
use vstd::prelude::*;
use vstd::string::StringExecFns;

verus! {

/// Minidump flag: information on every region of memory.
pub const MINIDUMP_WITH_FULL_MEMORY_INFO: u32 = 0x800;

/// Minidump flag: the modules that were unloaded.
pub const MINIDUMP_WITH_UNLOADED_MODULES: u32 = 0x20;

/// Minidump flag: the process's and the threads' own data blocks.
pub const MINIDUMP_WITH_PROCESS_THREAD_DATA: u32 = 0x100;

/// Minidump flag: memory that the stacks refer to.
pub const MINIDUMP_WITH_INDIRECTLY_REFERENCED_MEMORY: u32 = 0x40;

/// Whether `c` is a decimal digit or one of the letters `a` to `f`.
pub open spec fn is_lower_hex(c: char) -> bool {
    c == '0' || c == '1' || c == '2' || c == '3' || c == '4' || c == '5' || c == '6' || c == '7'
        || c == '8' || c == '9' || c == 'a' || c == 'b' || c == 'c' || c == 'd' || c == 'e' || c
        == 'f'
}

/// Whether `id` has the shape of a report id: 36 characters, hyphens at 8, 13,
/// 18 and 23, lower-case hexadecimal digits elsewhere.
pub open spec fn is_report_id(id: Seq<char>) -> bool {
    &&& id.len() == 36
    &&& forall|i: int|
        0 <= i < 36 ==> if i == 8 || i == 13 || i == 18 || i == 23 {
            #[trigger] id[i] == '-'
        } else {
            is_lower_hex(id[i])
        }
}

/// Whether `id` has the shape of a random report id: that of a report id,
/// with the version digit 4 at index 14 and a variant digit from 8 to b at
/// index 19.
pub open spec fn is_random_report_id(id: Seq<char>) -> bool {
    &&& is_report_id(id)
    &&& id[14] == '4'
    &&& (id[19] == '8' || id[19] == '9' || id[19] == 'a' || id[19] == 'b')
}

/// Trusted: `Uuid::new_v4` of the `uuid` crate, written out by
/// `Hyphenated::encode_lower`. The id is random; the contract claims its shape
/// only, with the two digits that the crate sets for version and variant. The
/// crate stops the program where the system has no random bytes to give.
#[verifier::external_body]
fn fresh_uuid() -> (id: String)
    ensures
        is_random_report_id(id@),
{
    uuid::Uuid::new_v4().as_hyphenated().encode_lower(&mut uuid::Uuid::encode_buffer()).to_owned()
}

/// Whether `id` has the shape of a report id.
pub fn has_report_id_shape(id: &str) -> (r: bool)
    ensures
        r == is_report_id(id@),
{
    let chars = chars_of(id);
    if chars.len() != 36 {
        return false;
    }
    let mut i: usize = 0;
    while i < 36
        invariant
            i <= 36,
            chars@.len() == 36,
            chars@ == id@,
            forall|j: int|
                0 <= j < i ==> if j == 8 || j == 13 || j == 18 || j == 23 {
                    #[trigger] chars@[j] == '-'
                } else {
                    is_lower_hex(chars@[j])
                },
        decreases 36 - i,
    {
        let c = chars[i];
        let fits = if i == 8 || i == 13 || i == 18 || i == 23 {
            c == '-'
        } else {
            c == '0' || c == '1' || c == '2' || c == '3' || c == '4' || c == '5' || c == '6' || c
                == '7' || c == '8' || c == '9' || c == 'a' || c == 'b' || c == 'c' || c == 'd' || c
                == 'e' || c == 'f'
        };
        if !fits {
            assert(id@[i as int] == c);
            return false;
        }
        i = i + 1;
    }
    true
}

/// The bytes of a text of characters below 256, one for each.
pub open spec fn narrow_bytes(text: Seq<char>) -> Seq<u8> {
    Seq::new(text.len(), |i: int| text[i] as u8)
}

/// The flags of the minidump: memory information and unloaded modules
/// always; on a pre-release channel the thread data too, and there, on a
/// system that can take it, the memory that the stacks refer to.
pub open spec fn minidump_type_of(nightly: bool, windows8_or_later: bool) -> u32 {
    let base = MINIDUMP_WITH_FULL_MEMORY_INFO | MINIDUMP_WITH_UNLOADED_MODULES;
    if nightly {
        if windows8_or_later {
            base | MINIDUMP_WITH_PROCESS_THREAD_DATA | MINIDUMP_WITH_INDIRECTLY_REFERENCED_MEMORY
        } else {
            base | MINIDUMP_WITH_PROCESS_THREAD_DATA
        }
    } else {
        base
    }
}

/// Whether every flag of `inner` is a flag of `outer`.
pub open spec fn includes_flags(outer: u32, inner: u32) -> bool {
    outer & inner == inner
}

/// Whether `channel` is a pre-release channel.
pub open spec fn is_nightly_channel(channel: Seq<char>) -> bool {
    channel == "nightly"@ || channel == "default"@
}

/// The text of the event file: the kind of event, the time of the crash, the
/// report's id, each on a line of its own, and the annotations.
pub open spec fn event_file_text(crash_time: u64, uuid: Seq<char>, json: Seq<char>) -> Seq<char> {
    "crash.main.3\n"@ + decimal_text(crash_time as nat) + "\n"@ + uuid + "\n"@ + json
}

/// A crash report.
pub struct CrashReport {
    /// The report's id.
    pub uuid: String,
    /// Where the application's crash reports are kept.
    pub crash_reports_path: FilePath,
    /// The release channel of the build that crashed.
    pub release_channel: String,
    /// What is known of the crash.
    pub annotations: Annotations,
    /// When the crash was seen, in seconds since 1970.
    pub crash_time: u64,
    /// Size of the allocation that failed, or zero.
    pub oom_allocation_size: usize,
}

fn same_text(a: &String, b: &str) -> (r: bool)
    ensures
        r == (a@ == b@),
{
    let other = b.to_owned();
    *a == other
}

impl CrashReport {
    /// Whether the report is well formed: its id has the shape of a report id.
    pub open spec fn wf(&self) -> bool {
        is_report_id(self.uuid@)
    }

    /// The directory of the reports that wait to be sent.
    pub open spec fn pending_path_of(&self) -> FilePathView {
        self.crash_reports_path@.join("pending"@)
    }

    /// The directory of the event files.
    pub open spec fn events_path_of(&self) -> FilePathView {
        self.crash_reports_path@.join("events"@)
    }

    /// The file of the minidump.
    pub open spec fn minidump_path_of(&self) -> FilePathView {
        self.pending_path_of().join(self.uuid@ + ".dmp"@)
    }

    /// The file of the annotations.
    pub open spec fn extra_file_path_of(&self) -> FilePathView {
        self.pending_path_of().join(self.uuid@ + ".extra"@)
    }

    /// The event file.
    pub open spec fn event_file_path_of(&self) -> FilePathView {
        self.events_path_of().join(self.uuid@)
    }

    /// The report of a crash under the id `uuid`. The process cannot have
    /// started after it crashed.
    pub fn with_uuid(
        application_information: &ApplicationInformation,
        uuid: String,
        crash_time: u64,
        startup_time: u64,
        oom_allocation_size: usize,
        ui_hang: bool,
    ) -> (report: CrashReport)
        requires
            is_report_id(uuid@),
            startup_time <= crash_time,
        ensures
            report.wf(),
            report.uuid@ == uuid@,
            report.crash_reports_path@ == application_information.crash_reports_dir@,
            report.release_channel@ == application_information.release_channel@,
            report.annotations@ == annotations_of(
                application_information.application_data@,
                application_information.release_channel@,
                application_information.install_time@,
                crash_time,
                startup_time,
                oom_allocation_size,
                ui_hang,
            ),
            report.crash_time == crash_time,
            report.oom_allocation_size == oom_allocation_size,
    {
        let annotations = Annotations::from_application_data(
            &application_information.application_data,
            application_information.release_channel.clone(),
            application_information.install_time.clone(),
            crash_time,
            startup_time,
            oom_allocation_size,
            ui_hang,
        );
        CrashReport {
            uuid,
            crash_reports_path: application_information.crash_reports_dir.duplicate(),
            release_channel: application_information.release_channel.clone(),
            annotations,
            crash_time,
            oom_allocation_size,
        }
    }

    /// The report of a crash, under a fresh random id. The process cannot have
    /// started after it crashed.
    pub fn new(
        application_information: &ApplicationInformation,
        crash_time: u64,
        startup_time: u64,
        oom_allocation_size: usize,
        ui_hang: bool,
    ) -> (report: CrashReport)
        requires
            startup_time <= crash_time,
        ensures
            report.wf(),
            is_random_report_id(report.uuid@),
            report.crash_reports_path@ == application_information.crash_reports_dir@,
            report.release_channel@ == application_information.release_channel@,
            report.annotations@ == annotations_of(
                application_information.application_data@,
                application_information.release_channel@,
                application_information.install_time@,
                crash_time,
                startup_time,
                oom_allocation_size,
                ui_hang,
            ),
            report.crash_time == crash_time,
            report.oom_allocation_size == oom_allocation_size,
    {
        CrashReport::with_uuid(
            application_information,
            fresh_uuid(),
            crash_time,
            startup_time,
            oom_allocation_size,
            ui_hang,
        )
    }

    /// The report of a crash, under a fresh random id, where the times fit:
    /// fails where the process is said to have started after it crashed.
    pub fn try_new(
        application_information: &ApplicationInformation,
        crash_time: u64,
        startup_time: u64,
        oom_allocation_size: usize,
        ui_hang: bool,
    ) -> (r: Result<CrashReport, ()>)
        ensures
            r is Ok <==> startup_time <= crash_time,
            r matches Ok(report) ==> {
                &&& report.wf()
                &&& is_random_report_id(report.uuid@)
                &&& report.crash_reports_path@ == application_information.crash_reports_dir@
                &&& report.release_channel@ == application_information.release_channel@
                &&& report.annotations@ == annotations_of(
                    application_information.application_data@,
                    application_information.release_channel@,
                    application_information.install_time@,
                    crash_time,
                    startup_time,
                    oom_allocation_size,
                    ui_hang,
                )
                &&& report.crash_time == crash_time
                &&& report.oom_allocation_size == oom_allocation_size
            },
    {
        if startup_time <= crash_time {
            Ok(
                CrashReport::new(
                    application_information,
                    crash_time,
                    startup_time,
                    oom_allocation_size,
                    ui_hang,
                ),
            )
        } else {
            Err(())
        }
    }

    /// Whether the build that crashed is of a pre-release channel.
    pub fn is_nightly(&self) -> (r: bool)
        ensures
            r == is_nightly_channel(self.release_channel@),
    {
        same_text(&self.release_channel, "nightly") || same_text(&self.release_channel, "default")
    }

    /// The flags of the minidump to write for this report, given whether the
    /// system is Windows 8 or later.
    pub fn get_minidump_type(&self, is_windows8_or_later: bool) -> (flags: u32)
        ensures
            flags == minidump_type_of(
                is_nightly_channel(self.release_channel@),
                is_windows8_or_later,
            ),
    {
        let mut minidump_type = MINIDUMP_WITH_FULL_MEMORY_INFO | MINIDUMP_WITH_UNLOADED_MODULES;
        if self.is_nightly() {
            minidump_type = minidump_type | MINIDUMP_WITH_PROCESS_THREAD_DATA;
            if is_windows8_or_later {
                minidump_type = minidump_type | MINIDUMP_WITH_INDIRECTLY_REFERENCED_MEMORY;
            }
        }
        minidump_type
    }

    /// The directory of the reports that wait to be sent.
    pub fn get_pending_path(&self) -> (path: FilePath)
        ensures
            path@ == self.pending_path_of(),
    {
        self.crash_reports_path.join("pending")
    }

    /// The directory of the event files.
    pub fn get_events_path(&self) -> (path: FilePath)
        ensures
            path@ == self.events_path_of(),
    {
        self.crash_reports_path.join("events")
    }

    /// The file of the minidump.
    pub fn get_minidump_path(&self) -> (path: FilePath)
        ensures
            path@ == self.minidump_path_of(),
    {
        let mut name = self.uuid.clone();
        name.append(".dmp");
        self.get_pending_path().join(name.as_str())
    }

    /// The name of the minidump's file as it goes into the shared record: 40
    /// bytes, the id and the extension, with nothing behind them.
    pub fn get_minidump_name(&self) -> (name: [u8; 40])
        requires
            self.wf(),
        ensures
            name@ == narrow_bytes(self.uuid@ + ".dmp"@),
    {
        let chars = chars_of(self.uuid.as_str());
        let mut name: [u8; 40] = [0u8;40];
        let mut i: usize = 0;
        while i < 36
            invariant
                i <= 36,
                chars@.len() == 36,
                forall|j: int| 0 <= j < i ==> name@[j] == chars@[j] as u8,
            decreases 36 - i,
        {
            name[i] = chars[i] as u8;
            i = i + 1;
        }
        name[36] = 46u8;
        name[37] = 100u8;
        name[38] = 109u8;
        name[39] = 112u8;
        proof {
            reveal_strlit(".dmp");
            let text = self.uuid@ + ".dmp"@;
            assert(text.len() == 40);
            assert(text[36] == '.' && text[37] == 'd' && text[38] == 'm' && text[39] == 'p');
            assert forall|j: int| 0 <= j < 40 implies name@[j] == text[j] as u8 by {
                if j < 36 {
                    assert(text[j] == chars@[j]);
                }
            }
            assert(name@ == narrow_bytes(text));
        }
        name
    }

    /// The file of the annotations.
    pub fn get_extra_file_path(&self) -> (path: FilePath)
        ensures
            path@ == self.extra_file_path_of(),
    {
        let mut name = self.uuid.clone();
        name.append(".extra");
        self.get_pending_path().join(name.as_str())
    }

    /// The event file.
    pub fn get_event_file_path(&self) -> (path: FilePath)
        ensures
            path@ == self.event_file_path_of(),
    {
        self.get_events_path().join(self.uuid.as_str())
    }

    /// Enters this report into a child's record as it was read from the parent:
    /// returns the record's bytes to write back, and the address of the routine
    /// that the parent wants run. Fails unless `record` has the size of a
    /// record.
    pub fn fill_shared_state(&self, record: &Vec<u8>, child_pid: u32) -> (r: Result<
        (Vec<u8>, usize),
        (),
    >)
        requires
            self.wf(),
        ensures
            r is Ok <==> record@.len() == shared_state_size(),
            r matches Ok((bytes, entry)) ==> exists|before: SharedCrashState, after: SharedCrashState|
                {
                    &&& decodes_to(record@, before)
                    &&& entry == before.notify_entry
                    &&& after.notify_entry == before.notify_entry
                    &&& after.child_pid == child_pid
                    &&& after.minidump_name@ == narrow_bytes(self.uuid@ + ".dmp"@)
                    &&& after.oom_allocation_size == self.oom_allocation_size
                    &&& bytes@ == after.encoding()
                },
    {
        match SharedCrashState::from_bytes(record) {
            Err(_) => Err(()),
            Ok(before) => {
                let entry = before.notify_entry;
                let ghost seen = before;
                let after = before.with_crash(
                    child_pid,
                    self.get_minidump_name(),
                    self.oom_allocation_size,
                );
                let bytes = after.to_bytes();
                proof {
                    assert(decodes_to(record@, seen) && after.notify_entry == seen.notify_entry);
                }
                Ok((bytes, entry))
            },
        }
    }

    /// What is written into the file of the annotations.
    pub fn extra_file_contents(&self) -> (r: Result<String, ()>)
        ensures
            r matches Ok(text) && text@ == annotations_json(self.annotations@),
    {
        self.annotations.to_json()
    }

    /// The event file's text around the annotations as they were written.
    pub fn frame_event_file(&self, json: Result<String, ()>) -> (r: Result<String, ()>)
        ensures
            match json {
                Ok(object) => r matches Ok(text) && text@ == event_file_text(
                    self.crash_time,
                    self.uuid@,
                    object@,
                ),
                Err(_) => r is Err,
            },
    {
        match json {
            Ok(object) => {
                let mut text = "crash.main.3\n".to_owned();
                text.append(decimal_string(self.crash_time).as_str());
                text.append("\n");
                text.append(self.uuid.as_str());
                text.append("\n");
                text.append(object.as_str());
                Ok(text)
            },
            Err(_) => Err(()),
        }
    }

    /// What is written into the event file.
    pub fn event_file_contents(&self) -> (r: Result<String, ()>)
        ensures
            r matches Ok(text) && text@ == event_file_text(
                self.crash_time,
                self.uuid@,
                annotations_json(self.annotations@),
            ),
    {
        self.frame_event_file(self.annotations.to_json())
    }
}

/// On a pre-release channel the minidump holds all that it holds on a release
/// channel, and more, whatever the systems are.
pub proof fn lemma_nightly_flags_strictly_include_release(
    nightly_on_windows8: bool,
    release_on_windows8: bool,
)
    ensures
        includes_flags(
            minidump_type_of(true, nightly_on_windows8),
            minidump_type_of(false, release_on_windows8),
        ),
        minidump_type_of(true, nightly_on_windows8) != minidump_type_of(
            false,
            release_on_windows8,
        ),
{
    assert((0x800u32 | 0x20u32 | 0x100u32 | 0x40u32) & (0x800u32 | 0x20u32) == (0x800u32 | 0x20u32)
        && (0x800u32 | 0x20u32 | 0x100u32) & (0x800u32 | 0x20u32) == (0x800u32 | 0x20u32) && (
    0x800u32 | 0x20u32 | 0x100u32 | 0x40u32) != (0x800u32 | 0x20u32) && (0x800u32 | 0x20u32
        | 0x100u32) != (0x800u32 | 0x20u32)) by (bit_vector);
}

/// The three files of one report all carry the report's id: the minidump and
/// the annotations lie side by side under the id with their extensions, and
/// the event file is named by the id alone.
pub proof fn lemma_artifacts_share_id(report: CrashReport)
    ensures
        report.minidump_path_of().file_name() == report.uuid@ + ".dmp"@,
        report.extra_file_path_of().file_name() == report.uuid@ + ".extra"@,
        report.event_file_path_of().file_name() == report.uuid@,
        report.minidump_path_of().names.drop_last() == report.extra_file_path_of().names.drop_last(),
        report.minidump_path_of().root == report.crash_reports_path@.root,
        report.extra_file_path_of().root == report.crash_reports_path@.root,
        report.event_file_path_of().root == report.crash_reports_path@.root,
{
}

} // verus!
