//! The annotations of a crash report: a flat record of texts, and the JSON
//! object that is written for it.
use crate::application::{optional_text, ApplicationData, ApplicationDataView};
use crate::text::{decimal_string, decimal_text, digit_char};
use vstd::prelude::*;
use vstd::string::StringExecFns;

verus! {

/// Why a value could not be written as JSON.
#[verifier::external_type_specification]
#[verifier::external_body]
pub struct ExJsonError(serde_json::Error);

/// How one character stands in a JSON string: the double quote and the
/// backslash behind a backslash; backspace, tab, line feed, form feed and
/// carriage return by their letters; every other character below the space by
/// its number in four hexadecimal digits; all others as they are.
pub open spec fn json_escape(c: char) -> Seq<char> {
    if c == '"' {
        seq!['\\', '"']
    } else if c == '\\' {
        seq!['\\', '\\']
    } else if c == '\u{8}' {
        seq!['\\', 'b']
    } else if c == '\t' {
        seq!['\\', 't']
    } else if c == '\n' {
        seq!['\\', 'n']
    } else if c == '\u{c}' {
        seq!['\\', 'f']
    } else if c == '\r' {
        seq!['\\', 'r']
    } else if (c as u32) < 0x20 {
        seq!['\\', 'u', '0', '0', digit_char((c as u32 / 16) as int), digit_char(
            (c as u32 % 16) as int,
        )]
    } else {
        seq![c]
    }
}

/// The characters of `text` as they stand in a JSON string.
pub open spec fn json_escaped(text: Seq<char>) -> Seq<char>
    decreases text.len(),
{
    if text.len() == 0 {
        Seq::<char>::empty()
    } else {
        json_escaped(text.drop_last()) + json_escape(text.last())
    }
}

/// The JSON string literal for `text`: the text between double quotes, with
/// escapes where JSON needs them.
pub open spec fn json_string(text: Seq<char>) -> Seq<char> {
    seq!['"'] + json_escaped(text) + seq!['"']
}

/// Trusted: `serde_json::to_string` of the `serde_json` crate, for a string.
/// The contract claims that it succeeds, as nothing can fail where a string is
/// written into a vector, and that it returns the text between double quotes
/// with the escapes of the crate's table.
#[verifier::external_body]
fn json_quote(text: &str) -> (r: Result<String, serde_json::Error>)
    ensures
        r is Ok,
        r matches Ok(quoted) ==> quoted@ == json_string(text@),
{
    serde_json::to_string(text)
}

/// The annotations that go with a crash report.
pub struct Annotations {
    pub build_id: String,
    pub crash_time: String,
    pub install_time: String,
    pub hang: Option<String>,
    pub oom_allocation_size: Option<String>,
    pub product_id: String,
    pub product_name: String,
    pub release_channel: String,
    pub server_url: String,
    pub startup_time: String,
    pub uptime_ts: String,
    pub vendor: Option<String>,
    pub version: String,
    pub windows_error_reporting: String,
}

/// What `Annotations` hold, as text.
pub struct AnnotationsView {
    pub build_id: Seq<char>,
    pub crash_time: Seq<char>,
    pub install_time: Seq<char>,
    pub hang: Option<Seq<char>>,
    pub oom_allocation_size: Option<Seq<char>>,
    pub product_id: Seq<char>,
    pub product_name: Seq<char>,
    pub release_channel: Seq<char>,
    pub server_url: Seq<char>,
    pub startup_time: Seq<char>,
    pub uptime_ts: Seq<char>,
    pub vendor: Option<Seq<char>>,
    pub version: Seq<char>,
    pub windows_error_reporting: Seq<char>,
}

impl View for Annotations {
    type V = AnnotationsView;

    open spec fn view(&self) -> AnnotationsView {
        AnnotationsView {
            build_id: self.build_id@,
            crash_time: self.crash_time@,
            install_time: self.install_time@,
            hang: optional_text(self.hang),
            oom_allocation_size: optional_text(self.oom_allocation_size),
            product_id: self.product_id@,
            product_name: self.product_name@,
            release_channel: self.release_channel@,
            server_url: self.server_url@,
            startup_time: self.startup_time@,
            uptime_ts: self.uptime_ts@,
            vendor: optional_text(self.vendor),
            version: self.version@,
            windows_error_reporting: self.windows_error_reporting@,
        }
    }
}

/// The annotations of a crash: the application's identity, the times of the
/// crash and of the start of the process in seconds, the time between them
/// with one decimal, the allocation size where it is not zero, and the hang
/// marker where the crash is a hang.
pub open spec fn annotations_of(
    data: ApplicationDataView,
    release_channel: Seq<char>,
    install_time: Seq<char>,
    crash_time: u64,
    startup_time: u64,
    oom_allocation_size: usize,
    ui_hang: bool,
) -> AnnotationsView {
    AnnotationsView {
        build_id: data.build_id,
        crash_time: decimal_text(crash_time as nat),
        install_time,
        hang: if ui_hang {
            Some("ui"@)
        } else {
            None
        },
        oom_allocation_size: if oom_allocation_size != 0 {
            Some(decimal_text(oom_allocation_size as nat))
        } else {
            None
        },
        product_id: data.product_id,
        product_name: data.name,
        release_channel,
        server_url: data.server_url,
        startup_time: decimal_text(startup_time as nat),
        uptime_ts: decimal_text((crash_time - startup_time) as nat) + ".0"@,
        vendor: data.vendor,
        version: data.version,
        windows_error_reporting: "1"@,
    }
}

/// `json` with one more member, written as `lead` (a comma where needed, the
/// quoted key and a colon) and the JSON string for `value`.
pub open spec fn with_member(json: Seq<char>, lead: Seq<char>, value: Seq<char>) -> Seq<char> {
    json + lead + json_string(value)
}

/// `json` with one more member where there is a value for it.
pub open spec fn with_optional_member(json: Seq<char>, lead: Seq<char>, value: Option<Seq<char>>) -> Seq<
    char,
> {
    match value {
        Some(text) => with_member(json, lead, text),
        None => json,
    }
}

/// The JSON object written for annotations: one member for each text that is
/// there, in a fixed order, without white space.
pub open spec fn annotations_json(a: AnnotationsView) -> Seq<char> {
    let j0 = with_member("{"@, "\"BuildID\":"@, a.build_id);
    let j1 = with_member(j0, ",\"CrashTime\":"@, a.crash_time);
    let j2 = with_member(j1, ",\"InstallTime\":"@, a.install_time);
    let j3 = with_optional_member(j2, ",\"Hang\":"@, a.hang);
    let j4 = with_optional_member(j3, ",\"OOMAllocationSize\":"@, a.oom_allocation_size);
    let j5 = with_member(j4, ",\"ProductID\":"@, a.product_id);
    let j6 = with_member(j5, ",\"ProductName\":"@, a.product_name);
    let j7 = with_member(j6, ",\"ReleaseChannel\":"@, a.release_channel);
    let j8 = with_member(j7, ",\"ServerURL\":"@, a.server_url);
    let j9 = with_member(j8, ",\"StartupTime\":"@, a.startup_time);
    let j10 = with_member(j9, ",\"UptimeTS\":"@, a.uptime_ts);
    let j11 = with_optional_member(j10, ",\"Vendor\":"@, a.vendor);
    let j12 = with_member(j11, ",\"Version\":"@, a.version);
    let j13 = with_member(j12, ",\"WindowsErrorReporting\":"@, a.windows_error_reporting);
    j13 + "}"@
}

/// Appends one member to `json`, given its lead and what quoting its value
/// gave. Fails, and leaves `json` as it is, where quoting failed.
pub fn push_member(json: &mut String, lead: &str, quoted: Result<String, serde_json::Error>) -> (r:
    Result<(), ()>)
    ensures
        match quoted {
            Ok(literal) => r is Ok && final(json)@ == old(json)@ + lead@ + literal@,
            Err(_) => r is Err && final(json)@ == old(json)@,
        },
{
    match quoted {
        Ok(literal) => {
            json.append(lead);
            json.append(literal.as_str());
            Ok(())
        },
        Err(_) => Err(()),
    }
}

fn add_member(json: &mut String, lead: &str, value: &str) -> (r: Result<(), ()>)
    ensures
        r is Ok,
        final(json)@ == with_member(old(json)@, lead@, value@),
{
    push_member(json, lead, json_quote(value))
}

fn add_optional_member(json: &mut String, lead: &str, value: &Option<String>) -> (r: Result<(), ()>)
    ensures
        r is Ok,
        final(json)@ == with_optional_member(old(json)@, lead@, optional_text(*value)),
{
    match value {
        Some(text) => add_member(json, lead, text.as_str()),
        None => Ok(()),
    }
}

fn clone_optional(value: &Option<String>) -> (r: Option<String>)
    ensures
        optional_text(r) == optional_text(*value),
{
    match value {
        Some(text) => Some(text.clone()),
        None => None,
    }
}

impl Annotations {
    /// The annotations of a crash. The process cannot have started after it
    /// crashed.
    pub fn from_application_data(
        application_data: &ApplicationData,
        release_channel: String,
        install_time: String,
        crash_time: u64,
        startup_time: u64,
        oom_allocation_size: usize,
        ui_hang: bool,
    ) -> (r: Annotations)
        requires
            startup_time <= crash_time,
        ensures
            r@ == annotations_of(
                application_data@,
                release_channel@,
                install_time@,
                crash_time,
                startup_time,
                oom_allocation_size,
                ui_hang,
            ),
    {
        let oom_text = if oom_allocation_size != 0 {
            Some(decimal_string(oom_allocation_size as u64))
        } else {
            None
        };
        let hang = if ui_hang {
            Some("ui".to_owned())
        } else {
            None
        };
        let mut uptime_ts = decimal_string(crash_time - startup_time);
        uptime_ts.append(".0");
        Annotations {
            build_id: application_data.build_id.clone(),
            crash_time: decimal_string(crash_time),
            install_time,
            hang,
            oom_allocation_size: oom_text,
            product_id: application_data.product_id.clone(),
            product_name: application_data.name.clone(),
            release_channel,
            server_url: application_data.server_url.clone(),
            startup_time: decimal_string(startup_time),
            uptime_ts,
            vendor: clone_optional(&application_data.vendor),
            version: application_data.version.clone(),
            windows_error_reporting: "1".to_owned(),
        }
    }

    /// A copy of the annotations.
    pub fn duplicate(&self) -> (r: Annotations)
        ensures
            r@ == self@,
    {
        Annotations {
            build_id: self.build_id.clone(),
            crash_time: self.crash_time.clone(),
            install_time: self.install_time.clone(),
            hang: clone_optional(&self.hang),
            oom_allocation_size: clone_optional(&self.oom_allocation_size),
            product_id: self.product_id.clone(),
            product_name: self.product_name.clone(),
            release_channel: self.release_channel.clone(),
            server_url: self.server_url.clone(),
            startup_time: self.startup_time.clone(),
            uptime_ts: self.uptime_ts.clone(),
            vendor: clone_optional(&self.vendor),
            version: self.version.clone(),
            windows_error_reporting: self.windows_error_reporting.clone(),
        }
    }

    /// Writes the annotations as a JSON object.
    pub fn to_json(&self) -> (r: Result<String, ()>)
        ensures
            r matches Ok(json) && json@ == annotations_json(self@),
    {
        let mut json = "{".to_owned();
        if add_member(&mut json, "\"BuildID\":", self.build_id.as_str()).is_err() {
            return Err(());
        }
        if add_member(&mut json, ",\"CrashTime\":", self.crash_time.as_str()).is_err() {
            return Err(());
        }
        if add_member(&mut json, ",\"InstallTime\":", self.install_time.as_str()).is_err() {
            return Err(());
        }
        if add_optional_member(&mut json, ",\"Hang\":", &self.hang).is_err() {
            return Err(());
        }
        if add_optional_member(&mut json, ",\"OOMAllocationSize\":", &self.oom_allocation_size)
            .is_err() {
            return Err(());
        }
        if add_member(&mut json, ",\"ProductID\":", self.product_id.as_str()).is_err() {
            return Err(());
        }
        if add_member(&mut json, ",\"ProductName\":", self.product_name.as_str()).is_err() {
            return Err(());
        }
        if add_member(&mut json, ",\"ReleaseChannel\":", self.release_channel.as_str()).is_err() {
            return Err(());
        }
        if add_member(&mut json, ",\"ServerURL\":", self.server_url.as_str()).is_err() {
            return Err(());
        }
        if add_member(&mut json, ",\"StartupTime\":", self.startup_time.as_str()).is_err() {
            return Err(());
        }
        if add_member(&mut json, ",\"UptimeTS\":", self.uptime_ts.as_str()).is_err() {
            return Err(());
        }
        if add_optional_member(&mut json, ",\"Vendor\":", &self.vendor).is_err() {
            return Err(());
        }
        if add_member(&mut json, ",\"Version\":", self.version.as_str()).is_err() {
            return Err(());
        }
        if add_member(
            &mut json,
            ",\"WindowsErrorReporting\":",
            self.windows_error_reporting.as_str(),
        ).is_err() {
            return Err(());
        }
        json.append("}");
        Ok(json)
    }
}

/// What is written for a crash that is no hang and in which no allocation
/// failed: the time between start and crash with one decimal, and neither a
/// hang marker nor an allocation size, so that the object has the members of
/// the application and the times alone.
pub proof fn lemma_annotations_of_a_plain_crash(
    data: ApplicationDataView,
    release_channel: Seq<char>,
    install_time: Seq<char>,
    crash_time: u64,
    startup_time: u64,
)
    ensures
        ({
            let a = annotations_of(
                data,
                release_channel,
                install_time,
                crash_time,
                startup_time,
                0,
                false,
            );
            let j0 = with_member("{"@, "\"BuildID\":"@, data.build_id);
            let j1 = with_member(j0, ",\"CrashTime\":"@, decimal_text(crash_time as nat));
            let j2 = with_member(j1, ",\"InstallTime\":"@, install_time);
            let j5 = with_member(j2, ",\"ProductID\":"@, data.product_id);
            let j6 = with_member(j5, ",\"ProductName\":"@, data.name);
            let j7 = with_member(j6, ",\"ReleaseChannel\":"@, release_channel);
            let j8 = with_member(j7, ",\"ServerURL\":"@, data.server_url);
            let j9 = with_member(j8, ",\"StartupTime\":"@, decimal_text(startup_time as nat));
            let j10 = with_member(
                j9,
                ",\"UptimeTS\":"@,
                decimal_text((crash_time - startup_time) as nat) + ".0"@,
            );
            let j11 = with_optional_member(j10, ",\"Vendor\":"@, data.vendor);
            let j12 = with_member(j11, ",\"Version\":"@, data.version);
            let j13 = with_member(j12, ",\"WindowsErrorReporting\":"@, "1"@);
            &&& a.hang is None
            &&& a.oom_allocation_size is None
            &&& a.uptime_ts == decimal_text((crash_time - startup_time) as nat) + ".0"@
            &&& annotations_json(a) == j13 + "}"@
        }),
{
}

} // verus!
