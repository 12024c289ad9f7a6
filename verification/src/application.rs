//! Who crashed: the application's identity as its configuration file states it,
//! its release channel, and where its crash reports are kept.
use crate::paths::{FilePath, FilePathView};
use crate::text::{
    chars_of, contains_chars, contains_text, find_first, split_piece, text_of_range,
};
use vstd::prelude::*;

verus! {

/// A configuration file, parsed.
#[verifier::external_type_specification]
#[verifier::external_body]
pub struct ExIni(ini::Ini);

/// The values that a parsed configuration file holds in its named sections, by
/// section name and key.
pub uninterp spec fn ini_values(conf: ini::Ini) -> Map<(Seq<char>, Seq<char>), Seq<char>>;

/// Trusted: `Ini::get_from` of the `ini` crate, for a named section. The
/// contract claims that it returns the value kept under the section and key,
/// and `None` exactly where the section or the key in it is missing.
#[verifier::external_body]
fn ini_get(conf: &ini::Ini, section: &str, key: &str) -> (r: Option<String>)
    ensures
        match r {
            Some(value) => ini_values(*conf).dom().contains((section@, key@)) && ini_values(
                *conf,
            )[(section@, key@)] == value@,
            None => !ini_values(*conf).dom().contains((section@, key@)),
        },
{
    conf.get_from(Some(section), key).map(|value| value.to_owned())
}

/// What the application says of itself.
#[derive(Debug)]
pub struct ApplicationData {
    pub vendor: Option<String>,
    pub name: String,
    pub version: String,
    pub build_id: String,
    pub product_id: String,
    pub server_url: String,
}

/// What an `ApplicationData` holds, as text.
pub struct ApplicationDataView {
    pub vendor: Option<Seq<char>>,
    pub name: Seq<char>,
    pub version: Seq<char>,
    pub build_id: Seq<char>,
    pub product_id: Seq<char>,
    pub server_url: Seq<char>,
}

/// The text of an optional string.
pub open spec fn optional_text(value: Option<String>) -> Option<Seq<char>> {
    match value {
        Some(text) => Some(text@),
        None => None,
    }
}

impl View for ApplicationData {
    type V = ApplicationDataView;

    open spec fn view(&self) -> ApplicationDataView {
        ApplicationDataView {
            vendor: optional_text(self.vendor),
            name: self.name@,
            version: self.version@,
            build_id: self.build_id@,
            product_id: self.product_id@,
            server_url: self.server_url@,
        }
    }
}

/// The value under `section` and `key`, if there is one.
pub open spec fn value_of(
    values: Map<(Seq<char>, Seq<char>), Seq<char>>,
    section: Seq<char>,
    key: Seq<char>,
) -> Option<Seq<char>> {
    if values.dom().contains((section, key)) {
        Some(values[(section, key)])
    } else {
        None
    }
}

/// The application's identity as the values of its configuration file state
/// it: name, version, build id and product id under `App`, the vendor too
/// where there is one, and the server's address under `Crash Reporter`. `None`
/// where any but the vendor is missing.
pub open spec fn application_data_of(values: Map<(Seq<char>, Seq<char>), Seq<char>>) -> Option<
    ApplicationDataView,
> {
    match (
        value_of(values, "App"@, "Name"@),
        value_of(values, "App"@, "Version"@),
        value_of(values, "App"@, "BuildID"@),
        value_of(values, "App"@, "ID"@),
        value_of(values, "Crash Reporter"@, "ServerURL"@),
    ) {
        (Some(name), Some(version), Some(build_id), Some(product_id), Some(server_url)) => Some(
            ApplicationDataView {
                vendor: value_of(values, "App"@, "Vendor"@),
                name,
                version,
                build_id,
                product_id,
                server_url,
            },
        ),
        _ => None,
    }
}

impl ApplicationData {
    /// Where the application's configuration file lies, given the directory
    /// that the application is installed in.
    pub fn get_path(install_path: &FilePath) -> (path: FilePath)
        ensures
            path@ == install_path@.join("application.ini"@),
    {
        install_path.join("application.ini")
    }

    /// Takes the application's identity from its parsed configuration file.
    pub fn from_ini(conf: &ini::Ini) -> (r: Result<ApplicationData, ()>)
        ensures
            match r {
                Ok(data) => application_data_of(ini_values(*conf)) == Some(data@),
                Err(_) => application_data_of(ini_values(*conf)) is None,
            },
    {
        let vendor = ini_get(conf, "App", "Vendor");
        let name = match ini_get(conf, "App", "Name") {
            Some(value) => value,
            None => {
                return Err(());
            },
        };
        let version = match ini_get(conf, "App", "Version") {
            Some(value) => value,
            None => {
                return Err(());
            },
        };
        let build_id = match ini_get(conf, "App", "BuildID") {
            Some(value) => value,
            None => {
                return Err(());
            },
        };
        let product_id = match ini_get(conf, "App", "ID") {
            Some(value) => value,
            None => {
                return Err(());
            },
        };
        let server_url = match ini_get(conf, "Crash Reporter", "ServerURL") {
            Some(value) => value,
            None => {
                return Err(());
            },
        };
        Ok(ApplicationData { vendor, name, version, build_id, product_id, server_url })
    }
}

/// The release channel that the lines of the preferences file state: on the
/// first line that names the channel preference, the piece between the third
/// and the fourth double quote. `None` where no line names the preference or
/// that line has fewer than three double quotes.
pub open spec fn release_channel_of(lines: Seq<Seq<char>>) -> Option<Seq<char>>
    decreases lines.len(),
{
    if lines.len() == 0 {
        None
    } else if contains_text(lines[0], "app.update.channel"@) {
        split_piece(lines[0], '"', 3)
    } else {
        release_channel_of(lines.skip(1))
    }
}

/// The text of each of `lines`.
pub open spec fn line_texts(lines: Seq<String>) -> Seq<Seq<char>> {
    Seq::new(lines.len(), |i: int| lines[i]@)
}

/// Finds piece `n` of `chars` split at every `c`: where it begins and ends.
fn find_piece(chars: &Vec<char>, c: char, n: usize) -> (r: Option<(usize, usize)>)
    ensures
        match r {
            Some((from, to)) => from <= to <= chars@.len() && split_piece(chars@, c, n as nat)
                == Some(chars@.subrange(from as int, to as int)),
            None => split_piece(chars@, c, n as nat) is None,
        },
{
    let len = chars.len();
    let mut from: usize = 0;
    let mut k: usize = 0;
    assert(chars@.skip(0) == chars@);
    while k < n
        invariant
            k <= n,
            from <= len == chars@.len(),
            split_piece(chars@, c, n as nat) == split_piece(
                chars@.skip(from as int),
                c,
                (n - k) as nat,
            ),
        decreases n - k,
    {
        let at = find_first(chars, from, len, c);
        proof {
            assert(chars@.subrange(from as int, len as int) == chars@.skip(from as int));
        }
        if at == len {
            return None;
        }
        proof {
            assert(chars@.skip(from as int).skip(at - from + 1) == chars@.skip(at + 1));
        }
        from = at + 1;
        k = k + 1;
    }
    let to = find_first(chars, from, len, c);
    proof {
        assert(chars@.subrange(from as int, len as int) == chars@.skip(from as int));
        assert(chars@.skip(from as int).take(to - from) == chars@.subrange(from as int, to as int));
    }
    Some((from, to))
}

/// Reads the release channel from the lines of the preferences file.
pub fn get_release_channel(lines: &Vec<String>) -> (r: Result<String, ()>)
    ensures
        match r {
            Ok(channel) => release_channel_of(line_texts(lines@)) == Some(channel@),
            Err(_) => release_channel_of(line_texts(lines@)) is None,
        },
{
    let marker = chars_of("app.update.channel");
    let ghost texts = line_texts(lines@);
    let mut i: usize = 0;
    assert(texts.skip(0) == texts);
    while i < lines.len()
        invariant
            i <= lines.len(),
            marker@ == "app.update.channel"@,
            texts == line_texts(lines@),
            release_channel_of(texts) == release_channel_of(texts.skip(i as int)),
        decreases lines.len() - i,
    {
        let ghost rest = texts.skip(i as int);
        proof {
            assert(rest[0] == lines@[i as int]@);
            assert(rest.skip(1) == texts.skip(i + 1));
        }
        let chars = chars_of(lines[i].as_str());
        if contains_chars(&chars, &marker) {
            return match find_piece(&chars, '"', 3) {
                Some((from, to)) => Ok(text_of_range(&chars, from, to)),
                None => Err(()),
            };
        }
        i = i + 1;
    }
    assert(texts.skip(i as int).len() == 0);
    Err(())
}

/// Where the preferences file that states the release channel lies, given
/// the directory that the application is installed in.
pub fn get_channel_prefs_path(install_path: &FilePath) -> (path: FilePath)
    ensures
        path@ == install_path@.join("defaults"@).join("pref"@).join("channel-prefs.js"@),
{
    install_path.join("defaults").join("pref").join("channel-prefs.js")
}

/// Where the crash reports of an application are kept below the user's
/// roaming application data: under the vendor, where there is one, then the
/// application's name, then `Crash Reports`.
pub open spec fn crash_reports_dir_of(roaming: Seq<u16>, data: ApplicationDataView) -> FilePathView {
    let base = FilePathView { root: roaming, names: Seq::empty() };
    let below = match data.vendor {
        Some(vendor) => base.join(vendor),
        None => base,
    };
    below.join(data.name).join("Crash Reports"@)
}

/// Where the crash reports of the application are kept, given the directory
/// of the user's roaming application data in 16-bit units.
pub fn get_crash_reports_dir(roaming_app_data: Vec<u16>, application_data: &ApplicationData) -> (path:
    FilePath)
    ensures
        path@ == crash_reports_dir_of(roaming_app_data@, application_data@),
{
    let base = FilePath::new(roaming_app_data);
    assert(base@.names == Seq::<Seq<char>>::empty());
    let below = match &application_data.vendor {
        Some(vendor) => base.join(vendor.as_str()),
        None => base,
    };
    below.join(application_data.name.as_str()).join("Crash Reports")
}

/// Where the time of installation of the build `build_id` is kept: the file
/// `InstallTime` followed by the build id, among the crash reports.
pub fn get_install_time_path(crash_reports_path: &FilePath, build_id: &str) -> (path: FilePath)
    ensures
        path@ == crash_reports_path@.join("InstallTime"@ + build_id@),
{
    let mut file_name = "InstallTime".to_owned();
    file_name.append(build_id);
    crash_reports_path.join(file_name.as_str())
}

/// All that is known of the application that crashed.
pub struct ApplicationInformation {
    /// The directory that the application is installed in.
    pub install_path: FilePath,
    /// What the application says of itself.
    pub application_data: ApplicationData,
    /// The release channel of the build.
    pub release_channel: String,
    /// Where its crash reports are kept.
    pub crash_reports_dir: FilePath,
    /// When the build was installed, as the installer noted it.
    pub install_time: String,
}

/// What is known of the application before the time of its installation is
/// read: all but that time, and where it is kept.
pub struct ApplicationLocation {
    /// The directory that the application is installed in.
    pub install_path: FilePath,
    /// What the application says of itself.
    pub application_data: ApplicationData,
    /// The release channel of the build.
    pub release_channel: String,
    /// Where its crash reports are kept.
    pub crash_reports_dir: FilePath,
    /// The file that holds the time of installation.
    pub install_time_path: FilePath,
}

impl ApplicationInformation {
    /// Puts together what the parsed configuration file, the preferences file and
    /// the folder of the roaming application data say of the application
    /// installed in `install_path`. Each of the three is needed: fails where
    /// one could not be had, where the configuration does not state the
    /// application's identity, and where the preferences state no channel.
    pub fn locate(
        install_path: FilePath,
        configuration: Result<ini::Ini, ()>,
        preference_lines: Result<Vec<String>, ()>,
        roaming_app_data: Result<Vec<u16>, ()>,
    ) -> (r: Result<ApplicationLocation, ()>)
        ensures
            match r {
                Ok(found) => {
                    &&& configuration matches Ok(conf)
                    &&& preference_lines matches Ok(lines)
                    &&& roaming_app_data matches Ok(roaming)
                    &&& application_data_of(ini_values(conf)) == Some(found.application_data@)
                    &&& release_channel_of(line_texts(lines@)) == Some(found.release_channel@)
                    &&& found.install_path@ == install_path@
                    &&& found.crash_reports_dir@ == crash_reports_dir_of(
                        roaming@,
                        found.application_data@,
                    )
                    &&& found.install_time_path@ == found.crash_reports_dir@.join(
                        "InstallTime"@ + found.application_data@.build_id,
                    )
                },
                Err(_) => {
                    ||| configuration is Err
                    ||| preference_lines is Err
                    ||| roaming_app_data is Err
                    ||| application_data_of(ini_values(configuration->Ok_0)) is None
                    ||| release_channel_of(line_texts(preference_lines->Ok_0@)) is None
                },
            },
    {
        let application_data = match configuration {
            Ok(conf) => match ApplicationData::from_ini(&conf) {
                Ok(data) => data,
                Err(_) => {
                    return Err(());
                },
            },
            Err(_) => {
                return Err(());
            },
        };
        let release_channel = match preference_lines {
            Ok(lines) => match get_release_channel(&lines) {
                Ok(channel) => channel,
                Err(_) => {
                    return Err(());
                },
            },
            Err(_) => {
                return Err(());
            },
        };
        let crash_reports_dir = match roaming_app_data {
            Ok(roaming) => get_crash_reports_dir(roaming, &application_data),
            Err(_) => {
                return Err(());
            },
        };
        let install_time_path = get_install_time_path(
            &crash_reports_dir,
            application_data.build_id.as_str(),
        );
        Ok(
            ApplicationLocation {
                install_path,
                application_data,
                release_channel,
                crash_reports_dir,
                install_time_path,
            },
        )
    }

    /// Adds the time of installation to what is known of the application;
    /// fails where the time could not be read.
    pub fn from_location(location: ApplicationLocation, install_time: Result<String, ()>) -> (r:
        Result<ApplicationInformation, ()>)
        ensures
            match (r, install_time) {
                (Ok(information), Ok(time)) => {
                    &&& information.install_path@ == location.install_path@
                    &&& information.application_data@ == location.application_data@
                    &&& information.release_channel@ == location.release_channel@
                    &&& information.crash_reports_dir@ == location.crash_reports_dir@
                    &&& information.install_time@ == time@
                },
                (Err(_), Err(_)) => true,
                _ => false,
            },
    {
        match install_time {
            Ok(time) => Ok(
                ApplicationInformation {
                    install_path: location.install_path,
                    application_data: location.application_data,
                    release_channel: location.release_channel,
                    crash_reports_dir: location.crash_reports_dir,
                    install_time: time,
                },
            ),
            Err(_) => Err(()),
        }
    }
}

} // verus!
