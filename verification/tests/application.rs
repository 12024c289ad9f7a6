use mozwer::application::{
    get_channel_prefs_path, get_crash_reports_dir, get_install_time_path, get_release_channel,
    ApplicationData, ApplicationInformation,
};
use mozwer::paths::FilePath;

const APPLICATION_INI: &str = "\
; This file holds the application's identity.
[App]
Vendor=Mozilla
Name=Firefox
RemotingName=firefox
Version=115.0.2
BuildID=20230710165010
ID={ec8030f7-c20a-464f-9b0e-13a3a9e97384}

[Gecko]
MinVersion=115.0.2

[Crash Reporter]
Enabled=1
ServerURL=https://crash-reports.mozilla.com/submit?id={ec8030f7}&version=115.0.2
";

fn wide(text: &str) -> Vec<u16> {
    text.encode_utf16().collect()
}

fn load(text: &str) -> Result<ApplicationData, ()> {
    match ini::Ini::load_from_str(text) {
        Ok(conf) => ApplicationData::from_ini(&conf),
        Err(_) => Err(()),
    }
}

fn names(path: &FilePath) -> Vec<&str> {
    path.names.iter().map(|n| n.as_str()).collect()
}

#[test]
fn identity_is_read_from_the_configuration() {
    let data = load(APPLICATION_INI).unwrap();
    assert_eq!(data.vendor.as_deref(), Some("Mozilla"));
    assert_eq!(data.name, "Firefox");
    assert_eq!(data.version, "115.0.2");
    assert_eq!(data.build_id, "20230710165010");
    assert_eq!(data.product_id, "{ec8030f7-c20a-464f-9b0e-13a3a9e97384}");
    assert_eq!(
        data.server_url,
        "https://crash-reports.mozilla.com/submit?id={ec8030f7}&version=115.0.2"
    );
}

#[test]
fn vendor_alone_may_be_missing() {
    let text = "[App]\nName=N\nVersion=V\nBuildID=B\nID=I\n[Crash Reporter]\nServerURL=U\n";
    let data = load(text).unwrap();
    assert_eq!(data.vendor, None);
    assert_eq!(data.name, "N");
    for missing in ["Name=N\n", "Version=V\n", "BuildID=B\n", "ID=I\n", "ServerURL=U\n"] {
        let without = text.replace(missing, "");
        assert!(load(&without).is_err(), "{}", missing);
    }
    assert!(load(&text.replace("[Crash Reporter]\n", "")).is_err());
    assert!(load(&text.replace("[App]\n", "")).is_err());
    assert!(load("").is_err());
}

#[test]
fn text_that_is_no_configuration_is_refused() {
    assert!(load("[App\nName=N\n").is_err());
    assert!(load("=value\n").is_err());
}

#[test]
fn what_only_looks_like_an_escape_is_plain_text() {
    let text = "; see \\xd800 and \\xDFFF\n[App]\nName=N\nVersion=V\\\\xd800\nBuildID=B\nID=I\n# \\xdabc\n[Crash Reporter]\nServerURL=U\n";
    let data = load(text).unwrap();
    assert_eq!(data.name, "N");
    assert_eq!(data.version, "V\\xd800");
    assert_eq!(data.build_id, "B");
    assert_eq!(data.server_url, "U");
    // Escapes for characters are read.
    let fine = text.replace("Name=N", "Name=N\\x0041\\t");
    assert_eq!(load(&fine).unwrap().name, "NA");
}

#[test]
fn configuration_lies_in_the_install_directory() {
    let path = ApplicationData::get_path(&FilePath::new(wide("C:\\Program Files\\Mozilla Firefox")));
    assert_eq!(path.root, wide("C:\\Program Files\\Mozilla Firefox"));
    assert_eq!(names(&path), vec!["application.ini"]);
}

#[test]
fn channel_is_the_fourth_piece_between_quotes() {
    let lines = vec![
        "// comment".to_string(),
        "".to_string(),
        "pref(\"app.update.channel\", \"nightly\");".to_string(),
        "pref(\"app.update.channel\", \"release\");".to_string(),
    ];
    assert_eq!(get_release_channel(&lines), Ok("nightly".to_string()));
    let open_ended = vec!["pref(\"app.update.channel\", \"beta".to_string()];
    assert_eq!(get_release_channel(&open_ended), Ok("beta".to_string()));
    let empty = vec!["\"app.update.channel\"\"".to_string()];
    assert_eq!(get_release_channel(&empty), Ok("".to_string()));
}

#[test]
fn channel_that_is_not_stated_fails() {
    assert_eq!(get_release_channel(&Vec::new()), Err(()));
    let other = vec!["pref(\"app.update.url\", \"x\");".to_string()];
    assert_eq!(get_release_channel(&other), Err(()));
    // The first line that names the preference decides, even where a later
    // line states a value.
    let short = vec![
        "// app.update.channel is set below".to_string(),
        "pref(\"app.update.channel\", \"release\");".to_string(),
    ];
    assert_eq!(get_release_channel(&short), Err(()));
    let three_quotes = vec!["pref(\"app.update.channel\", \"".to_string()];
    assert_eq!(get_release_channel(&three_quotes), Ok("".to_string()));
    let two_quotes = vec!["pref(\"app.update.channel\", ".to_string()];
    assert_eq!(get_release_channel(&two_quotes), Err(()));
}

#[test]
fn same_channel_as_splitting_at_quotes() {
    for line in [
        "pref(\"app.update.channel\", \"nightly\");",
        "app.update.channel",
        "\"\"\"app.update.channel\"\"\"",
        "a\"b\"c\"d\"e\"app.update.channel",
        "\"app.update.channel\"x\"ü\"",
    ] {
        let expected = line.split('"').nth(3).map(|s| s.to_string()).ok_or(());
        assert_eq!(get_release_channel(&vec![line.to_string()]), expected, "{}", line);
    }
}

#[test]
fn crash_reports_lie_under_vendor_and_name() {
    let data = load(APPLICATION_INI).unwrap();
    let dir = get_crash_reports_dir(wide("C:\\Users\\u\\AppData\\Roaming"), &data);
    assert_eq!(dir.root, wide("C:\\Users\\u\\AppData\\Roaming"));
    assert_eq!(names(&dir), vec!["Mozilla", "Firefox", "Crash Reports"]);
    let mut plain = load(APPLICATION_INI).unwrap();
    plain.vendor = None;
    let dir = get_crash_reports_dir(wide("R"), &plain);
    assert_eq!(names(&dir), vec!["Firefox", "Crash Reports"]);
}

#[test]
fn install_time_is_kept_under_the_build_id() {
    let dir = FilePath::new(wide("R")).join("Crash Reports");
    let path = get_install_time_path(&dir, "20230710165010");
    assert_eq!(path.root, wide("R"));
    assert_eq!(names(&path), vec!["Crash Reports", "InstallTime20230710165010"]);
}

#[test]
fn paths_grow_by_names() {
    let base = FilePath::new(wide("base"));
    assert!(base.names.is_empty());
    let deeper = base.join("a").join("b");
    assert_eq!(deeper.root, wide("base"));
    assert_eq!(names(&deeper), vec!["a", "b"]);
    let copy = deeper.duplicate();
    assert_eq!(copy.root, wide("base"));
    assert_eq!(names(&copy), vec!["a", "b"]);
    assert!(base.names.is_empty());
}

#[test]
fn preferences_lie_below_the_install_directory() {
    let path = get_channel_prefs_path(&FilePath::new(wide("D:\\app")));
    assert_eq!(path.root, wide("D:\\app"));
    assert_eq!(names(&path), vec!["defaults", "pref", "channel-prefs.js"]);
}

#[test]
fn application_is_located_from_its_three_sources() {
    let lines = || Ok(vec!["pref(\"app.update.channel\", \"beta\");".to_string()]);
    let found = ApplicationInformation::locate(
        FilePath::new(wide("D:\\app")),
        Ok(ini::Ini::load_from_str(APPLICATION_INI).unwrap()),
        lines(),
        Ok(wide("C:\\Roaming")),
    )
    .ok()
    .unwrap();
    assert_eq!(found.install_path.root, wide("D:\\app"));
    assert_eq!(found.application_data.name, "Firefox");
    assert_eq!(found.release_channel, "beta");
    assert_eq!(found.crash_reports_dir.root, wide("C:\\Roaming"));
    assert_eq!(names(&found.crash_reports_dir), vec!["Mozilla", "Firefox", "Crash Reports"]);
    assert_eq!(
        names(&found.install_time_path),
        vec!["Mozilla", "Firefox", "Crash Reports", "InstallTime20230710165010"]
    );
    let information =
        ApplicationInformation::from_location(found, Ok("1689000000\n".to_string())).ok().unwrap();
    assert_eq!(information.install_time, "1689000000\n");
    assert_eq!(information.release_channel, "beta");
    assert_eq!(information.application_data.build_id, "20230710165010");
    assert_eq!(names(&information.crash_reports_dir), vec!["Mozilla", "Firefox", "Crash Reports"]);
    assert_eq!(information.install_path.root, wide("D:\\app"));

    let ini = || Ok(ini::Ini::load_from_str(APPLICATION_INI).unwrap());
    let roaming = || Ok(wide("C:\\Roaming"));
    let root = || FilePath::new(wide("D:\\app"));
    assert!(ApplicationInformation::locate(root(), Err(()), lines(), roaming()).is_err());
    assert!(ApplicationInformation::locate(root(), ini(), Err(()), roaming()).is_err());
    assert!(ApplicationInformation::locate(root(), ini(), lines(), Err(())).is_err());
    assert!(ApplicationInformation::locate(root(), Ok(ini::Ini::load_from_str("[App]").unwrap()), lines(), roaming()).is_err());
    assert!(ApplicationInformation::locate(root(), ini(), Ok(Vec::new()), roaming()).is_err());
    let found = ApplicationInformation::locate(root(), ini(), lines(), roaming()).ok().unwrap();
    assert!(ApplicationInformation::from_location(found, Err(())).is_err());
}
