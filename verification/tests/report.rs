use mozwer::annotations::{push_member, Annotations};
use mozwer::application::{ApplicationData, ApplicationInformation};
use mozwer::paths::FilePath;
use mozwer::report::{
    has_report_id_shape, CrashReport, MINIDUMP_WITH_FULL_MEMORY_INFO, MINIDUMP_WITH_INDIRECTLY_REFERENCED_MEMORY,
    MINIDUMP_WITH_PROCESS_THREAD_DATA, MINIDUMP_WITH_UNLOADED_MODULES,
};
use mozwer::shared_state::SharedCrashState;

const ID: &str = "0f8fad5b-d9cb-469f-a165-70867728950e";

fn application_data(vendor: Option<&str>) -> ApplicationData {
    ApplicationData {
        vendor: vendor.map(|v| v.to_string()),
        name: "Firefox".to_string(),
        version: "115.0.2".to_string(),
        build_id: "20230710165010".to_string(),
        product_id: "{ec8030f7-c20a-464f-9b0e-13a3a9e97384}".to_string(),
        server_url: "https://crash-reports.mozilla.com/submit".to_string(),
    }
}

fn information(channel: &str) -> ApplicationInformation {
    ApplicationInformation {
        install_path: FilePath::new(wide("C:\\Program Files\\Mozilla Firefox")),
        application_data: application_data(Some("Mozilla")),
        release_channel: channel.to_string(),
        crash_reports_dir: FilePath::new(wide("C:\\Roaming"))
            .join("Mozilla")
            .join("Firefox")
            .join("Crash Reports"),
        install_time: "1689000000".to_string(),
    }
}

fn report(channel: &str) -> CrashReport {
    CrashReport::with_uuid(&information(channel), ID.to_string(), 1_700_000_100, 1_700_000_000, 0, false)
}

fn wide(text: &str) -> Vec<u16> {
    text.encode_utf16().collect()
}

fn names(path: &FilePath) -> Vec<&str> {
    path.names.iter().map(|n| n.as_str()).collect()
}

fn member<'a>(object: &'a serde_json::Value, key: &str) -> Option<&'a str> {
    object.get(key).and_then(|value| value.as_str())
}

#[test]
fn annotations_of_a_crash() {
    let a = Annotations::from_application_data(
        &application_data(Some("Mozilla")),
        "release".to_string(),
        "1689000000".to_string(),
        1_700_000_100,
        1_700_000_000,
        0,
        false,
    );
    assert_eq!(a.build_id, "20230710165010");
    assert_eq!(a.crash_time, "1700000100");
    assert_eq!(a.install_time, "1689000000");
    assert_eq!(a.hang, None);
    assert_eq!(a.oom_allocation_size, None);
    assert_eq!(a.product_id, "{ec8030f7-c20a-464f-9b0e-13a3a9e97384}");
    assert_eq!(a.product_name, "Firefox");
    assert_eq!(a.release_channel, "release");
    assert_eq!(a.server_url, "https://crash-reports.mozilla.com/submit");
    assert_eq!(a.startup_time, "1700000000");
    assert_eq!(a.uptime_ts, "100.0");
    assert_eq!(a.vendor.as_deref(), Some("Mozilla"));
    assert_eq!(a.version, "115.0.2");
    assert_eq!(a.windows_error_reporting, "1");
}

#[test]
fn annotations_of_a_hang_out_of_memory() {
    let a = Annotations::from_application_data(
        &application_data(None),
        "nightly".to_string(),
        "7".to_string(),
        5,
        5,
        1 << 33,
        true,
    );
    assert_eq!(a.hang.as_deref(), Some("ui"));
    assert_eq!(a.oom_allocation_size.as_deref(), Some("8589934592"));
    assert_eq!(a.uptime_ts, "0.0");
    assert_eq!(a.vendor, None);
    let copy = a.duplicate();
    assert_eq!(copy.hang.as_deref(), Some("ui"));
    assert_eq!(copy.uptime_ts, "0.0");
    assert_eq!(copy.install_time, "7");
}

#[test]
fn extra_file_holds_the_annotations_field_for_field() {
    let text = report("release").extra_file_contents().unwrap();
    assert_eq!(
        text,
        "{\"BuildID\":\"20230710165010\",\"CrashTime\":\"1700000100\",\
         \"InstallTime\":\"1689000000\",\
         \"ProductID\":\"{ec8030f7-c20a-464f-9b0e-13a3a9e97384}\",\
         \"ProductName\":\"Firefox\",\"ReleaseChannel\":\"release\",\
         \"ServerURL\":\"https://crash-reports.mozilla.com/submit\",\
         \"StartupTime\":\"1700000000\",\"UptimeTS\":\"100.0\",\"Vendor\":\"Mozilla\",\
         \"Version\":\"115.0.2\",\"WindowsErrorReporting\":\"1\"}"
    );
    let parsed: serde_json::Value = serde_json::from_str(&text).unwrap();
    let object = parsed.as_object().unwrap();
    assert_eq!(object.len(), 12);
    assert_eq!(member(&parsed, "BuildID"), Some("20230710165010"));
    assert_eq!(member(&parsed, "CrashTime"), Some("1700000100"));
    assert_eq!(member(&parsed, "InstallTime"), Some("1689000000"));
    assert_eq!(member(&parsed, "ProductID"), Some("{ec8030f7-c20a-464f-9b0e-13a3a9e97384}"));
    assert_eq!(member(&parsed, "ProductName"), Some("Firefox"));
    assert_eq!(member(&parsed, "ReleaseChannel"), Some("release"));
    assert_eq!(member(&parsed, "ServerURL"), Some("https://crash-reports.mozilla.com/submit"));
    assert_eq!(member(&parsed, "StartupTime"), Some("1700000000"));
    assert_eq!(member(&parsed, "UptimeTS"), Some("100.0"));
    assert_eq!(member(&parsed, "Vendor"), Some("Mozilla"));
    assert_eq!(member(&parsed, "Version"), Some("115.0.2"));
    assert_eq!(member(&parsed, "WindowsErrorReporting"), Some("1"));
    assert!(object.get("OOMAllocationSize").is_none());
    assert!(object.get("Hang").is_none());
}

#[test]
fn optional_annotations_are_written_where_they_are() {
    let mut info = information("nightly");
    info.application_data.vendor = None;
    let report = CrashReport::with_uuid(&info, ID.to_string(), 20, 5, 4096, true);
    let parsed: serde_json::Value =
        serde_json::from_str(&report.extra_file_contents().unwrap()).unwrap();
    assert_eq!(parsed.as_object().unwrap().len(), 13);
    assert_eq!(member(&parsed, "Hang"), Some("ui"));
    assert_eq!(member(&parsed, "OOMAllocationSize"), Some("4096"));
    assert_eq!(member(&parsed, "UptimeTS"), Some("15.0"));
    assert!(parsed.get("Vendor").is_none());
}

#[test]
fn texts_are_escaped_as_json_asks() {
    let mut info = information("release");
    info.install_time = "line\none \"quoted\" \\ tab\t\u{1}é".to_string();
    let report = CrashReport::with_uuid(&info, ID.to_string(), 20, 5, 0, false);
    let text = report.extra_file_contents().unwrap();
    assert!(text.contains("\"InstallTime\":\"line\\none \\\"quoted\\\" \\\\ tab\\t\\u0001é\""));
    let parsed: serde_json::Value = serde_json::from_str(&text).unwrap();
    assert_eq!(member(&parsed, "InstallTime"), Some("line\none \"quoted\" \\ tab\t\u{1}é"));
}

#[test]
fn event_file_frames_the_annotations() {
    let report = report("release");
    let json = report.extra_file_contents().unwrap();
    let text = report.event_file_contents().unwrap();
    assert_eq!(text, format!("crash.main.3\n1700000100\n{}\n{}", ID, json));
    assert_eq!(
        report.frame_event_file(Ok("{}".to_string())),
        Ok(format!("crash.main.3\n1700000100\n{}\n{{}}", ID))
    );
    assert_eq!(report.frame_event_file(Err(())), Err(()));
}

#[test]
fn all_files_of_a_report_carry_its_id() {
    let report = report("release");
    let dump = report.get_minidump_path();
    let extra = report.get_extra_file_path();
    let event = report.get_event_file_path();
    for path in [&dump, &extra, &event] {
        assert_eq!(path.root, wide("C:\\Roaming"));
    }
    assert_eq!(
        names(&dump),
        vec!["Mozilla", "Firefox", "Crash Reports", "pending", "0f8fad5b-d9cb-469f-a165-70867728950e.dmp"]
    );
    assert_eq!(
        names(&extra),
        vec!["Mozilla", "Firefox", "Crash Reports", "pending", "0f8fad5b-d9cb-469f-a165-70867728950e.extra"]
    );
    assert_eq!(
        names(&event),
        vec!["Mozilla", "Firefox", "Crash Reports", "events", "0f8fad5b-d9cb-469f-a165-70867728950e"]
    );
    assert_eq!(names(&report.get_pending_path()).last(), Some(&"pending"));
    assert_eq!(names(&report.get_events_path()).last(), Some(&"events"));
}

#[test]
fn minidump_name_fills_the_slot() {
    let name = report("release").get_minidump_name();
    assert_eq!(&name[..], b"0f8fad5b-d9cb-469f-a165-70867728950e.dmp");
}

#[test]
fn new_report_has_a_fresh_id_of_the_right_shape() {
    let info = information("release");
    let first = CrashReport::new(&info, 10, 3, 77, true);
    let second = CrashReport::new(&info, 10, 3, 77, true);
    for report in [&first, &second] {
        let id: Vec<char> = report.uuid.chars().collect();
        assert_eq!(id.len(), 36);
        for (i, c) in id.iter().enumerate() {
            if i == 8 || i == 13 || i == 18 || i == 23 {
                assert_eq!(*c, '-');
            } else {
                assert!(c.is_ascii_digit() || ('a'..='f').contains(c), "{}", c);
            }
        }
        assert_eq!(id[14], '4');
        assert!(['8', '9', 'a', 'b'].contains(&id[19]));
        assert_eq!(report.crash_time, 10);
        assert_eq!(report.oom_allocation_size, 77);
        assert_eq!(report.release_channel, "release");
        assert_eq!(report.annotations.uptime_ts, "7.0");
        assert_eq!(report.annotations.hang.as_deref(), Some("ui"));
        assert_eq!(report.annotations.oom_allocation_size.as_deref(), Some("77"));
        assert_eq!(names(&report.crash_reports_path), vec!["Mozilla", "Firefox", "Crash Reports"]);
        let name = report.get_minidump_name();
        assert_eq!(&name[..36], report.uuid.as_bytes());
        assert_eq!(&name[36..], b".dmp");
    }
    assert_ne!(first.uuid, second.uuid);
}

#[test]
fn pre_release_channels() {
    assert!(report("nightly").is_nightly());
    assert!(report("default").is_nightly());
    assert!(!report("release").is_nightly());
    assert!(!report("beta").is_nightly());
    assert!(!report("Nightly").is_nightly());
    assert!(!report("").is_nightly());
}

#[test]
fn nightly_minidumps_hold_more_than_release_minidumps() {
    let base = MINIDUMP_WITH_FULL_MEMORY_INFO | MINIDUMP_WITH_UNLOADED_MODULES;
    assert_eq!(base, 0x820);
    for windows8 in [false, true] {
        assert_eq!(report("release").get_minidump_type(windows8), 0x820);
        assert_eq!(report("beta").get_minidump_type(windows8), 0x820);
    }
    assert_eq!(report("nightly").get_minidump_type(false), 0x920);
    assert_eq!(report("nightly").get_minidump_type(true), 0x960);
    assert_eq!(report("default").get_minidump_type(true), 0x960);
    assert_eq!(
        report("nightly").get_minidump_type(true),
        base | MINIDUMP_WITH_PROCESS_THREAD_DATA | MINIDUMP_WITH_INDIRECTLY_REFERENCED_MEMORY
    );
    for nightly_on_8 in [false, true] {
        for release_on_8 in [false, true] {
            let nightly = report("nightly").get_minidump_type(nightly_on_8);
            let release = report("release").get_minidump_type(release_on_8);
            assert_eq!(nightly & release, release);
            assert_ne!(nightly, release);
        }
    }
}

#[test]
fn report_is_entered_into_the_childs_record() {
    let info = information("release");
    let report = CrashReport::with_uuid(&info, ID.to_string(), 20, 5, 4096, false);
    let before = SharedCrashState {
        notify_entry: 0x7ffa_0000_1000,
        child_pid: 0,
        minidump_name: [0; 40],
        oom_allocation_size: 0,
    };
    let (bytes, entry) = report.fill_shared_state(&before.to_bytes(), 2024).unwrap();
    assert_eq!(entry, 0x7ffa_0000_1000);
    let after = SharedCrashState::from_bytes(&bytes).unwrap();
    assert_eq!(after.notify_entry, 0x7ffa_0000_1000);
    assert_eq!(after.child_pid, 2024);
    assert_eq!(&after.minidump_name[..], b"0f8fad5b-d9cb-469f-a165-70867728950e.dmp");
    assert_eq!(after.oom_allocation_size, 4096);
    assert!(report.fill_shared_state(&vec![0u8; 10], 2024).is_err());
}

#[test]
fn shape_of_a_report_id() {
    assert!(has_report_id_shape(ID));
    assert!(has_report_id_shape("00000000-0000-0000-0000-000000000000"));
    assert!(!has_report_id_shape(""));
    assert!(!has_report_id_shape("0f8fad5b-d9cb-469f-a165-70867728950"));
    assert!(!has_report_id_shape("0f8fad5b-d9cb-469f-a165-70867728950e0"));
    assert!(!has_report_id_shape("0F8FAD5B-D9CB-469F-A165-70867728950E"));
    assert!(!has_report_id_shape("0f8fad5bdd9cb-469f-a165-70867728950e"));
    assert!(!has_report_id_shape("0f8fad5b-d9cb-469f-a165-7086772895-e"));
    assert!(!has_report_id_shape("0f8fad5b-d9cb-469f-a165-70867728950g"));
    assert!(!has_report_id_shape("0f8fad5b-d9cb-469f-a165-7086772895é"));
}

#[test]
fn member_is_appended_only_where_its_value_was_quoted() {
    let mut json = "{".to_string();
    assert_eq!(push_member(&mut json, "\"Key\":", serde_json::to_string("a\"b")), Ok(()));
    assert_eq!(json, "{\"Key\":\"a\\\"b\"");
    let failure = serde_json::from_str::<serde_json::Value>("{").map(|_| String::new());
    assert!(failure.is_err());
    assert_eq!(push_member(&mut json, ",\"Other\":", failure), Err(()));
    assert_eq!(json, "{\"Key\":\"a\\\"b\"");
}

#[test]
fn report_is_made_only_where_the_times_fit() {
    let info = information("release");
    assert!(CrashReport::try_new(&info, 9, 10, 0, false).is_err());
    assert!(CrashReport::try_new(&info, 0, u64::MAX, 0, false).is_err());
    let report = CrashReport::try_new(&info, 10, 10, 5, true).ok().unwrap();
    assert!(has_report_id_shape(&report.uuid));
    assert_eq!(report.uuid.as_bytes()[14], b'4');
    assert_eq!(report.crash_time, 10);
    assert_eq!(report.oom_allocation_size, 5);
    assert_eq!(report.annotations.uptime_ts, "0.0");
    assert_eq!(report.annotations.hang.as_deref(), Some("ui"));
    assert_eq!(report.annotations.crash_time, "10");
    assert_eq!(report.release_channel, "release");
}

fn expected_literal(text: &str) -> String {
    let mut literal = String::from("\"");
    for c in text.chars() {
        match c {
            '"' => literal.push_str("\\\""),
            '\\' => literal.push_str("\\\\"),
            '\u{8}' => literal.push_str("\\b"),
            '\t' => literal.push_str("\\t"),
            '\n' => literal.push_str("\\n"),
            '\u{c}' => literal.push_str("\\f"),
            '\r' => literal.push_str("\\r"),
            c if (c as u32) < 0x20 => literal.push_str(&format!("\\u00{:02x}", c as u32)),
            c => literal.push(c),
        }
    }
    literal.push('"');
    literal
}

#[test]
fn every_character_is_written_as_stated() {
    let mut texts: Vec<String> = (0u32..0x100)
        .map(|n| char::from_u32(n).unwrap().to_string())
        .collect();
    texts.push("a\u{7f}/\u{80}\u{2028}\u{ffff}\u{10000}😀".to_string());
    texts.push("mixed \"quote\" and \\ and \u{1f}\u{0}end".to_string());
    texts.push(String::new());
    for text in texts {
        let mut json = String::new();
        assert_eq!(push_member(&mut json, "", serde_json::to_string(&text)), Ok(()));
        assert_eq!(json, expected_literal(&text), "{:?}", text);
        let mut info = information("release");
        info.install_time = text.clone();
        let report = CrashReport::with_uuid(&info, ID.to_string(), 20, 5, 0, false);
        let written = report.extra_file_contents().unwrap();
        let member = format!(",\"InstallTime\":{},\"ProductID\"", expected_literal(&text));
        assert!(written.contains(&member), "{:?}", text);
    }
}
