use mozwer::hang::{find_hung_window_thread, WindowInfo, WindowSearch};
use mozwer::host::{
    get_application_path_length, get_process_handle, get_process_id, get_startup_time,
    host_status, if_true, is_windows8_or_later, success, to_bool, OsVersion, E_UNEXPECTED, S_OK,
};

fn window(thread_id: u32, process_id: u32, is_hung: bool) -> WindowInfo {
    WindowInfo { thread_id, process_id, is_hung }
}

#[test]
fn truth_values() {
    assert!(!to_bool(0));
    assert!(to_bool(1));
    assert!(to_bool(-1));
    assert_eq!(if_true(1, "kept"), Ok("kept"));
    assert_eq!(if_true(0, "kept"), Err(()));
    assert_eq!(success(5), Ok(()));
    assert_eq!(success(0), Err(()));
}

#[test]
fn zero_stands_for_failure() {
    assert_eq!(get_process_id(0), Err(()));
    assert_eq!(get_process_id(812), Ok(812));
    assert_eq!(get_process_handle(0), Err(()));
    assert_eq!(get_process_handle(-1), Ok(-1));
    assert_eq!(get_process_handle(0x1f4), Ok(0x1f4));
}

#[test]
fn path_that_fills_the_buffer_was_cut_short() {
    assert_eq!(get_application_path_length(0), Err(()));
    assert_eq!(get_application_path_length(1), Ok(1));
    assert_eq!(get_application_path_length(260), Ok(260));
    assert_eq!(get_application_path_length(261), Err(()));
}

#[test]
fn host_is_told_success_or_failure() {
    assert_eq!(host_status(true), (S_OK, true));
    assert_eq!(host_status(false), (E_UNEXPECTED, false));
    assert_eq!(S_OK, 0);
    assert_eq!(E_UNEXPECTED as u32, 0x8000_ffff);
}

#[test]
fn startup_time_in_seconds_since_1970() {
    // 2023-11-14 22:13:20 UTC is 1700000000 s after 1970.
    let ticks: u64 = (1_700_000_000 + 11_644_473_600) * 10_000_000 + 9_999_999;
    let high = (ticks >> 32) as u32;
    let low = ticks as u32;
    assert_eq!(get_startup_time(high, low), Ok(1_700_000_000));
    let epoch: u64 = 11_644_473_600 * 10_000_000;
    assert_eq!(get_startup_time((epoch >> 32) as u32, epoch as u32), Ok(0));
    let before = epoch - 1;
    assert_eq!(get_startup_time((before >> 32) as u32, before as u32), Err(()));
    assert_eq!(get_startup_time(0, 0), Err(()));
    assert_eq!(
        get_startup_time(u32::MAX, u32::MAX),
        Ok(u64::MAX / 10_000_000 - 11_644_473_600)
    );
}

#[test]
fn versions_are_compared_part_by_part() {
    let v = |major, minor, service_pack_major, service_pack_minor| OsVersion {
        major,
        minor,
        service_pack_major,
        service_pack_minor,
    };
    assert!(is_windows8_or_later(&v(6, 2, 0, 0)));
    assert!(is_windows8_or_later(&v(10, 0, 0, 0)));
    assert!(is_windows8_or_later(&v(6, 3, 0, 0)));
    assert!(is_windows8_or_later(&v(7, 0, 0, 0)));
    assert!(!is_windows8_or_later(&v(6, 1, 1, 0)));
    assert!(!is_windows8_or_later(&v(5, 9, 9, 9)));
    assert!(v(5, 1, 1, 0).is_at_least(&v(5, 1, 1, 0)));
    assert!(v(6, 0, 0, 0).is_at_least(&v(5, 1, 1, 0)));
    assert!(!v(5, 1, 0, 9).is_at_least(&v(5, 1, 1, 0)));
    assert!(v(5, 1, 1, 1).is_at_least(&v(5, 1, 1, 0)));
    assert_eq!(OsVersion::windows8(), v(6, 2, 0, 0));
}

#[test]
fn first_hung_window_of_the_process_wins() {
    let windows = vec![
        window(11, 500, true),
        window(0, 400, true),
        window(12, 400, false),
        window(13, 400, true),
        window(14, 400, true),
    ];
    assert_eq!(find_hung_window_thread(400, &windows), Ok(13));
    assert_eq!(find_hung_window_thread(500, &windows), Ok(11));
    assert_eq!(find_hung_window_thread(600, &windows), Err(()));
    assert_eq!(find_hung_window_thread(0, &windows), Err(()));
    assert_eq!(find_hung_window_thread(400, &Vec::new()), Err(()));
}

#[test]
fn walk_stops_at_the_first_hung_window() {
    let mut search = WindowSearch::new(400);
    assert_eq!(search.found(), Err(()));
    assert!(search.is_candidate(5, 400));
    assert!(!search.is_candidate(0, 400));
    assert!(!search.is_candidate(5, 401));
    assert!(search.visit(window(12, 400, false)));
    assert!(search.visit(window(12, 401, true)));
    assert!(search.visit(window(0, 400, true)));
    assert_eq!(search.found(), Err(()));
    assert!(!search.visit(window(13, 400, true)));
    assert_eq!(search.found(), Ok(13));
    assert_eq!(search.process_id, 400);
}
