use dashi::bluetooth::{is_active_state, needs_status, plan as bluetooth_plan, BluetoothPlan, BluetoothSpec, UnitCall};
use dashi::bookmark::{BookmarkError, BookmarkOutcome, BookmarkSpec, Bookmarks};
use dashi::brightness::{
    brightness_notice, brightness_percent, raw_for_percent, requested_percent, BrightnessNotice,
    BrightnessSpec,
};
use dashi::command::{BluetoothCommand, BookmarkCommand, BrightnessCommand, NightShiftCommand};
use dashi::nightshift::{plan as shift_plan, NightShiftError, NightShiftSpec, ShiftAction, ShiftPlan};
use dashi::power::{is_low_report, plugged_from, should_warn, PowerSpec};
use dashi::storage::{data_dir_file, data_dir_path, join_path, StorageError};
use dashi::sysfs::parse_attribute;

#[test]
fn constructors_keep_the_silent_flag() {
    assert!(BrightnessSpec::new(true).silent);
    assert!(!PowerSpec::new(false).silent);
    assert!(BluetoothSpec::new(true).silent);
    assert!(!NightShiftSpec::new(false).silent);
    assert!(dashi::session::VolumeSpec::new(true).silent);
}

#[test]
fn brightness_percent_rounds_and_caps() {
    assert_eq!(brightness_percent(480, 960), Some(50));
    // 12.5% truncates to 12 and rounds to 10.
    assert_eq!(brightness_percent(120, 960), Some(10));
    // 47.9% truncates to 47 and rounds to 45; 48% rounds to 50.
    assert_eq!(brightness_percent(479, 1000), Some(45));
    assert_eq!(brightness_percent(480, 1000), Some(50));
    assert_eq!(brightness_percent(2000, 1000), Some(100));
    assert_eq!(brightness_percent(5, 0), None);
}

#[test]
fn brightness_requests() {
    assert_eq!(requested_percent(BrightnessCommand::Add { n: 10 }, 50), Some(60));
    assert_eq!(requested_percent(BrightnessCommand::Sub { n: 70 }, 50), Some(-20));
    assert_eq!(requested_percent(BrightnessCommand::SetTo { n: 30 }, 50), Some(30));
    assert_eq!(requested_percent(BrightnessCommand::Get, 50), None);
}

#[test]
fn brightness_raw_level_never_reaches_zero() {
    assert_eq!(raw_for_percent(50, 960), 480);
    assert_eq!(raw_for_percent(250, 960), 960);
    assert_eq!(raw_for_percent(-20, 20000), 2);
    assert_eq!(raw_for_percent(0, 960), 0);
    assert_eq!(raw_for_percent(33, 1000), 330);
}

#[test]
fn brightness_notices() {
    assert_eq!(brightness_notice(0), BrightnessNotice::Minimum);
    assert_eq!(brightness_notice(35), BrightnessNotice::Percent(35));
}

#[test]
fn battery_reports() {
    assert!(plugged_from(1));
    assert!(!plugged_from(0));
    assert!(is_low_report(20, false));
    assert!(!is_low_report(21, false));
    assert!(!is_low_report(5, true));
    assert!(!should_warn(20, false));
    assert!(should_warn(19, false));
    assert!(!should_warn(19, true));
}

#[test]
fn bluetooth_plans() {
    assert!(needs_status(BluetoothCommand::Toggle));
    assert!(!needs_status(BluetoothCommand::Start));
    assert_eq!(
        bluetooth_plan(BluetoothCommand::Toggle, true),
        BluetoothPlan { call: Some(UnitCall::StopUnit), enabled: false }
    );
    assert_eq!(
        bluetooth_plan(BluetoothCommand::Toggle, false),
        BluetoothPlan { call: Some(UnitCall::StartUnit), enabled: true }
    );
    assert_eq!(
        bluetooth_plan(BluetoothCommand::Status, true),
        BluetoothPlan { call: None, enabled: true }
    );
    assert_eq!(
        bluetooth_plan(BluetoothCommand::Stop, true),
        BluetoothPlan { call: Some(UnitCall::StopUnit), enabled: false }
    );
}

#[test]
fn night_shift_plans() {
    assert_eq!(shift_plan(NightShiftCommand::Status, false, false), Err(NightShiftError::NotInstalled));
    assert_eq!(shift_plan(NightShiftCommand::Start, true, true), Err(NightShiftError::AlreadyRunning));
    assert_eq!(
        shift_plan(NightShiftCommand::Start, true, false),
        Ok(ShiftPlan { action: Some(ShiftAction::Launch), on: true })
    );
    assert_eq!(
        shift_plan(NightShiftCommand::Toggle, true, true),
        Ok(ShiftPlan { action: Some(ShiftAction::Kill), on: false })
    );
    assert_eq!(
        shift_plan(NightShiftCommand::Status, true, true),
        Ok(ShiftPlan { action: None, on: true })
    );
}

#[test]
fn bookmarks_add_and_remove() {
    let mut spec = BookmarkSpec::new(true, Bookmarks::new(vec!["a".to_string()]));
    match spec.apply(BookmarkCommand::Add { bookmark: "b".to_string() }) {
        Ok(BookmarkOutcome::Added(b)) => assert_eq!(b, "b"),
        _ => panic!("add failed"),
    }
    assert_eq!(spec.bookmarks.entries(), &vec!["a".to_string(), "b".to_string()]);
    match spec.apply(BookmarkCommand::Remove { index: 0 }) {
        Ok(BookmarkOutcome::Removed(b)) => assert_eq!(b, "a"),
        _ => panic!("remove failed"),
    }
    assert_eq!(spec.bookmarks.len(), 1);
    assert!(matches!(spec.apply(BookmarkCommand::Stdout), Ok(BookmarkOutcome::Listed)));
}

#[test]
fn bookmark_index_past_the_end_is_refused() {
    let mut spec = BookmarkSpec::new(false, Bookmarks::new(vec!["a".to_string()]));
    assert!(matches!(
        spec.apply(BookmarkCommand::Remove { index: 1 }),
        Err(BookmarkError::InvalidIndex(1))
    ));
    assert_eq!(spec.bookmarks.len(), 1);
}

#[test]
fn data_paths() {
    assert_eq!(join_path("/home/u/.local/share", "dashi/"), "/home/u/.local/share/dashi/");
    assert_eq!(join_path("/data/", "x"), "/data/x");
    assert_eq!(join_path("/data", "/abs"), "/abs");
    assert_eq!(data_dir_path(Some("/d".to_string())), Some("/d/dashi/".to_string()));
    assert_eq!(data_dir_path(None), None);
    assert_eq!(
        data_dir_file(Some("/d/dashi/".to_string()), "bookmarks.json"),
        Ok("/d/dashi/bookmarks.json".to_string())
    );
    assert_eq!(data_dir_file(None, "bookmarks.json"), Err(StorageError::NotFound));
}

#[test]
fn attribute_numbers() {
    assert_eq!(parse_attribute(&b"960\n".to_vec()), Some(960));
    assert_eq!(parse_attribute(&b"0\n".to_vec()), Some(0));
    assert_eq!(parse_attribute(&b"4294967295\n".to_vec()), Some(u32::MAX));
    assert_eq!(parse_attribute(&b"4294967296\n".to_vec()), None);
    assert_eq!(parse_attribute(&b"9a\n".to_vec()), None);
    assert_eq!(parse_attribute(&b"\n".to_vec()), None);
    assert_eq!(parse_attribute(&Vec::new()), None);
}

#[test]
fn bookmark_listing_numbers_entries() {
    let names: Vec<String> = (0..12).map(|i| format!("b{}", i)).collect();
    let bookmarks = Bookmarks::new(names);
    let text = bookmarks.listing();
    assert!(text.starts_with("(0) b0  (1) b1  "));
    assert!(text.ends_with("(10) b10  (11) b11  "));
    assert_eq!(Bookmarks::new(Vec::new()).listing(), "");
}

#[test]
fn decimal_text() {
    let mut s = String::from("n=");
    dashi::text::push_decimal(&mut s, 4096);
    assert_eq!(s, "n=4096");
    let mut z = String::new();
    dashi::text::push_decimal(&mut z, 0);
    assert_eq!(z, "0");
}

#[test]
fn active_state_word() {
    assert!(is_active_state("active"));
    assert!(!is_active_state("inactive"));
    assert!(!is_active_state("activa"));
    assert!(!is_active_state(""));
}
