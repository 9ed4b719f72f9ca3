use file_logger::clock::{millis_from_reading, timestamp};
use file_logger::line::Level;
use file_logger::sink::{
    flushes, log_action, setup_outcome, setup_plan, Access, Action, Setup, SetupError,
    SetupPlan,
};

#[test]
fn disabled_record_is_skipped() {
    for access in [Access::KeepOpen, Access::Transient] {
        let a = log_action(access, false, Level::Error, 1, "app", "boom");
        assert!(matches!(a, Action::Skip));
    }
}

#[test]
fn enabled_record_on_held_handle() {
    match log_action(Access::KeepOpen, true, Level::Info, 42, "app::mod", "hello") {
        Action::Write { text, reopen } => {
            assert_eq!(text, "[INFO ] 42 [app::mod] hello\n");
            assert!(!reopen);
        }
        Action::Skip => panic!("an enabled record is written"),
    }
}

#[test]
fn enabled_record_reopens_for_transient() {
    match log_action(Access::Transient, true, Level::Trace, 5, "x", "y") {
        Action::Write { text, reopen } => {
            assert_eq!(text, "[TRACE] 5 [x] y\n");
            assert!(reopen);
        }
        Action::Skip => panic!("an enabled record is written"),
    }
}

#[test]
fn records_in_call_order() {
    let mut file = String::from("OLD\n");
    for (i, msg) in ["one", "two", "three"].iter().enumerate() {
        if let Action::Write { text, .. } =
            log_action(Access::Transient, true, Level::Info, i as u64, "t", msg)
        {
            file.push_str(&text);
        }
    }
    assert_eq!(
        file,
        "OLD\n[INFO ] 0 [t] one\n[INFO ] 1 [t] two\n[INFO ] 2 [t] three\n"
    );
    assert_eq!(file.lines().count(), 4);
}

#[test]
fn plans_of_the_entry_points() {
    assert_eq!(
        setup_plan(Setup::AppendTransient),
        SetupPlan {
            access: Access::Transient,
            discard_existing: false,
            create_missing: true,
        }
    );
    assert_eq!(
        setup_plan(Setup::TruncateTransient),
        SetupPlan {
            access: Access::Transient,
            discard_existing: true,
            create_missing: true,
        }
    );
    assert_eq!(
        setup_plan(Setup::Append),
        SetupPlan {
            access: Access::KeepOpen,
            discard_existing: false,
            create_missing: false,
        }
    );
    assert_eq!(
        setup_plan(Setup::Truncate),
        SetupPlan {
            access: Access::KeepOpen,
            discard_existing: true,
            create_missing: false,
        }
    );
}

#[test]
fn only_a_held_handle_is_flushed() {
    assert!(flushes(Access::KeepOpen));
    assert!(!flushes(Access::Transient));
}

#[test]
fn setup_outcomes() {
    assert_eq!(setup_outcome(true, true), Ok(()));
    assert_eq!(setup_outcome(true, false), Err(SetupError::AlreadyRegistered));
    assert_eq!(setup_outcome(false, true), Err(SetupError::Open));
    assert_eq!(setup_outcome(false, false), Err(SetupError::Open));
}

#[test]
fn second_setup_is_refused() {
    let mut slot_free = true;
    let first = setup_outcome(true, slot_free);
    assert_eq!(first, Ok(()));
    slot_free = false;
    assert_eq!(setup_outcome(true, slot_free), Err(SetupError::AlreadyRegistered));
}

#[test]
fn timestamp_reads_the_clock() {
    let a = timestamp();
    // 2020-09-13 in milliseconds since the Unix epoch
    assert!(a > 1_600_000_000_000);
    let b = timestamp();
    assert!(b >= a);
}

#[test]
fn clock_readings_to_millis() {
    assert_eq!(millis_from_reading(Some(1700000000123)), 1700000000123);
    assert_eq!(millis_from_reading(Some(0)), 0);
    assert_eq!(millis_from_reading(None), 0);
    assert_eq!(millis_from_reading(Some(u64::MAX as u128)), u64::MAX);
    assert_eq!(millis_from_reading(Some(u64::MAX as u128 + 1)), 0);
    assert_eq!(millis_from_reading(Some(u64::MAX as u128 + 5)), 4);
}

#[test]
fn later_readings_never_go_back() {
    let a = millis_from_reading(Some(1000));
    let b = millis_from_reading(Some(1001));
    assert!(a <= b);
}
