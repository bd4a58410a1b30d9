use unicode_normalizer::report::{
    console_line, log_record, report, warning_line, RenameOutcome, Report, TIMESTAMP_FORMAT,
};

fn renamed() -> RenameOutcome {
    RenameOutcome::Renamed { src: String::from("d/\u{3075}\u{3099}"), dst: String::from("d/\u{3076}") }
}

#[test]
fn console_line_of_a_rename() {
    assert_eq!(console_line(&renamed()), "SUCC\td/\u{3075}\u{3099} -> d/\u{3076}");
}

#[test]
fn console_line_of_a_dry_run() {
    let outcome = RenameOutcome::DryRun { src: String::from("a/x"), dst: String::from("a/y") };
    assert_eq!(console_line(&outcome), "DRY_RUN\ta/x -> a/y");
}

#[test]
fn console_line_of_a_skip() {
    let outcome = RenameOutcome::Skipped { path: String::from("a/\u{fffd}") };
    assert_eq!(console_line(&outcome), "SKIP\ta/\u{fffd}");
}

#[test]
fn console_line_of_a_failure() {
    let outcome = RenameOutcome::Failed {
        src: String::from("a/x"),
        error: String::from("Permission denied (os error 13)"),
    };
    assert_eq!(console_line(&outcome), "FAIL\ta/x\tPermission denied (os error 13)");
}

#[test]
fn warning_line_has_the_warning_tag() {
    assert_eq!(warning_line("loop found"), "WARN\tloop found");
    assert_eq!(warning_line(""), "WARN\t");
}

#[test]
fn log_record_has_timestamp_arrow_and_line_end() {
    assert_eq!(
        log_record("2024-02-29 23:59:59", "a/x", "a/y"),
        "[2024-02-29 23:59:59]\ta/x -> a/y\n"
    );
    assert_eq!(log_record("", "", ""), "[]\t -> \n");
}

#[test]
fn a_rename_is_printed_and_logged() {
    let written = report(&renamed(), "2001-01-01 00:00:00");
    assert_eq!(
        written,
        Report {
            console: String::from("SUCC\td/\u{3075}\u{3099} -> d/\u{3076}"),
            log: Some(String::from("[2001-01-01 00:00:00]\td/\u{3075}\u{3099} -> d/\u{3076}\n")),
        }
    );
}

#[test]
fn nothing_but_a_rename_is_logged() {
    let others = [
        RenameOutcome::DryRun { src: String::from("a/x"), dst: String::from("a/y") },
        RenameOutcome::Skipped { path: String::from("a/x") },
        RenameOutcome::Failed { src: String::from("a/x"), error: String::from("File exists") },
    ];
    for outcome in others {
        let written = report(&outcome, "2001-01-01 00:00:00");
        assert_eq!(written.log, None);
        assert_eq!(written.console, console_line(&outcome));
    }
}

#[test]
fn paths_with_arrows_and_tabs_are_written_as_they_are() {
    let outcome = RenameOutcome::Renamed { src: String::from("a -> b"), dst: String::from("c\td") };
    let written = report(&outcome, "T");
    assert_eq!(written.console, "SUCC\ta -> b -> c\td");
    assert_eq!(written.log, Some(String::from("[T]\ta -> b -> c\td\n")));
}

#[test]
fn a_timestamp_is_a_date_and_a_time_of_day() {
    assert_eq!(TIMESTAMP_FORMAT, "%Y-%m-%d %H:%M:%S");
    let stamp = chrono::NaiveDate::from_ymd_opt(2024, 2, 29)
        .unwrap()
        .and_hms_opt(7, 8, 9)
        .unwrap()
        .format(TIMESTAMP_FORMAT)
        .to_string();
    assert_eq!(stamp, "2024-02-29 07:08:09");
    assert_eq!(log_record(&stamp, "a", "b"), "[2024-02-29 07:08:09]\ta -> b\n");
}
