use topgrade::report::Report;

#[test]
fn empty_report_is_success() {
    let report = Report::new();
    assert!(report.all_succeeded());
    assert_eq!(report.data().len(), 0);
}

#[test]
fn skipped_step_leaves_no_trace() {
    let mut report = Report::new();
    report.push_result(Some(("Homebrew".to_string(), true)));
    assert_eq!(report.data().len(), 1);
    report.push_result(None);
    assert_eq!(report.data().len(), 1);
    report.push_result(None);
    assert_eq!(report.data().len(), 1);
    assert!(report.all_succeeded());
}

#[test]
fn duplicate_names_yield_two_records() {
    let mut report = Report::new();
    report.push_result(Some(("rustup".to_string(), true)));
    report.push_result(Some(("rustup".to_string(), false)));
    let data = report.data();
    assert_eq!(data.len(), 2);
    assert_eq!(data[0], ("rustup".to_string(), true));
    assert_eq!(data[1], ("rustup".to_string(), false));
    assert!(!report.all_succeeded());
}

#[test]
fn three_records_in_order_with_one_failure() {
    let mut report = Report::new();
    report.push_result(Some(("a".to_string(), true)));
    report.push_result(Some(("b".to_string(), false)));
    report.push_result(Some(("c".to_string(), true)));
    let data = report.data();
    assert_eq!(data.len(), 3);
    assert_eq!(data[0], ("a".to_string(), true));
    assert_eq!(data[1], ("b".to_string(), false));
    assert_eq!(data[2], ("c".to_string(), true));
    assert!(!report.all_succeeded());
}

#[test]
fn all_recorded_successes_give_success() {
    let mut report = Report::new();
    report.push_result(Some(("a".to_string(), true)));
    report.push_result(Some(("b".to_string(), true)));
    assert!(report.all_succeeded());
}
