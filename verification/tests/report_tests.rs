use db_backup::backend::BackendKind;
use db_backup::command::plan_exports;
use db_backup::config::ConnectionDescriptor;
use db_backup::export::decide_export;
use db_backup::export::ExportOutcome;
use db_backup::report::report_line;
use db_backup::report::sort_records;
use db_backup::report::DumpRecord;
use db_backup::selection::ExportSpec;

fn record(index: usize, name: &str, micros: u128) -> DumpRecord {
    DumpRecord { index, name: name.to_string(), micros }
}

fn names_of(records: &[DumpRecord]) -> Vec<String> {
    records.iter().map(|r| r.name.clone()).collect()
}

#[test]
fn report_is_ordered_by_ascending_duration() {
    let sorted = sort_records(vec![record(0, "a", 500), record(1, "b", 200), record(2, "c", 350)]);
    assert_eq!(names_of(&sorted), vec!["b", "c", "a"]);
}

#[test]
fn equal_durations_keep_the_smaller_index_first() {
    let sorted = sort_records(vec![
        record(0, "slowest", 900),
        record(1, "first_tie", 200),
        record(2, "second_tie", 200),
        record(3, "third_tie", 200),
    ]);
    assert_eq!(
        names_of(&sorted),
        vec!["first_tie", "second_tie", "third_tie", "slowest"]
    );
    assert_eq!(sorted[0].index, 1);
    assert_eq!(sorted[1].index, 2);
    assert_eq!(sorted[2].index, 3);
}

#[test]
fn sorting_keeps_every_record() {
    let sorted = sort_records(vec![record(0, "a", 3), record(1, "b", 1), record(2, "c", 2)]);
    assert_eq!(sorted.len(), 3);
    assert_eq!(names_of(&sorted), vec!["b", "c", "a"]);
    assert_eq!(sorted[0].micros, 1);
    assert_eq!(sorted[1].micros, 2);
    assert_eq!(sorted[2].micros, 3);
}

#[test]
fn report_line_shows_name_and_duration() {
    assert_eq!(report_line(&record(0, "orders", 1500)), "orders (1500 microseconds)");
    assert_eq!(report_line(&record(3, "tiny", 0)), "tiny (0 microseconds)");
}

#[test]
fn empty_and_singleton_reports() {
    assert_eq!(sort_records(Vec::new()).len(), 0);
    let one = sort_records(vec![record(0, "only", 42)]);
    assert_eq!(names_of(&one), vec!["only"]);
}

#[test]
fn end_to_end_wildcard_run_reports_fastest_first() {
    let c = ConnectionDescriptor {
        kind: BackendKind::Mysql,
        host: "localhost".to_string(),
        port: 3306,
        username: "root".to_string(),
        password: "pw".to_string(),
        folder: "out".to_string(),
    };
    let discovered: Vec<String> = vec!["a", "b", "c"].into_iter().map(String::from).collect();
    let exports = ExportSpec {
        inclusion: vec!["*".to_string()],
        exclusion: vec!["b".to_string()],
    };
    let tasks = plan_exports(&c, &discovered, &exports);
    assert_eq!(tasks.len(), 2);
    assert_eq!(tasks[0].name, "a");
    assert_eq!(tasks[1].name, "c");

    // Both dumps succeed: `a` takes 500 microseconds, `c` takes 200.
    let mut successes: Vec<DumpRecord> = Vec::new();
    let durations: Vec<u128> = vec![500, 200];
    for (task, micros) in tasks.iter().zip(durations) {
        let outcome = decide_export(
            &c.folder,
            &task.name,
            task.index,
            true,
            b"dump".to_vec(),
            Vec::new(),
            micros,
        );
        if let ExportOutcome::Success { record, .. } = outcome {
            successes.push(record);
        }
    }
    let report = sort_records(successes);
    assert_eq!(names_of(&report), vec!["c", "a"]);
    assert_eq!(report[0].micros, 200);
    assert_eq!(report[1].micros, 500);
}
