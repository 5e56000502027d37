use branch_report::entry::{
    open_failure_message, repository_path, DEFAULT_PATH, OPEN_FAILURE_STATUS,
};
use branch_report::gather::{collect_records, scope_for, select_branches, to_record, Scope};
use branch_report::model::{BranchRecord, BranchRef, TipCommit};
use branch_report::order::sort_by_time;
use branch_report::render::{
    bracket_time, current_mark, format_branch_name, format_commit_id, format_commit_time,
    format_time_at, join_line, latest_commit_message, mark_for, name_for, render_detail,
    render_line, short_id,
};
use branch_report::report::{build_report, list_branches, render_report, Options};
use chrono::TimeZone;

const ID_A: &str = "0123456789abcdef0123456789abcdef01234567";
const ID_B: &str = "fedcba9876543210fedcba9876543210fedcba98";

fn tip(id: &str, time: i64, summary: Option<&str>) -> TipCommit {
    TipCommit { id: id.to_string(), time, summary: summary.map(|line| line.to_string()) }
}

fn branch(name: &str, id: &str, time: i64) -> BranchRef {
    BranchRef { name: Some(name.to_string()), tip: Some(tip(id, time, Some("a message"))) }
}

fn record(name: &str, time: i64) -> BranchRecord {
    BranchRecord {
        name: name.to_string(),
        short_id: "abcdef12".to_string(),
        commit_time: time,
        summary: String::new(),
        is_head: false,
        is_remote: false,
    }
}

fn local_stamp(time: i64) -> String {
    let moment = chrono::Local.timestamp_opt(time, 0).single().unwrap();
    format!("[{}]", moment.format("%Y.%m.%d %H:%M"))
}

fn default_options() -> Options {
    Options { show_remote: false, show_all: false, verbose: false }
}

fn names(records: &[BranchRecord]) -> Vec<String> {
    records.iter().map(|record| record.name.clone()).collect()
}

#[test]
fn two_local_branches_with_head_on_main() {
    colored::control::set_override(false);
    let local = vec![branch("main", ID_A, 100), branch("feature/x", ID_B, 200)];
    let report = build_report(local, Vec::new(), Some("main"), &default_options());
    assert_eq!(report.lines.len(), 2);
    assert_eq!(report.lines[0], format!("{} 01234567 * main", local_stamp(100)));
    assert_eq!(report.lines[1], format!("{} fedcba98   feature/x", local_stamp(200)));
    assert_eq!(names(&report.records), vec!["main", "feature/x"]);
    assert!(report.records[0].is_head);
    assert!(!report.records[1].is_head);
    assert!(!report.records[1].is_remote);
}

#[test]
fn younger_branch_listed_first_still_comes_last() {
    colored::control::set_override(false);
    let local = vec![branch("feature/x", ID_B, 200), branch("main", ID_A, 100)];
    let report = build_report(local, Vec::new(), Some("main"), &default_options());
    assert_eq!(names(&report.records), vec!["main", "feature/x"]);
    assert_eq!(report.lines[0], format!("{} 01234567 * main", local_stamp(100)));
    assert_eq!(report.lines[1], format!("{} fedcba98   feature/x", local_stamp(200)));
}

#[test]
fn show_remote_with_only_local_branches_prints_nothing() {
    let local = vec![branch("main", ID_A, 100), branch("feature/x", ID_B, 200)];
    let options = Options { show_remote: true, show_all: false, verbose: false };
    let report = build_report(local, Vec::new(), Some("main"), &options);
    assert_eq!(report.lines.len(), 0);
    assert_eq!(report.records.len(), 0);
}

#[test]
fn verbose_adds_the_indented_summary() {
    colored::control::set_override(false);
    let local = vec![BranchRef {
        name: Some("topic".to_string()),
        tip: Some(tip(ID_A, 100, Some("fix bug"))),
    }];
    let options = Options { show_remote: false, show_all: false, verbose: true };
    let report = build_report(local, Vec::new(), None, &options);
    assert_eq!(report.lines.len(), 2);
    assert_eq!(report.lines[0], format!("{} 01234567   topic", local_stamp(100)));
    assert_eq!(report.lines[1], format!("{}fix bug", " ".repeat(32)));
    assert_eq!(report.lines[1].trim_start(), "fix bug");
}

#[test]
fn verbose_without_a_summary_prints_the_bare_indentation() {
    colored::control::set_override(false);
    let local = vec![BranchRef { name: Some("topic".to_string()), tip: Some(tip(ID_A, 100, None)) }];
    let options = Options { show_remote: false, show_all: false, verbose: true };
    let report = build_report(local, Vec::new(), None, &options);
    assert_eq!(report.lines.len(), 2);
    assert_eq!(report.lines[1], " ".repeat(32));
    assert_eq!(report.records[0].summary, "");
}

#[test]
fn one_line_for_each_branch_that_resolves() {
    let local = vec![
        branch("a", ID_A, 5),
        BranchRef { name: None, tip: Some(tip(ID_A, 1, None)) },
        branch("b", ID_B, 3),
        BranchRef { name: Some("broken".to_string()), tip: None },
        BranchRef { name: None, tip: None },
        branch("c", ID_A, 4),
    ];
    let report = build_report(local.clone(), Vec::new(), None, &default_options());
    assert_eq!(report.lines.len(), 3);
    assert_eq!(names(&report.records), vec!["b", "c", "a"]);
    let options = Options { show_remote: false, show_all: false, verbose: true };
    let verbose = build_report(local, Vec::new(), None, &options);
    assert_eq!(verbose.lines.len(), 6);
    assert_eq!(names(&verbose.records), vec!["b", "c", "a"]);
}

#[test]
fn empty_repository_gives_an_empty_report() {
    let options = Options { show_remote: false, show_all: true, verbose: true };
    let report = build_report(Vec::new(), Vec::new(), None, &options);
    assert!(report.lines.is_empty());
    assert!(report.records.is_empty());
}

#[test]
fn report_runs_from_oldest_to_youngest() {
    let local = vec![
        branch("e", ID_A, 50),
        branch("a", ID_A, -10),
        branch("d", ID_A, 40),
        branch("b", ID_A, 0),
        branch("c", ID_A, 7),
    ];
    let records = list_branches(local, Vec::new(), None, false, false);
    assert_eq!(names(&records), vec!["a", "b", "c", "d", "e"]);
    for pair in records.windows(2) {
        assert!(pair[0].commit_time <= pair[1].commit_time);
    }
}

#[test]
fn branches_of_one_commit_time_keep_their_order() {
    let local = vec![
        branch("x", ID_A, 9),
        branch("p", ID_A, 5),
        branch("y", ID_A, 9),
        branch("q", ID_A, 5),
        branch("z", ID_A, 9),
        branch("r", ID_A, 5),
    ];
    let records = list_branches(local, Vec::new(), None, false, false);
    assert_eq!(names(&records), vec!["p", "q", "r", "x", "y", "z"]);
}

#[test]
fn sort_by_time_is_stable_and_complete() {
    let mut records = vec![
        record("c1", 3),
        record("a1", 1),
        record("c2", 3),
        record("b1", 2),
        record("a2", 1),
        record("c3", 3),
        record("z", i64::MAX),
        record("m", i64::MIN),
    ];
    sort_by_time(&mut records);
    assert_eq!(names(&records), vec!["m", "a1", "a2", "b1", "c1", "c2", "c3", "z"]);
    let mut empty: Vec<BranchRecord> = Vec::new();
    sort_by_time(&mut empty);
    assert!(empty.is_empty());
    let mut single = vec![record("only", 1)];
    sort_by_time(&mut single);
    assert_eq!(names(&single), vec!["only"]);
}

#[test]
fn sort_by_time_leaves_a_sorted_list_alone() {
    let mut records = vec![record("a", 1), record("b", 2), record("c", 2), record("d", 3)];
    let before = records.clone();
    sort_by_time(&mut records);
    assert_eq!(records, before);
}

#[test]
fn head_is_starred_exactly_once() {
    colored::control::set_override(false);
    let local = vec![branch("topic", ID_A, 3), branch("main", ID_B, 2), branch("other", ID_A, 1)];
    let remote = vec![branch("origin/main", ID_B, 2)];
    let options = Options { show_remote: false, show_all: true, verbose: false };
    let report = build_report(local, remote, Some("main"), &options);
    let heads: Vec<&BranchRecord> = report.records.iter().filter(|r| r.is_head).collect();
    assert_eq!(heads.len(), 1);
    assert_eq!(heads[0].name, "main");
    let starred: Vec<&String> = report.lines.iter().filter(|line| line.contains(" * ")).collect();
    assert_eq!(starred.len(), 1);
    assert!(starred[0].ends_with(" * main"));
}

#[test]
fn head_that_is_not_shown_stars_nothing() {
    colored::control::set_override(false);
    let local = vec![branch("topic", ID_A, 3), branch("main", ID_B, 2)];
    let report = build_report(local.clone(), Vec::new(), Some("elsewhere"), &default_options());
    assert!(report.records.iter().all(|r| !r.is_head));
    assert!(report.lines.iter().all(|line| !line.contains('*')));
    let detached = build_report(local, Vec::new(), None, &default_options());
    assert!(detached.records.iter().all(|r| !r.is_head));
    assert!(detached.lines.iter().all(|line| !line.contains('*')));
}

#[test]
fn remote_branches_carry_the_at_sign() {
    colored::control::set_override(false);
    let remote = vec![branch("origin/main", ID_A, 1), branch("origin/topic", ID_B, 2)];
    let options = Options { show_remote: true, show_all: false, verbose: false };
    let report = build_report(Vec::new(), remote, Some("main"), &options);
    assert_eq!(report.lines[0], format!("{} 01234567 @ origin/main", local_stamp(1)));
    assert_eq!(report.lines[1], format!("{} fedcba98 @ origin/topic", local_stamp(2)));
    assert!(report.records.iter().all(|r| r.is_remote && !r.is_head));
}

#[test]
fn remote_branch_that_is_checked_out_carries_the_star() {
    colored::control::set_override(false);
    assert_eq!(current_mark("origin/main", Some("origin/main")), "*");
    assert_eq!(current_mark("origin/main", Some("main")), "@");
    assert_eq!(current_mark("origin/main", None), "@");
    assert_eq!(current_mark("main", Some("main")), "*");
    assert_eq!(current_mark("main", Some("topic")), " ");
    assert_eq!(current_mark("main", None), " ");
}

#[test]
fn mark_for_goes_by_the_flags() {
    colored::control::set_override(false);
    assert_eq!(mark_for(true, false), "*");
    assert_eq!(mark_for(true, true), "*");
    assert_eq!(mark_for(false, true), "@");
    assert_eq!(mark_for(false, false), " ");
}

#[test]
fn path_defaults_to_the_current_directory() {
    assert_eq!(repository_path(None), ".");
    assert_eq!(repository_path(Some("/srv/repo")), "/srv/repo");
    assert_eq!(repository_path(Some("")), "");
    assert_eq!(DEFAULT_PATH, ".");
}

#[test]
fn open_failure_is_reported_with_its_reason() {
    assert_eq!(
        open_failure_message("could not find repository at 'x'"),
        "Failed to open repository: could not find repository at 'x'"
    );
    assert_eq!(open_failure_message(""), "Failed to open repository: ");
    assert_eq!(OPEN_FAILURE_STATUS, 1);
}

#[test]
fn scope_follows_the_switches() {
    assert_eq!(scope_for(false, false), Scope::Local);
    assert_eq!(scope_for(true, false), Scope::Remote);
    assert_eq!(scope_for(false, true), Scope::All);
    assert_eq!(scope_for(true, true), Scope::All);
}

#[test]
fn select_branches_keeps_the_scope() {
    let local = vec![branch("a", ID_A, 1), branch("b", ID_A, 2)];
    let remote = vec![branch("origin/a", ID_B, 3)];
    assert_eq!(select_branches(Scope::Local, local.clone(), remote.clone()), local);
    assert_eq!(select_branches(Scope::Remote, local.clone(), remote.clone()), remote);
    let all = select_branches(Scope::All, local.clone(), remote.clone());
    assert_eq!(all, vec![local[0].clone(), local[1].clone(), remote[0].clone()]);
}

#[test]
fn show_all_lists_local_before_remote_among_equal_times() {
    let local = vec![branch("main", ID_A, 7)];
    let remote = vec![branch("origin/main", ID_A, 7), branch("origin/old", ID_A, 6)];
    let records = list_branches(local, remote, Some("main"), false, true);
    assert_eq!(names(&records), vec!["origin/old", "main", "origin/main"]);
    let flags: Vec<(bool, bool)> = records.iter().map(|r| (r.is_head, r.is_remote)).collect();
    assert_eq!(flags, vec![(false, true), (true, false), (false, true)]);
}

#[test]
fn to_record_fills_every_field() {
    let found = BranchRef {
        name: Some("origin/topic".to_string()),
        tip: Some(tip(ID_B, 1234, Some("first line"))),
    };
    let expected = BranchRecord {
        name: "origin/topic".to_string(),
        short_id: "fedcba98".to_string(),
        commit_time: 1234,
        summary: "first line".to_string(),
        is_head: false,
        is_remote: true,
    };
    assert_eq!(to_record(&found, Some("main")), Some(expected.clone()));
    let head = BranchRecord { is_head: true, ..expected };
    assert_eq!(to_record(&found, Some("origin/topic")), Some(head));
}

#[test]
fn to_record_passes_over_what_does_not_resolve() {
    let nameless = BranchRef { name: None, tip: Some(tip(ID_A, 1, None)) };
    let tipless = BranchRef { name: Some("x".to_string()), tip: None };
    let neither = BranchRef { name: None, tip: None };
    assert_eq!(to_record(&nameless, None), None);
    assert_eq!(to_record(&tipless, None), None);
    assert_eq!(to_record(&neither, Some("x")), None);
    let found = vec![nameless, branch("kept", ID_A, 1), tipless, neither];
    assert_eq!(names(&collect_records(&found, None)), vec!["kept"]);
}

#[test]
fn short_id_is_the_first_eight_characters() {
    assert_eq!(short_id(ID_A), "01234567");
    assert_eq!(short_id("12345678"), "12345678");
    assert_eq!(short_id("123456789"), "12345678");
    assert_eq!(short_id("1234567"), "1234567");
    assert_eq!(short_id(""), "");
}

#[test]
fn commit_id_of_a_missing_tip_is_unknown() {
    assert_eq!(format_commit_id(None), "Unknown");
    assert_eq!(format_commit_id(Some(&tip(ID_B, 0, None))), "fedcba98");
}

#[test]
fn latest_commit_message_is_the_summary_of_the_tip() {
    assert_eq!(latest_commit_message(None), None);
    assert_eq!(latest_commit_message(Some(&tip(ID_A, 0, None))), None);
    assert_eq!(
        latest_commit_message(Some(&tip(ID_A, 0, Some("fix bug")))),
        Some("fix bug".to_string())
    );
}

#[test]
fn time_stamp_at_a_fixed_offset() {
    colored::control::set_override(false);
    assert_eq!(format_time_at(0, Some(0)), "[1970.01.01 00:00]");
    assert_eq!(format_time_at(100, Some(0)), "[1970.01.01 00:01]");
    assert_eq!(format_time_at(1_700_000_000, Some(3600)), "[2023.11.14 23:13]");
    assert_eq!(format_time_at(1_700_000_000, Some(-5 * 3600)), "[2023.11.14 17:13]");
    assert_eq!(format_time_at(-1, Some(0)), "[1969.12.31 23:59]");
    assert_eq!(format_time_at(951_782_400, Some(0)), "[2000.02.29 00:00]");
}

#[test]
fn time_that_cannot_be_rendered_is_a_question_mark() {
    colored::control::set_override(false);
    assert_eq!(format_time_at(0, None), "[?]");
    assert_eq!(format_time_at(i64::MAX, Some(0)), "[?]");
    assert_eq!(format_time_at(i64::MIN, Some(0)), "[?]");
    assert_eq!(format_time_at(0, Some(86_400)), "[?]");
    assert_eq!(format_time_at(0, Some(-86_400)), "[?]");
    assert_eq!(format_commit_time(i64::MAX), "[?]");
    assert_eq!(format_commit_time(i64::MIN), "[?]");
}

#[test]
fn every_instant_in_range_has_a_date_at_every_offset() {
    colored::control::set_override(false);
    let first = chrono::DateTime::<chrono::Utc>::MIN_UTC.timestamp();
    let last = chrono::DateTime::<chrono::Utc>::MAX_UTC.timestamp();
    for time in [first, first + 1, -1, 0, 1, last - 1, last] {
        for offset in [-86_399, -3600, 0, 3600, 86_399] {
            let shown = format_time_at(time, Some(offset));
            assert_ne!(shown, "[?]", "{time} at {offset}");
            assert!(shown.starts_with('[') && shown.ends_with(']'));
        }
        assert_ne!(format_commit_time(time), "[?]", "{time}");
    }
    for time in [first - 1, last + 1, i64::MIN, i64::MAX] {
        for offset in [-86_399, 0, 86_399] {
            assert_eq!(format_time_at(time, Some(offset)), "[?]");
        }
        assert_eq!(format_commit_time(time), "[?]");
    }
    assert_eq!(format_time_at(last, Some(0)), "[+262142.12.31 23:59]");
    assert_eq!(format_time_at(first, Some(0)), "[-262143.01.01 00:00]");
}

#[test]
fn commit_time_is_shown_in_local_time() {
    colored::control::set_override(false);
    assert_eq!(format_commit_time(0), local_stamp(0));
    assert_eq!(format_commit_time(100), local_stamp(100));
    assert_eq!(format_commit_time(1_700_000_000), local_stamp(1_700_000_000));
    assert_eq!(format_commit_time(1_720_000_000), local_stamp(1_720_000_000));
    assert_eq!(format_commit_time(0).len(), 18);
}

#[test]
fn bracket_time_wraps_the_text() {
    assert_eq!(bracket_time(Some("2024.01.02 03:04")), "[2024.01.02 03:04]");
    assert_eq!(bracket_time(Some("")), "[]");
    assert_eq!(bracket_time(None), "[?]");
}

#[test]
fn join_line_puts_one_blank_between_segments() {
    assert_eq!(join_line("[t]", "id", "*", "name"), "[t] id * name");
    assert_eq!(join_line("", "", "", ""), "   ");
    assert_eq!(join_line("a b", "c", " ", "d e"), "a b c   d e");
}

#[test]
fn plain_branch_name_is_the_name() {
    colored::control::set_override(false);
    assert_eq!(format_branch_name("main", Some("main")), "main");
    assert_eq!(format_branch_name("origin/main", None), "origin/main");
    assert_eq!(format_branch_name("", None), "");
    assert_eq!(name_for(true, false, "main"), "main");
    assert_eq!(name_for(false, false, "topic"), "topic");
}

#[test]
fn without_colours_text_with_escapes_comes_back_unchanged() {
    colored::control::set_override(false);
    assert_eq!(format_branch_name("a\u{1b}[0mb", None), "a\u{1b}[0mb");
    assert_eq!(render_detail("\u{1b}[31mred"), format!("{}\u{1b}[31mred", " ".repeat(32)));
}

#[test]
fn plain_line_and_detail_of_a_record() {
    colored::control::set_override(false);
    let shown = BranchRecord {
        name: "origin/v2".to_string(),
        short_id: "abcdef12".to_string(),
        commit_time: 86_400,
        summary: "tag it".to_string(),
        is_head: false,
        is_remote: true,
    };
    assert_eq!(render_line(&shown), format!("{} abcdef12 @ origin/v2", local_stamp(86_400)));
    assert_eq!(render_detail("tag it"), format!("{}tag it", " ".repeat(32)));
    assert_eq!(render_detail(""), " ".repeat(32));
    let lines = render_report(&vec![shown.clone(), shown.clone()], true);
    assert_eq!(lines.len(), 4);
    assert_eq!(lines[0], lines[2]);
    assert_eq!(lines[1], lines[3]);
    assert_eq!(lines[1], format!("{}tag it", " ".repeat(32)));
    let brief = render_report(&vec![shown], false);
    assert_eq!(brief, vec![lines[0].clone()]);
    assert!(render_report(&Vec::new(), true).is_empty());
}
