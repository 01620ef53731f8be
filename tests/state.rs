use project_timer::app_state::{AppState, Tab, NANOS_PER_SEC};
use project_timer::project::{load_projects, projects_from_lines, Project};

fn lines(names: &[&str]) -> Vec<Option<String>> {
    names.iter().map(|n| Some(n.to_string())).collect()
}

fn pairs(ps: &[Project]) -> Vec<(usize, String)> {
    ps.iter().map(|p| (p.id, p.name.clone())).collect()
}

#[test]
fn alpha_beta_scenario() {
    let mut s = AppState::load(Some(lines(&["Alpha", "Beta"])));
    assert_eq!(
        pairs(&s.projects),
        vec![(0, "Alpha".to_string()), (1, "Beta".to_string())]
    );
    assert_eq!(s.selected, 0);
    assert_eq!(s.selected_text(), "Alpha");
    s.select_project(1);
    assert_eq!(s.selected_text(), "Beta");
}

#[test]
fn undecoded_lines_take_no_id() {
    let file = vec![
        Some("one".to_string()),
        None,
        None,
        Some("two".to_string()),
        Some("three".to_string()),
        None,
    ];
    let ps = projects_from_lines(&file);
    assert_eq!(
        pairs(&ps),
        vec![
            (0, "one".to_string()),
            (1, "two".to_string()),
            (2, "three".to_string())
        ]
    );
}

#[test]
fn names_are_kept_untrimmed_and_duplicated() {
    let ps = load_projects(Some(lines(&["  a ", "", "  a "])));
    assert_eq!(
        pairs(&ps),
        vec![
            (0, "  a ".to_string()),
            (1, "".to_string()),
            (2, "  a ".to_string())
        ]
    );
}

#[test]
fn missing_file_gives_no_projects() {
    assert!(load_projects(None).is_empty());
    let s = AppState::load(None);
    assert!(s.projects.is_empty());
    assert_eq!(s.selected_text(), "");
}

#[test]
fn file_with_only_bad_lines_gives_no_projects() {
    assert!(load_projects(Some(vec![None, None])).is_empty());
}

#[test]
fn initial_state() {
    let s = AppState::load(Some(lines(&["x"])));
    assert_eq!(s.tab, Tab::Console);
    assert!(!s.running);
    assert_eq!(s.start, None);
    assert_eq!(s.elapsed_secs(123), None);
}

#[test]
fn start_reads_zero_then_counts_seconds() {
    let mut s = AppState::load(None);
    let t: u64 = 7_000;
    s.start_timer(t);
    assert!(s.running);
    assert_eq!(s.elapsed_secs(t), Some(0));
    assert_eq!(s.elapsed_secs(t + NANOS_PER_SEC - 1), Some(0));
    assert_eq!(s.elapsed_secs(t + NANOS_PER_SEC), Some(1));
    assert_eq!(s.elapsed_secs(t + 2 * NANOS_PER_SEC + 5), Some(2));
    assert!(s.elapsed_secs(t + 90 * NANOS_PER_SEC).unwrap() >= 1);
}

#[test]
fn elapsed_before_start_is_zero() {
    let mut s = AppState::load(None);
    s.start_timer(10 * NANOS_PER_SEC);
    assert_eq!(s.elapsed_secs(3), Some(0));
}

#[test]
fn elapsed_at_largest_instant() {
    let mut s = AppState::load(None);
    s.start_timer(0);
    assert_eq!(s.elapsed_secs(u64::MAX), Some(u64::MAX / NANOS_PER_SEC));
}

#[test]
fn stop_hides_timer() {
    let mut s = AppState::load(None);
    s.start_timer(1);
    s.stop_timer();
    assert!(!s.running);
    assert_eq!(s.start, None);
    assert_eq!(s.elapsed_secs(5 * NANOS_PER_SEC), None);
}

#[test]
fn restart_does_not_accumulate() {
    let mut s = AppState::load(None);
    s.start_timer(0);
    assert_eq!(s.elapsed_secs(30 * NANOS_PER_SEC), Some(30));
    s.stop_timer();
    s.start_timer(40 * NANOS_PER_SEC);
    assert_eq!(s.elapsed_secs(40 * NANOS_PER_SEC), Some(0));
    assert_eq!(s.elapsed_secs(43 * NANOS_PER_SEC), Some(3));
}

#[test]
fn selection_in_and_out_of_range() {
    let mut s = AppState::load(Some(lines(&["p0", "p1", "p2"])));
    for k in 0..3usize {
        s.select_project(k);
        assert_eq!(s.selected, k);
        assert_eq!(s.selected_text(), format!("p{}", k));
    }
    s.select_project(3);
    assert_eq!(s.selected_text(), "");
    s.select_project(usize::MAX);
    assert_eq!(s.selected_text(), "");
}

#[test]
fn tabs_switch_and_leave_timer_alone() {
    let mut s = AppState::load(None);
    s.start_timer(0);
    s.select_tab(Tab::Editor);
    assert_eq!(s.tab, Tab::Editor);
    assert!(s.running);
    s.select_tab(Tab::Console);
    assert_eq!(s.tab, Tab::Console);
    assert_eq!(s.elapsed_secs(NANOS_PER_SEC), Some(1));
}
