use git_hist::commit::{Commit, References};
use git_hist::diff::{ChangeKind, Diff, FileVersion};
use git_hist::history::{
    check_repository, resolve_file, trace_history, DeltaInfo, FileIdentity, FileTracker, History,
    SetupError, TreeEntry, TurningPoint,
};

fn commit(id: &str) -> Commit {
    Commit::new(
        id.to_string(),
        id[..2.min(id.len())].to_string(),
        "alice".to_string(),
        1_600_000_000,
        "bob".to_string(),
        1_600_000_100,
        format!("commit {}", id),
        References::new(vec![], vec![], vec![], false),
    )
}

fn delta(status: ChangeKind, old: Option<(&str, &str)>, new: (&str, &str)) -> DeltaInfo {
    DeltaInfo {
        status,
        old_id: old.map(|o| o.0.to_string()),
        new_id: new.0.to_string(),
        old_path: old.map(|o| o.1.to_string()),
        new_path: new.1.to_string(),
    }
}

fn identity(id: &str, path: &str) -> FileIdentity {
    FileIdentity { id: id.to_string(), path: path.to_string() }
}

fn version(id: &str, path: &str, text: &str) -> FileVersion {
    FileVersion {
        id: id.to_string(),
        path: path.to_string(),
        content: text.as_bytes().to_vec(),
        is_binary: false,
    }
}

fn diff_of(d: &DeltaInfo, old_text: &str, new_text: &str) -> Diff {
    let old = match (&d.old_id, &d.old_path) {
        (Some(i), Some(p)) => Some(version(i, p, old_text)),
        _ => None,
    };
    Diff::new(d.status, old, version(&d.new_id, &d.new_path, new_text))
}

/// Text of the file after `k` commits.
fn text_at(k: usize) -> String {
    (0..k).map(|i| format!("line {}\n", i)).collect()
}

/// `n` points, newest first, each adding one line to the file.
fn history_of(n: usize) -> History {
    let points: Vec<TurningPoint> = (0..n)
        .map(|i| {
            let k = n - i;
            let d = Diff::new(
                ChangeKind::Modified,
                Some(version("o", "a.txt", &text_at(k - 1))),
                version("n", "a.txt", &text_at(k)),
            );
            TurningPoint::new(commit(&format!("c{}", i)), d)
        })
        .collect();
    assert!(History::is_chained(&points));
    History::new(points)
}

#[test]
fn three_commits_changing_the_file() {
    // Newest first: c3 and c2 modify a.txt, c1 adds it.
    let commits = vec![
        vec![delta(ChangeKind::Modified, Some(("a2", "a.txt")), ("a3", "a.txt"))],
        vec![
            delta(ChangeKind::Modified, Some(("b1", "b.txt")), ("b2", "b.txt")),
            delta(ChangeKind::Modified, Some(("a1", "a.txt")), ("a2", "a.txt")),
        ],
        vec![
            delta(ChangeKind::Added, None, ("b1", "b.txt")),
            delta(ChangeKind::Added, None, ("a1", "a.txt")),
        ],
    ];
    let trace = trace_history(identity("a3", "a.txt"), &commits);
    assert_eq!(trace, vec![(0, 0), (1, 1), (2, 1)]);
}

#[test]
fn commits_not_touching_the_file_are_skipped() {
    // c3 and c2 modify a.txt; a commit between them touches only b.txt.
    let commits = vec![
        vec![delta(ChangeKind::Modified, Some(("a2", "a.txt")), ("a3", "a.txt"))],
        vec![delta(ChangeKind::Modified, Some(("b1", "b.txt")), ("b2", "b.txt"))],
        vec![delta(ChangeKind::Modified, Some(("a1", "a.txt")), ("a2", "a.txt"))],
    ];
    let trace = trace_history(identity("a3", "a.txt"), &commits);
    assert_eq!(trace, vec![(0, 0), (2, 0)]);
    let points: Vec<TurningPoint> = trace
        .iter()
        .map(|&(c, k)| TurningPoint::new(commit(&format!("c{}", c)), diff_of(&commits[c][k], &text_at(2 - c / 2), &text_at(3 - c / 2))))
        .collect();
    let history = History::new(points);
    assert_eq!(history.len(), 2);
    let latest = history.latest().unwrap();
    assert_eq!(latest.index(), 0);
    assert_eq!(latest.commit().long_id(), "c0");
    assert_eq!(latest.diff().new_id(), "a3");
}

#[test]
fn rename_is_followed() {
    // c1 adds old.txt, c2 renames it to new.txt, c3 modifies new.txt.
    let commits = vec![
        vec![delta(ChangeKind::Modified, Some(("n1", "new.txt")), ("n2", "new.txt"))],
        vec![delta(ChangeKind::Renamed, Some(("o1", "old.txt")), ("n1", "new.txt"))],
        vec![delta(ChangeKind::Added, None, ("o1", "old.txt"))],
    ];
    let trace = trace_history(identity("n2", "new.txt"), &commits);
    assert_eq!(trace, vec![(0, 0), (1, 0), (2, 0)]);
    let points: Vec<TurningPoint> = trace
        .iter()
        .map(|&(c, k)| TurningPoint::new(commit(&format!("c{}", 3 - c)), diff_of(&commits[c][k], &text_at(2 - c), &text_at(3 - c))))
        .collect();
    let history = History::new(points);
    let modified = history.get(0).unwrap();
    assert_eq!(modified.commit().long_id(), "c3");
    assert_eq!(modified.diff().status_kind(), ChangeKind::Modified);
    assert_eq!(modified.diff().old_path().unwrap(), "new.txt");
    assert_eq!(modified.diff().new_path(), "new.txt");
    let renamed = history.get(1).unwrap();
    assert_eq!(renamed.commit().long_id(), "c2");
    assert_eq!(renamed.diff().status_kind(), ChangeKind::Renamed);
    assert_eq!(renamed.diff().old_path().unwrap(), "old.txt");
    assert_eq!(renamed.diff().new_path(), "new.txt");
    let added = history.get(2).unwrap();
    assert_eq!(added.diff().status_kind(), ChangeKind::Added);
    assert!(added.is_earliest());
}

#[test]
fn same_content_at_another_path_is_not_the_file() {
    let commits = vec![vec![
        delta(ChangeKind::Added, None, ("x1", "copy.txt")),
        delta(ChangeKind::Modified, Some(("x0", "a.txt")), ("x1", "a.txt")),
    ]];
    let trace = trace_history(identity("x1", "a.txt"), &commits);
    assert_eq!(trace, vec![(0, 1)]);
}

#[test]
fn tracking_stops_after_the_file_was_added() {
    let mut tracker = FileTracker::new(identity("a1", "a.txt"));
    let added = vec![delta(ChangeKind::Added, None, ("a1", "a.txt"))];
    assert_eq!(tracker.step(&added), Some(0));
    assert_eq!(tracker.step(&added), None);
    let trace = trace_history(identity("a1", "a.txt"), &vec![added.clone_list(), added.clone_list()]);
    assert_eq!(trace, vec![(0, 0)]);
}

trait CloneList {
    fn clone_list(&self) -> Vec<DeltaInfo>;
}

impl CloneList for Vec<DeltaInfo> {
    fn clone_list(&self) -> Vec<DeltaInfo> {
        self.iter()
            .map(|d| DeltaInfo {
                status: d.status,
                old_id: d.old_id.clone(),
                new_id: d.new_id.clone(),
                old_path: d.old_path.clone(),
                new_path: d.new_path.clone(),
            })
            .collect()
    }
}

#[test]
fn history_neighbours_are_inverse() {
    let history = history_of(4);
    let latest = history.latest().unwrap();
    assert_eq!(latest.index(), 0);
    assert!(latest.is_latest());
    assert!(history.forward(latest).is_none());
    for i in 1..4usize {
        let newer = history.get(i - 1).unwrap();
        let older = history.get(i).unwrap();
        assert_eq!(history.backward(newer).unwrap().index(), i);
        assert_eq!(history.forward(older).unwrap().index(), i - 1);
        assert_eq!(history.backward(newer).unwrap().commit().long_id(), older.commit().long_id());
    }
    let earliest = history.get(3).unwrap();
    assert!(earliest.is_earliest());
    assert!(!earliest.is_latest());
    assert!(history.backward(earliest).is_none());
    assert!(history.get(4).is_none());
}

#[test]
fn single_point_history_is_latest_and_earliest() {
    let history = history_of(1);
    let p = history.latest().unwrap();
    assert!(p.is_latest());
    assert!(p.is_earliest());
    assert!(history.backward(p).is_none());
    assert!(history.forward(p).is_none());
}

#[test]
fn chain_of_versions_is_checked() {
    let newer = Diff::new(ChangeKind::Modified, Some(version("a", "f", "1\n")), version("b", "f", "2\n"));
    let older = Diff::new(ChangeKind::Added, None, version("a", "f", "1\n"));
    let points = vec![TurningPoint::new(commit("c2"), newer), TurningPoint::new(commit("c1"), older)];
    assert!(History::is_chained(&points));
    let newer = Diff::new(ChangeKind::Modified, Some(version("a", "f", "1\n")), version("b", "f", "2\n"));
    let older = Diff::new(ChangeKind::Added, None, version("x", "f", "other\n"));
    let points = vec![TurningPoint::new(commit("c2"), newer), TurningPoint::new(commit("c1"), older)];
    assert!(!History::is_chained(&points));
    assert!(History::is_chained(&vec![]));
}

#[test]
fn setup_errors() {
    assert_eq!(check_repository(false, false), Err(SetupError::RepositoryNotFound));
    assert_eq!(check_repository(true, true), Err(SetupError::BareRepositoryUnsupported));
    assert_eq!(check_repository(true, false), Ok(()));
    let r = resolve_file(false, None, "a.txt".to_string());
    assert_eq!(r.err(), Some(SetupError::RepositoryEmpty));
    let r = resolve_file(true, None, "a.txt".to_string());
    assert_eq!(r.err(), Some(SetupError::FileNotFoundOnHead));
    let r = resolve_file(true, Some(TreeEntry { id: "t".to_string(), is_blob: false }), "dir".to_string());
    assert_eq!(r.err(), Some(SetupError::PathNotAFile));
    let r = resolve_file(true, Some(TreeEntry { id: "b".to_string(), is_blob: true }), "a.txt".to_string());
    let id = r.unwrap();
    assert_eq!(id.id, "b");
    assert_eq!(id.path, "a.txt");
}
