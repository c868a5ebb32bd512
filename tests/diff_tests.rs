use git_hist::diff::{diff_height, expand_tabs, ChangeKind, ChangeTag, Diff, DiffLinePart, FileVersion, IndexPair};

fn version(id: &str, path: &str, text: &str) -> FileVersion {
    FileVersion {
        id: id.to_string(),
        path: path.to_string(),
        content: text.as_bytes().to_vec(),
        is_binary: false,
    }
}

fn modified(old: &str, new: &str) -> Diff {
    Diff::new(ChangeKind::Modified, Some(version("o", "a.txt", old)), version("n", "a.txt", new))
}

fn numbers(d: &Diff) -> Vec<(Option<usize>, Option<usize>, ChangeTag)> {
    d.lines()
        .unwrap()
        .iter()
        .map(|l| (l.old_line_number(), l.new_line_number(), l.tag()))
        .collect()
}

fn texts(d: &Diff) -> Vec<String> {
    d.lines()
        .unwrap()
        .iter()
        .map(|l| l.parts().iter().map(|p| p.text().to_string()).collect::<String>())
        .collect()
}

#[test]
fn lines_align_a_changed_line() {
    let d = modified("a\nb\nc\n", "a\nx\nc\n");
    assert_eq!(
        numbers(&d),
        vec![
            (Some(1), Some(1), ChangeTag::Equal),
            (Some(2), None, ChangeTag::Delete),
            (None, Some(2), ChangeTag::Insert),
            (Some(3), Some(3), ChangeTag::Equal),
        ]
    );
    assert_eq!(texts(&d), vec!["a\n", "b\n", "x\n", "c\n"]);
}

#[test]
fn lines_are_the_same_on_every_call() {
    let d = modified("a\nb\nc\n", "a\nbb\nc\nd\n");
    let first = numbers(&d);
    let first_texts = texts(&d);
    assert_eq!(numbers(&d), first);
    assert_eq!(texts(&d), first_texts);
    assert_eq!(d.lines().unwrap().len(), d.lines().unwrap().len());
}

#[test]
fn added_file_has_only_inserted_lines() {
    let d = Diff::new(ChangeKind::Added, None, version("n", "a.txt", "x\ny\n"));
    assert_eq!(
        numbers(&d),
        vec![(None, Some(1), ChangeTag::Insert), (None, Some(2), ChangeTag::Insert)]
    );
    assert_eq!(d.status(), "* Added: a.txt");
    assert!(d.old_path().is_none());
    assert!(d.old_id().is_none());
}

#[test]
fn binary_side_has_no_lines() {
    let mut new = version("n", "img.bin", "\u{0}\u{1}\u{2}");
    new.is_binary = true;
    let mut old = version("o", "img.bin", "\u{0}\u{3}");
    old.is_binary = true;
    let d = Diff::new(ChangeKind::Modified, Some(old), new);
    assert!(d.lines().is_none());
    for h in [0usize, 1, 4, 5, 24, 1000] {
        assert_eq!(d.allowed_max_index(h, false), 0);
        assert_eq!(d.allowed_max_index(h, true), 0);
    }
    assert_eq!(d.max_line_number_len(), 0);
    assert_eq!(d.find_index_from_old_index(0), None);
    assert_eq!(d.nearest_old_index_pair(3).relative_index(), 0);
    assert_eq!(d.nearest_old_index_pair(3).partial_index(), 0);
}

#[test]
fn binary_old_side_alone_has_no_lines() {
    let mut old = version("o", "f", "\u{0}");
    old.is_binary = true;
    let d = Diff::new(ChangeKind::Modified, Some(old), version("n", "f", "text\n"));
    assert!(d.lines().is_none());
}

#[test]
fn find_index_hits_each_present_old_index() {
    let d = modified("a\nb\nc\nd\n", "z\na\nc\ne\nd\n");
    let lines = d.lines().unwrap();
    for x in 0..4usize {
        let i = d.find_index_from_old_index(x).unwrap();
        assert_eq!(lines[i].old_line_number(), Some(x + 1));
    }
    for x in 0..5usize {
        let i = d.find_index_from_new_index(x).unwrap();
        assert_eq!(lines[i].new_line_number(), Some(x + 1));
    }
    assert_eq!(d.find_index_from_old_index(4), None);
    assert_eq!(d.find_index_from_new_index(5), None);
}

#[test]
fn nearest_pair_searches_down_then_up() {
    // lines: a(0,0) -b(1,-) +x(-,1) +y(-,2) c(2,3)
    let d = modified("a\nb\nc\n", "a\nx\ny\nc\n");
    assert_eq!(
        numbers(&d),
        vec![
            (Some(1), Some(1), ChangeTag::Equal),
            (Some(2), None, ChangeTag::Delete),
            (None, Some(2), ChangeTag::Insert),
            (None, Some(3), ChangeTag::Insert),
            (Some(3), Some(4), ChangeTag::Equal),
        ]
    );
    let p = d.nearest_old_index_pair(2);
    assert_eq!((p.relative_index(), p.partial_index()), (2, 2));
    let p = d.nearest_old_index_pair(1);
    assert_eq!((p.relative_index(), p.partial_index()), (0, 1));
    let p = d.nearest_new_index_pair(1);
    assert_eq!((p.relative_index(), p.partial_index()), (1, 1));
    // Past the end: the last line found upwards, distance 0.
    let p = d.nearest_new_index_pair(9);
    assert_eq!((p.relative_index(), p.partial_index()), (0, 3));
}

#[test]
fn nearest_pair_without_old_lines_is_zero() {
    let d = Diff::new(ChangeKind::Added, None, version("n", "a.txt", "x\ny\n"));
    let p = d.nearest_old_index_pair(1);
    assert_eq!((p.relative_index(), p.partial_index()), (0, 0));
    let p = d.nearest_new_index_pair(5);
    assert_eq!((p.relative_index(), p.partial_index()), (0, 1));
}

#[test]
fn max_line_number_len_counts_digits() {
    let text: String = (1..=12).map(|i| format!("{}\n", i)).collect();
    let d = modified("", &text);
    assert_eq!(d.max_line_number_len(), 2);
    let d = modified("a\n", "a\nb\n");
    assert_eq!(d.max_line_number_len(), 1);
    let d = modified("", "");
    assert_eq!(d.max_line_number_len(), 0);
    let long: String = (1..=100).map(|i| format!("{}\n", i)).collect();
    let d = modified(&long, "1\n");
    assert_eq!(d.max_line_number_len(), 3);
}

#[test]
fn allowed_max_index_follows_the_view_height() {
    let text: String = (1..=10).map(|i| format!("{}\n", i)).collect();
    let d = modified("", &text);
    assert_eq!(d.lines().unwrap().len(), 10);
    assert_eq!(d.allowed_min_index(), 0);
    assert_eq!(d.allowed_max_index(8, false), 6);
    assert_eq!(d.allowed_max_index(8, true), 9);
    assert_eq!(d.allowed_max_index(4, false), 10);
    assert_eq!(d.allowed_max_index(2, false), 10);
    assert_eq!(d.allowed_max_index(100, false), 0);
    for h in 4..40usize {
        assert!(d.allowed_max_index(h, false) >= d.allowed_min_index());
        assert!(d.allowed_max_index(h, true) >= d.allowed_min_index());
    }
    assert!(d.can_move_down(5, 8, false));
    assert!(!d.can_move_down(6, 8, false));
    assert!(d.can_move_up(1));
    assert!(!d.can_move_up(0));
}

#[test]
fn empty_diff_bounds_are_zero() {
    let d = modified("", "");
    assert_eq!(d.lines().unwrap().len(), 0);
    assert_eq!(d.allowed_max_index(24, false), 0);
    assert_eq!(d.allowed_max_index(24, true), 0);
}

#[test]
fn status_texts() {
    let d = modified("a\n", "b\n");
    assert_eq!(d.status(), "* Modified: a.txt");
    let d = Diff::new(
        ChangeKind::Renamed,
        Some(version("o", "old.txt", "a\n")),
        version("n", "new.txt", "a\n"),
    );
    assert_eq!(d.status(), "* Renamed: old.txt -> new.txt");
    assert_eq!(d.old_path().unwrap(), "old.txt");
    assert_eq!(d.new_path(), "new.txt");
    assert_eq!(d.old_id().unwrap(), "o");
    assert_eq!(d.new_id(), "n");
    assert_eq!(d.status_kind(), ChangeKind::Renamed);
}

#[test]
fn signs_of_lines() {
    let d = modified("a\nb\n", "a\nc\n");
    let signs: Vec<String> = d.lines().unwrap().iter().map(|l| l.sign()).collect();
    assert_eq!(signs, vec![" ", "-", "+"]);
}

#[test]
fn inline_parts_cover_the_line() {
    let d = modified("hello world\n", "hello there\n");
    for line in d.lines().unwrap() {
        let joined: String = line.parts().iter().map(|p| p.text()).collect();
        match line.tag() {
            ChangeTag::Delete => assert_eq!(joined, "hello world\n"),
            ChangeTag::Insert => assert_eq!(joined, "hello there\n"),
            ChangeTag::Equal => panic!("no equal line expected"),
        }
    }
}

#[test]
fn parts_and_pairs_keep_their_values() {
    let p = DiffLinePart::new("abc", true);
    assert_eq!(p.text(), "abc");
    assert!(p.is_emphasized());
    let q = DiffLinePart::new("", false);
    assert_eq!(q.text(), "");
    assert!(!q.is_emphasized());
    let pair = IndexPair::new(3, 7);
    assert_eq!(pair.relative_index(), 3);
    assert_eq!(pair.partial_index(), 7);
}

#[test]
fn diff_height_subtracts_the_commit_panel() {
    assert_eq!(diff_height(24), 20);
    assert_eq!(diff_height(4), 0);
    assert_eq!(diff_height(2), 0);
}

#[test]
fn tabs_expand_for_display() {
    assert_eq!(expand_tabs("a\tb\t", "    "), "a    b    ");
    assert_eq!(expand_tabs("no tabs", "  "), "no tabs");
    assert_eq!(expand_tabs("", "  "), "");
    assert_eq!(expand_tabs("\t\u{e9}", ""), "\u{e9}");
    let part = DiffLinePart::new("\tx", false);
    assert_eq!(part.expanded_text("  "), "  x");
    assert_eq!(part.text(), "\tx");
}
