//! Line diffs between two versions of a file, and the queries that the
//! navigation needs on them: scroll bounds and line-number correlation.
use vstd::prelude::*;
use vstd::string::StrSliceExecFns;

verus! {

/// The side of a diff that a line number belongs to.
#[derive(Clone, Copy, Debug, PartialEq, Eq, Structural)]
pub enum Side {
    Old,
    New,
}

/// What happened to a line between the two versions.
#[derive(Clone, Copy, Debug, PartialEq, Eq, Structural)]
pub enum ChangeTag {
    Delete,
    Insert,
    Equal,
}

/// A fragment of a line's text, with whether it lies in the changed part
/// of the line.
#[derive(Debug)]
pub struct DiffLinePart {
    text: String,
    emphasized: bool,
}

impl View for DiffLinePart {
    type V = (Seq<char>, bool);

    closed spec fn view(&self) -> (Seq<char>, bool) {
        (self.text@, self.emphasized)
    }
}

impl DiffLinePart {
    pub fn new(text: &str, emphasized: bool) -> (r: Self)
        ensures
            r@ == (text@, emphasized),
    {
        DiffLinePart { text: String::from_str(text), emphasized }
    }

    pub fn text(&self) -> (r: &str)
        ensures
            r@ == self@.0,
    {
        self.text.as_str()
    }

    /// The text with each tab replaced by `tab`.
    pub fn expanded_text(&self, tab: &str) -> (r: String)
        ensures
            r@ == expanded(self@.0, tab@),
    {
        expand_tabs(self.text.as_str(), tab)
    }

    pub fn is_emphasized(&self) -> (r: bool)
        ensures
            r == self@.1,
    {
        self.emphasized
    }
}

/// `text` with each tab replaced by `tab`.
pub open spec fn expanded(text: Seq<char>, tab: Seq<char>) -> Seq<char>
    decreases text.len(),
{
    if text.len() == 0 {
        Seq::empty()
    } else {
        expanded(text.drop_last(), tab) + if text.last() == '\t' {
            tab
        } else {
            seq![text.last()]
        }
    }
}

/// Replaces each tab of `text` by `tab`, for display.
pub fn expand_tabs(text: &str, tab: &str) -> (r: String)
    ensures
        r@ == expanded(text@, tab@),
{
    let n = text.unicode_len();
    let mut out = String::new();
    let mut i: usize = 0;
    while i < n
        invariant
            i <= n,
            n == text@.len(),
            out@ == expanded(text@.take(i as int), tab@),
        decreases n - i,
    {
        let c = text.get_char(i);
        if c == '\t' {
            out.append(tab);
        } else {
            out.append(text.substring_char(i, i + 1));
        }
        proof {
            assert(text@.take(i + 1).drop_last() =~= text@.take(i as int));
            assert(text@.subrange(i as int, i + 1) =~= seq![c]);
        }
        i = i + 1;
    }
    assert(text@.take(n as int) =~= text@);
    out
}

/// One line of a diff: its 0-based index in the old and in the new text
/// (absent on the side where the line does not exist), its tag, and its text.
#[derive(Debug)]
pub struct DiffLine {
    old_index: Option<usize>,
    new_index: Option<usize>,
    tag: ChangeTag,
    parts: Vec<DiffLinePart>,
}

impl DiffLine {
    /// A line index always leaves room for its 1-based line number. Lines
    /// come from the text diff, whose indices lie below their text's length.
    #[verifier::type_invariant]
    spec fn numbers_fit(self) -> bool {
        index_fits(self.old_index) && index_fits(self.new_index)
    }

    /// The 0-based index of the line on the given side, if it exists there.
    pub closed spec fn index_on(self, side: Side) -> Option<usize> {
        match side {
            Side::Old => self.old_index,
            Side::New => self.new_index,
        }
    }

    pub closed spec fn spec_tag(self) -> ChangeTag {
        self.tag
    }

    pub closed spec fn spec_parts(self) -> Seq<(Seq<char>, bool)> {
        self.parts@.map_values(|p: DiffLinePart| p@)
    }

    /// The 1-based line number on the old side.
    pub fn old_line_number(&self) -> (r: Option<usize>)
        ensures
            r == line_number(self.index_on(Side::Old)),
    {
        proof {
            use_type_invariant(self);
        }
        match self.old_index {
            Some(i) => Some(i + 1),
            None => None,
        }
    }

    /// The 1-based line number on the new side.
    pub fn new_line_number(&self) -> (r: Option<usize>)
        ensures
            r == line_number(self.index_on(Side::New)),
    {
        proof {
            use_type_invariant(self);
        }
        match self.new_index {
            Some(i) => Some(i + 1),
            None => None,
        }
    }

    pub fn tag(&self) -> (r: ChangeTag)
        ensures
            r == self.spec_tag(),
    {
        self.tag
    }

    /// The sign shown in front of the line: `-`, `+` or a space.
    pub fn sign(&self) -> (r: String)
        ensures
            r@ == sign_of(self.spec_tag()),
    {
        proof {
            reveal_strlit("-");
            reveal_strlit("+");
            reveal_strlit(" ");
        }
        match self.tag {
            ChangeTag::Delete => String::from_str("-"),
            ChangeTag::Insert => String::from_str("+"),
            ChangeTag::Equal => String::from_str(" "),
        }
    }

    pub fn parts(&self) -> (r: &Vec<DiffLinePart>)
        ensures
            r@.map_values(|p: DiffLinePart| p@) == self.spec_parts(),
    {
        &self.parts
    }
}

impl DiffLine {
    fn index_at(&self, side: Side) -> (r: Option<usize>)
        ensures
            r == self.index_on(side),
            index_fits(r),
    {
        proof {
            use_type_invariant(self);
        }
        match side {
            Side::Old => self.old_index,
            Side::New => self.new_index,
        }
    }

    /// The largest 1-based line number of this line, on either side.
    fn top_number(&self) -> (r: usize)
        ensures
            r == line_top(*self),
    {
        proof {
            use_type_invariant(self);
        }
        let old = match self.old_index {
            Some(i) => i + 1,
            None => 0,
        };
        let new = match self.new_index {
            Some(i) => i + 1,
            None => 0,
        };
        if old < new {
            new
        } else {
            old
        }
    }
}

/// The number of an index as a 1-based line number, 0 where it is absent.
pub open spec fn number_or_zero(i: Option<usize>) -> nat {
    match i {
        Some(k) => (k + 1) as nat,
        None => 0,
    }
}

/// The largest 1-based line number that a line carries, 0 if it carries none.
pub open spec fn line_top(line: DiffLine) -> nat {
    let o = number_or_zero(line.index_on(Side::Old));
    let n = number_or_zero(line.index_on(Side::New));
    if o < n {
        n
    } else {
        o
    }
}

/// The index pairs of the lines, old side first.
pub open spec fn alignment_of(lines: Seq<DiffLine>) -> Seq<(Option<usize>, Option<usize>)> {
    lines.map_values(|l: DiffLine| (l.index_on(Side::Old), l.index_on(Side::New)))
}

/// Along the lines, the indices on one side strictly increase.
pub open spec fn increasing_on(lines: Seq<DiffLine>, side: Side) -> bool {
    forall|i: int, j: int|
        0 <= i < j < lines.len() && (#[trigger] lines[i].index_on(side)) is Some && (
        #[trigger] lines[j].index_on(side)) is Some ==> lines[i].index_on(side).unwrap()
            < lines[j].index_on(side).unwrap()
}

/// An equal line exists on both sides, a deleted one on the old side only,
/// an inserted one on the new side only.
pub open spec fn tag_agrees(line: DiffLine) -> bool {
    match line.spec_tag() {
        ChangeTag::Equal => line.index_on(Side::Old) is Some && line.index_on(Side::New) is Some,
        ChangeTag::Delete => line.index_on(Side::Old) is Some && line.index_on(Side::New) is None,
        ChangeTag::Insert => line.index_on(Side::Old) is None && line.index_on(Side::New) is Some,
    }
}

/// Every index of a line lies within the text of its side.
pub open spec fn within(lines: Seq<DiffLine>, side: Side, text: Seq<u8>) -> bool {
    forall|i: int|
        0 <= i < lines.len() && (#[trigger] lines[i].index_on(side)) is Some
            ==> lines[i].index_on(side).unwrap() < text.len()
}

/// The number of line breaks in `t` from byte `k` on: `\n`, `\r\n` and a
/// lone `\r` each end a line.
pub open spec fn breaks_from(t: Seq<u8>, k: int) -> nat
    decreases t.len() - k,
{
    if k < 0 || k >= t.len() {
        0
    } else if t[k] == 10u8 {
        1 + breaks_from(t, k + 1)
    } else if t[k] == 13u8 {
        if k + 1 < t.len() && t[k + 1] == 10u8 {
            1 + breaks_from(t, k + 2)
        } else {
            1 + breaks_from(t, k + 1)
        }
    } else {
        breaks_from(t, k + 1)
    }
}

/// The number of lines of `t`: one per line break, and one more for text
/// after the last break.
pub open spec fn line_count(t: Seq<u8>) -> nat {
    breaks_from(t, 0) + if t.len() > 0 && t.last() != 10u8 && t.last() != 13u8 {
        1nat
    } else {
        0nat
    }
}

/// Some diff line has index `j` on `side`.
pub open spec fn shows(lines: Seq<DiffLine>, side: Side, j: usize) -> bool {
    exists|i: int| 0 <= i < lines.len() && #[trigger] lines[i].index_on(side) == Some(j)
}

/// Every line `0 .. n` of a side appears as some diff line's index there,
/// and no index reaches `n`.
pub open spec fn covers(lines: Seq<DiffLine>, side: Side, n: nat) -> bool {
    &&& forall|j: usize| j < n ==> #[trigger] shows(lines, side, j)
    &&& forall|i: int|
        0 <= i < lines.len() && (#[trigger] lines[i].index_on(side)) is Some
            ==> lines[i].index_on(side).unwrap() < n
}

pub open spec fn lines_wf(lines: Seq<DiffLine>) -> bool {
    &&& lines.len() <= usize::MAX
    &&& increasing_on(lines, Side::Old)
    &&& increasing_on(lines, Side::New)
    &&& forall|i: int| 0 <= i < lines.len() ==> tag_agrees(#[trigger] lines[i])
}

/// How the lines of `old` and `new` are aligned by the line diff: one pair of
/// (old index, new index) per diff line, in order.
pub uninterp spec fn line_alignment(old: Seq<u8>, new: Seq<u8>) -> Seq<(Option<usize>, Option<usize>)>;

/// Relies on `similar::TextDiff::from_lines` for the line alignment, and on
/// `TextDiff::iter_inline_changes` for each line's text and the parts it
/// emphasizes. The alignment depends on the two texts alone; the emphasis also
/// depends on a time limit of the inline diff, so nothing is stated of it.
/// Each change carries the indices of its line on the sides where it exists
/// (both for an equal line), the old indices and the new ones each increase
/// along the changes, and a line index is below the byte length of its text.
/// Every line of each text (as `DiffableStr::tokenize_lines` splits it at
/// `\n`, `\r\n` and `\r`) appears once, so the indices of a side are
/// exactly `0 ..` its line count.
#[verifier::external_body]
fn text_diff_lines(old: &Vec<u8>, new: &Vec<u8>) -> (r: Vec<DiffLine>)
    ensures
        alignment_of(r@) == line_alignment(old@, new@),
        lines_wf(r@),
        within(r@, Side::Old, old@),
        within(r@, Side::New, new@),
        covers(r@, Side::Old, line_count(old@)),
        covers(r@, Side::New, line_count(new@)),
{
    let diff = similar::TextDiff::from_lines(old, new);
    let mut lines = Vec::new();
    for change in diff.ops().iter().flat_map(|op| diff.iter_inline_changes(op)) {
        let tag = match change.tag() {
            similar::ChangeTag::Delete => ChangeTag::Delete,
            similar::ChangeTag::Insert => ChangeTag::Insert,
            similar::ChangeTag::Equal => ChangeTag::Equal,
        };
        let parts = change.iter_strings_lossy().map(|(emphasized, text)| DiffLinePart { text: text.into_owned(), emphasized });
        lines.push(DiffLine { old_index: change.old_index(), new_index: change.new_index(), tag, parts: parts.collect() });
    }
    lines
}

/// How a turning point changed the file.
#[derive(Clone, Copy, Debug, PartialEq, Eq, Structural)]
pub enum ChangeKind {
    Added,
    Modified,
    Renamed,
}

/// One version of the file as the repository stores it.
#[derive(Debug)]
pub struct FileVersion {
    pub id: String,
    pub path: String,
    pub content: Vec<u8>,
    pub is_binary: bool,
}

/// Height of the commit-information panel above the diff, borders included.
pub const COMMIT_INFO_OUTER_HEIGHT: usize = 4;

/// The diff of one turning point. The lines are computed once, when the diff
/// is made; they are absent where either side is binary.
#[derive(Debug)]
pub struct Diff {
    status: ChangeKind,
    old_id: Option<String>,
    new_id: String,
    old_path: Option<String>,
    new_path: String,
    old_content: Vec<u8>,
    new_content: Vec<u8>,
    lines: Option<Vec<DiffLine>>,
}

/// The bytes on the old side: none where the file was added.
pub open spec fn old_text(old: Option<FileVersion>) -> Seq<u8> {
    match old {
        Some(v) => v.content@,
        None => Seq::empty(),
    }
}

pub open spec fn has_binary_side(old: Option<FileVersion>, new: FileVersion) -> bool {
    new.is_binary || (old is Some && old.unwrap().is_binary)
}

pub open spec fn status_text(kind: ChangeKind, old_path: Option<Seq<char>>, new_path: Seq<char>) -> Seq<char> {
    match kind {
        ChangeKind::Added => "* Added: "@ + new_path,
        ChangeKind::Modified => "* Modified: "@ + new_path,
        ChangeKind::Renamed => "* Renamed: "@ + (match old_path {
            Some(p) => p,
            None => Seq::empty(),
        }) + " -> "@ + new_path,
    }
}

/// Height of the scrollable diff panel in a terminal of the given height.
pub open spec fn spec_diff_height(terminal_height: usize) -> usize {
    if terminal_height >= COMMIT_INFO_OUTER_HEIGHT {
        (terminal_height - COMMIT_INFO_OUTER_HEIGHT) as usize
    } else {
        0
    }
}

pub fn diff_height(terminal_height: usize) -> (r: usize)
    ensures
        r == spec_diff_height(terminal_height),
{
    terminal_height.saturating_sub(COMMIT_INFO_OUTER_HEIGHT)
}

impl Diff {
    pub closed spec fn spec_status(&self) -> ChangeKind {
        self.status
    }

    pub closed spec fn spec_old_id(&self) -> Option<Seq<char>> {
        match self.old_id {
            Some(s) => Some(s@),
            None => None,
        }
    }

    pub closed spec fn spec_new_id(&self) -> Seq<char> {
        self.new_id@
    }

    pub closed spec fn spec_old_path(&self) -> Option<Seq<char>> {
        match self.old_path {
            Some(s) => Some(s@),
            None => None,
        }
    }

    pub closed spec fn spec_new_path(&self) -> Seq<char> {
        self.new_path@
    }

    pub closed spec fn spec_lines(&self) -> Option<Seq<DiffLine>> {
        match self.lines {
            Some(v) => Some(v@),
            None => None,
        }
    }

    /// The bytes on the old side (empty where the file was added).
    pub closed spec fn spec_old_text(&self) -> Seq<u8> {
        self.old_content@
    }

    pub closed spec fn spec_new_text(&self) -> Seq<u8> {
        self.new_content@
    }

    /// The lines are ordered, tagged as their indices say, and cover every
    /// line of both texts.
    pub open spec fn wf(&self) -> bool {
        match self.spec_lines() {
            Some(ls) => {
                &&& lines_wf(ls)
                &&& covers(ls, Side::Old, line_count(self.spec_old_text()))
                &&& covers(ls, Side::New, line_count(self.spec_new_text()))
            },
            None => true,
        }
    }

    pub fn old_content(&self) -> (r: &Vec<u8>)
        ensures
            r@ == self.spec_old_text(),
    {
        &self.old_content
    }

    pub fn new_content(&self) -> (r: &Vec<u8>)
        ensures
            r@ == self.spec_new_text(),
    {
        &self.new_content
    }

    /// Makes the diff between `old` (absent where the file was added) and
    /// `new`, computing its lines unless a side is binary.
    pub fn new(status: ChangeKind, old: Option<FileVersion>, new: FileVersion) -> (r: Self)
        requires
            (status == ChangeKind::Added) == (old is None),
        ensures
            r.wf(),
            r.spec_status() == status,
            r.spec_new_id() == new.id@,
            r.spec_new_path() == new.path@,
            r.spec_old_id() == (match old {
                Some(v) => Some(v.id@),
                None => None::<Seq<char>>,
            }),
            r.spec_old_path() == (match old {
                Some(v) => Some(v.path@),
                None => None::<Seq<char>>,
            }),
            r.spec_old_text() == old_text(old),
            r.spec_new_text() == new.content@,
            r.spec_lines() is None <==> has_binary_side(old, new),
            r.spec_lines() is Some ==> alignment_of(r.spec_lines().unwrap()) == line_alignment(
                old_text(old),
                new.content@,
            ),
    {
        let binary = new.is_binary || match &old {
            Some(v) => v.is_binary,
            None => false,
        };
        let (old_id, old_path, old_content) = match old {
            Some(v) => (Some(v.id), Some(v.path), v.content),
            None => (None, None, Vec::new()),
        };
        let lines = if binary {
            None
        } else {
            Some(text_diff_lines(&old_content, &new.content))
        };
        Diff {
            status,
            old_id,
            new_id: new.id,
            old_path,
            new_path: new.path,
            old_content,
            new_content: new.content,
            lines,
        }
    }

    /// The lines of the diff, or `None` where a side is binary. They are the
    /// ones computed when the diff was made: every call returns the same.
    pub fn lines(&self) -> (r: Option<&Vec<DiffLine>>)
        ensures
            r is None <==> self.spec_lines() is None,
            r is Some ==> r.unwrap()@ == self.spec_lines().unwrap(),
    {
        match &self.lines {
            Some(v) => Some(v),
            None => None,
        }
    }

    /// The change in words: `* Added: path`, `* Modified: path` or
    /// `* Renamed: old -> new`.
    pub fn status(&self) -> (r: String)
        ensures
            r@ == status_text(self.spec_status(), self.spec_old_path(), self.spec_new_path()),
    {
        match self.status {
            ChangeKind::Added => {
                let mut s = String::from_str("* Added: ");
                s.append(self.new_path.as_str());
                s
            },
            ChangeKind::Modified => {
                let mut s = String::from_str("* Modified: ");
                s.append(self.new_path.as_str());
                s
            },
            ChangeKind::Renamed => {
                let mut s = String::from_str("* Renamed: ");
                match &self.old_path {
                    Some(p) => s.append(p.as_str()),
                    None => {},
                }
                s.append(" -> ");
                s.append(self.new_path.as_str());
                s
            },
        }
    }

    pub fn status_kind(&self) -> (r: ChangeKind)
        ensures
            r == self.spec_status(),
    {
        self.status
    }

    pub fn old_path(&self) -> (r: Option<&String>)
        ensures
            r is None <==> self.spec_old_path() is None,
            r is Some ==> r.unwrap()@ == self.spec_old_path().unwrap(),
    {
        match &self.old_path {
            Some(p) => Some(p),
            None => None,
        }
    }

    pub fn new_path(&self) -> (r: &String)
        ensures
            r@ == self.spec_new_path(),
    {
        &self.new_path
    }

    pub fn old_id(&self) -> (r: Option<&String>)
        ensures
            r is None <==> self.spec_old_id() is None,
            r is Some ==> r.unwrap()@ == self.spec_old_id().unwrap(),
    {
        match &self.old_id {
            Some(p) => Some(p),
            None => None,
        }
    }

    pub fn new_id(&self) -> (r: &String)
        ensures
            r@ == self.spec_new_id(),
    {
        &self.new_id
    }
}

/// A position in a diff, relative to the top of the view, together with a
/// line index on one side of the diff.
#[derive(Debug)]
pub struct IndexPair {
    relative_index: usize,
    partial_index: usize,
}

impl View for IndexPair {
    type V = (usize, usize);

    closed spec fn view(&self) -> (usize, usize) {
        (self.relative_index, self.partial_index)
    }
}

impl IndexPair {
    pub fn new(relative_index: usize, partial_index: usize) -> (r: Self)
        ensures
            r@ == (relative_index, partial_index),
    {
        IndexPair { relative_index, partial_index }
    }

    /// How far below the top of the view the line lies.
    pub fn relative_index(&self) -> (r: usize)
        ensures
            r == self@.0,
    {
        self.relative_index
    }

    /// The line's index on its side of the diff.
    pub fn partial_index(&self) -> (r: usize)
        ensures
            r == self@.1,
    {
        self.partial_index
    }
}

/// The first line at or after `from` that exists on `side`.
pub open spec fn next_on(lines: Seq<DiffLine>, side: Side, from: int) -> Option<int>
    decreases lines.len() - from,
{
    if from < 0 || from >= lines.len() {
        None
    } else if lines[from].index_on(side) is Some {
        Some(from)
    } else {
        next_on(lines, side, from + 1)
    }
}

/// The last line before `before` that exists on `side`.
pub open spec fn prev_on(lines: Seq<DiffLine>, side: Side, before: int) -> Option<int>
    decreases before,
{
    if before <= 0 {
        None
    } else if before > lines.len() {
        prev_on(lines, side, lines.len() as int)
    } else if lines[before - 1].index_on(side) is Some {
        Some(before - 1)
    } else {
        prev_on(lines, side, before - 1)
    }
}

/// The first line at or after `from` whose index on `side` is `n`.
pub open spec fn first_with(lines: Seq<DiffLine>, side: Side, n: usize, from: int) -> Option<int>
    decreases lines.len() - from,
{
    if from < 0 || from >= lines.len() {
        None
    } else if lines[from].index_on(side) == Some(n) {
        Some(from)
    } else {
        first_with(lines, side, n, from + 1)
    }
}

/// The line nearest to `index` that exists on `side`: searching downwards
/// first, its distance from `index` and its index on `side`; searching
/// upwards after that, distance 0; `(0, 0)` where no line exists on `side`.
pub open spec fn nearest_pair(lines: Option<Seq<DiffLine>>, side: Side, index: usize) -> (usize, usize) {
    match lines {
        None => (0, 0),
        Some(ls) => match next_on(ls, side, index as int) {
            Some(j) => ((j - index) as usize, ls[j].index_on(side).unwrap()),
            None => match prev_on(ls, side, index as int) {
                Some(j) => (0, ls[j].index_on(side).unwrap()),
                None => (0, 0),
            },
        },
    }
}

/// The position of the first line whose index on `side` is `n`.
pub open spec fn find_on(lines: Option<Seq<DiffLine>>, side: Side, n: usize) -> Option<usize> {
    match lines {
        None => None,
        Some(ls) => match first_with(ls, side, n, 0) {
            Some(j) => Some(j as usize),
            None => None,
        },
    }
}

/// The largest 1-based line number among the first `k` lines, 0 if none.
pub open spec fn max_top(lines: Seq<DiffLine>, k: int) -> nat
    decreases k,
{
    if k <= 0 || k > lines.len() {
        0
    } else {
        let m = max_top(lines, k - 1);
        let t = line_top(lines[k - 1]);
        if m < t {
            t
        } else {
            m
        }
    }
}

/// The number of decimal digits of `n`, 0 for 0.
pub open spec fn decimal_width(n: nat) -> nat
    decreases n,
{
    if n == 0 {
        0
    } else {
        1 + decimal_width(n / 10)
    }
}

proof fn lemma_width_at_most(n: nat)
    ensures
        decimal_width(n) <= n,
    decreases n,
{
    if n > 0 {
        lemma_width_at_most(n / 10);
    }
}

pub open spec fn number_width(lines: Option<Seq<DiffLine>>) -> nat {
    match lines {
        None => 0,
        Some(ls) => decimal_width(max_top(ls, ls.len() as int)),
    }
}

pub open spec fn saturating_sub(a: int, b: int) -> usize {
    if a >= b {
        (a - b) as usize
    } else {
        0
    }
}

/// The largest line index that the view may start at.
pub open spec fn max_index(lines: Option<Seq<DiffLine>>, terminal_height: usize, beyond_last_line: bool) -> usize {
    match lines {
        None => 0,
        Some(ls) => if beyond_last_line {
            saturating_sub(ls.len() as int, 1)
        } else {
            saturating_sub(ls.len() as int, spec_diff_height(terminal_height) as int)
        },
    }
}

impl Diff {
    fn nearest_index_pair(&self, side: Side, index: usize) -> (r: IndexPair)
        ensures
            r@ == nearest_pair(self.spec_lines(), side, index),
    {
        match &self.lines {
            None => IndexPair::new(0, 0),
            Some(lines) => {
                let mut j: usize = index;
                while j < lines.len()
                    invariant
                        index <= j,
                        self.spec_lines() == Some(lines@),
                        next_on(lines@, side, index as int) == next_on(lines@, side, j as int),
                    decreases lines.len() - j,
                {
                    match lines[j].index_at(side) {
                        Some(k) => {
                            return IndexPair::new(j - index, k);
                        },
                        None => {},
                    }
                    j = j + 1;
                }
                let mut j: usize = if index < lines.len() {
                    index
                } else {
                    lines.len()
                };
                while j > 0
                    invariant
                        j <= lines@.len(),
                        self.spec_lines() == Some(lines@),
                        next_on(lines@, side, index as int) is None,
                        prev_on(lines@, side, index as int) == prev_on(lines@, side, j as int),
                    decreases j,
                {
                    match lines[j - 1].index_at(side) {
                        Some(k) => {
                            return IndexPair::new(0, k);
                        },
                        None => {},
                    }
                    j = j - 1;
                }
                IndexPair::new(0, 0)
            },
        }
    }

    /// Scanning from `index` downwards, then upwards, the nearest line that
    /// exists on the old side: its distance below `index` (0 when found
    /// above) and its old index.
    pub fn nearest_old_index_pair(&self, index: usize) -> (r: IndexPair)
        ensures
            r@ == nearest_pair(self.spec_lines(), Side::Old, index),
    {
        self.nearest_index_pair(Side::Old, index)
    }

    /// As `nearest_old_index_pair`, on the new side.
    pub fn nearest_new_index_pair(&self, index: usize) -> (r: IndexPair)
        ensures
            r@ == nearest_pair(self.spec_lines(), Side::New, index),
    {
        self.nearest_index_pair(Side::New, index)
    }

    fn find_index(&self, side: Side, n: usize) -> (r: Option<usize>)
        ensures
            r == find_on(self.spec_lines(), side, n),
    {
        match &self.lines {
            None => None,
            Some(lines) => {
                let mut j: usize = 0;
                while j < lines.len()
                    invariant
                        self.spec_lines() == Some(lines@),
                        first_with(lines@, side, n, 0) == first_with(lines@, side, n, j as int),
                    decreases lines.len() - j,
                {
                    match lines[j].index_at(side) {
                        Some(k) => {
                            if k == n {
                                return Some(j);
                            }
                        },
                        None => {},
                    }
                    j = j + 1;
                }
                None
            },
        }
    }

    /// The position of the first line whose old index is `old_index`.
    pub fn find_index_from_old_index(&self, old_index: usize) -> (r: Option<usize>)
        ensures
            r == find_on(self.spec_lines(), Side::Old, old_index),
    {
        self.find_index(Side::Old, old_index)
    }

    /// The position of the first line whose new index is `new_index`.
    pub fn find_index_from_new_index(&self, new_index: usize) -> (r: Option<usize>)
        ensures
            r == find_on(self.spec_lines(), Side::New, new_index),
    {
        self.find_index(Side::New, new_index)
    }

    /// The number of decimal digits of the largest line number in the diff,
    /// 0 where it has no lines.
    pub fn max_line_number_len(&self) -> (r: usize)
        ensures
            r == number_width(self.spec_lines()),
    {
        match &self.lines {
            None => 0,
            Some(lines) => {
                let mut m: usize = 0;
                let mut i: usize = 0;
                while i < lines.len()
                    invariant
                        i <= lines@.len(),
                        m == max_top(lines@, i as int),
                    decreases lines.len() - i,
                {
                    let t = lines[i].top_number();
                    if m < t {
                        m = t;
                    }
                    i = i + 1;
                }
                proof {
                    lemma_width_at_most(m as nat);
                }
                let mut w: usize = 0;
                let mut x: usize = m;
                while x > 0
                    invariant
                        w + decimal_width(x as nat) == decimal_width(m as nat),
                        decimal_width(m as nat) <= m,
                    decreases x,
                {
                    assert(decimal_width(x as nat) == 1 + decimal_width((x / 10) as nat));
                    w = w + 1;
                    x = x / 10;
                }
                w
            },
        }
    }

    pub fn allowed_min_index(&self) -> (r: usize)
        ensures
            r == 0,
    {
        0
    }

    /// The largest index that the view may start at: the last line where the
    /// view may scroll beyond it, else the index that puts the last line at
    /// the bottom of the view; 0 where the diff has no lines.
    pub fn allowed_max_index(&self, terminal_height: usize, beyond_last_line: bool) -> (r: usize)
        ensures
            r == max_index(self.spec_lines(), terminal_height, beyond_last_line),
    {
        match &self.lines {
            None => 0,
            Some(lines) => if beyond_last_line {
                lines.len().saturating_sub(1)
            } else {
                lines.len().saturating_sub(diff_height(terminal_height))
            },
        }
    }

    pub fn can_move_up(&self, index: usize) -> (r: bool)
        ensures
            r == (index > 0),
    {
        index > self.allowed_min_index()
    }

    pub fn can_move_down(&self, index: usize, terminal_height: usize, beyond_last_line: bool) -> (r: bool)
        ensures
            r == (index < max_index(self.spec_lines(), terminal_height, beyond_last_line)),
    {
        index < self.allowed_max_index(terminal_height, beyond_last_line)
    }
}

proof fn lemma_first_with_found(lines: Seq<DiffLine>, side: Side, n: usize, from: int, k: int)
    requires
        0 <= from <= k < lines.len(),
        lines[k].index_on(side) == Some(n),
    ensures
        first_with(lines, side, n, from) is Some,
        from <= first_with(lines, side, n, from).unwrap() <= k,
        lines[first_with(lines, side, n, from).unwrap()].index_on(side) == Some(n),
    decreases k - from,
{
    if lines[from].index_on(side) != Some(n) {
        lemma_first_with_found(lines, side, n, from + 1, k);
    }
}

/// Looking up a line index that some line of the diff carries finds a line
/// that carries it, and none before it does.
pub proof fn lemma_find_index_hits(d: &Diff, side: Side, x: usize, k: int)
    requires
        d.wf(),
        d.spec_lines() is Some,
        0 <= k < d.spec_lines().unwrap().len(),
        d.spec_lines().unwrap()[k].index_on(side) == Some(x),
    ensures
        find_on(d.spec_lines(), side, x) is Some,
        find_on(d.spec_lines(), side, x).unwrap() <= k,
        d.spec_lines().unwrap()[find_on(d.spec_lines(), side, x).unwrap() as int].index_on(side)
            == Some(x),
{
    lemma_first_with_found(d.spec_lines().unwrap(), side, x, 0, k);
}

/// For any diff and any terminal at least as tall as the commit panel, the
/// bounds of the view's first line are ordered: the least is 0 and the
/// greatest is no smaller, and no greater than the number of lines.
pub proof fn lemma_scroll_bounds_ordered(d: &Diff, terminal_height: usize, beyond_last_line: bool)
    requires
        terminal_height >= COMMIT_INFO_OUTER_HEIGHT,
    ensures
        0 <= max_index(d.spec_lines(), terminal_height, beyond_last_line),
        d.spec_lines() is Some ==> max_index(d.spec_lines(), terminal_height, beyond_last_line)
            <= d.spec_lines().unwrap().len(),
        d.spec_lines() is None ==> max_index(d.spec_lines(), terminal_height, beyond_last_line)
            == 0,
{
}

pub open spec fn index_fits(i: Option<usize>) -> bool {
    match i {
        Some(k) => k < usize::MAX,
        None => true,
    }
}

/// A 0-based index seen as a 1-based line number.
pub open spec fn line_number(i: Option<usize>) -> Option<usize> {
    match i {
        Some(k) => Some((k + 1) as usize),
        None => None,
    }
}

pub open spec fn sign_of(tag: ChangeTag) -> Seq<char> {
    match tag {
        ChangeTag::Delete => seq!['-'],
        ChangeTag::Insert => seq!['+'],
        ChangeTag::Equal => seq![' '],
    }
}

} // verus!
