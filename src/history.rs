//! The history of one file: the commits of the first-parent line that changed
//! it, newest first, found by following the file's identity through renames.
use vstd::prelude::*;
use crate::commit::Commit;
use crate::diff::{ChangeKind, Diff};

verus! {

/// Why the history cannot be shown at all.
#[derive(Clone, Copy, Debug, PartialEq, Eq, Structural)]
pub enum SetupError {
    RepositoryNotFound,
    BareRepositoryUnsupported,
    FileNotFoundOnHead,
    PathNotAFile,
    RepositoryEmpty,
}

/// What the path names in the tree of the latest commit.
#[derive(Debug)]
pub struct TreeEntry {
    pub id: String,
    pub is_blob: bool,
}

/// The file as tracked through history: the id of its content and its path.
#[derive(Debug)]
pub struct FileIdentity {
    pub id: String,
    pub path: String,
}

impl View for FileIdentity {
    type V = (Seq<char>, Seq<char>);

    open spec fn view(&self) -> (Seq<char>, Seq<char>) {
        (self.id@, self.path@)
    }
}

/// One change of a commit against its first parent, as the repository's
/// tree diff with rename detection reports it.
#[derive(Debug)]
pub struct DeltaInfo {
    pub status: ChangeKind,
    pub old_id: Option<String>,
    pub new_id: String,
    pub old_path: Option<String>,
    pub new_path: String,
}

/// A repository can be read where it was found and has a work tree.
pub fn check_repository(found: bool, is_bare: bool) -> (r: Result<(), SetupError>)
    ensures
        !found ==> r == Err::<(), SetupError>(SetupError::RepositoryNotFound),
        found && is_bare ==> r == Err::<(), SetupError>(SetupError::BareRepositoryUnsupported),
        found && !is_bare ==> r is Ok,
{
    if !found {
        Err(SetupError::RepositoryNotFound)
    } else if is_bare {
        Err(SetupError::BareRepositoryUnsupported)
    } else {
        Ok(())
    }
}

/// The identity of the file at the latest commit, from what its path names
/// in that commit's tree.
pub fn resolve_file(has_commits: bool, entry: Option<TreeEntry>, path: String) -> (r: Result<
    FileIdentity,
    SetupError,
>)
    ensures
        !has_commits ==> r == Err::<FileIdentity, SetupError>(SetupError::RepositoryEmpty),
        has_commits && entry is None ==> r == Err::<FileIdentity, SetupError>(
            SetupError::FileNotFoundOnHead,
        ),
        has_commits && entry is Some && !entry.unwrap().is_blob ==> r == Err::<
            FileIdentity,
            SetupError,
        >(SetupError::PathNotAFile),
        has_commits && entry is Some && entry.unwrap().is_blob ==> r is Ok && r.unwrap()@ == (
            entry.unwrap().id@,
            path@,
        ),
{
    if !has_commits {
        return Err(SetupError::RepositoryEmpty);
    }
    match entry {
        None => Err(SetupError::FileNotFoundOnHead),
        Some(e) => if e.is_blob {
            Ok(FileIdentity { id: e.id, path })
        } else {
            Err(SetupError::PathNotAFile)
        },
    }
}

/// A delta whose new side is exactly the tracked file.
pub open spec fn delta_matches(d: DeltaInfo, id: (Seq<char>, Seq<char>)) -> bool {
    d.new_id@ == id.0 && d.new_path@ == id.1
}

/// The first delta, at or after `from`, whose new side is the tracked file.
pub open spec fn first_match(deltas: Seq<DeltaInfo>, id: (Seq<char>, Seq<char>), from: int) -> Option<int>
    decreases deltas.len() - from,
{
    if from < 0 || from >= deltas.len() {
        None
    } else if delta_matches(deltas[from], id) {
        Some(from)
    } else {
        first_match(deltas, id, from + 1)
    }
}

/// The file's identity before a change: the delta's old side, or none where
/// the change added the file.
pub open spec fn identity_before(d: DeltaInfo) -> Option<(Seq<char>, Seq<char>)> {
    match (d.old_id, d.old_path) {
        (Some(i), Some(p)) => Some((i@, p@)),
        _ => None,
    }
}

/// The identity after looking at one commit's deltas.
pub open spec fn next_identity(id: Option<(Seq<char>, Seq<char>)>, deltas: Seq<DeltaInfo>) -> Option<(Seq<char>, Seq<char>)> {
    match id {
        None => None,
        Some(x) => match first_match(deltas, x, 0) {
            Some(k) => identity_before(deltas[k]),
            None => id,
        },
    }
}

/// The delta of one commit that is a turning point for the tracked file.
pub open spec fn turning_delta(id: Option<(Seq<char>, Seq<char>)>, deltas: Seq<DeltaInfo>) -> Option<int> {
    match id {
        None => None,
        Some(x) => first_match(deltas, x, 0),
    }
}

/// Walking the commits from `i` on, newest to oldest, with the file tracked
/// as `id`: the (commit, delta) positions of the turning points.
pub open spec fn trace_from(id: Option<(Seq<char>, Seq<char>)>, commits: Seq<Seq<DeltaInfo>>, i: int) -> Seq<(usize, usize)>
    decreases commits.len() - i,
{
    if i < 0 || i >= commits.len() {
        Seq::empty()
    } else {
        let rest = trace_from(next_identity(id, commits[i]), commits, i + 1);
        match turning_delta(id, commits[i]) {
            Some(k) => seq![(i as usize, k as usize)] + rest,
            None => rest,
        }
    }
}

fn first_matching(deltas: &Vec<DeltaInfo>, id: &FileIdentity) -> (r: Option<usize>)
    ensures
        r == (match first_match(deltas@, id@, 0) {
            Some(j) => Some(j as usize),
            None => None::<usize>,
        }),
        r is Some ==> r.unwrap() < deltas@.len() && first_match(deltas@, id@, 0) == Some(
            r.unwrap() as int,
        ),
        r is None ==> first_match(deltas@, id@, 0) is None,
{
    let mut k: usize = 0;
    while k < deltas.len()
        invariant
            first_match(deltas@, id@, 0) == first_match(deltas@, id@, k as int),
        decreases deltas.len() - k,
    {
        let d = &deltas[k];
        if d.new_id == id.id && d.new_path == id.path {
            return Some(k);
        }
        k = k + 1;
    }
    None
}

/// Follows the tracked file from the newest commit towards the oldest.
#[derive(Debug)]
pub struct FileTracker {
    current: Option<FileIdentity>,
}

impl FileTracker {
    pub closed spec fn spec_current(&self) -> Option<(Seq<char>, Seq<char>)> {
        match self.current {
            Some(x) => Some(x@),
            None => None,
        }
    }

    pub fn new(latest: FileIdentity) -> (r: Self)
        ensures
            r.spec_current() == Some(latest@),
    {
        FileTracker { current: Some(latest) }
    }

    /// Looks at the deltas of the next older commit: returns the position of
    /// the delta whose new side is the tracked file, if any, and then tracks
    /// the file as that delta's old side.
    pub fn step(&mut self, deltas: &Vec<DeltaInfo>) -> (r: Option<usize>)
        ensures
            r is Some ==> r.unwrap() < deltas@.len(),
            r == (match turning_delta(old(self).spec_current(), deltas@) {
                Some(k) => Some(k as usize),
                None => None::<usize>,
            }),
            final(self).spec_current() == next_identity(old(self).spec_current(), deltas@),
    {
        let found = match &self.current {
            None => None,
            Some(id) => first_matching(deltas, id),
        };
        match found {
            Some(k) => {
                let d = &deltas[k];
                self.current = match (&d.old_id, &d.old_path) {
                    (Some(i), Some(p)) => Some(FileIdentity { id: i.clone(), path: p.clone() }),
                    _ => None,
                };
            },
            None => {},
        }
        found
    }
}

/// The (commit, delta) positions of the file's turning points, newest first,
/// given the deltas of each commit of the first-parent line from newest to
/// oldest and the file's identity at the newest.
pub fn trace_history(latest: FileIdentity, commits: &Vec<Vec<DeltaInfo>>) -> (r: Vec<(usize, usize)>)
    ensures
        r@ == trace_from(Some(latest@), commits@.map_values(|v: Vec<DeltaInfo>| v@), 0),
{
    let ghost all = commits@.map_values(|v: Vec<DeltaInfo>| v@);
    let mut tracker = FileTracker::new(latest);
    let mut out: Vec<(usize, usize)> = Vec::new();
    let mut i: usize = 0;
    while i < commits.len()
        invariant
            i <= commits@.len(),
            all == commits@.map_values(|v: Vec<DeltaInfo>| v@),
            out@ + trace_from(tracker.spec_current(), all, i as int) == trace_from(
                Some(latest@),
                all,
                0,
            ),
        decreases commits.len() - i,
    {
        let ghost before = tracker.spec_current();
        let found = tracker.step(&commits[i]);
        proof {
            assert(all[i as int] == commits@[i as int]@);
        }
        match found {
            Some(k) => {
                proof {
                    assert(out@.push((i, k)) + trace_from(tracker.spec_current(), all, i + 1)
                        =~= out@ + trace_from(before, all, i as int));
                }
                out.push((i, k));
            },
            None => {},
        }
        i = i + 1;
    }
    assert(out@ =~= out@ + trace_from(tracker.spec_current(), all, i as int));
    out
}

/// One step of the file's history: the commit that changed it and the diff
/// of that change, with its fixed position in the history (0 is the latest).
#[derive(Debug)]
pub struct TurningPoint {
    index: usize,
    is_earliest: bool,
    commit: Commit,
    diff: Diff,
}

impl TurningPoint {
    pub closed spec fn spec_index(&self) -> usize {
        self.index
    }

    pub closed spec fn spec_is_earliest(&self) -> bool {
        self.is_earliest
    }

    pub closed spec fn spec_commit(&self) -> Commit {
        self.commit
    }

    pub closed spec fn spec_diff(&self) -> Diff {
        self.diff
    }

    /// A turning point not yet placed in a history.
    pub fn new(commit: Commit, diff: Diff) -> (r: Self)
        ensures
            r.spec_commit() == commit,
            r.spec_diff() == diff,
            r.spec_index() == 0,
    {
        TurningPoint { index: 0, is_earliest: false, commit, diff }
    }

    pub fn index(&self) -> (r: usize)
        ensures
            r == self.spec_index(),
    {
        self.index
    }

    pub fn is_latest(&self) -> (r: bool)
        ensures
            r == (self.spec_index() == 0),
    {
        self.index == 0
    }

    pub fn is_earliest(&self) -> (r: bool)
        ensures
            r == self.spec_is_earliest(),
    {
        self.is_earliest
    }

    pub fn commit(&self) -> (r: &Commit)
        ensures
            *r == self.spec_commit(),
    {
        &self.commit
    }

    pub fn diff(&self) -> (r: &Diff)
        ensures
            *r == self.spec_diff(),
    {
        &self.diff
    }
}

/// Each point's old text is the next older point's new text: both are the
/// file just before the newer point's commit.
pub open spec fn chained(points: Seq<TurningPoint>) -> bool {
    forall|i: int|
        0 <= i < points.len() - 1 ==> (#[trigger] points[i].spec_diff()).spec_old_text()
            == points[i + 1].spec_diff().spec_new_text()
}

fn same_bytes(a: &Vec<u8>, b: &Vec<u8>) -> (r: bool)
    ensures
        r == (a@ == b@),
{
    if a.len() != b.len() {
        return false;
    }
    let mut i: usize = 0;
    while i < a.len()
        invariant
            a@.len() == b@.len(),
            i <= a@.len(),
            forall|k: int| 0 <= k < i ==> a@[k] == b@[k],
        decreases a.len() - i,
    {
        if a[i] != b[i] {
            return false;
        }
        i = i + 1;
    }
    assert(a@ =~= b@);
    true
}

/// The turning points of the file, newest first.
#[derive(Debug)]
pub struct History {
    points: Vec<TurningPoint>,
}

impl History {
    pub closed spec fn spec_points(&self) -> Seq<TurningPoint> {
        self.points@
    }

    /// Not empty; each point knows its position and whether it is the last;
    /// every diff is well formed; the points are chained.
    pub open spec fn wf(&self) -> bool {
        let ps = self.spec_points();
        &&& ps.len() > 0
        &&& chained(ps)
        &&& ps.len() <= usize::MAX
        &&& forall|i: int|
            0 <= i < ps.len() ==> {
                &&& (#[trigger] ps[i]).spec_index() == i
                &&& ps[i].spec_is_earliest() == (i == ps.len() - 1)
                &&& ps[i].spec_diff().wf()
            }
    }

    /// The point after `p` towards the past, if there is one.
    pub open spec fn spec_backward(&self, p: TurningPoint) -> Option<TurningPoint> {
        if p.spec_index() + 1 < self.spec_points().len() {
            Some(self.spec_points()[p.spec_index() + 1])
        } else {
            None
        }
    }

    /// The point before `p` towards the present, if there is one.
    pub open spec fn spec_forward(&self, p: TurningPoint) -> Option<TurningPoint> {
        if 1 <= p.spec_index() && p.spec_index() - 1 < self.spec_points().len() {
            Some(self.spec_points()[p.spec_index() - 1])
        } else {
            None
        }
    }

    /// Whether each point's old text is the next point's new text.
    pub fn is_chained(points: &Vec<TurningPoint>) -> (r: bool)
        ensures
            r == chained(points@),
    {
        let mut i: usize = 0;
        while i < points.len() && i + 1 < points.len()
            invariant
                i <= points@.len(),
                forall|k: int| 0 <= k < i && k < points@.len() - 1 ==> (#[trigger] points@[k].spec_diff()).spec_old_text()
                    == points@[k + 1].spec_diff().spec_new_text(),
            decreases points.len() - i,
        {
            if !same_bytes(points[i].diff().old_content(), points[i + 1].diff().new_content()) {
                return false;
            }
            i = i + 1;
        }
        true
    }

    /// Places the points, newest first, at positions 0, 1, ...
    pub fn new(points: Vec<TurningPoint>) -> (r: Self)
        requires
            points@.len() > 0,
            chained(points@),
            forall|i: int| 0 <= i < points@.len() ==> (#[trigger] points@[i]).spec_diff().wf(),
        ensures
            r.wf(),
            r.spec_points().len() == points@.len(),
            forall|i: int|
                0 <= i < points@.len() ==> (#[trigger] r.spec_points()[i]).spec_commit()
                    == points@[i].spec_commit() && r.spec_points()[i].spec_diff()
                    == points@[i].spec_diff(),
    {
        let ghost orig = points@;
        let n = points.len();
        let mut rest = points;
        let mut reversed: Vec<TurningPoint> = Vec::new();
        while rest.len() > 0
            invariant
                n == orig.len(),
                rest@.len() + reversed@.len() == n,
                rest@ == orig.take(rest@.len() as int),
                forall|k: int| 0 <= k < reversed@.len() ==> #[trigger] reversed@[k] == orig[n - 1 - k],
            decreases rest.len(),
        {
            let p = rest.pop().unwrap();
            reversed.push(p);
            assert(rest@ =~= orig.take(rest@.len() as int));
        }
        let mut placed: Vec<TurningPoint> = Vec::new();
        while reversed.len() > 0
            invariant
                n == orig.len(),
                n > 0,
                forall|i: int| 0 <= i < n ==> (#[trigger] orig[i]).spec_diff().wf(),
                placed@.len() + reversed@.len() == n,
                forall|k: int| 0 <= k < reversed@.len() ==> #[trigger] reversed@[k] == orig[n - 1 - k],
                forall|k: int|
                    0 <= k < placed@.len() ==> {
                        &&& (#[trigger] placed@[k]).index == k
                        &&& placed@[k].is_earliest == (k == n - 1)
                        &&& placed@[k].commit == orig[k].commit
                        &&& placed@[k].diff == orig[k].diff
                    },
            decreases reversed.len(),
        {
            let mut p = reversed.pop().unwrap();
            let k = placed.len();
            p.index = k;
            p.is_earliest = k + 1 == n;
            placed.push(p);
        }
        assert forall|i: int| 0 <= i < placed@.len() - 1 implies (#[trigger] placed@[i].spec_diff()).spec_old_text()
            == placed@[i + 1].spec_diff().spec_new_text() by {
            assert(orig[i].spec_diff().spec_old_text() == orig[i + 1].spec_diff().spec_new_text());
        }
        History { points: placed }
    }

    pub fn len(&self) -> (r: usize)
        ensures
            r == self.spec_points().len(),
    {
        self.points.len()
    }

    pub fn get(&self, index: usize) -> (r: Option<&TurningPoint>)
        ensures
            r == (if index < self.spec_points().len() {
                Some(&self.spec_points()[index as int])
            } else {
                None
            }),
    {
        if index < self.points.len() {
            Some(&self.points[index])
        } else {
            None
        }
    }

    /// The newest point, at position 0; a history is never empty.
    pub fn latest(&self) -> (r: Option<&TurningPoint>)
        requires
            self.wf(),
        ensures
            r == Some(&self.spec_points()[0]),
            r.unwrap().spec_index() == 0,
    {
        Some(&self.points[0])
    }

    /// The next older point than `point`.
    pub fn backward(&self, point: &TurningPoint) -> (r: Option<&TurningPoint>)
        ensures
            r is Some <==> self.spec_backward(*point) is Some,
            r is Some ==> *r.unwrap() == self.spec_backward(*point).unwrap(),
    {
        if self.points.len() > 0 && point.index < self.points.len() - 1 {
            Some(&self.points[point.index + 1])
        } else {
            None
        }
    }

    /// The next newer point than `point`.
    pub fn forward(&self, point: &TurningPoint) -> (r: Option<&TurningPoint>)
        ensures
            r is Some <==> self.spec_forward(*point) is Some,
            r is Some ==> *r.unwrap() == self.spec_forward(*point).unwrap(),
    {
        if point.index >= 1 && point.index - 1 < self.points.len() {
            Some(&self.points[point.index - 1])
        } else {
            None
        }
    }
}

/// In a history, the latest point is at position 0, and each point's older
/// neighbour is the next position and that neighbour's newer one is the point
/// itself.
pub proof fn lemma_history_adjacency(h: &History, i: int)
    requires
        h.wf(),
        0 < i < h.spec_points().len(),
    ensures
        h.spec_points()[0].spec_index() == 0,
        h.spec_backward(h.spec_points()[i - 1]) == Some(h.spec_points()[i]),
        h.spec_forward(h.spec_points()[i]) == Some(h.spec_points()[i - 1]),
{
    assert(h.spec_points()[0].spec_index() == 0);
    assert(h.spec_points()[i - 1].spec_index() == i - 1);
    assert(h.spec_points()[i].spec_index() == i);
}

} // verus!
