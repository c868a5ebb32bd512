//! What is shown of a commit: its ids, people, dates and summary, and the
//! references (branches, tags, HEAD) that point at it.
use std::collections::HashMap;
use itertools::Itertools;
use vstd::prelude::*;

verus! {

/// A commit as shown to the reader: its full and abbreviated hash, its author
/// and committer with their times (seconds since the Unix epoch), the first
/// line of its message, and the references that point at it.
#[derive(Debug)]
pub struct Commit {
    long_id: String,
    short_id: String,
    author_name: String,
    author_time: i64,
    committer_name: String,
    committer_time: i64,
    summary: String,
    references: References,
}

impl Commit {
    pub closed spec fn spec_long_id(&self) -> Seq<char> {
        self.long_id@
    }

    pub closed spec fn spec_short_id(&self) -> Seq<char> {
        self.short_id@
    }

    pub closed spec fn spec_author(&self) -> (Seq<char>, i64) {
        (self.author_name@, self.author_time)
    }

    pub closed spec fn spec_committer(&self) -> (Seq<char>, i64) {
        (self.committer_name@, self.committer_time)
    }

    pub closed spec fn spec_summary(&self) -> Seq<char> {
        self.summary@
    }

    pub closed spec fn spec_references(&self) -> References {
        self.references
    }

    pub fn new(
        long_id: String,
        short_id: String,
        author_name: String,
        author_time: i64,
        committer_name: String,
        committer_time: i64,
        summary: String,
        references: References,
    ) -> (r: Self)
        ensures
            r.spec_long_id() == long_id@,
            r.spec_short_id() == short_id@,
            r.spec_author() == (author_name@, author_time),
            r.spec_committer() == (committer_name@, committer_time),
            r.spec_summary() == summary@,
            r.spec_references() == references,
    {
        Commit {
            long_id,
            short_id,
            author_name,
            author_time,
            committer_name,
            committer_time,
            summary,
            references,
        }
    }

    pub fn long_id(&self) -> (r: &str)
        ensures
            r@ == self.spec_long_id(),
    {
        self.long_id.as_str()
    }

    pub fn short_id(&self) -> (r: &str)
        ensures
            r@ == self.spec_short_id(),
    {
        self.short_id.as_str()
    }

    pub fn author_name(&self) -> (r: &str)
        ensures
            r@ == self.spec_author().0,
    {
        self.author_name.as_str()
    }

    pub fn author_time(&self) -> (r: i64)
        ensures
            r == self.spec_author().1,
    {
        self.author_time
    }

    pub fn committer_name(&self) -> (r: &str)
        ensures
            r@ == self.spec_committer().0,
    {
        self.committer_name.as_str()
    }

    pub fn committer_time(&self) -> (r: i64)
        ensures
            r == self.spec_committer().1,
    {
        self.committer_time
    }

    pub fn summary(&self) -> (r: &str)
        ensures
            r@ == self.spec_summary(),
    {
        self.summary.as_str()
    }

    pub fn references(&self) -> (r: &References)
        ensures
            *r == self.spec_references(),
    {
        &self.references
    }
}

/// A local branch pointing at a commit, and whether HEAD points to it.
#[derive(Debug)]
pub struct LocalBranch {
    name: String,
    is_head: bool,
}

impl View for LocalBranch {
    type V = (Seq<char>, bool);

    closed spec fn view(&self) -> (Seq<char>, bool) {
        (self.name@, self.is_head)
    }
}

/// How a local branch is labelled: `HEAD -> name` for the branch that HEAD
/// points to, else its name.
pub open spec fn local_label(b: (Seq<char>, bool)) -> Seq<char> {
    if b.1 {
        "HEAD -> "@ + b.0
    } else {
        b.0
    }
}

impl LocalBranch {
    pub fn new(name: &str, is_head: bool) -> (r: Self)
        ensures
            r@ == (name@, is_head),
    {
        LocalBranch { name: String::from_str(name), is_head }
    }

    pub fn label(&self) -> (r: String)
        ensures
            r@ == local_label(self@),
    {
        if self.is_head {
            let mut s = String::from_str("HEAD -> ");
            s.append(self.name.as_str());
            s
        } else {
            self.name.clone()
        }
    }
}

/// A remote-tracking branch pointing at a commit.
#[derive(Debug)]
pub struct RemoteBranch {
    name: String,
}

impl View for RemoteBranch {
    type V = Seq<char>;

    closed spec fn view(&self) -> Seq<char> {
        self.name@
    }
}

impl RemoteBranch {
    pub fn new(name: &str) -> (r: Self)
        ensures
            r@ == name@,
    {
        RemoteBranch { name: String::from_str(name) }
    }

    pub fn label(&self) -> (r: String)
        ensures
            r@ == self@,
    {
        self.name.clone()
    }
}

/// A tag pointing at a commit.
#[derive(Debug)]
pub struct Tag {
    name: String,
}

impl View for Tag {
    type V = Seq<char>;

    closed spec fn view(&self) -> Seq<char> {
        self.name@
    }
}

pub open spec fn tag_label(name: Seq<char>) -> Seq<char> {
    "tag: "@ + name
}

impl Tag {
    pub fn new(name: &str) -> (r: Self)
        ensures
            r@ == name@,
    {
        Tag { name: String::from_str(name) }
    }

    pub fn label(&self) -> (r: String)
        ensures
            r@ == tag_label(self@),
    {
        let mut s = String::from_str("tag: ");
        s.append(self.name.as_str());
        s
    }
}

/// The kind of a reference.
#[derive(Clone, Copy, Debug, PartialEq, Eq, Structural)]
pub enum RefKind {
    LocalBranch,
    RemoteBranch,
    Tag,
    Other,
}

pub const LOCAL_BRANCH_CODE: u8 = 0;

pub const REMOTE_BRANCH_CODE: u8 = 1;

pub const TAG_CODE: u8 = 2;

pub const OTHER_CODE: u8 = 3;

pub open spec fn code_of(kind: RefKind) -> u8 {
    match kind {
        RefKind::LocalBranch => LOCAL_BRANCH_CODE,
        RefKind::RemoteBranch => REMOTE_BRANCH_CODE,
        RefKind::Tag => TAG_CODE,
        RefKind::Other => OTHER_CODE,
    }
}

/// A reference of the repository as read from it: its full name, its short
/// name where it has one, its kind, and the object it targets directly.
#[derive(Debug)]
pub struct RefInfo {
    pub name: String,
    pub shorthand: Option<String>,
    pub kind: RefKind,
    pub target: Option<String>,
}

impl RefInfo {
    pub fn kind_code(&self) -> (r: u8)
        ensures
            r == code_of(self.kind),
    {
        match self.kind {
            RefKind::LocalBranch => LOCAL_BRANCH_CODE,
            RefKind::RemoteBranch => REMOTE_BRANCH_CODE,
            RefKind::Tag => TAG_CODE,
            RefKind::Other => OTHER_CODE,
        }
    }
}

/// HEAD as read from the repository: the name of the reference it resolves
/// to (`HEAD` itself when detached) and that reference's target.
#[derive(Debug)]
pub struct HeadInfo {
    pub name: Option<String>,
    pub target: Option<String>,
}

pub open spec fn opt_view(s: Option<String>) -> Option<Seq<char>> {
    match s {
        Some(x) => Some(x@),
        None => None,
    }
}

/// The references of one kind, in their order.
pub open spec fn of_kind(refs: Seq<RefInfo>, code: u8) -> Seq<RefInfo> {
    refs.filter(|r: RefInfo| code_of(r.kind) == code)
}

pub open spec fn targets(r: RefInfo, id: Seq<char>) -> bool {
    opt_view(r.target) == Some(id)
}

/// A local branch at commit `id`, by short name, marked where HEAD points to it.
pub open spec fn local_entry(id: Seq<char>, head_name: Option<Seq<char>>) -> spec_fn(RefInfo) -> Option<(Seq<char>, bool)> {
    |r: RefInfo|
        if targets(r, id) && r.shorthand is Some {
            Some((r.shorthand.unwrap()@, head_name == Some(r.name@)))
        } else {
            None
        }
}

/// A reference at commit `id`, by short name.
pub open spec fn named_entry(id: Seq<char>) -> spec_fn(RefInfo) -> Option<Seq<char>> {
    |r: RefInfo|
        if targets(r, id) && r.shorthand is Some {
            Some(r.shorthand.unwrap()@)
        } else {
            None
        }
}

/// Relies on itertools' `Itertools::into_group_map_by`: the references grouped
/// by the code of their kind, each group in the order of `refs`; a code has a
/// group exactly where some reference has it.
#[verifier::external_body]
fn group_by_kind(refs: Vec<RefInfo>) -> (r: HashMap<u8, Vec<RefInfo>>)
    ensures
        forall|k: u8| #[trigger] r@.contains_key(k) ==> r@[k]@ == of_kind(refs@, k),
        forall|k: u8| !(#[trigger] r@.contains_key(k)) ==> of_kind(refs@, k).len() == 0,
{
    refs.into_iter().into_group_map_by(|r| r.kind_code())
}

/// The group of references with the given kind code: its content where it
/// exists, an empty sequence where it does not.
pub open spec fn group_seq(groups: Map<u8, Vec<RefInfo>>, code: u8) -> Seq<RefInfo> {
    if groups.contains_key(code) {
        groups[code]@
    } else {
        Seq::empty()
    }
}

fn local_branches_in(group: Option<&Vec<RefInfo>>, id: &String, head_name: &Option<String>) -> (r: Vec<LocalBranch>)
    ensures
        r@.map_values(|b: LocalBranch| b@) == (match group {
            Some(g) => g@,
            None => Seq::<RefInfo>::empty(),
        }).filter_map(local_entry(id@, opt_view(*head_name))),
{
    let mut out: Vec<LocalBranch> = Vec::new();
    match group {
        None => {
            assert(out@.map_values(|b: LocalBranch| b@) =~= Seq::<RefInfo>::empty().filter_map(local_entry(id@, opt_view(*head_name))));
        },
        Some(g) => {
            let ghost f = local_entry(id@, opt_view(*head_name));
            let mut i: usize = 0;
            while i < g.len()
                invariant
                    i <= g@.len(),
                    f == local_entry(id@, opt_view(*head_name)),
                    out@.map_values(|b: LocalBranch| b@) =~= g@.take(i as int).filter_map(f),
                decreases g.len() - i,
            {
                let r = &g[i];
                proof {
                    g@.lemma_filter_map_take_succ(f, i as int);
                }
                let points_here = match &r.target {
                    Some(t) => *t == *id,
                    None => false,
                };
                if points_here {
                    match &r.shorthand {
                        Some(short) => {
                            let is_head = match head_name {
                                Some(h) => *h == r.name,
                                None => false,
                            };
                            out.push(LocalBranch { name: short.clone(), is_head });
                        },
                        None => {},
                    }
                }
                i = i + 1;
            }
            assert(g@.take(i as int) =~= g@);
        },
    }
    out
}

fn named_in(group: Option<&Vec<RefInfo>>, id: &String) -> (r: Vec<String>)
    ensures
        r@.map_values(|s: String| s@) == (match group {
            Some(g) => g@,
            None => Seq::<RefInfo>::empty(),
        }).filter_map(named_entry(id@)),
{
    let mut out: Vec<String> = Vec::new();
    match group {
        None => {
            assert(out@.map_values(|s: String| s@) =~= Seq::<RefInfo>::empty().filter_map(named_entry(id@)));
        },
        Some(g) => {
            let ghost f = named_entry(id@);
            let mut i: usize = 0;
            while i < g.len()
                invariant
                    i <= g@.len(),
                    f == named_entry(id@),
                    out@.map_values(|s: String| s@) =~= g@.take(i as int).filter_map(f),
                decreases g.len() - i,
            {
                let r = &g[i];
                proof {
                    g@.lemma_filter_map_take_succ(f, i as int);
                }
                let points_here = match &r.target {
                    Some(t) => *t == *id,
                    None => false,
                };
                if points_here {
                    match &r.shorthand {
                        Some(short) => {
                            out.push(short.clone());
                        },
                        None => {},
                    }
                }
                i = i + 1;
            }
            assert(g@.take(i as int) =~= g@);
        },
    }
    out
}

fn remote_branches_from(names: &Vec<String>) -> (r: Vec<RemoteBranch>)
    ensures
        r@.map_values(|b: RemoteBranch| b@) == names@.map_values(|s: String| s@),
{
    let mut out: Vec<RemoteBranch> = Vec::new();
    let mut i: usize = 0;
    while i < names.len()
        invariant
            i <= names@.len(),
            out@.len() == i,
            forall|k: int| 0 <= k < i ==> (#[trigger] out@[k])@ == names@[k]@,
        decreases names.len() - i,
    {
        out.push(RemoteBranch { name: names[i].clone() });
        i = i + 1;
    }
    assert(out@.map_values(|b: RemoteBranch| b@) =~= names@.map_values(|s: String| s@));
    out
}

fn tags_from(names: &Vec<String>) -> (r: Vec<Tag>)
    ensures
        r@.map_values(|t: Tag| t@) == names@.map_values(|s: String| s@),
{
    let mut out: Vec<Tag> = Vec::new();
    let mut i: usize = 0;
    while i < names.len()
        invariant
            i <= names@.len(),
            out@.len() == i,
            forall|k: int| 0 <= k < i ==> (#[trigger] out@[k])@ == names@[k]@,
        decreases names.len() - i,
    {
        out.push(Tag { name: names[i].clone() });
        i = i + 1;
    }
    assert(out@.map_values(|t: Tag| t@) =~= names@.map_values(|s: String| s@));
    out
}

/// Whether a commit is the target of a detached HEAD.
pub open spec fn is_detached_head_at(head: HeadInfo, id: Seq<char>) -> bool {
    opt_view(head.target) == Some(id) && opt_view(head.name) == Some("HEAD"@)
}

/// The references that point at one commit, by kind, and whether the commit
/// is HEAD's target while HEAD is detached.
#[derive(Debug)]
pub struct References {
    local_branches: Vec<LocalBranch>,
    remote_branches: Vec<RemoteBranch>,
    tags: Vec<Tag>,
    is_head: bool,
}

impl References {
    pub closed spec fn spec_local_branches(&self) -> Seq<(Seq<char>, bool)> {
        self.local_branches@.map_values(|b: LocalBranch| b@)
    }

    pub closed spec fn spec_remote_branches(&self) -> Seq<Seq<char>> {
        self.remote_branches@.map_values(|b: RemoteBranch| b@)
    }

    pub closed spec fn spec_tags(&self) -> Seq<Seq<char>> {
        self.tags@.map_values(|t: Tag| t@)
    }

    pub closed spec fn spec_is_head(&self) -> bool {
        self.is_head
    }

    pub fn new(
        local_branches: Vec<LocalBranch>,
        remote_branches: Vec<RemoteBranch>,
        tags: Vec<Tag>,
        is_head: bool,
    ) -> (r: Self)
        ensures
            r.spec_local_branches() == local_branches@.map_values(|b: LocalBranch| b@),
            r.spec_remote_branches() == remote_branches@.map_values(|b: RemoteBranch| b@),
            r.spec_tags() == tags@.map_values(|t: Tag| t@),
            r.spec_is_head() == is_head,
    {
        References { local_branches, remote_branches, tags, is_head }
    }

    /// The references among `refs` that target the commit `commit_id`, by
    /// kind and in their order, each by its short name (one without a short
    /// name is left out); a local branch is marked where HEAD resolves to it.
    /// References of any other kind are left out.
    pub fn collect(commit_id: &String, refs: Vec<RefInfo>, head: &HeadInfo) -> (r: Self)
        ensures
            r.spec_local_branches() == of_kind(refs@, LOCAL_BRANCH_CODE).filter_map(
                local_entry(commit_id@, opt_view(head.name)),
            ),
            r.spec_remote_branches() == of_kind(refs@, REMOTE_BRANCH_CODE).filter_map(
                named_entry(commit_id@),
            ),
            r.spec_tags() == of_kind(refs@, TAG_CODE).filter_map(named_entry(commit_id@)),
            r.spec_is_head() == is_detached_head_at(*head, commit_id@),
    {
        broadcast use vstd::std_specs::hash::group_hash_axioms;

        let ghost all = refs@;
        let groups = group_by_kind(refs);
        proof {
            if !groups@.contains_key(LOCAL_BRANCH_CODE) {
                assert(of_kind(all, LOCAL_BRANCH_CODE) =~= Seq::<RefInfo>::empty());
            }
            if !groups@.contains_key(REMOTE_BRANCH_CODE) {
                assert(of_kind(all, REMOTE_BRANCH_CODE) =~= Seq::<RefInfo>::empty());
            }
            if !groups@.contains_key(TAG_CODE) {
                assert(of_kind(all, TAG_CODE) =~= Seq::<RefInfo>::empty());
            }
        }
        let local_branches = local_branches_in(groups.get(&LOCAL_BRANCH_CODE), commit_id, &head.name);
        let remote_names = named_in(groups.get(&REMOTE_BRANCH_CODE), commit_id);
        let tag_names = named_in(groups.get(&TAG_CODE), commit_id);
        let remote_branches = remote_branches_from(&remote_names);
        let tags = tags_from(&tag_names);
        let head_word = String::from_str("HEAD");
        let is_head = match (&head.target, &head.name) {
            (Some(t), Some(n)) => *t == *commit_id && *n == head_word,
            _ => false,
        };
        References { local_branches, remote_branches, tags, is_head }
    }

    /// Every label, in the order shown: HEAD, local branches, remote
    /// branches, tags.
    pub fn all_names(&self) -> (r: Vec<String>)
        ensures
            r@.map_values(|s: String| s@) == (if self.spec_is_head() {
                seq!["HEAD"@]
            } else {
                Seq::empty()
            }) + self.spec_local_branches().map_values(|b: (Seq<char>, bool)| local_label(b))
                + self.spec_remote_branches() + self.spec_tags().map_values(
                |t: Seq<char>| tag_label(t),
            ),
    {
        let mut names = self.head_names();
        let mut local = self.local_branch_names();
        let mut remote = self.remote_branch_names();
        let mut tags = self.tag_names();
        let ghost (h, l, rm, t) = (names@, local@, remote@, tags@);
        names.append(&mut local);
        names.append(&mut remote);
        names.append(&mut tags);
        proof {
            let f = |s: String| s@;
            assert(names@ == h + l + rm + t);
            assert((h + l + rm + t).map_values(f) =~= h.map_values(f) + l.map_values(f)
                + rm.map_values(f) + t.map_values(f));
        }
        names
    }

    pub fn is_empty(&self) -> (r: bool)
        ensures
            r == (self.spec_local_branches().len() == 0 && self.spec_remote_branches().len() == 0
                && self.spec_tags().len() == 0 && !self.spec_is_head()),
    {
        self.local_branches.len() == 0 && self.remote_branches.len() == 0 && self.tags.len() == 0
            && !self.is_head
    }

    /// `HEAD` where the commit is HEAD's detached target, else nothing.
    pub fn head_names(&self) -> (r: Vec<String>)
        ensures
            r@.map_values(|s: String| s@) == (if self.spec_is_head() {
                seq!["HEAD"@]
            } else {
                Seq::empty()
            }),
    {
        let mut names = Vec::new();
        if self.is_head {
            names.push(String::from_str("HEAD"));
        }
        proof {
            assert(names@.map_values(|s: String| s@) =~= (if self.spec_is_head() {
                seq!["HEAD"@]
            } else {
                Seq::empty()
            }));
        }
        names
    }

    pub fn local_branch_names(&self) -> (r: Vec<String>)
        ensures
            r@.map_values(|s: String| s@) == self.spec_local_branches().map_values(
                |b: (Seq<char>, bool)| local_label(b),
            ),
    {
        let ghost want = self.spec_local_branches().map_values(|b: (Seq<char>, bool)| local_label(b));
        let mut names: Vec<String> = Vec::new();
        let mut i: usize = 0;
        while i < self.local_branches.len()
            invariant
                i <= self.local_branches@.len(),
                names@.len() == i,
                forall|k: int| 0 <= k < i ==> (#[trigger] names@[k])@ == local_label(self.local_branches@[k]@),
            decreases self.local_branches.len() - i,
        {
            names.push(self.local_branches[i].label());
            i = i + 1;
        }
        assert(names@.map_values(|s: String| s@) =~= want);
        names
    }

    pub fn remote_branch_names(&self) -> (r: Vec<String>)
        ensures
            r@.map_values(|s: String| s@) == self.spec_remote_branches(),
    {
        let ghost want = self.spec_remote_branches();
        let mut names: Vec<String> = Vec::new();
        let mut i: usize = 0;
        while i < self.remote_branches.len()
            invariant
                i <= self.remote_branches@.len(),
                names@.len() == i,
                forall|k: int| 0 <= k < i ==> (#[trigger] names@[k])@ == self.remote_branches@[k]@,
            decreases self.remote_branches.len() - i,
        {
            names.push(self.remote_branches[i].label());
            i = i + 1;
        }
        assert(names@.map_values(|s: String| s@) =~= want);
        names
    }

    pub fn tag_names(&self) -> (r: Vec<String>)
        ensures
            r@.map_values(|s: String| s@) == self.spec_tags().map_values(|t: Seq<char>| tag_label(t)),
    {
        let ghost want = self.spec_tags().map_values(|t: Seq<char>| tag_label(t));
        let mut names: Vec<String> = Vec::new();
        let mut i: usize = 0;
        while i < self.tags.len()
            invariant
                i <= self.tags@.len(),
                names@.len() == i,
                forall|k: int| 0 <= k < i ==> (#[trigger] names@[k])@ == tag_label(self.tags@[k]@),
            decreases self.tags.len() - i,
        {
            names.push(self.tags[i].label());
            i = i + 1;
        }
        assert(names@.map_values(|s: String| s@) =~= want);
        names
    }
}

} // verus!
