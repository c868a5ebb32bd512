//! The options that shape what is shown.
use vstd::prelude::*;

verus! {

/// Whose name or date is shown for a commit.
#[derive(Clone, Copy, Debug, PartialEq, Eq, Structural)]
pub enum UserType {
    Author,
    Committer,
}

impl UserType {
    /// `author` names the author; any other word the committer.
    pub fn from_name(name: &str) -> (r: Self)
        ensures
            r == (if name@ == "author"@ {
                UserType::Author
            } else {
                UserType::Committer
            }),
    {
        let author = String::from_str("author");
        let given = String::from_str(name);
        if given == author {
            UserType::Author
        } else {
            UserType::Committer
        }
    }
}

/// The options of one session.
#[derive(Debug)]
pub struct Args {
    pub file_path: String,
    pub should_use_full_commit_hash: bool,
    pub beyond_last_line: bool,
    pub should_emphasize_diff: bool,
    pub user_for_name: UserType,
    pub user_for_date: UserType,
    pub date_format: String,
    pub tab_spaces: String,
}

/// The text that a tab stands for: `size` spaces.
pub fn tab_spaces(size: usize) -> (r: String)
    ensures
        r@ == Seq::new(size as nat, |i: int| ' '),
{
    let mut s = String::new();
    let mut i: usize = 0;
    while i < size
        invariant
            i <= size,
            s@ == Seq::new(i as nat, |k: int| ' '),
        decreases size - i,
    {
        s.append(" ");
        proof {
            reveal_strlit(" ");
            assert(s@ =~= Seq::new((i + 1) as nat, |k: int| ' '));
        }
        i = i + 1;
    }
    s
}

} // verus!
