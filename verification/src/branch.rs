//! The branch model: the filter enumeration, the kind of an enumerated
//! reference, and the branch record itself.

use vstd::prelude::*;

verus! {

use core::cmp::Ordering;
use vstd::std_specs::cmp::PartialEqSpec;
use vstd::std_specs::cmp::PartialOrdSpec;

/// A branch-type filter as the caller names it. `Both` and `Invalid`
/// are filter values only; enumeration never produces them.
#[derive(Debug, PartialEq, Eq, Structural, Clone, Copy)]
pub enum BranchType {
    Remote,
    Local,
    Both,
    Invalid,
}

/// The kind of a reference that enumeration actually yields: a branch
/// is found either among the local or among the remote-tracking refs.
#[derive(Debug, PartialEq, Eq, Structural, Clone, Copy)]
pub enum RefKind {
    Remote,
    Local,
}

/// What a filter string means: `"remote"`, `"local"` and `"both"` name
/// the three useful filters, anything else is `Invalid`.
pub open spec fn spec_branch_type_of(s: Seq<char>) -> BranchType {
    if s == "remote"@ {
        BranchType::Remote
    } else if s == "local"@ {
        BranchType::Local
    } else if s == "both"@ {
        BranchType::Both
    } else {
        BranchType::Invalid
    }
}

impl<'a> From<&'a str> for BranchType {
    fn from(t: &'a str) -> (r: BranchType) {
        if crate::strutil::str_eq(t, "remote") {
            BranchType::Remote
        } else if crate::strutil::str_eq(t, "local") {
            BranchType::Local
        } else if crate::strutil::str_eq(t, "both") {
            BranchType::Both
        } else {
            BranchType::Invalid
        }
    }
}

impl<'a> vstd::std_specs::convert::FromSpecImpl<&'a str> for BranchType {
    open spec fn obeys_from_spec() -> bool {
        true
    }

    open spec fn from_spec(t: &'a str) -> BranchType {
        spec_branch_type_of(t@)
    }
}

impl From<RefKind> for BranchType {
    fn from(k: RefKind) -> (r: BranchType) {
        match k {
            RefKind::Remote => BranchType::Remote,
            RefKind::Local => BranchType::Local,
        }
    }
}

impl vstd::std_specs::convert::FromSpecImpl<RefKind> for BranchType {
    open spec fn obeys_from_spec() -> bool {
        true
    }

    open spec fn from_spec(k: RefKind) -> BranchType {
        match k {
            RefKind::Remote => BranchType::Remote,
            RefKind::Local => BranchType::Local,
        }
    }
}

impl BranchType {
    /// The filter handed to the underlying enumeration: `Remote` and
    /// `Local` restrict to one kind; `Both` and `Invalid` both mean "no
    /// restriction" (the caller-facing asymmetry is deliberate:
    /// unrecognized filter strings list everything).
    pub fn to_filter(self) -> (r: Option<RefKind>)
        ensures
            r == (match self {
                BranchType::Remote => Some(RefKind::Remote),
                BranchType::Local => Some(RefKind::Local),
                BranchType::Both => None::<RefKind>,
                BranchType::Invalid => None::<RefKind>,
            }),
    {
        match self {
            BranchType::Remote => Some(RefKind::Remote),
            BranchType::Local => Some(RefKind::Local),
            BranchType::Both => None,
            BranchType::Invalid => None,
        }
    }
}

/// The mathematical content of one branch record: its name and last
/// commit message as character sequences, the normalized commit time
/// in seconds, and the kind it was enumerated under.
pub struct BranchModel {
    pub name: Seq<char>,
    pub message: Seq<char>,
    pub commit_time: int,
    pub branch_type: BranchType,
}

/// One git branch as the library sees it: the cached name, the last
/// commit's message and normalized time, and whether it is a local or
/// a remote-tracking branch. The live reference stays with the host;
/// a record is re-resolved by name when the host acts on it.
#[derive(Debug)]
pub struct GitBranch {
    name: String,
    message: String,
    commit_time: i64,
    branch_type: BranchType,
}

impl GitBranch {
    /// The record's abstract value.
    pub closed spec fn model(&self) -> BranchModel {
        BranchModel {
            name: self.name@,
            message: self.message@,
            commit_time: self.commit_time as int,
            branch_type: self.branch_type,
        }
    }

    pub open spec fn spec_name(&self) -> Seq<char> {
        self.model().name
    }

    pub open spec fn spec_message(&self) -> Seq<char> {
        self.model().message
    }

    pub open spec fn spec_commit_time(&self) -> int {
        self.model().commit_time
    }

    pub open spec fn spec_branch_type(&self) -> BranchType {
        self.model().branch_type
    }

    pub fn new(name: String, message: String, commit_time: i64, branch_type: BranchType) -> (b:
        GitBranch)
        ensures
            b.model() == (BranchModel {
                name: name@,
                message: message@,
                commit_time: commit_time as int,
                branch_type,
            }),
    {
        GitBranch { name, message, commit_time, branch_type }
    }

    pub fn get_name(&self) -> (r: &str)
        ensures
            r@ == self.spec_name(),
    {
        self.name.as_str()
    }

    pub fn get_commit_time(&self) -> (r: i64)
        ensures
            r as int == self.spec_commit_time(),
    {
        self.commit_time
    }

    pub fn get_commit_message(&self) -> (r: &str)
        ensures
            r@ == self.spec_message(),
    {
        self.message.as_str()
    }

    pub fn get_branch_type(&self) -> (r: BranchType)
        ensures
            r == self.spec_branch_type(),
    {
        self.branch_type
    }
}

impl PartialEq for GitBranch {
    /// Two branches are equal exactly when their names are: commit
    /// time and kind play no part in equality.
    fn eq(&self, other: &GitBranch) -> (r: bool) {
        self.name == other.name
    }
}

impl Eq for GitBranch {

}

impl vstd::std_specs::cmp::PartialEqSpecImpl for GitBranch {
    open spec fn obeys_eq_spec() -> bool {
        true
    }

    open spec fn eq_spec(&self, other: &GitBranch) -> bool {
        self.spec_name() == other.spec_name()
    }
}

impl PartialOrd for GitBranch {
    /// Branches are ordered by commit time alone; names play no part
    /// in the order.
    fn partial_cmp(&self, other: &GitBranch) -> (r: Option<Ordering>) {
        if self.commit_time < other.commit_time {
            Some(Ordering::Less)
        } else if self.commit_time == other.commit_time {
            Some(Ordering::Equal)
        } else {
            Some(Ordering::Greater)
        }
    }
}

impl vstd::std_specs::cmp::PartialOrdSpecImpl for GitBranch {
    open spec fn obeys_partial_cmp_spec() -> bool {
        true
    }

    open spec fn partial_cmp_spec(&self, other: &GitBranch) -> Option<Ordering> {
        if self.spec_commit_time() < other.spec_commit_time() {
            Some(Ordering::Less)
        } else if self.spec_commit_time() == other.spec_commit_time() {
            Some(Ordering::Equal)
        } else {
            Some(Ordering::Greater)
        }
    }
}

/// Equality and ordering of branch records are deliberately decoupled:
/// two records with the same name are equal however their commit times
/// differ, and records with different commit times never compare as
/// `Equal` under the order.
pub proof fn lemma_eq_ord_decoupled(a: GitBranch, b: GitBranch)
    requires
        a.spec_name() == b.spec_name(),
        a.spec_commit_time() != b.spec_commit_time(),
    ensures
        a.eq_spec(&b),
        a.partial_cmp_spec(&b) != Some(Ordering::Equal),
{
}

/// A commit's time, normalized: UTC seconds with the commit's recorded
/// minute offset applied as a duration.
pub fn commit_timestamp(seconds: i64, offset_minutes: i32) -> (t: i64)
    requires
        i64::MIN <= seconds + offset_minutes * 60 <= i64::MAX,
    ensures
        t == seconds + offset_minutes * 60,
{
    seconds + (offset_minutes as i64) * 60
}

} // verus!
