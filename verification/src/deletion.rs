//! Planning a branch deletion: the local reference always goes; for a
//! remote-tracking branch the name is split on its first `/` into the
//! remote's name and the branch suffix, and a force-push of an empty
//! source (a deletion) of `refs/heads/<suffix>` is planned against
//! that remote.

use vstd::prelude::*;

verus! {

use crate::branch::BranchType;
use crate::branch::GitBranch;
use vstd::string::StrSliceExecFns;
use vstd::string::StringExecFns;

/// The index of the first `/` in `s`, or `s.len()` if there is none.
pub open spec fn first_slash(s: Seq<char>) -> int
    decreases s.len(),
{
    if s.len() == 0 {
        0
    } else if s[0] == '/' {
        0
    } else {
        1 + first_slash(s.skip(1))
    }
}

/// Whether `s` holds a `/` at all.
pub open spec fn has_slash(s: Seq<char>) -> bool {
    first_slash(s) < s.len()
}

proof fn lemma_first_slash_at(s: Seq<char>, i: int)
    requires
        0 <= i <= s.len(),
        forall|j: int| 0 <= j < i ==> s[j] != '/',
        i < s.len() ==> s[i] == '/',
    ensures
        first_slash(s) == i,
    decreases s.len(),
{
    if s.len() == 0 {
    } else if s[0] == '/' {
        assert(i == 0);
    } else {
        assert(i != 0);
        lemma_first_slash_at(s.skip(1), i - 1);
    }
}

/// The remote half of a deletion: the remote to contact and the
/// refspec to push against it.
#[derive(Debug)]
pub struct RemoteDeletion {
    pub remote_name: String,
    pub refspec: String,
}

/// Why a deletion cannot be planned.
#[derive(Debug, PartialEq, Eq, Structural, Clone, Copy)]
pub enum DeletionError {
    /// A remote-tracking branch's name must hold a `/` separating the
    /// remote's name from the branch suffix.
    MissingRemoteSeparator,
}

impl GitBranch {
    /// Plan this branch's deletion. The local reference is deleted in
    /// every plan; the result says what, beyond that, is owed to the
    /// remote: nothing for a branch that is not remote-tracking, and
    /// for a remote-tracking branch a deletion push of
    /// `+:refs/heads/<suffix>` against the remote named before the
    /// first `/`. A remote-tracking branch whose name has no `/` is
    /// rejected.
    pub fn deletion_plan(&self) -> (r: Result<Option<RemoteDeletion>, DeletionError>)
        ensures
            self.spec_branch_type() != BranchType::Remote ==> r == Ok::<
                Option<RemoteDeletion>,
                DeletionError,
            >(None),
            self.spec_branch_type() == BranchType::Remote && !has_slash(self.spec_name()) ==> r
                == Err::<Option<RemoteDeletion>, DeletionError>(
                DeletionError::MissingRemoteSeparator,
            ),
            self.spec_branch_type() == BranchType::Remote && has_slash(self.spec_name()) ==> (
            r matches Ok(Some(d)) && d.remote_name@ == self.spec_name().take(
                first_slash(self.spec_name()),
            ) && d.refspec@ == "+:refs/heads/"@ + self.spec_name().skip(
                first_slash(self.spec_name()) + 1,
            )),
    {
        if !matches!(self.get_branch_type(), BranchType::Remote) {
            return Ok(None);
        }
        let name = self.get_name();
        let n = name.unicode_len();
        let mut i: usize = 0;
        while i < n && name.get_char(i) != '/'
            invariant
                i <= n,
                n == name@.len(),
                forall|j: int| 0 <= j < i ==> name@[j] != '/',
            decreases n - i,
        {
            i = i + 1;
        }
        proof {
            lemma_first_slash_at(name@, i as int);
        }
        if i == n {
            return Err(DeletionError::MissingRemoteSeparator);
        }
        let remote_name = name.substring_char(0, i).to_owned();
        let suffix = name.substring_char(i + 1, n);
        let mut refspec = "+:refs/heads/".to_owned();
        refspec.append(suffix);
        proof {
            assert(remote_name@ =~= self.spec_name().take(first_slash(self.spec_name())));
            assert(refspec@ =~= "+:refs/heads/"@ + self.spec_name().skip(
                first_slash(self.spec_name()) + 1,
            ));
        }
        Ok(Some(RemoteDeletion { remote_name, refspec }))
    }
}

} // verus!
