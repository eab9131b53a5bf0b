//! Building the branch list: skip-list filtering, commit-time
//! normalization, and ordering of the result by commit time.

use vstd::prelude::*;

verus! {

use crate::branch::BranchModel;
use crate::branch::BranchType;
use crate::branch::GitBranch;
use crate::branch::RefKind;
use crate::branch::commit_timestamp;
use crate::strutil::str_eq;

broadcast use vstd::seq_lib::group_to_multiset_ensures, vstd::multiset::group_multiset_axioms;

/// The raw data the host reads out of one enumerated branch before the
/// library decides anything: the reference's name if it was readable,
/// the tip commit's time fields and message, and the kind the branch
/// was enumerated under.
pub struct BranchEntry {
    pub name: Option<String>,
    pub seconds: i64,
    pub offset_minutes: i32,
    pub message: String,
    pub kind: RefKind,
}

/// The views of the caller-supplied skip names.
pub open spec fn skip_views(skip: Seq<&str>) -> Seq<Seq<char>> {
    skip.map_values(|s: &str| s@)
}

/// The normalized commit time of an entry: UTC seconds with the
/// recorded minute offset applied.
pub open spec fn entry_time(e: BranchEntry) -> int {
    e.seconds + e.offset_minutes * 60
}

/// The normalized time fits the time representation.
pub open spec fn entry_time_in_range(e: BranchEntry) -> bool {
    i64::MIN <= entry_time(e) <= i64::MAX
}

/// An entry survives filtering exactly when its name was readable and
/// is not one of the skip names.
pub open spec fn entry_kept(e: BranchEntry, skip: Seq<Seq<char>>) -> bool {
    e.name is Some && !skip.contains(e.name.unwrap()@)
}

/// The branch record an entry turns into.
pub open spec fn entry_model(e: BranchEntry) -> BranchModel {
    BranchModel {
        name: e.name.unwrap()@,
        message: e.message@,
        commit_time: entry_time(e),
        branch_type: match e.kind {
            RefKind::Remote => BranchType::Remote,
            RefKind::Local => BranchType::Local,
        },
    }
}

/// The records of the surviving entries, in enumeration order.
pub open spec fn kept_models(entries: Seq<BranchEntry>, skip: Seq<Seq<char>>) -> Seq<BranchModel>
    decreases entries.len(),
{
    if entries.len() == 0 {
        Seq::empty()
    } else {
        kept_models(entries.drop_last(), skip) + (if entry_kept(entries.last(), skip) {
            seq![entry_model(entries.last())]
        } else {
            Seq::<BranchModel>::empty()
        })
    }
}

/// The abstract values of a sequence of branch records.
pub open spec fn models(s: Seq<GitBranch>) -> Seq<BranchModel> {
    s.map_values(|b: GitBranch| b.model())
}

/// Non-decreasing commit times.
pub open spec fn sorted_by_time(s: Seq<GitBranch>) -> bool {
    forall|i: int, j: int|
        0 <= i <= j < s.len() ==> #[trigger] s[i].spec_commit_time()
            <= #[trigger] s[j].spec_commit_time()
}

/// Whether `name` is one of the skip names.
fn name_in_skip(name: &str, skip: &Vec<&str>) -> (r: bool)
    ensures
        r == skip_views(skip@).contains(name@),
{
    let ghost sv = skip_views(skip@);
    let mut j: usize = 0;
    while j < skip.len()
        invariant
            j <= skip@.len(),
            sv == skip_views(skip@),
            forall|i: int| 0 <= i < j ==> sv[i] != name@,
        decreases skip@.len() - j,
    {
        if str_eq(name, skip[j]) {
            proof {
                assert(sv[j as int] == name@);
            }
            return true;
        }
        j = j + 1;
    }
    proof {
        assert forall|i: int| 0 <= i < sv.len() implies sv[i] != name@ by {}
    }
    false
}

proof fn lemma_kept_models_step(entries: Seq<BranchEntry>, skip: Seq<Seq<char>>, i: int)
    requires
        0 <= i < entries.len(),
    ensures
        kept_models(entries.take(i + 1), skip) == kept_models(entries.take(i), skip) + (
        if entry_kept(entries[i], skip) {
            seq![entry_model(entries[i])]
        } else {
            Seq::<BranchModel>::empty()
        }),
{
    let s = entries.take(i + 1);
    assert(s.drop_last() =~= entries.take(i));
    assert(s.last() == entries[i]);
}

/// Filtering pass: turn the surviving entries into branch records, in
/// enumeration order.
fn keep_entries(entries: Vec<BranchEntry>, skip: &Vec<&str>) -> (out: Vec<GitBranch>)
    requires
        forall|i: int| 0 <= i < entries@.len() ==> entry_time_in_range(#[trigger] entries@[i]),
    ensures
        models(out@) == kept_models(entries@, skip_views(skip@)),
{
    let ghost orig = entries@;
    let ghost sv = skip_views(skip@);
    let mut rest = entries;
    let mut out: Vec<GitBranch> = Vec::new();
    let ghost mut i: int = 0;
    while rest.len() > 0
        invariant
            0 <= i <= orig.len(),
            rest@ == orig.skip(i),
            sv == skip_views(skip@),
            forall|j: int| 0 <= j < orig.len() ==> entry_time_in_range(#[trigger] orig[j]),
            models(out@) == kept_models(orig.take(i), sv),
        decreases rest@.len(),
    {
        let ghost old_out = out@;
        let e = rest.remove(0);
        proof {
            assert(e == orig[i]);
            assert(rest@ =~= orig.skip(i + 1));
            lemma_kept_models_step(orig, sv, i);
        }
        let BranchEntry { name, seconds, offset_minutes, message, kind } = e;
        match name {
            Some(n) => {
                if name_in_skip(n.as_str(), skip) {
                    proof {
                        assert(entry_kept(orig[i], sv) == false);
                        assert(kept_models(orig.take(i + 1), sv) =~= kept_models(
                            orig.take(i),
                            sv,
                        ));
                    }
                } else {
                    proof {
                        assert(entry_time_in_range(orig[i]));
                    }
                    let t = commit_timestamp(seconds, offset_minutes);
                    let b = GitBranch::new(n, message, t, BranchType::from(kind));
                    out.push(b);
                    proof {
                        assert(entry_kept(orig[i], sv));
                        assert(b.model() == entry_model(orig[i]));
                        assert(models(out@) =~= models(old_out).push(b.model()));
                        assert(models(out@) =~= kept_models(orig.take(i + 1), sv));
                    }
                }
            },
            None => {
                proof {
                    assert(entry_kept(orig[i], sv) == false);
                    assert(kept_models(orig.take(i + 1), sv) =~= kept_models(orig.take(i), sv));
                }
            },
        }
        proof {
            i = i + 1;
        }
    }
    proof {
        assert(orig.take(i) =~= orig);
    }
    out
}

/// Sorting pass: reorder the records so that commit times are
/// non-decreasing, keeping exactly the same records.
#[verifier::rlimit(50)]
fn sort_by_commit_time(v: Vec<GitBranch>) -> (r: Vec<GitBranch>)
    ensures
        sorted_by_time(r@),
        models(r@).to_multiset() == models(v@).to_multiset(),
{
    let ghost vm = models(v@).to_multiset();
    let mut rest = v;
    let mut out: Vec<GitBranch> = Vec::new();
    while rest.len() > 0
        invariant
            sorted_by_time(out@),
            models(out@).to_multiset().add(models(rest@).to_multiset()) == vm,
        decreases rest@.len(),
    {
        let ghost rest_before = rest@;
        let e = rest.pop().unwrap();
        proof {
            assert(rest_before =~= rest@.push(e));
            assert(models(rest_before) =~= models(rest@).push(e.model()));
            assert(models(rest_before).to_multiset() == models(rest@).to_multiset().insert(
                e.model(),
            ));
        }
        let t = e.get_commit_time();
        let mut k: usize = 0;
        while k < out.len() && out[k].get_commit_time() <= t
            invariant
                k <= out@.len(),
                t as int == e.spec_commit_time(),
                forall|j: int| 0 <= j < k ==> #[trigger] out@[j].spec_commit_time() <= t as int,
            decreases out@.len() - k,
        {
            k = k + 1;
        }
        let ghost out_before = out@;
        out.insert(k, e);
        proof {
            out_before.insert_ensures(k as int, e);
            assert forall|a: int, b: int|
                0 <= a <= b < out@.len() implies out@[a].spec_commit_time()
                <= out@[b].spec_commit_time() by {
                if b < k {
                    assert(out@[a] == out_before[a]);
                    assert(out@[b] == out_before[b]);
                } else if a < k && b == k {
                    assert(out@[a] == out_before[a]);
                } else if a < k && b > k {
                    assert(out@[a] == out_before[a]);
                    assert(out@[b] == out_before[b - 1]);
                } else if a == k && b > k {
                    assert(out@[b] == out_before[b - 1]);
                    assert(out_before[k as int].spec_commit_time() <= out_before[b
                        - 1].spec_commit_time());
                } else if a > k {
                    assert(out@[a] == out_before[a - 1]);
                    assert(out@[b] == out_before[b - 1]);
                }
            }
            assert(models(out@) =~= models(out_before).insert(k as int, e.model()));
            assert(models(out@).to_multiset() == models(out_before).to_multiset().insert(
                e.model(),
            ));
            assert(models(out@).to_multiset().add(models(rest@).to_multiset()) =~= vm);
        }
    }
    proof {
        assert(models(rest@).to_multiset().len() == 0);
        assert(models(out@).to_multiset() =~= vm);
    }
    out
}

/// Build the branch list the caller sees: every entry whose name was
/// readable and is not a skip name becomes a record with its commit
/// time normalized, and the result is ordered by commit time,
/// non-decreasing. No skip name ever appears in the result.
pub fn get_branches(entries: Vec<BranchEntry>, skip: &Vec<&str>) -> (r: Vec<GitBranch>)
    requires
        forall|i: int| 0 <= i < entries@.len() ==> entry_time_in_range(#[trigger] entries@[i]),
    ensures
        sorted_by_time(r@),
        models(r@).to_multiset() == kept_models(entries@, skip_views(skip@)).to_multiset(),
        r@.len() == kept_models(entries@, skip_views(skip@)).len(),
        forall|i: int|
            0 <= i < r@.len() ==> !skip_views(skip@).contains(#[trigger] r@[i].spec_name()),
{
    let unsorted = keep_entries(entries, skip);
    let r = sort_by_commit_time(unsorted);
    proof {
        let km = kept_models(entries@, skip_views(skip@));
        assert(models(r@).to_multiset().len() == km.to_multiset().len());
        lemma_kept_models_not_skipped(entries@, skip_views(skip@));
        assert forall|i: int|
            0 <= i < r@.len() implies !skip_views(skip@).contains(
            #[trigger] r@[i].spec_name(),
        ) by {
            assert(models(r@)[i] == r@[i].model());
            assert(models(r@).contains(r@[i].model()));
            assert(models(r@).to_multiset().count(r@[i].model()) > 0);
            assert(km.to_multiset().count(r@[i].model()) > 0);
            assert(km.contains(r@[i].model()));
            let j = choose|j: int| 0 <= j < km.len() && km[j] == r@[i].model();
            assert(!skip_views(skip@).contains(km[j].name));
        }
    }
    r
}

proof fn lemma_kept_models_not_skipped(entries: Seq<BranchEntry>, skip: Seq<Seq<char>>)
    ensures
        forall|j: int|
            0 <= j < kept_models(entries, skip).len() ==> !skip.contains(
                #[trigger] kept_models(entries, skip)[j].name,
            ),
    decreases entries.len(),
{
    if entries.len() == 0 {
    } else {
        lemma_kept_models_not_skipped(entries.drop_last(), skip);
    }
}

} // verus!
