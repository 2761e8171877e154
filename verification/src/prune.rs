//! Which entries of the download root are removed after an install.

use vstd::prelude::*;
use vstd::string::*;
use crate::error::entry_failure_detail;
use crate::layout::{lemma_version_dir_injective, version_dir_of};

verus! {

/// One entry of a directory listing, as far as pruning needs to know it.
#[derive(Clone, Debug, PartialEq, Eq)]
pub enum Entry {
    /// An entry whose file name is valid text.
    Named(String),
    /// An entry whose file name cannot be represented as text.
    Unnamed,
    /// The listing failed at this entry, with the given cause.
    Unreadable(String),
}

/// Mathematical content of an [`Entry`].
pub enum EntryModel {
    Named(Seq<char>),
    Unnamed,
    Unreadable(Seq<char>),
}

impl DeepView for Entry {
    type V = EntryModel;

    open spec fn deep_view(&self) -> EntryModel {
        match self {
            Entry::Named(name) => EntryModel::Named(name@),
            Entry::Unnamed => EntryModel::Unnamed,
            Entry::Unreadable(cause) => EntryModel::Unreadable(cause@),
        }
    }
}

/// What to remove from the download root, and how the walk over it ended.
#[derive(Clone, Debug, PartialEq, Eq)]
pub struct PrunePlan {
    /// Positions, within the listing, of the entries to remove, ascending.
    pub remove: Vec<usize>,
    /// Description of the entry at which the walk stopped, if it stopped early.
    pub failure: Option<String>,
}

/// Mathematical content of a [`PrunePlan`].
pub struct PrunePlanModel {
    pub remove: Seq<usize>,
    pub failure: Option<Seq<char>>,
}

impl DeepView for PrunePlan {
    type V = PrunePlanModel;

    open spec fn deep_view(&self) -> PrunePlanModel {
        PrunePlanModel { remove: self.remove@, failure: self.failure.deep_view() }
    }
}

/// An entry is stale when it is readable and is not the directory `keep`.
pub open spec fn is_stale(entry: EntryModel, keep: Seq<char>) -> bool {
    match entry {
        EntryModel::Named(name) => name != keep,
        EntryModel::Unnamed => true,
        EntryModel::Unreadable(_) => false,
    }
}

/// The walk over `entries` stops at `n`: the first unreadable entry, or the
/// end of the listing.
pub open spec fn walk_stops_at(entries: Seq<EntryModel>, n: int) -> bool {
    &&& 0 <= n <= entries.len()
    &&& forall|j: int| 0 <= j < n ==> !((#[trigger] entries[j]) is Unreadable)
    &&& n < entries.len() ==> entries[n] is Unreadable
}

/// Number of entries visited before the walk stops.
pub open spec fn walked_len(entries: Seq<EntryModel>) -> int {
    choose|n: int| walk_stops_at(entries, n)
}

/// The walk stops at exactly one position.
pub proof fn lemma_walk_stop_unique(entries: Seq<EntryModel>, a: int, b: int)
    requires
        walk_stops_at(entries, a),
        walk_stops_at(entries, b),
    ensures
        a == b,
{
    if a < b {
        assert(!(entries[a] is Unreadable));
    } else if b < a {
        assert(!(entries[b] is Unreadable));
    }
}

/// Positions below `upto` of the stale entries, ascending.
pub open spec fn stale_positions(entries: Seq<EntryModel>, keep: Seq<char>, upto: int) -> Seq<usize>
    decreases upto,
{
    if upto <= 0 {
        Seq::empty()
    } else {
        let earlier = stale_positions(entries, keep, upto - 1);
        if is_stale(entries[upto - 1], keep) {
            earlier.push((upto - 1) as usize)
        } else {
            earlier
        }
    }
}

/// The plan for a listing: every stale entry visited before the walk stops is
/// removed; the walk fails if it stopped at an unreadable entry.
pub open spec fn prune_plan_of(entries: Seq<EntryModel>, keep: Seq<char>) -> PrunePlanModel {
    let n = walked_len(entries);
    PrunePlanModel {
        remove: stale_positions(entries, keep, n),
        failure: if n < entries.len() {
            match entries[n] {
                EntryModel::Unreadable(cause) => Some(entry_failure_detail(cause)),
                _ => None,
            }
        } else {
            None
        },
    }
}

/// `stale_positions` holds exactly the stale positions below `upto`.
pub proof fn lemma_stale_positions_exact(entries: Seq<EntryModel>, keep: Seq<char>, upto: int)
    requires
        0 <= upto <= entries.len(),
        entries.len() <= usize::MAX,
    ensures
        forall|k: usize|
            stale_positions(entries, keep, upto).contains(k) <==> (k < upto && is_stale(
                entries[k as int],
                keep,
            )),
    decreases upto,
{
    if upto > 0 {
        lemma_stale_positions_exact(entries, keep, upto - 1);
        let earlier = stale_positions(entries, keep, upto - 1);
        let last = (upto - 1) as usize;
        assert forall|k: usize|
            stale_positions(entries, keep, upto).contains(k) <==> (k < upto && is_stale(
                entries[k as int],
                keep,
            )) by {
            if is_stale(entries[upto - 1], keep) {
                let now = earlier.push(last);
                assert(now[now.len() - 1] == last);
                if now.contains(k) {
                    let i = choose|i: int| 0 <= i < now.len() && now[i] == k;
                    if i < earlier.len() {
                        assert(earlier[i] == k);
                    }
                }
                if earlier.contains(k) {
                    let i = choose|i: int| 0 <= i < earlier.len() && earlier[i] == k;
                    assert(now[i] == k);
                }
            }
        }
    }
}

/// Pruning never removes the directory of the installed version, and removes
/// the directory of every other version that the walk over the listing
/// reaches.
pub proof fn law_prune_keeps_installed_removes_others(
    entries: Seq<EntryModel>,
    installed: Seq<char>,
    other: Seq<char>,
    k: usize,
)
    requires
        entries.len() <= usize::MAX,
        0 <= k < entries.len(),
    ensures
        entries[k as int] == EntryModel::Named(version_dir_of(installed)) ==> !prune_plan_of(
            entries,
            version_dir_of(installed),
        ).remove.contains(k),
        (entries[k as int] == EntryModel::Named(version_dir_of(other)) && other != installed
            && k < walked_len(entries)) ==> prune_plan_of(
            entries,
            version_dir_of(installed),
        ).remove.contains(k),
{
    lemma_walk_stops_somewhere(entries);
    let n = walked_len(entries);
    lemma_stale_positions_exact(entries, version_dir_of(installed), n);
    if version_dir_of(other) == version_dir_of(installed) {
        lemma_version_dir_injective(other, installed);
    }
}

/// After a walk that reached the end of the listing, what is not removed is
/// the kept directory and nothing else.
pub proof fn law_prune_leaves_only_kept(entries: Seq<EntryModel>, keep: Seq<char>, k: usize)
    requires
        entries.len() <= usize::MAX,
        0 <= k < entries.len(),
        prune_plan_of(entries, keep).failure is None,
    ensures
        !prune_plan_of(entries, keep).remove.contains(k) <==> entries[k as int]
            == EntryModel::Named(keep),
{
    lemma_walk_stops_somewhere(entries);
    let n = walked_len(entries);
    lemma_stale_positions_exact(entries, keep, n);
    assert(!(entries[k as int] is Unreadable));
}

/// Every listing has a position at which the walk stops.
pub proof fn lemma_walk_stops_somewhere(entries: Seq<EntryModel>)
    ensures
        walk_stops_at(entries, walked_len(entries)),
{
    if exists|j: int| 0 <= j < entries.len() && (#[trigger] entries[j]) is Unreadable {
        lemma_first_unreadable(entries, entries.len() as int);
    } else {
        assert(walk_stops_at(entries, entries.len() as int));
    }
}

/// If an unreadable entry lies below `upto`, the walk stops below `upto`.
proof fn lemma_first_unreadable(entries: Seq<EntryModel>, upto: int)
    requires
        0 <= upto <= entries.len(),
        exists|j: int| 0 <= j < upto && (#[trigger] entries[j]) is Unreadable,
    ensures
        exists|n: int| 0 <= n < upto && walk_stops_at(entries, n),
    decreases upto,
{
    if exists|j: int| 0 <= j < upto - 1 && (#[trigger] entries[j]) is Unreadable {
        lemma_first_unreadable(entries, upto - 1);
    } else {
        assert(entries[upto - 1] is Unreadable);
        assert(walk_stops_at(entries, upto - 1));
    }
}

/// Decides, for a listing of the download root, which entries to remove so
/// that only the directory `keep` remains.
///
/// Entries are visited in order. A readable entry is removed unless its name
/// is `keep`. The first unreadable entry ends the walk with a failure; what
/// was found stale before it is still removed.
pub fn plan_prune(entries: &Vec<Entry>, keep: &str) -> (plan: PrunePlan)
    ensures
        plan.deep_view() == prune_plan_of(entries.deep_view(), keep@),
{
    let wanted = String::from_str(keep);
    let ghost models = entries.deep_view();
    let mut remove: Vec<usize> = Vec::new();
    let mut i: usize = 0;
    while i < entries.len()
        invariant
            i <= entries.len(),
            models == entries.deep_view(),
            wanted@ == keep@,
            forall|j: int| 0 <= j < i ==> !((#[trigger] models[j]) is Unreadable),
            remove@ == stale_positions(models, keep@, i as int),
        decreases entries.len() - i,
    {
        assert(models[i as int] == entries[i as int].deep_view());
        match &entries[i] {
            Entry::Named(name) => {
                if !(*name == wanted) {
                    remove.push(i);
                }
            },
            Entry::Unnamed => {
                remove.push(i);
            },
            Entry::Unreadable(cause) => {
                let mut detail = String::from_str("failed to load directory entry ");
                detail.append(cause.as_str());
                proof {
                    assert(walk_stops_at(models, i as int));
                    lemma_walk_stops_somewhere(models);
                    lemma_walk_stop_unique(models, i as int, walked_len(models));
                }
                return PrunePlan { remove, failure: Some(detail) };
            },
        }
        i += 1;
    }
    proof {
        assert(walk_stops_at(models, i as int));
        lemma_walk_stop_unique(models, i as int, walked_len(models));
    }
    PrunePlan { remove, failure: None }
}

} // verus!
