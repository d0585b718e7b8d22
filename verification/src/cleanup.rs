//! Removal of stale versions: once a new version is in place, every other
//! entry of the working directory is removed.
//!
//! The whole of it is best effort. A directory that cannot be listed, an
//! entry that cannot be read and an entry that cannot be removed are each
//! passed over: the new version is in place, and nothing that goes wrong
//! while tidying up around it is reported as a failure.

use vstd::prelude::*;

verus! {

/// One entry of the working directory, as the listing gave it.
#[derive(Clone, Debug, PartialEq, Eq)]
pub enum DirectoryEntry {
    /// An entry with this name.
    Named(String),
    /// An entry whose name is not valid Unicode.
    Unnamed,
    /// An entry that could not be read.
    Unreadable,
}

/// What a [`DirectoryEntry`] holds, as plain text.
pub enum DirectoryEntryView {
    Named(Seq<char>),
    Unnamed,
    Unreadable,
}

impl View for DirectoryEntry {
    type V = DirectoryEntryView;

    open spec fn view(&self) -> DirectoryEntryView {
        match self {
            DirectoryEntry::Named(name) => DirectoryEntryView::Named(name@),
            DirectoryEntry::Unnamed => DirectoryEntryView::Unnamed,
            DirectoryEntry::Unreadable => DirectoryEntryView::Unreadable,
        }
    }
}

impl DeepView for DirectoryEntry {
    type V = DirectoryEntryView;

    open spec fn deep_view(&self) -> DirectoryEntryView {
        self@
    }
}

/// How the removal of one entry ended.
#[derive(Clone, Copy, Debug, PartialEq, Eq, Structural)]
pub enum RemovalOutcome {
    Removed,
    Failed,
}

/// The positions held by `positions`, as mathematical integers.
pub open spec fn spec_positions(positions: Seq<usize>) -> Seq<int> {
    positions.map_values(|position: usize| position as int)
}

/// Whether `entry` is to be removed when `keep` is the directory to keep:
/// every entry is, but the one called exactly `keep` and those that could
/// not be read, of which nothing is known that could be removed.
pub open spec fn spec_is_stale(entry: DirectoryEntryView, keep: Seq<char>) -> bool {
    match entry {
        DirectoryEntryView::Named(name) => name != keep,
        DirectoryEntryView::Unnamed => true,
        DirectoryEntryView::Unreadable => false,
    }
}

/// The positions of the stale entries of `entries`, in increasing order.
pub open spec fn spec_stale_entries(entries: Seq<DirectoryEntryView>, keep: Seq<char>) -> Seq<int>
    decreases entries.len(),
{
    if entries.len() == 0 {
        Seq::empty()
    } else if spec_is_stale(entries.last(), keep) {
        spec_stale_entries(entries.drop_last(), keep).push(entries.len() - 1)
    } else {
        spec_stale_entries(entries.drop_last(), keep)
    }
}

/// The plan holds exactly the positions of the stale entries, each once and
/// in increasing order.
pub proof fn lemma_stale_entries(entries: Seq<DirectoryEntryView>, keep: Seq<char>)
    ensures
        forall|k: int|
            0 <= k < spec_stale_entries(entries, keep).len() ==> {
                let position = #[trigger] spec_stale_entries(entries, keep)[k];
                0 <= position < entries.len() && spec_is_stale(entries[position], keep)
            },
        forall|k: int, l: int|
            0 <= k < l < spec_stale_entries(entries, keep).len() ==> spec_stale_entries(
                entries,
                keep,
            )[k] < spec_stale_entries(entries, keep)[l],
        forall|position: int|
            0 <= position < entries.len() && spec_is_stale(#[trigger] entries[position], keep)
                ==> spec_stale_entries(entries, keep).contains(position),
    decreases entries.len(),
{
    if entries.len() > 0 {
        let front = entries.drop_last();
        let plan = spec_stale_entries(entries, keep);
        let shorter = spec_stale_entries(front, keep);
        lemma_stale_entries(front, keep);
        assert forall|k: int| 0 <= k < plan.len() implies {
            let position = #[trigger] plan[k];
            0 <= position < entries.len() && spec_is_stale(entries[position], keep)
        } by {
            if k < shorter.len() {
                assert(front[shorter[k]] == entries[shorter[k]]);
            }
        }
        assert forall|k: int, l: int| 0 <= k < l < plan.len() implies plan[k] < plan[l] by {
            assert(plan[k] == shorter[k]);
        }
        assert forall|position: int|
            0 <= position < entries.len() && spec_is_stale(
                #[trigger] entries[position],
                keep,
            ) implies plan.contains(position) by {
            if position < front.len() {
                assert(front[position] == entries[position]);
                let k = choose|k: int| 0 <= k < shorter.len() && shorter[k] == position;
                assert(plan[k] == position);
            } else {
                assert(plan[plan.len() - 1] == position);
            }
        }
    }
}

/// Whether `entry` is to be removed when `keep` is the directory to keep.
pub fn is_stale(entry: &DirectoryEntry, keep: &String) -> (stale: bool)
    ensures
        stale == spec_is_stale(entry@, keep@),
{
    match entry {
        DirectoryEntry::Named(name) => !(*name == *keep),
        DirectoryEntry::Unnamed => true,
        DirectoryEntry::Unreadable => false,
    }
}

/// Selects the entries to remove, by position and in increasing order.
pub fn stale_entries(entries: &Vec<DirectoryEntry>, keep: &String) -> (plan: Vec<usize>)
    ensures
        spec_positions(plan@) == spec_stale_entries(entries.deep_view(), keep@),
{
    let mut plan: Vec<usize> = Vec::new();
    let mut i: usize = 0;
    while i < entries.len()
        invariant
            i <= entries.len(),
            spec_positions(plan@) == spec_stale_entries(
                entries.deep_view().take(i as int),
                keep@,
            ),
        decreases entries.len() - i,
    {
        proof {
            let all = entries.deep_view();
            assert(all.take(i + 1).drop_last() =~= all.take(i as int));
        }
        if is_stale(&entries[i], keep) {
            plan.push(i);
        }
        i += 1;
    }
    proof {
        assert(entries.deep_view().take(entries.len() as int) =~= entries.deep_view());
    }
    plan
}

/// Whether the entry at `position` is still in the directory after the
/// removals of `plan` ended as `outcomes` say: it is, unless the plan names
/// it and that removal succeeded.
pub open spec fn spec_survives(
    plan: Seq<int>,
    outcomes: Seq<RemovalOutcome>,
    position: int,
) -> bool {
    forall|k: int|
        0 <= k < plan.len() && k < outcomes.len() && #[trigger] plan[k] == position
            ==> outcomes[k] != RemovalOutcome::Removed
}

/// The directory to keep is never removed, however the removals end.
pub proof fn lemma_kept_directory_survives(
    entries: Seq<DirectoryEntryView>,
    keep: Seq<char>,
    outcomes: Seq<RemovalOutcome>,
    position: int,
)
    requires
        0 <= position < entries.len(),
        entries[position] == DirectoryEntryView::Named(keep),
    ensures
        spec_survives(spec_stale_entries(entries, keep), outcomes, position),
{
    lemma_stale_entries(entries, keep);
}

/// A stale entry survives only if its removal did not succeed.
pub proof fn lemma_stale_entry_survives_only_on_failure(
    entries: Seq<DirectoryEntryView>,
    keep: Seq<char>,
    outcomes: Seq<RemovalOutcome>,
    position: int,
)
    requires
        0 <= position < entries.len(),
        spec_is_stale(entries[position], keep),
        outcomes.len() == spec_stale_entries(entries, keep).len(),
        spec_survives(spec_stale_entries(entries, keep), outcomes, position),
    ensures
        exists|k: int|
            0 <= k < outcomes.len() && #[trigger] spec_stale_entries(entries, keep)[k] == position
                && outcomes[k] == RemovalOutcome::Failed,
{
    lemma_stale_entries(entries, keep);
    let plan = spec_stale_entries(entries, keep);
    assert(plan.contains(position));
    let k = choose|k: int| 0 <= k < plan.len() && plan[k] == position;
    assert(outcomes[k] != RemovalOutcome::Removed);
}

/// After a cleanup in which every entry was read and every removal
/// succeeded, exactly one entry is left in a directory that held the
/// directory to keep, once: that directory.
pub proof fn lemma_one_directory_remains(
    entries: Seq<DirectoryEntryView>,
    keep: Seq<char>,
    outcomes: Seq<RemovalOutcome>,
    kept: int,
)
    requires
        0 <= kept < entries.len(),
        entries[kept] == DirectoryEntryView::Named(keep),
        forall|position: int|
            0 <= position < entries.len() && position != kept ==> #[trigger] entries[position]
                != DirectoryEntryView::Named(keep) && entries[position]
                != DirectoryEntryView::Unreadable,
        outcomes.len() == spec_stale_entries(entries, keep).len(),
        forall|k: int| 0 <= k < outcomes.len() ==> outcomes[k] == RemovalOutcome::Removed,
    ensures
        forall|position: int|
            0 <= position < entries.len() ==> (spec_survives(
                spec_stale_entries(entries, keep),
                outcomes,
                position,
            ) <==> position == kept),
{
    let plan = spec_stale_entries(entries, keep);
    lemma_stale_entries(entries, keep);
    assert forall|position: int| 0 <= position < entries.len() implies (spec_survives(
        plan,
        outcomes,
        position,
    ) <==> position == kept) by {
        if position == kept {
            lemma_kept_directory_survives(entries, keep, outcomes, position);
        } else {
            assert(spec_is_stale(entries[position], keep));
            assert(plan.contains(position));
            let k = choose|k: int| 0 <= k < plan.len() && plan[k] == position;
            assert(outcomes[k] == RemovalOutcome::Removed);
        }
    }
}

} // verus!
