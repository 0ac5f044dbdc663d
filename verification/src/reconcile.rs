//! The reconciler: one pass over what a directory holds.

use vstd::prelude::*;
use crate::entry::{Entry, EntryKind};
use crate::latest::LatestOutcome;
use crate::mover::{filing, update_file, MovePlan, MovePlanView};

verus! {

/// What listing a directory gave.
#[derive(Debug)]
pub enum Listing {
    /// The entries, in the order in which they were listed.
    Entries(Vec<Entry>),
    /// The directory could not be listed.
    Unreadable,
}

/// Why a pass failed as a whole.
#[derive(Clone, Copy, Debug, PartialEq, Eq, Structural)]
pub enum PassError {
    /// The directory could not be listed.
    Listing,
    /// The link to the most recent partition could not be renewed.
    Latest,
}

/// The relocations of a pass: one for each regular file, in the order of the entries, each
/// into the directory that the file's name gives. Entries that are no regular files
/// (directories, the partitions among them) have none.
pub open spec fn plans_for(root: Seq<char>, entries: Seq<Entry>) -> Seq<MovePlanView>
    decreases entries.len(),
{
    if entries.len() == 0 {
        seq![]
    } else {
        let rest = plans_for(root, entries.drop_last());
        if entries.last().is_file() {
            rest.push(filing(root, entries.last().name@))
        } else {
            rest
        }
    }
}

/// The views of a list of relocations.
pub open spec fn plan_views(plans: Seq<MovePlan>) -> Seq<MovePlanView> {
    plans.map_values(|plan: MovePlan| plan@)
}

/// Plans the relocations for a list of entries.
pub fn plan_entries(path: &str, entries: &Vec<Entry>) -> (r: Vec<MovePlan>)
    ensures
        plan_views(r@) == plans_for(path@, entries@),
{
    let mut plans: Vec<MovePlan> = Vec::new();
    let mut i: usize = 0;
    assert(plan_views(plans@) =~= plans_for(path@, entries@.subrange(0, 0)));
    while i < entries.len()
        invariant
            i <= entries.len(),
            plan_views(plans@) == plans_for(path@, entries@.subrange(0, i as int)),
        decreases entries.len() - i,
    {
        let ghost before = plans@;
        assert(entries@.subrange(0, i + 1).drop_last() =~= entries@.subrange(0, i as int));
        assert(entries@.subrange(0, i + 1).last() == entries@[i as int]);
        match update_file(path, entries[i].name.as_str(), entries[i].kind == EntryKind::File) {
            Some(plan) => {
                plans.push(plan);
                assert(plan_views(plans@) =~= plan_views(before).push(plan@));
            },
            None => {},
        }
        i = i + 1;
    }
    assert(entries@.subrange(0, i as int) =~= entries@);
    plans
}

/// Plans one pass over the directory `path`: a listing that failed fails the pass; else every
/// regular file among the entries gets its relocation, in the order of the listing, and
/// nothing else does.
pub fn clean_directory(path: &str, listing: &Listing) -> (r: Result<Vec<MovePlan>, PassError>)
    ensures
        listing is Unreadable ==> r == Err::<Vec<MovePlan>, PassError>(PassError::Listing),
        listing matches Listing::Entries(entries) ==> r is Ok && plan_views(r->Ok_0@)
            == plans_for(path@, entries@),
{
    match listing {
        Listing::Entries(entries) => Ok(plan_entries(path, entries)),
        Listing::Unreadable => Err(PassError::Listing),
    }
}

/// How a pass is reported once its relocations were tried and the link was renewed.
pub open spec fn pass_result(latest: LatestOutcome) -> Result<(), PassError> {
    if latest == LatestOutcome::Failed {
        Err(PassError::Latest)
    } else {
        Ok(())
    }
}

/// Reports a pass: relocations that failed are logged by the caller and do not fail the
/// pass, however many they are; a renewal of the link that failed does.
pub fn finish_pass(failed_moves: usize, latest: LatestOutcome) -> (r: Result<(), PassError>)
    ensures
        r == pass_result(latest),
{
    if latest.is_error() {
        Err(PassError::Latest)
    } else {
        Ok(())
    }
}

/// The relocations of a pass follow the entries one by one: those of two lists of entries,
/// one after the other, are those of the first followed by those of the second. So what is
/// planned for one entry does not depend on any other.
pub proof fn plans_follow_entries(root: Seq<char>, first: Seq<Entry>, second: Seq<Entry>)
    ensures
        plans_for(root, first + second) == plans_for(root, first) + plans_for(root, second),
    decreases second.len(),
{
    if second.len() == 0 {
        assert(first + second =~= first);
        assert(plans_for(root, first) + plans_for(root, second) =~= plans_for(root, first));
    } else {
        let whole = first + second;
        assert(whole.drop_last() =~= first + second.drop_last());
        assert(whole.last() == second.last());
        plans_follow_entries(root, first, second.drop_last());
        assert(plans_for(root, whole) =~= plans_for(root, first) + plans_for(root, second));
    }
}

/// Only regular files are moved: a list without a regular file has no relocation, and a
/// single regular file has exactly the one that its name gives.
pub proof fn only_files_are_moved(root: Seq<char>, entries: Seq<Entry>)
    ensures
        (forall|i: int| 0 <= i < entries.len() ==> !(#[trigger] entries[i]).is_file())
            ==> plans_for(root, entries).len() == 0,
        entries.len() == 1 && entries[0].is_file() ==> plans_for(root, entries) == seq![
            filing(root, entries[0].name@),
        ],
    decreases entries.len(),
{
    if entries.len() > 0 {
        only_files_are_moved(root, entries.drop_last());
        if forall|i: int| 0 <= i < entries.len() ==> !(#[trigger] entries[i]).is_file() {
            assert forall|i: int| 0 <= i < entries.drop_last().len() implies !(
            #[trigger] entries.drop_last()[i]).is_file() by {
                assert(entries.drop_last()[i] == entries[i]);
            }
            assert(!entries[entries.len() - 1].is_file());
        }
        if entries.len() == 1 && entries[0].is_file() {
            assert(entries.drop_last().len() == 0);
            assert(plans_for(root, entries) =~= seq![filing(root, entries[0].name@)]);
        }
    }
}

} // verus!
