//! The pointer to the most recent partition: which partition it names, and the steps by
//! which the link is renewed.

use vstd::prelude::*;
use vstd::string::*;
use crate::classify::separator;
use crate::entry::Entry;
use crate::mover::{join, joined};
use crate::numbers::{decimal, decimal_name, max_name, max_number, two_digit_name, two_digits};

verus! {

/// Name of the link to the most recent partition.
pub const LATEST: &'static str = "latest";

/// The name of the link as a sequence of characters.
pub open spec fn latest_name() -> Seq<char> {
    seq!['l', 'a', 't', 'e', 's', 't']
}

/// The directory of a year below the root: the year in decimal, unpadded.
pub open spec fn year_dir(root: Seq<char>, year: u32) -> Seq<char> {
    joined(root, decimal(year as nat))
}

/// The directory of a month below its year: the month in two digits.
pub open spec fn month_dir(root: Seq<char>, year: u32, month: u32) -> Seq<char> {
    joined(year_dir(root, year), two_digits(month as nat))
}

/// The directory of a day below its month: the day in two digits.
pub open spec fn day_dir(root: Seq<char>, year: u32, month: u32, day: u32) -> Seq<char> {
    joined(month_dir(root, year, month), two_digits(day as nat))
}

/// The partition of a date, relative to the root: `year/month/day`.
pub open spec fn partition_of(year: u32, month: u32, day: u32) -> Seq<char> {
    decimal(year as nat) + separator() + two_digits(month as nat) + separator() + two_digits(
        day as nat,
    )
}

/// The path of the link below the root.
pub open spec fn link_of(root: Seq<char>) -> Seq<char> {
    joined(root, latest_name())
}

/// The path of a year's directory.
pub fn year_path(root: &str, year: u32) -> (r: String)
    ensures
        r@ == year_dir(root@, year),
{
    join(root, decimal_name(year).as_str())
}

/// The path of a month's directory.
pub fn month_path(root: &str, year: u32, month: u32) -> (r: String)
    ensures
        r@ == month_dir(root@, year, month),
{
    join(year_path(root, year).as_str(), two_digit_name(month).as_str())
}

/// The path of a day's directory: the partition of the date below the root.
pub fn day_path(root: &str, year: u32, month: u32, day: u32) -> (r: String)
    ensures
        r@ == day_dir(root@, year, month, day),
        r@ == joined(root@, partition_of(year, month, day)),
{
    let path = join(month_path(root, year, month).as_str(), two_digit_name(day).as_str());
    assert(path@ =~= joined(root@, partition_of(year, month, day)));
    path
}

/// The partition of a date, relative to the root.
pub fn partition_name(year: u32, month: u32, day: u32) -> (r: String)
    ensures
        r@ == partition_of(year, month, day),
{
    let path = join(
        join(decimal_name(year).as_str(), two_digit_name(month).as_str()).as_str(),
        two_digit_name(day).as_str(),
    );
    assert(path@ =~= partition_of(year, month, day));
    path
}

/// The path of the link to the most recent partition.
pub fn latest_path(root: &str) -> (r: String)
    ensures
        r@ == link_of(root@),
{
    proof {
        reveal_strlit("latest");
    }
    assert(LATEST@ =~= latest_name());
    join(root, LATEST)
}

/// What stands at the link's path.
#[derive(Clone, Copy, Debug, PartialEq, Eq, Structural)]
pub enum LinkProbe {
    /// Nothing.
    Absent,
    /// A symbolic link.
    Symlink,
    /// Anything else: a regular file, a directory.
    Other,
}

/// How a renewal of the link ended.
#[derive(Clone, Copy, Debug, PartialEq, Eq, Structural)]
pub enum LatestOutcome {
    /// The link now points to the most recent partition.
    Linked,
    /// Something that is no symbolic link stands at the link's path; it was left alone.
    LinkBlocked,
    /// The partition that the directory names give does not exist; no link was made.
    TargetMissing,
    /// The file system refused a step, or an answer came that no step had asked for.
    Failed,
}

/// Where a renewal of the link stands.
#[derive(Clone, Copy, Debug, PartialEq, Eq, Structural)]
pub enum LatestState {
    /// Not begun.
    Idle,
    /// The root's subdirectories were asked for.
    ScanningYears,
    /// The subdirectories of the year's directory were asked for.
    ScanningMonths { year: u32 },
    /// The subdirectories of the month's directory were asked for.
    ScanningDays { year: u32, month: u32 },
    /// What stands at the link's path was asked for.
    ProbingLink { year: u32, month: u32, day: u32 },
    /// The removal of the old link was asked for.
    RemovingLink { year: u32, month: u32, day: u32 },
    /// Whether the day's directory exists was asked for.
    ProbingTarget { year: u32, month: u32, day: u32 },
    /// The new link was asked for.
    Linking { year: u32, month: u32, day: u32 },
    /// Ended.
    Done(LatestOutcome),
}

/// What the file system answered.
#[derive(Debug)]
pub enum LatestEvent {
    /// The renewal is to begin.
    Begin,
    /// The entries of the directory that was to be listed.
    Listed(Vec<Entry>),
    /// The directory that was to be listed does not exist.
    Missing,
    /// What stands at the link's path.
    Link(LinkProbe),
    /// The old link is removed.
    Removed,
    /// Whether the day's directory exists.
    Target(bool),
    /// The new link is made.
    Linked,
    /// The step could not be done.
    Failed,
}

/// What is to be done next.
#[derive(Clone, Copy, Debug, PartialEq, Eq, Structural)]
pub enum LatestAction {
    /// List the subdirectories of the root.
    ListRoot,
    /// List the subdirectories of the year's directory.
    ListYear { year: u32 },
    /// List the subdirectories of the month's directory.
    ListMonth { year: u32, month: u32 },
    /// Find out what stands at the link's path.
    ProbeLink,
    /// Remove the link.
    RemoveLink,
    /// Find out whether the day's directory exists.
    ProbeTarget { year: u32, month: u32, day: u32 },
    /// Make the link, pointing to the day's directory.
    CreateLink { year: u32, month: u32, day: u32 },
    /// Nothing more: the renewal has ended.
    Stop(LatestOutcome),
}

/// The end of a renewal.
pub open spec fn halted(outcome: LatestOutcome) -> (LatestState, LatestAction) {
    (LatestState::Done(outcome), LatestAction::Stop(outcome))
}

/// The number picked from an answer to a listing: the greatest number among the names of the
/// directories listed; 0 where the directory that was to be listed does not exist. `None` for
/// any other answer.
pub open spec fn picked(event: LatestEvent) -> Option<u32> {
    match event {
        LatestEvent::Listed(entries) => Some(max_number(entries@)),
        LatestEvent::Missing => Some(0u32),
        _ => None,
    }
}

/// One step of a renewal: the state and the action that follow from a state and an answer.
///
/// The year is the greatest number among the root's subdirectories, the month the greatest
/// within that year, the day the greatest within that month; a directory that does not exist
/// below the root counts as empty. Then the link's path is looked at: what is no symbolic
/// link ends the renewal, a symbolic link is removed. The new link is made only where the
/// day's directory exists. A step that failed, or an answer that was not asked for, ends the
/// renewal as failed.
pub open spec fn latest_step(state: LatestState, event: LatestEvent) -> (
    LatestState,
    LatestAction,
) {
    match state {
        LatestState::Idle => match event {
            LatestEvent::Begin => (LatestState::ScanningYears, LatestAction::ListRoot),
            _ => halted(LatestOutcome::Failed),
        },
        LatestState::ScanningYears => match event {
            LatestEvent::Listed(entries) => {
                let year = max_number(entries@);
                (LatestState::ScanningMonths { year }, LatestAction::ListYear { year })
            },
            _ => halted(LatestOutcome::Failed),
        },
        LatestState::ScanningMonths { year } => match picked(event) {
            Some(month) => (
                LatestState::ScanningDays { year, month },
                LatestAction::ListMonth { year, month },
            ),
            None => halted(LatestOutcome::Failed),
        },
        LatestState::ScanningDays { year, month } => match picked(event) {
            Some(day) => (LatestState::ProbingLink { year, month, day }, LatestAction::ProbeLink),
            None => halted(LatestOutcome::Failed),
        },
        LatestState::ProbingLink { year, month, day } => match event {
            LatestEvent::Link(LinkProbe::Absent) => (
                LatestState::ProbingTarget { year, month, day },
                LatestAction::ProbeTarget { year, month, day },
            ),
            LatestEvent::Link(LinkProbe::Symlink) => (
                LatestState::RemovingLink { year, month, day },
                LatestAction::RemoveLink,
            ),
            LatestEvent::Link(LinkProbe::Other) => halted(LatestOutcome::LinkBlocked),
            _ => halted(LatestOutcome::Failed),
        },
        LatestState::RemovingLink { year, month, day } => match event {
            LatestEvent::Removed => (
                LatestState::ProbingTarget { year, month, day },
                LatestAction::ProbeTarget { year, month, day },
            ),
            _ => halted(LatestOutcome::Failed),
        },
        LatestState::ProbingTarget { year, month, day } => match event {
            LatestEvent::Target(true) => (
                LatestState::Linking { year, month, day },
                LatestAction::CreateLink { year, month, day },
            ),
            LatestEvent::Target(false) => halted(LatestOutcome::TargetMissing),
            _ => halted(LatestOutcome::Failed),
        },
        LatestState::Linking { year, month, day } => match event {
            LatestEvent::Linked => halted(LatestOutcome::Linked),
            _ => halted(LatestOutcome::Failed),
        },
        LatestState::Done(outcome) => halted(outcome),
    }
}

/// Reads the number out of an answer to a listing.
fn pick(event: &LatestEvent) -> (r: Option<u32>)
    ensures
        r == picked(*event),
{
    match event {
        LatestEvent::Listed(entries) => Some(max_name(entries)),
        LatestEvent::Missing => Some(0),
        _ => None,
    }
}

/// Ends a renewal.
fn halt(outcome: LatestOutcome) -> (r: (LatestState, LatestAction))
    ensures
        r == halted(outcome),
{
    (LatestState::Done(outcome), LatestAction::Stop(outcome))
}

/// Takes a renewal of the link one step further: from where it stands and what the file
/// system answered to where it stands next and what is to be done. The caller begins with
/// `Idle` and `Begin`, does what the action says, and comes back with the answer, until the
/// action is `Stop`.
pub fn update_latest(state: LatestState, event: &LatestEvent) -> (r: (LatestState, LatestAction))
    ensures
        r == latest_step(state, *event),
{
    match state {
        LatestState::Idle => match event {
            LatestEvent::Begin => (LatestState::ScanningYears, LatestAction::ListRoot),
            _ => halt(LatestOutcome::Failed),
        },
        LatestState::ScanningYears => match event {
            LatestEvent::Listed(entries) => {
                let year: u32 = max_name(entries);
                (LatestState::ScanningMonths { year }, LatestAction::ListYear { year })
            },
            _ => halt(LatestOutcome::Failed),
        },
        LatestState::ScanningMonths { year } => match pick(event) {
            Some(month) => (
                LatestState::ScanningDays { year, month },
                LatestAction::ListMonth { year, month },
            ),
            None => halt(LatestOutcome::Failed),
        },
        LatestState::ScanningDays { year, month } => match pick(event) {
            Some(day) => (LatestState::ProbingLink { year, month, day }, LatestAction::ProbeLink),
            None => halt(LatestOutcome::Failed),
        },
        LatestState::ProbingLink { year, month, day } => match event {
            LatestEvent::Link(LinkProbe::Absent) => (
                LatestState::ProbingTarget { year, month, day },
                LatestAction::ProbeTarget { year, month, day },
            ),
            LatestEvent::Link(LinkProbe::Symlink) => (
                LatestState::RemovingLink { year, month, day },
                LatestAction::RemoveLink,
            ),
            LatestEvent::Link(LinkProbe::Other) => halt(LatestOutcome::LinkBlocked),
            _ => halt(LatestOutcome::Failed),
        },
        LatestState::RemovingLink { year, month, day } => match event {
            LatestEvent::Removed => (
                LatestState::ProbingTarget { year, month, day },
                LatestAction::ProbeTarget { year, month, day },
            ),
            _ => halt(LatestOutcome::Failed),
        },
        LatestState::ProbingTarget { year, month, day } => match event {
            LatestEvent::Target(true) => (
                LatestState::Linking { year, month, day },
                LatestAction::CreateLink { year, month, day },
            ),
            LatestEvent::Target(false) => halt(LatestOutcome::TargetMissing),
            _ => halt(LatestOutcome::Failed),
        },
        LatestState::Linking { year: _, month: _, day: _ } => match event {
            LatestEvent::Linked => halt(LatestOutcome::Linked),
            _ => halt(LatestOutcome::Failed),
        },
        LatestState::Done(outcome) => halt(outcome),
    }
}

impl LatestOutcome {
    /// Whether the renewal is reported to the caller as an error: only a failure is; a
    /// blocked link and a missing partition are warnings.
    pub fn is_error(&self) -> (r: bool)
        ensures
            r == (*self == LatestOutcome::Failed),
    {
        match self {
            LatestOutcome::Failed => true,
            _ => false,
        }
    }
}

/// The actions that a run of answers draws, one for each answer, from state `state` on.
pub open spec fn actions_of(state: LatestState, events: Seq<LatestEvent>) -> Seq<LatestAction>
    decreases events.len(),
{
    if events.len() == 0 {
        seq![]
    } else {
        let (next, action) = latest_step(state, events[0]);
        seq![action] + actions_of(next, events.subrange(1, events.len() as int))
    }
}

/// Whether an action changes what stands at the link's path.
pub open spec fn touches_link(action: LatestAction) -> bool {
    action is RemoveLink || action is CreateLink
}

/// The link is changed only on its finding. The link is removed only in answer to the finding
/// that a symbolic link stands at its path; where anything else stands there the renewal
/// ends at once; the day's directory is asked for only after the finding that nothing stands
/// at the link's path, or after the removal; and a link is made only in answer to the finding
/// that the day's directory exists.
pub proof fn link_is_changed_only_on_its_finding(state: LatestState, event: LatestEvent)
    ensures
        latest_step(state, event).1 is RemoveLink ==> state is ProbingLink && event
            == LatestEvent::Link(LinkProbe::Symlink),
        latest_step(state, event).0 is RemovingLink ==> latest_step(state, event).1
            is RemoveLink,
        state is ProbingLink && event == LatestEvent::Link(LinkProbe::Other) ==> latest_step(
            state,
            event,
        ) == halted(LatestOutcome::LinkBlocked),
        latest_step(state, event).0 is ProbingTarget ==> (state is ProbingLink && event
            == LatestEvent::Link(LinkProbe::Absent)) || (state is RemovingLink && event
            is Removed),
        latest_step(state, event).1 is CreateLink ==> state is ProbingTarget && event
            == LatestEvent::Target(true),
{
}

/// A renewal that has ended stays ended: whatever answers follow, it asks for nothing that
/// changes the link.
pub proof fn ended_renewal_touches_nothing(
    outcome: LatestOutcome,
    events: Seq<LatestEvent>,
    i: int,
)
    requires
        0 <= i < events.len(),
    ensures
        actions_of(LatestState::Done(outcome), events).len() == events.len(),
        actions_of(LatestState::Done(outcome), events)[i] == LatestAction::Stop(outcome),
    decreases events.len(),
{
    let rest = events.subrange(1, events.len() as int);
    if rest.len() > 0 {
        ended_renewal_touches_nothing(outcome, rest, if i == 0 { 0 } else { i - 1 });
    } else {
        assert(actions_of(LatestState::Done(outcome), rest) =~= seq![]);
    }
}

/// Where something that is no symbolic link stands at the link's path, it is never touched:
/// from the answer that says so onwards, no action of the run removes or makes a link.
pub proof fn blocked_link_is_never_touched(
    year: u32,
    month: u32,
    day: u32,
    events: Seq<LatestEvent>,
    i: int,
)
    requires
        0 <= i < events.len(),
        events[0] == LatestEvent::Link(LinkProbe::Other),
    ensures
        !touches_link(actions_of(LatestState::ProbingLink { year, month, day }, events)[i]),
{
    let rest = events.subrange(1, events.len() as int);
    if i > 0 {
        ended_renewal_touches_nothing(LatestOutcome::LinkBlocked, rest, i - 1);
    }
}

/// The state that a run of answers leads to, from state `state` on.
pub open spec fn state_after(state: LatestState, events: Seq<LatestEvent>) -> LatestState
    decreases events.len(),
{
    if events.len() == 0 {
        state
    } else {
        state_after(latest_step(state, events[0]).0, events.subrange(1, events.len() as int))
    }
}

/// The greatest partition is the one that is linked: where the three listings are answered
/// and the day's directory exists, the link is asked for the greatest year of the root, the
/// greatest month within that year and the greatest day within that month, whether an old
/// link had to be removed first or not. What other years and months hold plays no part.
pub proof fn greatest_partition_is_linked(
    years: Vec<Entry>,
    months: Vec<Entry>,
    days: Vec<Entry>,
    old_link: bool,
)
    ensures
        ({
            let year = max_number(years@);
            let month = max_number(months@);
            let day = max_number(days@);
            let scanned = state_after(
                LatestState::Idle,
                seq![
                    LatestEvent::Begin,
                    LatestEvent::Listed(years),
                    LatestEvent::Listed(months),
                    LatestEvent::Listed(days),
                ],
            );
            let probed = if old_link {
                state_after(
                    scanned,
                    seq![LatestEvent::Link(LinkProbe::Symlink), LatestEvent::Removed],
                )
            } else {
                state_after(scanned, seq![LatestEvent::Link(LinkProbe::Absent)])
            };
            &&& scanned == LatestState::ProbingLink { year, month, day }
            &&& probed == LatestState::ProbingTarget { year, month, day }
            &&& latest_step(probed, LatestEvent::Target(true)).1 == LatestAction::CreateLink {
                year,
                month,
                day,
            }
            &&& latest_step(
                latest_step(probed, LatestEvent::Target(true)).0,
                LatestEvent::Linked,
            ) == halted(LatestOutcome::Linked)
        }),
{
    let e0 = seq![
        LatestEvent::Begin,
        LatestEvent::Listed(years),
        LatestEvent::Listed(months),
        LatestEvent::Listed(days),
    ];
    let e1 = e0.subrange(1, 4);
    let e2 = e1.subrange(1, 3);
    let e3 = e2.subrange(1, 2);
    assert(e3.subrange(1, 1).len() == 0);
    reveal_with_fuel(state_after, 5);
    let scanned = state_after(LatestState::Idle, e0);
    assert(scanned == LatestState::ProbingLink {
        year: max_number(years@),
        month: max_number(months@),
        day: max_number(days@),
    });
    let a = seq![LatestEvent::Link(LinkProbe::Symlink), LatestEvent::Removed];
    assert(a.subrange(1, 2).subrange(1, 1).len() == 0);
    let b = seq![LatestEvent::Link(LinkProbe::Absent)];
    assert(b.subrange(1, 1).len() == 0);
}

/// An empty root gets no link and gives no error: with no directory in the root the date is
/// 0, 0, 0 whether or not the directories of year 0 and month 00 can be found, and where the
/// day's directory is absent the renewal ends with a warning, without having asked for a
/// link.
pub proof fn empty_root_gets_no_link(
    root: Vec<Entry>,
    months: LatestEvent,
    days: LatestEvent,
    link: LinkProbe,
)
    requires
        root@.len() == 0,
        months is Missing || (months matches LatestEvent::Listed(entries) && entries@.len() == 0),
        days is Missing || (days matches LatestEvent::Listed(entries) && entries@.len() == 0),
        link != LinkProbe::Other,
    ensures
        ({
            let scanned = state_after(
                LatestState::Idle,
                seq![LatestEvent::Begin, LatestEvent::Listed(root), months, days],
            );
            let probed = if link == LinkProbe::Symlink {
                state_after(scanned, seq![LatestEvent::Link(link), LatestEvent::Removed])
            } else {
                state_after(scanned, seq![LatestEvent::Link(link)])
            };
            &&& scanned == LatestState::ProbingLink { year: 0, month: 0, day: 0 }
            &&& probed == LatestState::ProbingTarget { year: 0, month: 0, day: 0 }
            &&& latest_step(probed, LatestEvent::Target(false)) == halted(
                LatestOutcome::TargetMissing,
            )
            &&& LatestOutcome::TargetMissing != LatestOutcome::Failed
        }),
{
    let e0 = seq![LatestEvent::Begin, LatestEvent::Listed(root), months, days];
    let e1 = e0.subrange(1, 4);
    let e2 = e1.subrange(1, 3);
    let e3 = e2.subrange(1, 2);
    assert(e3.subrange(1, 1).len() == 0);
    reveal_with_fuel(state_after, 5);
    let scanned = state_after(LatestState::Idle, e0);
    assert(scanned == LatestState::ProbingLink { year: 0, month: 0, day: 0 });
    let a = seq![LatestEvent::Link(link), LatestEvent::Removed];
    assert(a.subrange(1, 2).subrange(1, 1).len() == 0);
    let b = seq![LatestEvent::Link(link)];
    assert(b.subrange(1, 1).len() == 0);
}

} // verus!
