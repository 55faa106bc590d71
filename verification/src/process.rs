//! The process terminator: stopping every running instance of a program
//! before its state is changed, with a bounded number of polls.
//!
//! The caller lists the live processes, hands each listing to
//! [`terminate_step`], and performs the action that comes back: it sends the
//! termination requests or sleeps, and then lists again, until the action is
//! [`TerminatorAction::Finish`] or [`TerminatorAction::Abort`].

use vstd::prelude::*;
use crate::text::{lower_char, lower_text, to_lower};

verus! {

/// How many polls may find the program still running before the run is given up.
pub const MAX_RETRIES: u32 = 5;

/// The pause between two polls, in seconds.
pub const WAIT_TIME_SECONDS: u64 = 1;

/// One entry of the process table at the time of a listing.
#[derive(Debug, PartialEq, Eq)]
pub struct ProcessInfo {
    pub pid: u32,
    pub name: String,
    pub path: String,
}

/// A process entry as plain values.
pub struct ProcessView {
    pub pid: u32,
    pub name: Seq<char>,
    pub path: Seq<char>,
}

impl View for ProcessInfo {
    type V = ProcessView;

    open spec fn view(&self) -> ProcessView {
        ProcessView { pid: self.pid, name: self.name@, path: self.path@ }
    }
}

impl Clone for ProcessInfo {
    fn clone(&self) -> (copy: ProcessInfo)
        ensures
            copy@ == self@,
    {
        ProcessInfo { pid: self.pid, name: self.name.clone(), path: self.path.clone() }
    }
}

/// The entries of a listing as plain values, in order.
pub open spec fn views(listing: Seq<ProcessInfo>) -> Seq<ProcessView> {
    Seq::new(listing.len(), |i: int| listing[i]@)
}

/// Two names are the same up to the case of their ASCII letters.
pub open spec fn same_name(a: Seq<char>, b: Seq<char>) -> bool {
    lower_text(a) == lower_text(b)
}

/// The entries of `listing` whose name is `name` up to ASCII case, in order.
pub open spec fn matching(listing: Seq<ProcessView>, name: Seq<char>) -> Seq<ProcessView>
    decreases listing.len(),
{
    if listing.len() == 0 {
        Seq::empty()
    } else {
        let before = matching(listing.drop_last(), name);
        if same_name(listing.last().name, name) {
            before.push(listing.last())
        } else {
            before
        }
    }
}

/// Whether two names are the same up to the case of their ASCII letters.
pub fn name_matches(candidate: &str, wanted: &str) -> (same: bool)
    ensures
        same == same_name(candidate@, wanted@),
{
    let n = candidate.unicode_len();
    if wanted.unicode_len() != n {
        assert(lower_text(candidate@).len() != lower_text(wanted@).len());
        return false;
    }
    let mut i: usize = 0;
    while i < n
        invariant
            i <= n,
            n == candidate@.len(),
            n == wanted@.len(),
            forall|k: int| 0 <= k < i ==> lower_char(candidate@[k]) == lower_char(wanted@[k]),
        decreases n - i,
    {
        if to_lower(candidate.get_char(i)) != to_lower(wanted.get_char(i)) {
            assert(lower_text(candidate@)[i as int] != lower_text(wanted@)[i as int]);
            return false;
        }
        i += 1;
    }
    assert(lower_text(candidate@) =~= lower_text(wanted@));
    true
}

/// The processes of a listing that run the program called `name`.
pub fn matching_processes(listing: &Vec<ProcessInfo>, name: &str) -> (found: Vec<ProcessInfo>)
    ensures
        views(found@) == matching(views(listing@), name@),
{
    let mut found: Vec<ProcessInfo> = Vec::new();
    let mut i: usize = 0;
    while i < listing.len()
        invariant
            i <= listing.len(),
            views(found@) == matching(views(listing@).subrange(0, i as int), name@),
        decreases listing.len() - i,
    {
        let ghost before = views(listing@).subrange(0, i as int);
        let ghost upto = views(listing@).subrange(0, i + 1);
        assert(upto.drop_last() =~= before);
        if name_matches(listing[i].name.as_str(), name) {
            let entry = listing[i].clone();
            let ghost old_found = found@;
            found.push(entry);
            assert(views(found@) =~= views(old_found).push(entry@));
        }
        i += 1;
    }
    assert(views(listing@).subrange(0, i as int) =~= views(listing@));
    found
}

/// Where a termination run stands.
#[derive(Clone, Copy, Debug, PartialEq, Eq, Structural)]
pub enum TerminatorState {
    /// No listing has been seen yet.
    Scanning,
    /// The termination requests are out; `retries` polls have found the
    /// program still running.
    Polling { retries: u32 },
    /// No instance of the program is left.
    Closed,
    /// The program outlived every poll: the run must not go on.
    Failed,
}

/// What the caller does after a listing.
#[derive(Debug, PartialEq, Eq)]
pub enum TerminatorAction {
    /// Report these processes, send each a termination request, list again.
    Terminate(Vec<ProcessInfo>),
    /// Sleep for `seconds`, then list again; `attempt` polls have failed.
    Wait { attempt: u32, seconds: u64 },
    /// Nothing is left to stop: go on with the reset.
    Finish,
    /// These processes are still running: report them and halt.
    Abort(Vec<ProcessInfo>),
}

/// An action as plain values.
pub enum TerminatorActionView {
    Terminate(Seq<ProcessView>),
    Wait { attempt: u32, seconds: u64 },
    Finish,
    Abort(Seq<ProcessView>),
}

impl View for TerminatorAction {
    type V = TerminatorActionView;

    open spec fn view(&self) -> TerminatorActionView {
        match self {
            TerminatorAction::Terminate(found) => TerminatorActionView::Terminate(views(found@)),
            TerminatorAction::Wait { attempt, seconds } => TerminatorActionView::Wait {
                attempt: *attempt,
                seconds: *seconds,
            },
            TerminatorAction::Finish => TerminatorActionView::Finish,
            TerminatorAction::Abort(found) => TerminatorActionView::Abort(views(found@)),
        }
    }
}

impl TerminatorState {
    /// The state before the first listing.
    pub fn start() -> (state: TerminatorState)
        ensures
            state == TerminatorState::Scanning,
    {
        TerminatorState::Scanning
    }

    /// The run is over: no further listing changes the state.
    pub open spec fn is_terminal(self) -> bool {
        self is Closed || self is Failed
    }

    /// Whether the run is over.
    pub fn finished(&self) -> (over: bool)
        ensures
            over == self.is_terminal(),
    {
        match self {
            TerminatorState::Closed => true,
            TerminatorState::Failed => true,
            _ => false,
        }
    }

    /// A polling state has failed fewer polls than the run allows.
    pub open spec fn well_formed(self) -> bool {
        self matches TerminatorState::Polling { retries } ==> retries < MAX_RETRIES
    }
}

/// The state after a listing in which `found` are the matching processes.
pub open spec fn next_state(state: TerminatorState, found: Seq<ProcessView>) -> TerminatorState {
    match state {
        TerminatorState::Scanning => if found.len() == 0 {
            TerminatorState::Closed
        } else {
            TerminatorState::Polling { retries: 0 }
        },
        TerminatorState::Polling { retries } => if found.len() == 0 {
            TerminatorState::Closed
        } else if retries + 1 >= MAX_RETRIES {
            TerminatorState::Failed
        } else {
            TerminatorState::Polling { retries: (retries + 1) as u32 }
        },
        TerminatorState::Closed => TerminatorState::Closed,
        TerminatorState::Failed => TerminatorState::Failed,
    }
}

/// The action after a listing in which `found` are the matching processes.
pub open spec fn next_action(state: TerminatorState, found: Seq<ProcessView>) -> TerminatorActionView {
    match state {
        TerminatorState::Scanning => if found.len() == 0 {
            TerminatorActionView::Finish
        } else {
            TerminatorActionView::Terminate(found)
        },
        TerminatorState::Polling { retries } => if found.len() == 0 {
            TerminatorActionView::Finish
        } else if retries + 1 >= MAX_RETRIES {
            TerminatorActionView::Abort(found)
        } else {
            TerminatorActionView::Wait { attempt: (retries + 1) as u32, seconds: WAIT_TIME_SECONDS }
        },
        TerminatorState::Closed => TerminatorActionView::Finish,
        TerminatorState::Failed => TerminatorActionView::Abort(found),
    }
}

/// One step of a termination run: takes the listing that the caller has
/// just made and says what to do next.
///
/// The first listing decides whether anything has to be stopped at all.
/// Every later one is a poll: an empty one ends the run with success, the
/// last allowed one that is not empty ends it with failure, and any other
/// asks for a pause before the next poll.
pub fn terminate_step(state: TerminatorState, process_name: &str, listing: &Vec<ProcessInfo>) -> (step: (
    TerminatorState,
    TerminatorAction,
))
    ensures
        step.0 == next_state(state, matching(views(listing@), process_name@)),
        step.1@ == next_action(state, matching(views(listing@), process_name@)),
{
    let found = matching_processes(listing, process_name);
    match state {
        TerminatorState::Scanning => {
            if found.len() == 0 {
                (TerminatorState::Closed, TerminatorAction::Finish)
            } else {
                (TerminatorState::Polling { retries: 0 }, TerminatorAction::Terminate(found))
            }
        },
        TerminatorState::Polling { retries } => {
            if found.len() == 0 {
                (TerminatorState::Closed, TerminatorAction::Finish)
            } else if retries >= MAX_RETRIES - 1 {
                (TerminatorState::Failed, TerminatorAction::Abort(found))
            } else {
                (
                    TerminatorState::Polling { retries: retries + 1 },
                    TerminatorAction::Wait { attempt: retries + 1, seconds: WAIT_TIME_SECONDS },
                )
            }
        },
        TerminatorState::Closed => (TerminatorState::Closed, TerminatorAction::Finish),
        TerminatorState::Failed => (TerminatorState::Failed, TerminatorAction::Abort(found)),
    }
}

/// The state of a run and the pauses it has asked for so far.
pub struct Progress {
    pub state: TerminatorState,
    pub waits: nat,
}

/// A run that sees the given listings in order, each reduced to its
/// matching processes. Listings after the end of the run are not looked at.
pub open spec fn run(from: Progress, listings: Seq<Seq<ProcessView>>) -> Progress
    decreases listings.len(),
{
    if listings.len() == 0 || from.state.is_terminal() {
        from
    } else {
        let found = listings.first();
        let waits = if next_action(from.state, found) is Wait {
            from.waits + 1
        } else {
            from.waits
        };
        run(Progress { state: next_state(from.state, found), waits }, listings.drop_first())
    }
}

/// A run at its start.
pub open spec fn fresh() -> Progress {
    Progress { state: TerminatorState::Scanning, waits: 0 }
}

/// No step leaves the states in which fewer polls have failed than allowed.
pub proof fn lemma_step_keeps_well_formed(state: TerminatorState, found: Seq<ProcessView>)
    requires
        state.well_formed(),
    ensures
        next_state(state, found).well_formed(),
{
}

/// When the first listing holds no matching process, the run ends at once
/// with success and asks for no pause.
pub proof fn lemma_nothing_running(listings: Seq<Seq<ProcessView>>)
    requires
        listings.len() > 0,
        listings[0].len() == 0,
    ensures
        run(fresh(), listings).state == TerminatorState::Closed,
        run(fresh(), listings).waits == 0,
        next_action(TerminatorState::Scanning, listings[0]) == TerminatorActionView::Finish,
{
    reveal_with_fuel(run, 2);
}

/// From a polling state, `misses` polls that still find the program and
/// then one that does not end the run with success after exactly `misses`
/// pauses, as long as the polls allowed are not used up.
pub proof fn lemma_polls_until_closed(from: Progress, misses: nat, listings: Seq<Seq<ProcessView>>)
    requires
        from.state matches TerminatorState::Polling { retries } && retries + misses < MAX_RETRIES,
        listings.len() > misses,
        forall|k: int| 0 <= k < misses ==> (#[trigger] listings[k]).len() > 0,
        listings[misses as int].len() == 0,
    ensures
        run(from, listings).state == TerminatorState::Closed,
        run(from, listings).waits == from.waits + misses,
    decreases misses,
{
    if misses == 0 {
        reveal_with_fuel(run, 2);
    } else {
        let found = listings.first();
        let rest = listings.drop_first();
        let after = Progress { state: next_state(from.state, found), waits: from.waits + 1 };
        assert(listings[0].len() > 0);
        assert forall|k: int| 0 <= k < misses - 1 implies (#[trigger] rest[k]).len() > 0 by {
            assert(rest[k] == listings[k + 1]);
        }
        assert(rest[misses - 1] == listings[misses as int]);
        lemma_polls_until_closed(after, (misses - 1) as nat, rest);
    }
}

/// A program that is found running, survives `misses` polls and is gone at
/// the next one costs exactly `misses` pauses: the run ends with success as
/// soon as a poll finds nothing.
pub proof fn lemma_waits_equal_missed_polls(misses: nat, listings: Seq<Seq<ProcessView>>)
    requires
        misses < MAX_RETRIES,
        listings.len() > misses + 1,
        forall|k: int| 0 <= k <= misses ==> (#[trigger] listings[k]).len() > 0,
        listings[misses as int + 1].len() == 0,
    ensures
        run(fresh(), listings).state == TerminatorState::Closed,
        run(fresh(), listings).waits == misses,
{
    let rest = listings.drop_first();
    let after = Progress { state: TerminatorState::Polling { retries: 0 }, waits: 0 };
    assert(listings[0].len() > 0);
    assert forall|k: int| 0 <= k < misses implies (#[trigger] rest[k]).len() > 0 by {
        assert(rest[k] == listings[k + 1]);
    }
    assert(rest[misses as int] == listings[misses as int + 1]);
    lemma_polls_until_closed(after, misses, rest);
}

/// From a polling state, polls that all find the program end the run with
/// failure once the allowed number is used up.
pub proof fn lemma_polls_until_failed(from: Progress, listings: Seq<Seq<ProcessView>>)
    requires
        from.state matches TerminatorState::Polling { retries } && retries < MAX_RETRIES
            && listings.len() >= MAX_RETRIES - retries,
        forall|k: int| 0 <= k < listings.len() ==> (#[trigger] listings[k]).len() > 0,
    ensures
        run(from, listings).state == TerminatorState::Failed,
        run(from, listings).waits == from.waits + (MAX_RETRIES - 1 - from.state->retries),
    decreases listings.len(),
{
    let found = listings.first();
    let rest = listings.drop_first();
    let retries = from.state->retries;
    assert(listings[0].len() > 0);
    if retries + 1 >= MAX_RETRIES {
        reveal_with_fuel(run, 2);
    } else {
        let after = Progress { state: next_state(from.state, found), waits: from.waits + 1 };
        assert forall|k: int| 0 <= k < rest.len() implies (#[trigger] rest[k]).len() > 0 by {
            assert(rest[k] == listings[k + 1]);
        }
        lemma_polls_until_failed(after, rest);
    }
}

/// A program that outlives every poll makes the run fail after the allowed
/// number of polls, with one pause fewer than polls.
pub proof fn lemma_gives_up_after_max_retries(listings: Seq<Seq<ProcessView>>)
    requires
        listings.len() > MAX_RETRIES,
        forall|k: int| 0 <= k < listings.len() ==> (#[trigger] listings[k]).len() > 0,
    ensures
        run(fresh(), listings).state == TerminatorState::Failed,
        run(fresh(), listings).waits == MAX_RETRIES - 1,
{
    let rest = listings.drop_first();
    let after = Progress { state: TerminatorState::Polling { retries: 0 }, waits: 0 };
    assert(listings[0].len() > 0);
    assert forall|k: int| 0 <= k < rest.len() implies (#[trigger] rest[k]).len() > 0 by {
        assert(rest[k] == listings[k + 1]);
    }
    lemma_polls_until_failed(after, rest);
}

} // verus!
