//! The identity store rotator: replacing the machine-wide identity value of
//! the platform, with a backup before the change and a check after it.
//!
//! The caller holds the store. It asks [`rotate_request`] what to do, does
//! it, and reports what happened to [`rotate_step`], until the request is
//! [`StoreRequest::Finish`].

use vstd::prelude::*;
use crate::backup::{store_backup_name, store_backup_text, Timestamp};
use crate::ident::{matches_template, new_unique_id};

verus! {

/// What a rotation is to write, and where the old entry is kept.
#[derive(Debug, PartialEq, Eq)]
pub struct RotationPlan {
    /// The value that the store is to hold after the rotation.
    pub new_value: String,
    /// The name of the backup artifact inside the backup directory.
    pub backup_file: String,
}

/// A plan as plain values.
pub struct RotationPlanView {
    pub new_value: Seq<char>,
    pub backup_file: Seq<char>,
}

impl View for RotationPlan {
    type V = RotationPlanView;

    open spec fn view(&self) -> RotationPlanView {
        RotationPlanView { new_value: self.new_value@, backup_file: self.backup_file@ }
    }
}

impl RotationPlan {
    /// The plan to write `new_value`, with the old entry exported to `backup_file`.
    pub fn new(new_value: String, backup_file: String) -> (plan: RotationPlan)
        ensures
            plan@ == (RotationPlanView { new_value: new_value@, backup_file: backup_file@ }),
    {
        RotationPlan { new_value, backup_file }
    }

    /// The plan to write a fresh unique identifier, with the old entry
    /// exported to `<key_name>_<stamp>.<extension>`.
    pub fn fresh(key_name: &str, at: &Timestamp, extension: &str) -> (plan: RotationPlan)
        requires
            at.well_formed(),
        ensures
            matches_template(plan@.new_value),
            plan@.backup_file == store_backup_text(key_name@, *at, extension@),
    {
        let backup_file = store_backup_name(key_name, at, extension);
        let new_value = new_unique_id();
        RotationPlan { new_value, backup_file }
    }
}

/// How a rotation ended.
#[derive(Clone, Copy, Debug, PartialEq, Eq, Structural)]
pub enum StoreOutcome {
    /// The store holds the new value, as a second read has shown.
    Rotated,
    /// The store could not be opened for reading and writing.
    OpenFailed,
    /// The new value could not be written, and no restore was tried: the
    /// store held no value before, or there is no backup artifact.
    WriteFailed,
    /// The new value could not be written; the backup was imported.
    WriteFailedRestored,
    /// The new value could not be written, and importing the backup failed.
    WriteFailedNotRestored,
    /// The write went through, but the store then held another value.
    VerifyMismatch,
    /// The write went through, but the store could not be read after it.
    VerifyUnreadable,
}

impl StoreOutcome {
    /// The rotation took place.
    pub fn succeeded(&self) -> (yes: bool)
        ensures
            yes == (*self == StoreOutcome::Rotated),
    {
        match self {
            StoreOutcome::Rotated => true,
            _ => false,
        }
    }
}

/// Where a rotation stands.
#[derive(Clone, Copy, Debug, PartialEq, Eq, Structural)]
pub enum StoreState {
    /// The store is to be opened.
    Opening,
    /// The present value is to be read.
    Reading,
    /// The backup directory is to be made sure of. `had_value` says whether
    /// the store held a value that is not empty.
    PreparingBackup { had_value: bool },
    /// The present entry is to be exported to the backup artifact.
    Exporting { had_value: bool },
    /// The new value is to be written.
    Writing { had_value: bool },
    /// The value is to be read again and held against the one written.
    Verifying,
    /// Writing failed: is the backup artifact there?
    CheckingBackup,
    /// Writing failed: the backup artifact is to be imported.
    Restoring,
    /// The rotation is over.
    Done(StoreOutcome),
}

/// What the caller is asked to do with the store.
#[derive(Debug, PartialEq, Eq)]
pub enum StoreRequest {
    /// Open the store location for reading and writing.
    Open,
    /// Read the present value.
    Read,
    /// Create the backup directory unless it exists.
    PrepareBackupDir,
    /// Export the present entry to this file of the backup directory.
    Export(String),
    /// Write this value.
    Write(String),
    /// Read the value again.
    ReadBack,
    /// Look whether this file of the backup directory exists.
    ProbeBackup(String),
    /// Import this file of the backup directory into the store.
    Import(String),
    /// Nothing more is to be done; this is how the rotation ended.
    Finish(StoreOutcome),
}

/// A request as plain values.
pub enum StoreRequestView {
    Open,
    Read,
    PrepareBackupDir,
    Export(Seq<char>),
    Write(Seq<char>),
    ReadBack,
    ProbeBackup(Seq<char>),
    Import(Seq<char>),
    Finish(StoreOutcome),
}

impl View for StoreRequest {
    type V = StoreRequestView;

    open spec fn view(&self) -> StoreRequestView {
        match self {
            StoreRequest::Open => StoreRequestView::Open,
            StoreRequest::Read => StoreRequestView::Read,
            StoreRequest::PrepareBackupDir => StoreRequestView::PrepareBackupDir,
            StoreRequest::Export(file) => StoreRequestView::Export(file@),
            StoreRequest::Write(value) => StoreRequestView::Write(value@),
            StoreRequest::ReadBack => StoreRequestView::ReadBack,
            StoreRequest::ProbeBackup(file) => StoreRequestView::ProbeBackup(file@),
            StoreRequest::Import(file) => StoreRequestView::Import(file@),
            StoreRequest::Finish(outcome) => StoreRequestView::Finish(*outcome),
        }
    }
}

/// What came of a request.
#[derive(Debug, PartialEq, Eq)]
pub enum StoreEvent {
    /// The request was carried out.
    Succeeded,
    /// The request failed.
    Failed,
    /// What was asked for is not there: the store holds no value, or the
    /// backup artifact does not exist.
    Absent,
    /// The store was read; this is its value.
    Value(String),
}

/// An event as plain values.
pub enum StoreEventView {
    Succeeded,
    Failed,
    Absent,
    Value(Seq<char>),
}

impl View for StoreEvent {
    type V = StoreEventView;

    open spec fn view(&self) -> StoreEventView {
        match self {
            StoreEvent::Succeeded => StoreEventView::Succeeded,
            StoreEvent::Failed => StoreEventView::Failed,
            StoreEvent::Absent => StoreEventView::Absent,
            StoreEvent::Value(value) => StoreEventView::Value(value@),
        }
    }
}

/// The request that a state stands for.
pub open spec fn store_request_of(state: StoreState, plan: RotationPlanView) -> StoreRequestView {
    match state {
        StoreState::Opening => StoreRequestView::Open,
        StoreState::Reading => StoreRequestView::Read,
        StoreState::PreparingBackup { had_value } => StoreRequestView::PrepareBackupDir,
        StoreState::Exporting { had_value } => StoreRequestView::Export(plan.backup_file),
        StoreState::Writing { had_value } => StoreRequestView::Write(plan.new_value),
        StoreState::Verifying => StoreRequestView::ReadBack,
        StoreState::CheckingBackup => StoreRequestView::ProbeBackup(plan.backup_file),
        StoreState::Restoring => StoreRequestView::Import(plan.backup_file),
        StoreState::Done(outcome) => StoreRequestView::Finish(outcome),
    }
}

/// The state that follows `state` on `event`. An event that does not
/// answer the request of the state leaves the state as it is.
///
/// A store that cannot be opened ends the rotation. A value that is
/// missing or unreadable counts as empty. Neither a backup directory that
/// cannot be made nor an export that fails stops the rotation. A write that
/// fails leads to a restore only where the store held a value and the
/// backup artifact exists, and ends the rotation as failed either way. A
/// write that went through counts only if the value read after it is the
/// value written; no restore is made when it is not.
pub open spec fn next_store_state(
    state: StoreState,
    event: StoreEventView,
    plan: RotationPlanView,
) -> StoreState {
    match state {
        StoreState::Opening => match event {
            StoreEventView::Succeeded => StoreState::Reading,
            StoreEventView::Failed => StoreState::Done(StoreOutcome::OpenFailed),
            _ => state,
        },
        StoreState::Reading => match event {
            StoreEventView::Value(value) => StoreState::PreparingBackup {
                had_value: value.len() > 0,
            },
            StoreEventView::Absent => StoreState::PreparingBackup { had_value: false },
            StoreEventView::Failed => StoreState::PreparingBackup { had_value: false },
            _ => state,
        },
        StoreState::PreparingBackup { had_value } => match event {
            StoreEventView::Succeeded => StoreState::Exporting { had_value },
            StoreEventView::Failed => StoreState::Exporting { had_value },
            _ => state,
        },
        StoreState::Exporting { had_value } => match event {
            StoreEventView::Succeeded => StoreState::Writing { had_value },
            StoreEventView::Failed => StoreState::Writing { had_value },
            _ => state,
        },
        StoreState::Writing { had_value } => match event {
            StoreEventView::Succeeded => StoreState::Verifying,
            StoreEventView::Failed => if had_value {
                StoreState::CheckingBackup
            } else {
                StoreState::Done(StoreOutcome::WriteFailed)
            },
            _ => state,
        },
        StoreState::Verifying => match event {
            StoreEventView::Value(value) => if value == plan.new_value {
                StoreState::Done(StoreOutcome::Rotated)
            } else {
                StoreState::Done(StoreOutcome::VerifyMismatch)
            },
            StoreEventView::Absent => StoreState::Done(StoreOutcome::VerifyUnreadable),
            StoreEventView::Failed => StoreState::Done(StoreOutcome::VerifyUnreadable),
            _ => state,
        },
        StoreState::CheckingBackup => match event {
            StoreEventView::Succeeded => StoreState::Restoring,
            StoreEventView::Absent => StoreState::Done(StoreOutcome::WriteFailed),
            StoreEventView::Failed => StoreState::Done(StoreOutcome::WriteFailed),
            _ => state,
        },
        StoreState::Restoring => match event {
            StoreEventView::Succeeded => StoreState::Done(StoreOutcome::WriteFailedRestored),
            StoreEventView::Failed => StoreState::Done(StoreOutcome::WriteFailedNotRestored),
            _ => state,
        },
        StoreState::Done(outcome) => state,
    }
}

impl StoreState {
    /// The state of a rotation that has not begun.
    pub fn start() -> (state: StoreState)
        ensures
            state == StoreState::Opening,
    {
        StoreState::Opening
    }

    /// Whether the rotation is over.
    pub fn finished(&self) -> (over: bool)
        ensures
            over == (*self is Done),
    {
        match self {
            StoreState::Done(_) => true,
            _ => false,
        }
    }
}

/// What the caller has to do in `state`.
pub fn rotate_request(state: StoreState, plan: &RotationPlan) -> (request: StoreRequest)
    ensures
        request@ == store_request_of(state, plan@),
{
    match state {
        StoreState::Opening => StoreRequest::Open,
        StoreState::Reading => StoreRequest::Read,
        StoreState::PreparingBackup { had_value } => StoreRequest::PrepareBackupDir,
        StoreState::Exporting { had_value } => StoreRequest::Export(plan.backup_file.clone()),
        StoreState::Writing { had_value } => StoreRequest::Write(plan.new_value.clone()),
        StoreState::Verifying => StoreRequest::ReadBack,
        StoreState::CheckingBackup => StoreRequest::ProbeBackup(plan.backup_file.clone()),
        StoreState::Restoring => StoreRequest::Import(plan.backup_file.clone()),
        StoreState::Done(outcome) => StoreRequest::Finish(outcome),
    }
}

/// One step of a rotation: takes what came of the last request and gives
/// the state that follows.
pub fn rotate_step(state: StoreState, event: StoreEvent, plan: &RotationPlan) -> (next: StoreState)
    ensures
        next == next_store_state(state, event@, plan@),
{
    match state {
        StoreState::Opening => match event {
            StoreEvent::Succeeded => StoreState::Reading,
            StoreEvent::Failed => StoreState::Done(StoreOutcome::OpenFailed),
            _ => state,
        },
        StoreState::Reading => match event {
            StoreEvent::Value(value) => StoreState::PreparingBackup {
                had_value: !value.as_str().is_empty(),
            },
            StoreEvent::Absent => StoreState::PreparingBackup { had_value: false },
            StoreEvent::Failed => StoreState::PreparingBackup { had_value: false },
            _ => state,
        },
        StoreState::PreparingBackup { had_value } => match event {
            StoreEvent::Succeeded => StoreState::Exporting { had_value },
            StoreEvent::Failed => StoreState::Exporting { had_value },
            _ => state,
        },
        StoreState::Exporting { had_value } => match event {
            StoreEvent::Succeeded => StoreState::Writing { had_value },
            StoreEvent::Failed => StoreState::Writing { had_value },
            _ => state,
        },
        StoreState::Writing { had_value } => match event {
            StoreEvent::Succeeded => StoreState::Verifying,
            StoreEvent::Failed => if had_value {
                StoreState::CheckingBackup
            } else {
                StoreState::Done(StoreOutcome::WriteFailed)
            },
            _ => state,
        },
        StoreState::Verifying => match event {
            StoreEvent::Value(value) => if value == plan.new_value {
                StoreState::Done(StoreOutcome::Rotated)
            } else {
                StoreState::Done(StoreOutcome::VerifyMismatch)
            },
            StoreEvent::Absent => StoreState::Done(StoreOutcome::VerifyUnreadable),
            StoreEvent::Failed => StoreState::Done(StoreOutcome::VerifyUnreadable),
            _ => state,
        },
        StoreState::CheckingBackup => match event {
            StoreEvent::Succeeded => StoreState::Restoring,
            StoreEvent::Absent => StoreState::Done(StoreOutcome::WriteFailed),
            StoreEvent::Failed => StoreState::Done(StoreOutcome::WriteFailed),
            _ => state,
        },
        StoreState::Restoring => match event {
            StoreEvent::Succeeded => StoreState::Done(StoreOutcome::WriteFailedRestored),
            StoreEvent::Failed => StoreState::Done(StoreOutcome::WriteFailedNotRestored),
            _ => state,
        },
        StoreState::Done(outcome) => state,
    }
}

/// The state after the events of a run, in order.
pub open spec fn rotation_after(
    state: StoreState,
    events: Seq<StoreEventView>,
    plan: RotationPlanView,
) -> StoreState
    decreases events.len(),
{
    if events.len() == 0 {
        state
    } else {
        rotation_after(next_store_state(state, events.first(), plan), events.drop_first(), plan)
    }
}

/// A rotation turns into a success in one way only: the value read after
/// the write is the value of the plan. So after a successful rotation the
/// store has been seen to hold the new value.
pub proof fn lemma_success_was_verified(
    state: StoreState,
    event: StoreEventView,
    plan: RotationPlanView,
)
    requires
        state != StoreState::Done(StoreOutcome::Rotated),
        next_store_state(state, event, plan) == StoreState::Done(StoreOutcome::Rotated),
    ensures
        state == StoreState::Verifying,
        event == StoreEventView::Value(plan.new_value),
{
}

/// When the write went through and the value read after it differs from
/// the one written, or cannot be read, the rotation fails, and it ends
/// there: no restore is asked for.
pub proof fn lemma_mismatch_fails(event: StoreEventView, plan: RotationPlanView)
    requires
        event != StoreEventView::Value(plan.new_value),
        event != StoreEventView::Succeeded,
    ensures
        next_store_state(StoreState::Verifying, event, plan) is Done,
        next_store_state(StoreState::Verifying, event, plan) != StoreState::Done(
            StoreOutcome::Rotated,
        ),
        event is Value ==> next_store_state(StoreState::Verifying, event, plan) == StoreState::Done(
            StoreOutcome::VerifyMismatch,
        ),
{
}

/// The new value is written only after the export of the present entry
/// was tried: the backup comes before the change.
pub proof fn lemma_export_precedes_write(
    state: StoreState,
    event: StoreEventView,
    plan: RotationPlanView,
)
    requires
        !(state is Writing),
        next_store_state(state, event, plan) is Writing,
    ensures
        state is Exporting,
        store_request_of(state, plan) == StoreRequestView::Export(plan.backup_file),
{
}

/// A state that is over stays as it is, whatever is reported.
pub proof fn lemma_done_is_final(
    outcome: StoreOutcome,
    events: Seq<StoreEventView>,
    plan: RotationPlanView,
)
    ensures
        rotation_after(StoreState::Done(outcome), events, plan) == StoreState::Done(outcome),
    decreases events.len(),
{
    if events.len() > 0 {
        lemma_done_is_final(outcome, events.drop_first(), plan);
    }
}

/// A run that ends as a success has written the value of the plan and has
/// read it back: its last effective steps are the write that went through
/// and the read that gave that value. Told from the start: the store
/// opens, gives any answer to the read, the backup steps end either way,
/// the write goes through and the second read gives the new value.
pub proof fn lemma_plain_rotation_succeeds(
    read: StoreEventView,
    prepared: StoreEventView,
    exported: StoreEventView,
    plan: RotationPlanView,
)
    requires
        read != StoreEventView::Succeeded,
        prepared is Succeeded || prepared is Failed,
        exported is Succeeded || exported is Failed,
    ensures
        rotation_after(
            StoreState::Opening,
            seq![
                StoreEventView::Succeeded,
                read,
                prepared,
                exported,
                StoreEventView::Succeeded,
                StoreEventView::Value(plan.new_value),
            ],
            plan,
        ) == StoreState::Done(StoreOutcome::Rotated),
{
    let events = seq![
        StoreEventView::Succeeded,
        read,
        prepared,
        exported,
        StoreEventView::Succeeded,
        StoreEventView::Value(plan.new_value),
    ];
    let s1 = next_store_state(StoreState::Opening, events[0], plan);
    let e1 = events.drop_first();
    let s2 = next_store_state(s1, e1[0], plan);
    let e2 = e1.drop_first();
    let s3 = next_store_state(s2, e2[0], plan);
    let e3 = e2.drop_first();
    let s4 = next_store_state(s3, e3[0], plan);
    let e4 = e3.drop_first();
    let s5 = next_store_state(s4, e4[0], plan);
    let e5 = e4.drop_first();
    let s6 = next_store_state(s5, e5[0], plan);
    let e6 = e5.drop_first();
    assert(e6.len() == 0);
    assert(rotation_after(s6, e6, plan) == s6);
    assert(rotation_after(s5, e5, plan) == s6);
    assert(rotation_after(s4, e4, plan) == s6);
    assert(rotation_after(s3, e3, plan) == s6);
    assert(rotation_after(s2, e2, plan) == s6);
    assert(rotation_after(s1, e1, plan) == s6);
}

/// A write that fails never ends in success, and a restore is asked for
/// only where the store held a value and the backup artifact exists.
pub proof fn lemma_failed_write(had_value: bool, probe: StoreEventView, plan: RotationPlanView)
    ensures
        ({
            let failed = next_store_state(
                StoreState::Writing { had_value },
                StoreEventView::Failed,
                plan,
            );
            &&& !had_value ==> failed == StoreState::Done(StoreOutcome::WriteFailed)
            &&& had_value ==> failed == StoreState::CheckingBackup
            &&& next_store_state(StoreState::CheckingBackup, probe, plan) == StoreState::Restoring
                <==> probe is Succeeded
            &&& store_request_of(StoreState::Restoring, plan) == StoreRequestView::Import(
                plan.backup_file,
            )
        }),
{
}

} // verus!
