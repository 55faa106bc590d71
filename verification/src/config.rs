//! The config mutator: writing a fresh identity into the application's JSON
//! configuration, with the original text kept for a rollback.
//!
//! The caller reads and writes the file. It asks [`update_request`] what to
//! do, does it, and reports what happened to [`update_step`], until the
//! request is [`ConfigRequest::Finish`].

use vstd::prelude::*;
use crate::ident::{IdentitySet, IdentityView};
use crate::json::{
    find_member, lemma_absent_member, lemma_append_member, lemma_last_member,
    lemma_replace_member, members_view, parse_json, parsed_json, render_json, rendered_json,
    set_member, Json, JsonView,
};

verus! {

/// The name of the object that holds the identity fields.
pub open spec fn telemetry_name() -> Seq<char> {
    "telemetry"@
}

/// The name of the field for the machine identifier.
pub open spec fn machine_id_name() -> Seq<char> {
    "machineId"@
}

/// The name of the field for the templated identifier.
pub open spec fn mac_machine_id_name() -> Seq<char> {
    "macMachineId"@
}

/// The name of the field for the device identifier.
pub open spec fn dev_device_id_name() -> Seq<char> {
    "devDeviceId"@
}

/// The name of the field for the braced identifier.
pub open spec fn sqm_id_name() -> Seq<char> {
    "sqmId"@
}

/// The fields that the new `telemetry` object starts from: those of the
/// old one, or none where the document has no `telemetry` object.
pub open spec fn telemetry_base(fields: Map<Seq<char>, JsonView>) -> Map<Seq<char>, JsonView> {
    if fields.contains_key(telemetry_name()) {
        match fields[telemetry_name()] {
            JsonView::Object(old) => old,
            _ => Map::empty(),
        }
    } else {
        Map::empty()
    }
}

/// `base` with the four identity fields set to the values of `ids`.
pub open spec fn with_identity_fields(base: Map<Seq<char>, JsonView>, ids: IdentityView) -> Map<
    Seq<char>,
    JsonView,
> {
    base.insert(machine_id_name(), JsonView::Text(ids.machine_id)).insert(
        mac_machine_id_name(),
        JsonView::Text(ids.mac_machine_id),
    ).insert(dev_device_id_name(), JsonView::Text(ids.dev_device_id)).insert(
        sqm_id_name(),
        JsonView::Text(ids.sqm_id),
    )
}

/// The document with the identity written into its `telemetry` object;
/// `None` where the root of the document is no object.
pub open spec fn with_identity(doc: JsonView, ids: IdentityView) -> Option<JsonView> {
    match doc {
        JsonView::Object(fields) => Some(
            JsonView::Object(
                fields.insert(
                    telemetry_name(),
                    JsonView::Object(with_identity_fields(telemetry_base(fields), ids)),
                ),
            ),
        ),
        _ => None,
    }
}

/// The root of the document is no object, so it cannot take the identity.
#[derive(Clone, Copy, Debug, PartialEq, Eq)]
pub struct RootNotObject;

/// Writes the four identity fields into the `telemetry` object of a
/// document, creating that object where it is missing or is no object.
/// Every other field of the document and of `telemetry` stays as it is.
pub fn apply_identity(doc: Json, ids: &IdentitySet) -> (r: Result<Json, RootNotObject>)
    ensures
        match r {
            Ok(changed) => with_identity(doc@, ids@) == Some(changed@),
            Err(_) => with_identity(doc@, ids@) is None,
        },
{
    match doc {
        Json::Object(mut members) => {
            let at = find_member(&members, "telemetry");
            let mut telemetry: Vec<(String, Json)> = Vec::new();
            let ghost before = members@;
            match at {
                Some(i) => {
                    proof {
                        lemma_last_member(members@, i as int, telemetry_name());
                    }
                    let (_, old) = members.remove(i);
                    match old {
                        Json::Object(inner) => {
                            telemetry = inner;
                        },
                        _ => {},
                    }
                },
                None => {
                    proof {
                        lemma_absent_member(members@, telemetry_name());
                    }
                },
            }
            set_member(&mut telemetry, "machineId", Json::Text(ids.machine_id.clone()));
            set_member(&mut telemetry, "macMachineId", Json::Text(ids.mac_machine_id.clone()));
            set_member(&mut telemetry, "devDeviceId", Json::Text(ids.dev_device_id.clone()));
            set_member(&mut telemetry, "sqmId", Json::Text(ids.sqm_id.clone()));
            let member = (String::from_str("telemetry"), Json::Object(telemetry));
            match at {
                Some(i) => {
                    proof {
                        lemma_replace_member(before, i as int, telemetry_name(), member);
                        assert(before.remove(i as int).insert(i as int, member) =~= before.update(
                            i as int,
                            member,
                        ));
                    }
                    members.insert(i, member);
                },
                None => {
                    proof {
                        lemma_append_member(before, member);
                    }
                    members.push(member);
                },
            }
            Ok(Json::Object(members))
        },
        _ => Err(RootNotObject),
    }
}

/// How an update ended.
#[derive(Debug, PartialEq, Eq)]
pub enum ConfigOutcome {
    /// The file holds the new identity.
    Updated,
    /// There is no configuration file: the application has never run.
    NotFound,
    /// The file could not be read.
    ReadFailed,
    /// The file holds no JSON; the parser's message says why.
    ParseFailed(String),
    /// The root of the document is no object.
    RootNotObject,
    /// The changed document could not be written as text.
    SerializeFailed(String),
    /// The file could not be written; its original text was put back.
    WriteFailed,
    /// The file could not be written, and putting the original text back
    /// failed too: the file has to be restored by hand from its backup.
    RollbackFailed,
}

/// An outcome as plain values.
pub enum ConfigOutcomeView {
    Updated,
    NotFound,
    ReadFailed,
    ParseFailed(Seq<char>),
    RootNotObject,
    SerializeFailed(Seq<char>),
    WriteFailed,
    RollbackFailed,
}

impl View for ConfigOutcome {
    type V = ConfigOutcomeView;

    open spec fn view(&self) -> ConfigOutcomeView {
        match self {
            ConfigOutcome::Updated => ConfigOutcomeView::Updated,
            ConfigOutcome::NotFound => ConfigOutcomeView::NotFound,
            ConfigOutcome::ReadFailed => ConfigOutcomeView::ReadFailed,
            ConfigOutcome::ParseFailed(message) => ConfigOutcomeView::ParseFailed(message@),
            ConfigOutcome::RootNotObject => ConfigOutcomeView::RootNotObject,
            ConfigOutcome::SerializeFailed(message) => ConfigOutcomeView::SerializeFailed(message@),
            ConfigOutcome::WriteFailed => ConfigOutcomeView::WriteFailed,
            ConfigOutcome::RollbackFailed => ConfigOutcomeView::RollbackFailed,
        }
    }
}

impl Clone for ConfigOutcome {
    fn clone(&self) -> (copy: ConfigOutcome)
        ensures
            copy@ == self@,
    {
        match self {
            ConfigOutcome::Updated => ConfigOutcome::Updated,
            ConfigOutcome::NotFound => ConfigOutcome::NotFound,
            ConfigOutcome::ReadFailed => ConfigOutcome::ReadFailed,
            ConfigOutcome::ParseFailed(message) => ConfigOutcome::ParseFailed(message.clone()),
            ConfigOutcome::RootNotObject => ConfigOutcome::RootNotObject,
            ConfigOutcome::SerializeFailed(message) => ConfigOutcome::SerializeFailed(
                message.clone(),
            ),
            ConfigOutcome::WriteFailed => ConfigOutcome::WriteFailed,
            ConfigOutcome::RollbackFailed => ConfigOutcome::RollbackFailed,
        }
    }
}

impl ConfigOutcome {
    /// The update took place.
    pub fn succeeded(&self) -> (yes: bool)
        ensures
            yes == (self@ is Updated),
    {
        match self {
            ConfigOutcome::Updated => true,
            _ => false,
        }
    }

    /// The file may be damaged and needs a restore by hand.
    pub fn is_critical(&self) -> (yes: bool)
        ensures
            yes == (self@ is RollbackFailed),
    {
        match self {
            ConfigOutcome::RollbackFailed => true,
            _ => false,
        }
    }
}

/// The text that an update writes over a configuration that reads `text`,
/// or the outcome that ends the update before anything is written.
pub open spec fn planned_text(text: Seq<char>, ids: IdentityView) -> Result<
    Seq<char>,
    ConfigOutcomeView,
> {
    match parsed_json(text) {
        Err(message) => Err(ConfigOutcomeView::ParseFailed(message)),
        Ok(doc) => match with_identity(doc, ids) {
            None => Err(ConfigOutcomeView::RootNotObject),
            Some(changed) => match rendered_json(changed) {
                Ok(updated) => Ok(updated),
                Err(message) => Err(ConfigOutcomeView::SerializeFailed(message)),
            },
        },
    }
}

/// A plan as plain values.
pub open spec fn plan_view(plan: Result<String, ConfigOutcome>) -> Result<
    Seq<char>,
    ConfigOutcomeView,
> {
    match plan {
        Ok(updated) => Ok(updated@),
        Err(outcome) => Err(outcome@),
    }
}

/// Works out the new text of a configuration from its present text: parses
/// it, writes the identity into the document, and renders the document.
pub fn plan_update(text: &str, ids: &IdentitySet) -> (plan: Result<String, ConfigOutcome>)
    ensures
        plan_view(plan) == planned_text(text@, ids@),
{
    let parsed = parse_json(text);
    match parsed {
        Err(message) => Err(ConfigOutcome::ParseFailed(message)),
        Ok(doc) => match apply_identity(doc, ids) {
            Err(_) => Err(ConfigOutcome::RootNotObject),
            Ok(changed) => {
                let rendered = render_json(&changed);
                match rendered {
                    Ok(updated) => Ok(updated),
                    Err(message) => Err(ConfigOutcome::SerializeFailed(message)),
                }
            },
        },
    }
}

/// Where an update stands.
#[derive(Debug, PartialEq, Eq)]
pub enum ConfigState {
    /// The file has not been read yet.
    Loading,
    /// The new text is to be written; the original text is kept.
    Writing { original: String, updated: String },
    /// Writing failed; the original text is to be written back.
    Restoring { original: String },
    /// The update is over.
    Done(ConfigOutcome),
}

/// A state as plain values.
pub enum ConfigStateView {
    Loading,
    Writing { original: Seq<char>, updated: Seq<char> },
    Restoring { original: Seq<char> },
    Done(ConfigOutcomeView),
}

impl View for ConfigState {
    type V = ConfigStateView;

    open spec fn view(&self) -> ConfigStateView {
        match self {
            ConfigState::Loading => ConfigStateView::Loading,
            ConfigState::Writing { original, updated } => ConfigStateView::Writing {
                original: original@,
                updated: updated@,
            },
            ConfigState::Restoring { original } => ConfigStateView::Restoring {
                original: original@,
            },
            ConfigState::Done(outcome) => ConfigStateView::Done(outcome@),
        }
    }
}

/// What the caller is asked to do with the configuration file.
#[derive(Debug, PartialEq, Eq)]
pub enum ConfigRequest {
    /// Read the whole file as text.
    Read,
    /// Write this text over the file.
    Write(String),
    /// Writing failed: write the original text, given here, over the file.
    Rollback(String),
    /// Nothing more is to be done; this is how the update ended.
    Finish(ConfigOutcome),
}

/// A request as plain values.
pub enum ConfigRequestView {
    Read,
    Write(Seq<char>),
    Rollback(Seq<char>),
    Finish(ConfigOutcomeView),
}

impl View for ConfigRequest {
    type V = ConfigRequestView;

    open spec fn view(&self) -> ConfigRequestView {
        match self {
            ConfigRequest::Read => ConfigRequestView::Read,
            ConfigRequest::Write(text) => ConfigRequestView::Write(text@),
            ConfigRequest::Rollback(text) => ConfigRequestView::Rollback(text@),
            ConfigRequest::Finish(outcome) => ConfigRequestView::Finish(outcome@),
        }
    }
}

/// What came of a request.
#[derive(Debug, PartialEq, Eq)]
pub enum ConfigEvent {
    /// There is no file to read.
    Missing,
    /// The file is there and could not be read.
    ReadFailed,
    /// The file was read; this is its text.
    Content(String),
    /// The text was written.
    Written,
    /// The text could not be written.
    WriteFailed,
}

/// An event as plain values.
pub enum ConfigEventView {
    Missing,
    ReadFailed,
    Content(Seq<char>),
    Written,
    WriteFailed,
}

impl View for ConfigEvent {
    type V = ConfigEventView;

    open spec fn view(&self) -> ConfigEventView {
        match self {
            ConfigEvent::Missing => ConfigEventView::Missing,
            ConfigEvent::ReadFailed => ConfigEventView::ReadFailed,
            ConfigEvent::Content(text) => ConfigEventView::Content(text@),
            ConfigEvent::Written => ConfigEventView::Written,
            ConfigEvent::WriteFailed => ConfigEventView::WriteFailed,
        }
    }
}

/// The request that a state stands for.
pub open spec fn request_of(state: ConfigStateView) -> ConfigRequestView {
    match state {
        ConfigStateView::Loading => ConfigRequestView::Read,
        ConfigStateView::Writing { original, updated } => ConfigRequestView::Write(updated),
        ConfigStateView::Restoring { original } => ConfigRequestView::Rollback(original),
        ConfigStateView::Done(outcome) => ConfigRequestView::Finish(outcome),
    }
}

/// The state after the file was read as `text`.
pub open spec fn state_after_read(text: Seq<char>, ids: IdentityView) -> ConfigStateView {
    match planned_text(text, ids) {
        Ok(updated) => ConfigStateView::Writing { original: text, updated },
        Err(outcome) => ConfigStateView::Done(outcome),
    }
}

/// The state that follows `state` on `event`. An event that does not
/// answer the request of the state leaves the state as it is.
pub open spec fn next_config_state(
    state: ConfigStateView,
    event: ConfigEventView,
    ids: IdentityView,
) -> ConfigStateView {
    match state {
        ConfigStateView::Loading => match event {
            ConfigEventView::Missing => ConfigStateView::Done(ConfigOutcomeView::NotFound),
            ConfigEventView::ReadFailed => ConfigStateView::Done(ConfigOutcomeView::ReadFailed),
            ConfigEventView::Content(text) => state_after_read(text, ids),
            _ => state,
        },
        ConfigStateView::Writing { original, updated } => match event {
            ConfigEventView::Written => ConfigStateView::Done(ConfigOutcomeView::Updated),
            ConfigEventView::WriteFailed => ConfigStateView::Restoring { original },
            _ => state,
        },
        ConfigStateView::Restoring { original } => match event {
            ConfigEventView::Written => ConfigStateView::Done(ConfigOutcomeView::WriteFailed),
            ConfigEventView::WriteFailed => ConfigStateView::Done(
                ConfigOutcomeView::RollbackFailed,
            ),
            _ => state,
        },
        ConfigStateView::Done(outcome) => state,
    }
}

impl ConfigState {
    /// The state of an update that has not begun.
    pub fn start() -> (state: ConfigState)
        ensures
            state@ == ConfigStateView::Loading,
    {
        ConfigState::Loading
    }

    /// Whether the update is over.
    pub fn finished(&self) -> (over: bool)
        ensures
            over == (self@ is Done),
    {
        match self {
            ConfigState::Done(_) => true,
            _ => false,
        }
    }
}

/// What the caller has to do in `state`.
pub fn update_request(state: &ConfigState) -> (request: ConfigRequest)
    ensures
        request@ == request_of(state@),
{
    match state {
        ConfigState::Loading => ConfigRequest::Read,
        ConfigState::Writing { original, updated } => ConfigRequest::Write(updated.clone()),
        ConfigState::Restoring { original } => ConfigRequest::Rollback(original.clone()),
        ConfigState::Done(outcome) => ConfigRequest::Finish(outcome.clone()),
    }
}

/// One step of an update: takes what came of the last request and gives
/// the state that follows.
///
/// Nothing is written before the whole new text exists, so the file is
/// either written in full or not touched. When writing fails, the next
/// request is to write the original text back.
pub fn update_step(state: ConfigState, event: ConfigEvent, ids: &IdentitySet) -> (next: ConfigState)
    ensures
        next@ == next_config_state(state@, event@, ids@),
{
    match state {
        ConfigState::Loading => match event {
            ConfigEvent::Missing => ConfigState::Done(ConfigOutcome::NotFound),
            ConfigEvent::ReadFailed => ConfigState::Done(ConfigOutcome::ReadFailed),
            ConfigEvent::Content(text) => {
                let plan = plan_update(text.as_str(), ids);
                match plan {
                    Ok(updated) => ConfigState::Writing { original: text, updated },
                    Err(outcome) => ConfigState::Done(outcome),
                }
            },
            _ => ConfigState::Loading,
        },
        ConfigState::Writing { original, updated } => match event {
            ConfigEvent::Written => ConfigState::Done(ConfigOutcome::Updated),
            ConfigEvent::WriteFailed => ConfigState::Restoring { original },
            _ => ConfigState::Writing { original, updated },
        },
        ConfigState::Restoring { original } => match event {
            ConfigEvent::Written => ConfigState::Done(ConfigOutcome::WriteFailed),
            ConfigEvent::WriteFailed => ConfigState::Done(ConfigOutcome::RollbackFailed),
            _ => ConfigState::Restoring { original },
        },
        ConfigState::Done(outcome) => ConfigState::Done(outcome),
    }
}

/// The five names that the update writes are all different.
pub proof fn lemma_names_differ()
    ensures
        machine_id_name() != mac_machine_id_name(),
        machine_id_name() != dev_device_id_name(),
        machine_id_name() != sqm_id_name(),
        mac_machine_id_name() != dev_device_id_name(),
        mac_machine_id_name() != sqm_id_name(),
        dev_device_id_name() != sqm_id_name(),
        machine_id_name().len() == 9,
        mac_machine_id_name().len() == 12,
        dev_device_id_name().len() == 11,
        sqm_id_name().len() == 5,
{
    reveal_strlit("machineId");
    reveal_strlit("macMachineId");
    reveal_strlit("devDeviceId");
    reveal_strlit("sqmId");
    assert("machineId"@.len() == 9);
    assert("macMachineId"@.len() == 12);
    assert("devDeviceId"@.len() == 11);
    assert("sqmId"@.len() == 5);
}

/// After the identity is written, each of the four fields of `telemetry`
/// holds the supplied value as a string, and every other field of
/// `telemetry` is what it was.
pub proof fn lemma_identity_fields(base: Map<Seq<char>, JsonView>, ids: IdentityView)
    ensures
        with_identity_fields(base, ids)[machine_id_name()] == JsonView::Text(ids.machine_id),
        with_identity_fields(base, ids)[mac_machine_id_name()] == JsonView::Text(
            ids.mac_machine_id,
        ),
        with_identity_fields(base, ids)[dev_device_id_name()] == JsonView::Text(
            ids.dev_device_id,
        ),
        with_identity_fields(base, ids)[sqm_id_name()] == JsonView::Text(ids.sqm_id),
        with_identity_fields(base, ids).dom() == base.dom().insert(machine_id_name()).insert(
            mac_machine_id_name(),
        ).insert(dev_device_id_name()).insert(sqm_id_name()),
        forall|name: Seq<char>|
            name != machine_id_name() && name != mac_machine_id_name() && name
                != dev_device_id_name() && name != sqm_id_name() && base.contains_key(name)
                ==> #[trigger] with_identity_fields(base, ids)[name] == base[name],
{
    lemma_names_differ();
    assert(with_identity_fields(base, ids).dom() =~= base.dom().insert(machine_id_name()).insert(
        mac_machine_id_name(),
    ).insert(dev_device_id_name()).insert(sqm_id_name()));
}

/// Whatever the document held, an update changes no field of its root but
/// `telemetry`: the other fields are the same, with the same values.
pub proof fn lemma_other_fields_unchanged(doc: JsonView, ids: IdentityView, name: Seq<char>)
    requires
        doc is Object,
        name != telemetry_name(),
    ensures
        with_identity(doc, ids) matches Some(JsonView::Object(fields)) && (fields.contains_key(name)
            <==> doc->Object_0.contains_key(name)) && (fields.contains_key(name) ==> fields[name]
            == doc->Object_0[name]),
{
}

/// Given a document whose root is an object without a `telemetry` field,
/// the updated document has `telemetry` as an object with exactly the four
/// identity fields, set to the supplied values, and every field that the
/// root had before is unchanged.
pub proof fn lemma_telemetry_created(doc: JsonView, ids: IdentityView)
    requires
        doc matches JsonView::Object(fields) && !fields.contains_key(telemetry_name()),
    ensures
        with_identity(doc, ids) matches Some(JsonView::Object(fields)) && {
            &&& fields.dom() == doc->Object_0.dom().insert(telemetry_name())
            &&& forall|name: Seq<char>| #[trigger]
                doc->Object_0.contains_key(name) ==> fields[name] == doc->Object_0[name]
            &&& fields[telemetry_name()] matches JsonView::Object(telemetry) && {
                &&& telemetry.dom() == set![
                    machine_id_name(),
                    mac_machine_id_name(),
                    dev_device_id_name(),
                    sqm_id_name(),
                ]
                &&& telemetry[machine_id_name()] == JsonView::Text(ids.machine_id)
                &&& telemetry[mac_machine_id_name()] == JsonView::Text(ids.mac_machine_id)
                &&& telemetry[dev_device_id_name()] == JsonView::Text(ids.dev_device_id)
                &&& telemetry[sqm_id_name()] == JsonView::Text(ids.sqm_id)
            }
        },
{
    let old_fields = doc->Object_0;
    let base = Map::<Seq<char>, JsonView>::empty();
    assert(telemetry_base(old_fields) == base);
    lemma_identity_fields(base, ids);
    let telemetry = with_identity_fields(base, ids);
    assert(telemetry.dom() =~= set![
        machine_id_name(),
        mac_machine_id_name(),
        dev_device_id_name(),
        sqm_id_name(),
    ]);
    let fields = old_fields.insert(telemetry_name(), JsonView::Object(telemetry));
    assert(fields.dom() =~= old_fields.dom().insert(telemetry_name()));
}

/// An update overrides the one before it: on a document that an update
/// with `first` has left, an update with `second` gives what it would have
/// given on the document as it was before either. So after two runs the four
/// identity fields hold the values of the second.
pub proof fn lemma_second_update_overrides(doc: JsonView, first: IdentityView, second: IdentityView)
    requires
        doc is Object,
    ensures
        with_identity(doc, first) matches Some(once) && with_identity(once, second)
            == with_identity(doc, second),
{
    lemma_names_differ();
    let fields = doc->Object_0;
    let base = telemetry_base(fields);
    let once_telemetry = with_identity_fields(base, first);
    let once_fields = fields.insert(telemetry_name(), JsonView::Object(once_telemetry));
    assert(telemetry_base(once_fields) == once_telemetry);
    assert(with_identity_fields(once_telemetry, second) =~= with_identity_fields(base, second));
    let twice_telemetry = JsonView::Object(with_identity_fields(base, second));
    assert(once_fields.insert(telemetry_name(), twice_telemetry) =~= fields.insert(
        telemetry_name(),
        twice_telemetry,
    ));
}

/// The text that the file holds after the caller has carried out `request`
/// and has reported `event`. A write that is reported as done leaves the
/// text that was to be written; one that failed may leave anything, here
/// `damaged`; no other request touches the file.
pub open spec fn file_after(
    before: Seq<char>,
    request: ConfigRequestView,
    event: ConfigEventView,
    damaged: Seq<char>,
) -> Seq<char> {
    match request {
        ConfigRequestView::Write(text) => if event is Written {
            text
        } else {
            damaged
        },
        ConfigRequestView::Rollback(text) => if event is Written {
            text
        } else {
            damaged
        },
        _ => before,
    }
}

/// An update that is over stays over, and asks for nothing but to finish.
pub proof fn lemma_done_is_final(
    outcome: ConfigOutcomeView,
    event: ConfigEventView,
    ids: IdentityView,
)
    ensures
        next_config_state(ConfigStateView::Done(outcome), event, ids) == ConfigStateView::Done(
            outcome,
        ),
        request_of(ConfigStateView::Done(outcome)) == ConfigRequestView::Finish(outcome),
{
}

/// Given a document whose root is no object, the update fails and asks for
/// nothing to be written: the file stays as it is, byte for byte.
pub proof fn lemma_root_not_object_leaves_file(text: Seq<char>, ids: IdentityView)
    requires
        parsed_json(text) matches Ok(doc) && !(doc is Object),
    ensures
        next_config_state(ConfigStateView::Loading, ConfigEventView::Content(text), ids)
            == ConfigStateView::Done(ConfigOutcomeView::RootNotObject),
        request_of(
            next_config_state(ConfigStateView::Loading, ConfigEventView::Content(text), ids),
        ) == ConfigRequestView::Finish(ConfigOutcomeView::RootNotObject),
        forall|event: ConfigEventView, damaged: Seq<char>|
            #[trigger] file_after(
                text,
                request_of(
                    next_config_state(
                        ConfigStateView::Loading,
                        ConfigEventView::Content(text),
                        ids,
                    ),
                ),
                event,
                damaged,
            ) == text,
{
}

/// A text is asked to be written only after the file was read, and only
/// where the whole new text could be worked out: then the text asked for is
/// that new text, and the state keeps the text that was read.
pub proof fn lemma_write_follows_plan(text: Seq<char>, ids: IdentityView)
    ensures
        match planned_text(text, ids) {
            Ok(updated) => next_config_state(
                ConfigStateView::Loading,
                ConfigEventView::Content(text),
                ids,
            ) == (ConfigStateView::Writing { original: text, updated }),
            Err(outcome) => next_config_state(
                ConfigStateView::Loading,
                ConfigEventView::Content(text),
                ids,
            ) == ConfigStateView::Done(outcome),
        },
{
}

/// When the write of the new text fails, the next request is to write back
/// exactly the text that was read, so that the file then holds its original
/// content again whatever the failed write left in it; when that succeeds
/// the update ends as failed with the file restored, and when it fails too
/// the update ends as in need of a restore by hand.
pub proof fn lemma_failed_write_restores_original(text: Seq<char>, ids: IdentityView)
    requires
        planned_text(text, ids) is Ok,
    ensures
        ({
            let writing = next_config_state(
                ConfigStateView::Loading,
                ConfigEventView::Content(text),
                ids,
            );
            let restoring = next_config_state(writing, ConfigEventView::WriteFailed, ids);
            &&& request_of(restoring) == ConfigRequestView::Rollback(text)
            &&& forall|before: Seq<char>, damaged: Seq<char>|
                #[trigger] file_after(
                    before,
                    request_of(restoring),
                    ConfigEventView::Written,
                    damaged,
                ) == text
            &&& next_config_state(restoring, ConfigEventView::Written, ids)
                == ConfigStateView::Done(ConfigOutcomeView::WriteFailed)
            &&& next_config_state(restoring, ConfigEventView::WriteFailed, ids)
                == ConfigStateView::Done(ConfigOutcomeView::RollbackFailed)
        }),
{
}

} // verus!
