//! Storing a configuration in a file and loading one back.
//!
//! A configuration file holds a single JSON object with the fields
//! `baseConfiguration` and `configuration`. What the front end hands over is
//! stored as it is, and what a file holds is handed to the front end as it
//! is, once it has been checked to have that shape.

use vstd::prelude::*;
use std::path::PathBuf;
use crate::diagram::Diagram;
use crate::error::{CommandError, ErrorKind};
use crate::messages::{
    CONFIGURATION_REJECTED,
    CONFIGURATION_STORED,
    CONFIGURATION_STORE_FAILED,
    CONFIGURATION_UNREADABLE,
    ERROR_EVENT,
    EXPORT_CONFIGURATION,
    GENERIC_ERROR,
    LOAD_CONFIGURATION,
    LOAD_FIRST,
    OK_EVENT,
    with_detail,
};
use crate::notify::{Notification, Payload};
use crate::paths::{WriteRequest, path_with_extension, with_extension};
use crate::state::State;
use crate::sync::{LockLedger, guarded};

verus! {

/// Name of the field that holds the base configuration.
pub const BASE_CONFIGURATION_FIELD: &'static str = "baseConfiguration";

/// Name of the field that holds the configuration.
pub const CONFIGURATION_FIELD: &'static str = "configuration";

/// Extension that every configuration file is given.
pub const JSON_EXTENSION: &'static str = "json";

/// Text that reports a field a configuration file lacks, up to the field's
/// name, which follows it between backquotes.
pub const MISSING_FIELD: &'static str = "missing field `";

/// What closes the name of a missing field.
pub const BACKQUOTE: &'static str = "`";

/// A parsed JSON document: `serde_json::Value`.
#[verifier::external_type_specification]
#[verifier::external_body]
pub struct ExJsonValue(serde_json::Value);

/// The error of a failed JSON parse: `serde_json::Error`.
#[verifier::external_type_specification]
#[verifier::external_body]
pub struct ExJsonError(serde_json::Error);

/// The member names of `document` where it is a JSON object, and no name at
/// all where it is anything else.
pub uninterp spec fn json_members(document: serde_json::Value) -> Set<Seq<char>>;

/// The member names of the object that `text` is the JSON text of; `None`
/// where `text` is no JSON text. A text that holds anything but an object
/// has no members.
pub uninterp spec fn json_root_members(text: Seq<char>) -> Option<Set<Seq<char>>>;

/// Parses `text` as JSON: `serde_json::from_str` at the type `Value`.
///
/// The outcome is a function of the text alone: the parse succeeds exactly
/// on the texts that have root members, and the document it returns has
/// those members.
#[verifier::external_body]
pub(crate) fn parse_json(text: &str) -> (parsed: Result<serde_json::Value, serde_json::Error>)
    ensures
        match parsed {
            Ok(document) => json_root_members(text@) == Some(json_members(document)),
            Err(_) => json_root_members(text@) is None,
        },
{
    serde_json::from_str::<serde_json::Value>(text)
}

/// Whether `document` is an object with a member called `name`:
/// `Value::get` with a string index, which finds nothing in a document that
/// is no object.
#[verifier::external_body]
pub(crate) fn has_member(document: &serde_json::Value, name: &str) -> (present: bool)
    ensures
        present == json_members(*document).contains(name@),
{
    document.get(name).is_some()
}

/// The text of a JSON parse error, which tells what was wrong and where.
/// Nothing is stated of it.
#[verifier::external_body]
pub(crate) fn json_error_text(error: &serde_json::Error) -> (text: String) {
    error.to_string()
}

/// The first required field that is absent, given which of the two are present.
pub fn missing_field(has_base_configuration: bool, has_configuration: bool) -> (missing: Option<
    &'static str,
>)
    ensures
        !has_base_configuration ==> (missing matches Some(name) && name@
            == BASE_CONFIGURATION_FIELD@),
        has_base_configuration && !has_configuration ==> (missing matches Some(name) && name@
            == CONFIGURATION_FIELD@),
        has_base_configuration && has_configuration ==> missing is None,
{
    if !has_base_configuration {
        Some(BASE_CONFIGURATION_FIELD)
    } else if !has_configuration {
        Some(CONFIGURATION_FIELD)
    } else {
        None
    }
}

/// The members make up a whole configuration: both fields are among them.
pub open spec fn whole(members: Set<Seq<char>>) -> bool {
    members.contains(BASE_CONFIGURATION_FIELD@) && members.contains(CONFIGURATION_FIELD@)
}

/// The text is the JSON text of an object that holds both fields.
pub open spec fn acceptable(text: Seq<char>) -> bool {
    json_root_members(text) matches Some(members) && whole(members)
}

/// The text that reports the first field missing from `members`.
pub open spec fn missing_field_text(members: Set<Seq<char>>) -> Seq<char> {
    if !members.contains(BASE_CONFIGURATION_FIELD@) {
        MISSING_FIELD@ + BASE_CONFIGURATION_FIELD@ + BACKQUOTE@
    } else {
        MISSING_FIELD@ + CONFIGURATION_FIELD@ + BACKQUOTE@
    }
}

/// Checks that a parsed document is an object with both fields of a whole
/// configuration, and names the first one that is missing otherwise.
pub fn check_document(document: &serde_json::Value) -> (checked: Result<(), CommandError>)
    ensures
        checked is Ok <==> whole(json_members(*document)),
        checked matches Err(error) ==> error.kind == ErrorKind::ValidationError && error.message@
            == missing_field_text(json_members(*document)),
{
    let has_base_configuration = has_member(document, BASE_CONFIGURATION_FIELD);
    let has_configuration = has_member(document, CONFIGURATION_FIELD);
    match missing_field(has_base_configuration, has_configuration) {
        None => Ok(()),
        Some(name) => {
            let mut text = with_detail(MISSING_FIELD, name);
            text.append(BACKQUOTE);
            Err(CommandError::new(ErrorKind::ValidationError, text))
        },
    }
}

/// Checks that `text` is the JSON text of a whole configuration.
///
/// A text that is no JSON is reported with the parser's own words, a
/// document that lacks a field with the name of the first field missing.
pub fn validate_configuration(text: &str) -> (checked: Result<(), CommandError>)
    ensures
        checked is Ok <==> acceptable(text@),
        checked matches Err(error) ==> error.kind == ErrorKind::ValidationError,
        match (checked, json_root_members(text@)) {
            (Err(error), Some(members)) => error.message@ == missing_field_text(members),
            _ => true,
        },
{
    match parse_json(text) {
        Ok(document) => check_document(&document),
        Err(error) => Err(CommandError::new(ErrorKind::ValidationError, json_error_text(&error))),
    }
}

/// What `store_configuration` owes.
pub open spec fn stored(
    whole_configuration: String,
    chosen: Option<PathBuf>,
    request: Option<WriteRequest>,
) -> bool {
    match chosen {
        None => request is None,
        Some(path) => {
            &&& request matches Some(request)
            &&& request.contents == whole_configuration
            &&& request.path == path_with_extension(path, JSON_EXTENSION@)
        },
    }
}

/// Stores the configuration the front end handed over: the file to write is
/// the chosen path with the extension `json`, and its contents are the
/// configuration exactly as it was handed over. Nothing is to be written
/// when no path was chosen.
pub fn store_configuration(whole_configuration: String, chosen: Option<PathBuf>) -> (request:
    Option<WriteRequest>)
    ensures
        stored(whole_configuration, chosen, request),
{
    match chosen {
        Some(path) => {
            proof {
                reveal_strlit("json");
            }
            Some(
                WriteRequest {
                    path: with_extension(&path, JSON_EXTENSION),
                    contents: whole_configuration,
                },
            )
        },
        None => None,
    }
}

/// What the front end is told once a configuration file has been written,
/// or could not be.
pub fn configuration_stored(outcome: Result<(), String>) -> (notification: Notification)
    ensures
        match outcome {
            Ok(_) => notification.reports(OK_EVENT@, CONFIGURATION_STORED@),
            Err(reason) => notification.reports(
                ERROR_EVENT@,
                CONFIGURATION_STORE_FAILED@ + reason@,
            ),
        },
{
    match outcome {
        Ok(_) => Notification::success(CONFIGURATION_STORED),
        Err(reason) => Notification::failure(
            with_detail(CONFIGURATION_STORE_FAILED, reason.as_str()),
        ),
    }
}

/// What `diagram_present` owes: nothing to report when a diagram is stored,
/// the failure to report when none is.
pub open spec fn presence<G>(diagram: Option<Diagram<G>>, absent: Option<Notification>) -> bool {
    match diagram {
        Some(_) => absent is None,
        None => absent matches Some(notification) && notification.reports(
            ERROR_EVENT@,
            LOAD_FIRST@,
        ),
    }
}

/// Tells a menu-triggered operation that needs a diagram whether one is
/// stored, while the diagram lock is held.
pub fn diagram_present<G>(diagram: &Option<Diagram<G>>) -> (absent: Option<Notification>)
    ensures
        presence(*diagram, absent),
{
    match diagram {
        Some(_) => None,
        None => Some(Notification::failure(LOAD_FIRST.to_owned())),
    }
}

/// What a request to export the configuration is answered with, given the
/// diagram slot while its lock is held: with a diagram stored, the event
/// that asks the front end to hand over its configuration; without one, the
/// failure to report.
pub fn configuration_export<G>(diagram: &Option<Diagram<G>>) -> (notification: Notification)
    ensures
        match *diagram {
            Some(_) => notification.event@ == EXPORT_CONFIGURATION@ && notification.payload
                == Payload::Signal,
            None => notification.reports(ERROR_EVENT@, LOAD_FIRST@),
        },
{
    match diagram_present(diagram) {
        None => Notification::signal(EXPORT_CONFIGURATION),
        Some(absent) => absent,
    }
}

/// Begins the export of the configuration. Takes the diagram lock if it is
/// free. With a diagram stored, the front end is asked to hand over its
/// configuration; otherwise it is told why not.
pub fn export_configuration<S, G, F>(state: &State<S, G, F>) -> (notification: Notification)
    ensures
        ({
            ||| notification.event@ == EXPORT_CONFIGURATION@ && notification.payload
                == Payload::Signal
            ||| notification.reports(ERROR_EVENT@, LOAD_FIRST@)
            ||| notification.reports(ERROR_EVENT@, GENERIC_ERROR@)
        }),
{
    let mut ledger = LockLedger::new();
    match state.try_lock_diagram(&mut ledger) {
        Some(guard) => configuration_export(guarded(&guard)),
        None => Notification::failure(GENERIC_ERROR.to_owned()),
    }
}

/// Begins the loading of a configuration. Takes the diagram lock if it is
/// free. With a diagram stored the answer is `None` and the user is to be
/// asked for a file; otherwise the answer tells the front end why not.
pub fn load_configuration<S, G, F>(state: &State<S, G, F>) -> (refusal: Option<Notification>)
    ensures
        refusal matches Some(notification) ==> {
            ||| notification.reports(ERROR_EVENT@, LOAD_FIRST@)
            ||| notification.reports(ERROR_EVENT@, GENERIC_ERROR@)
        },
{
    let mut ledger = LockLedger::new();
    match state.try_lock_diagram(&mut ledger) {
        Some(guard) => diagram_present(guarded(&guard)),
        None => Some(Notification::failure(GENERIC_ERROR.to_owned())),
    }
}

/// What `configuration_loaded` owes.
pub open spec fn loaded<CF: Fn(&String) -> Result<(), String>>(
    read: Result<String, String>,
    conforms: CF,
    notification: Notification,
) -> bool {
    match read {
        Err(reason) => notification.reports(ERROR_EVENT@, CONFIGURATION_UNREADABLE@ + reason@),
        Ok(content) => if acceptable(content@) {
            ||| {
                &&& call_ensures(conforms, (&content,), Ok(()))
                &&& notification.event@ == LOAD_CONFIGURATION@
                &&& notification.payload == Payload::Text(content)
            }
            ||| exists|reason: String|
                {
                    &&& call_ensures(conforms, (&content,), Err(reason))
                    &&& notification.reports(ERROR_EVENT@, CONFIGURATION_REJECTED@ + reason@)
                }
        } else {
            &&& notification.event@ == ERROR_EVENT@
            &&& notification.payload matches Payload::Text(text)
            &&& CONFIGURATION_REJECTED@.is_prefix_of(text@)
            &&& json_root_members(content@) matches Some(members) ==> text@
                == CONFIGURATION_REJECTED@ + missing_field_text(members)
        },
    }
}

/// Judges what was read from the chosen configuration file. Contents are
/// first checked to be a JSON object with both fields of a whole
/// configuration, then handed to `conforms`, which decides whether the
/// fields themselves hold what the layout engine understands. Contents that
/// pass both go to the front end exactly as they were read; anything else
/// is reported as an error.
pub fn configuration_loaded<CF: Fn(&String) -> Result<(), String>>(
    read: Result<String, String>,
    conforms: CF,
) -> (notification: Notification)
    requires
        forall|content: &String| call_requires(conforms, (content,)),
    ensures
        loaded(read, conforms, notification),
{
    match read {
        Err(reason) => Notification::failure(
            with_detail(CONFIGURATION_UNREADABLE, reason.as_str()),
        ),
        Ok(content) => match validate_configuration(content.as_str()) {
            Ok(_) => {
                let verdict = conforms(&content);
                match verdict {
                    Ok(accepted) => {
                        assert(verdict == Ok::<(), String>(()));
                        Notification::text(LOAD_CONFIGURATION, content)
                    },
                    Err(reason) => Notification::failure(
                        with_detail(CONFIGURATION_REJECTED, reason.as_str()),
                    ),
                }
            },
            Err(error) => Notification::failure(
                with_detail(CONFIGURATION_REJECTED, error.message.as_str()),
            ),
        },
    }
}

/// A whole configuration that is stored and then loaded from the file it
/// was stored in reaches the front end unchanged: whatever
/// `store_configuration` asks to be written for it is, once read back, what
/// `configuration_loaded` forwards.
pub proof fn stored_configuration_loads_unchanged<CF: Fn(&String) -> Result<(), String>>(
    whole_configuration: String,
    chosen: PathBuf,
    request: Option<WriteRequest>,
    conforms: CF,
    notification: Notification,
)
    requires
        acceptable(whole_configuration@),
        forall|verdict: Result<(), String>|
            call_ensures(conforms, (&whole_configuration,), verdict) ==> verdict is Ok,
        stored(whole_configuration, Some(chosen), request),
        request matches Some(request) && loaded(Ok(request.contents), conforms, notification),
    ensures
        notification.event@ == LOAD_CONFIGURATION@,
        notification.payload == Payload::Text(whole_configuration),
{
}

} // verus!
