//! Round trip of the parsed system through an external text editor.
//!
//! The round trip is a session that moves through the phases
//! `Idle → Serialized → Editing → Reparsing → {Committed | RolledBack}`.
//! Each function here takes the session and the outcome of the step that
//! was last carried out, and answers with the session's next phase and the
//! step to carry out next. Writing and deleting the temporary file, running
//! the editor and parsing the edited file are carried out by the caller; no
//! lock is held while they run.

use vstd::prelude::*;
use std::path::PathBuf;
use crate::diagram::{Diagram, Viewport};
use crate::error::{CommandError, ErrorKind};
use crate::messages::{GENERIC_ERROR, LOAD_FIRST};
use crate::state::State;
use crate::svg::{SVGObject, derived_from, install_diagram, timestamp_now};
use crate::sync::{LockLedger, Resource, ascending_acquisitions_are_admitted, guarded, guarded_mut};
use crate::system::ParsedSystem;
use crate::edit::utils::{Platform, get_editor};

pub mod utils;

verus! {

/// Where a session stands.
#[derive(Debug, Clone, Copy, PartialEq, Eq, Structural)]
pub enum EditPhase {
    /// Nothing has happened yet.
    Idle,
    /// The system has been turned into text that waits to be written out.
    Serialized,
    /// The temporary file exists and the editor is to run on it.
    Editing,
    /// The editor has exited successfully and the file is to be parsed.
    Reparsing,
    /// The edited system has replaced the stored one.
    Committed,
    /// The session has ended and the stored system is the one it began with.
    RolledBack,
}

/// One round trip through the editor.
#[derive(Debug)]
pub struct EditSession {
    pub phase: EditPhase,
    /// Name of the temporary file of this session, from the moment it is
    /// about to be written until the session ends.
    pub file_name: Option<String>,
}

/// The step the caller carries out next.
#[derive(Debug)]
pub enum EditAction {
    /// Write `contents` to the file `file_name` in the temporary directory.
    WriteTemporary { file_name: String, contents: String },
    /// Run `program` with `arguments` followed by the path of the temporary
    /// file `file_name`, and wait for it to exit.
    LaunchEditor { program: PathBuf, arguments: Vec<String>, file_name: String },
    /// Parse the temporary file `file_name` as a system description.
    Reparse { file_name: String },
    /// Delete the temporary file `remove`, if any, ignoring a failure to do
    /// so, and answer with `outcome`.
    Finish { remove: Option<String>, outcome: Result<SVGObject, CommandError> },
}

impl EditSession {
    /// The session holds a file name exactly while a temporary file may exist.
    pub open spec fn well_formed(self) -> bool {
        match self.phase {
            EditPhase::Serialized | EditPhase::Editing | EditPhase::Reparsing => self.file_name
                is Some,
            _ => self.file_name is None,
        }
    }

    /// The session is in `phase` and its temporary file is `file_name`.
    pub open spec fn stands_at(self, phase: EditPhase, file_name: String) -> bool {
        self.phase == phase && self.file_name == Some(file_name)
    }

    /// A session that has not begun.
    pub fn new() -> (session: EditSession)
        ensures
            session.phase == EditPhase::Idle,
            session.file_name is None,
            session.well_formed(),
    {
        EditSession { phase: EditPhase::Idle, file_name: None }
    }
}

/// `step` ends `session` without touching the stored system: the session
/// is rolled back, its temporary file (if it has one) is to be deleted, and
/// the failure of `kind` is reported as `text`.
pub open spec fn rolled_back(
    session: EditSession,
    step: (EditSession, EditAction),
    kind: ErrorKind,
    text: Seq<char>,
) -> bool {
    &&& step.0.phase == EditPhase::RolledBack
    &&& step.0.file_name is None
    &&& step.1 matches EditAction::Finish { remove, outcome }
    &&& remove == session.file_name
    &&& outcome matches Err(error)
    &&& error.kind == kind
    &&& error.message@ == text
}

/// Ends `session` with `error`.
fn roll_back(session: EditSession, error: CommandError) -> (step: (EditSession, EditAction))
    ensures
        rolled_back(session, step, error.kind, error.message@),
        step.1 matches EditAction::Finish { outcome, .. } && outcome == Err::<
            SVGObject,
            CommandError,
        >(error),
{
    (
        EditSession { phase: EditPhase::RolledBack, file_name: None },
        EditAction::Finish { remove: session.file_name, outcome: Err(error) },
    )
}

/// A fresh random name for a temporary file: `uuid::Uuid::new_v4`, printed.
///
/// The result is random, so nothing is stated of it. The call panics only
/// where the operating system's random source cannot be read.
#[verifier::external_body]
pub(crate) fn fresh_identifier() -> (identifier: String) {
    uuid::Uuid::new_v4().to_string()
}

/// What `begin_edit` owes.
pub open spec fn begun<S, TF: Fn(&S) -> Result<String, String>>(
    session: EditSession,
    system: Option<ParsedSystem<S>>,
    identifier: String,
    to_text: TF,
    step: (EditSession, EditAction),
) -> bool {
    if session.phase != EditPhase::Idle {
        rolled_back(session, step, ErrorKind::ValidationError, GENERIC_ERROR@)
    } else {
        match system {
            None => {
                &&& step.0 == session
                &&& step.1 matches EditAction::Finish { remove, outcome }
                &&& remove is None
                &&& outcome matches Err(error)
                &&& error.kind == ErrorKind::NotLoaded
                &&& error.message@ == LOAD_FIRST@
            },
            Some(stored) => {
                ||| {
                    &&& step.0.stands_at(EditPhase::Serialized, identifier)
                    &&& step.1 matches EditAction::WriteTemporary { file_name, contents }
                    &&& file_name == identifier
                    &&& call_ensures(to_text, (&stored.model,), Ok(contents))
                }
                ||| {
                    &&& rolled_back(session, step, ErrorKind::SerializationError, GENERIC_ERROR@)
                    &&& exists|reason: String|
                        call_ensures(to_text, (&stored.model,), Err::<String, String>(reason))
                }
            },
        }
    }
}

/// First step of a round trip, taken while the system lock is held: turns
/// the stored system into text to be written to the temporary file
/// `identifier`. Without a stored system the session stays idle and nothing
/// is to be written.
pub fn begin_edit<S, TF: Fn(&S) -> Result<String, String>>(
    session: EditSession,
    system: &Option<ParsedSystem<S>>,
    identifier: String,
    to_text: TF,
) -> (step: (EditSession, EditAction))
    requires
        forall|model: &S| call_requires(to_text, (model,)),
    ensures
        begun(session, *system, identifier, to_text, step),
{
    match session.phase {
        EditPhase::Idle => {},
        _ => {
            return roll_back(
                session,
                CommandError::fixed(ErrorKind::ValidationError, GENERIC_ERROR),
            );
        },
    }
    match system {
        None => (
            session,
            EditAction::Finish {
                remove: None,
                outcome: Err(CommandError::fixed(ErrorKind::NotLoaded, LOAD_FIRST)),
            },
        ),
        Some(stored) => match to_text(&stored.model) {
            Ok(contents) => (
                EditSession { phase: EditPhase::Serialized, file_name: Some(identifier.clone()) },
                EditAction::WriteTemporary { file_name: identifier, contents },
            ),
            Err(_) => roll_back(
                session,
                CommandError::fixed(ErrorKind::SerializationError, GENERIC_ERROR),
            ),
        },
    }
}

/// Begins a round trip on the stored system. Waits for the system lock and
/// gives it up before returning.
///
/// The answer is either the text to write to a freshly named temporary
/// file, or the end of the session with an error and nothing to delete.
pub fn initiate_edit<S, G, F, TF: Fn(&S) -> Result<String, String>>(
    state: &State<S, G, F>,
    to_text: TF,
) -> (step: (EditSession, EditAction))
    requires
        forall|model: &S| call_requires(to_text, (model,)),
    ensures
        match step.1 {
            EditAction::WriteTemporary { file_name, contents } => {
                &&& step.0.stands_at(EditPhase::Serialized, file_name)
                &&& exists|model: S| call_ensures(to_text, (&model,), Ok(contents))
            },
            EditAction::Finish { remove, outcome } => {
                &&& remove is None
                &&& step.0.file_name is None
                &&& step.0.phase == EditPhase::Idle || step.0.phase == EditPhase::RolledBack
                &&& outcome matches Err(error)
                &&& match error.kind {
                    ErrorKind::NotLoaded => error.message@ == LOAD_FIRST@ && step.0.phase
                        == EditPhase::Idle,
                    ErrorKind::LockContention | ErrorKind::SerializationError => error.message@
                        == GENERIC_ERROR@ && step.0.phase == EditPhase::RolledBack,
                    _ => false,
                }
            },
            _ => false,
        },
{
    let session = EditSession::new();
    let mut ledger = LockLedger::new();
    match state.lock_system(&mut ledger) {
        Ok(guard) => begin_edit(session, guarded(&guard), fresh_identifier(), to_text),
        Err(_) => roll_back(session, CommandError::fixed(ErrorKind::LockContention, GENERIC_ERROR)),
    }
}

/// What `editor_resolved` owes.
pub open spec fn launched(
    session: EditSession,
    written: Result<(), String>,
    editor: Option<(PathBuf, Vec<String>)>,
    step: (EditSession, EditAction),
) -> bool {
    if session.phase != EditPhase::Serialized || session.file_name is None {
        rolled_back(session, step, ErrorKind::ValidationError, GENERIC_ERROR@)
    } else if written is Err {
        rolled_back(session, step, ErrorKind::IOError, GENERIC_ERROR@)
    } else {
        match editor {
            None => rolled_back(session, step, ErrorKind::ExternalToolUnavailable, GENERIC_ERROR@),
            Some((path, options)) => {
                &&& step.0.stands_at(EditPhase::Editing, session.file_name->0)
                &&& step.1 matches EditAction::LaunchEditor { program, arguments, file_name }
                &&& program == path
                &&& arguments == options
                &&& file_name == session.file_name->0
            },
        }
    }
}

/// Second step of a round trip, for every outcome of the search for an
/// editor: once the temporary file is written, the editor found is to be
/// launched on it. A file that could not be written and a search that found
/// no editor end the session; the temporary file is to be deleted.
pub fn editor_resolved(
    session: EditSession,
    written: Result<(), String>,
    editor: Option<(PathBuf, Vec<String>)>,
) -> (step: (EditSession, EditAction))
    ensures
        launched(session, written, editor, step),
{
    let serialized = match session.phase {
        EditPhase::Serialized => session.file_name.is_some(),
        _ => false,
    };
    if !serialized {
        return roll_back(session, CommandError::fixed(ErrorKind::ValidationError, GENERIC_ERROR));
    }
    if written.is_err() {
        return roll_back(session, CommandError::fixed(ErrorKind::IOError, GENERIC_ERROR));
    }
    match editor {
        None => roll_back(
            session,
            CommandError::fixed(ErrorKind::ExternalToolUnavailable, GENERIC_ERROR),
        ),
        Some((program, arguments)) => {
            let file_name = session.file_name.unwrap();
            (
                EditSession { phase: EditPhase::Editing, file_name: Some(file_name.clone()) },
                EditAction::LaunchEditor { program, arguments, file_name },
            )
        },
    }
}

/// Second step of a round trip: once the temporary file is written, looks
/// for an editor among the candidates of `platform` and has the first one
/// found launched on the file. No editor is looked for when the file could
/// not be written.
pub fn temporary_written(
    session: EditSession,
    written: Result<(), String>,
    platform: Platform,
) -> (step: (EditSession, EditAction))
    ensures
        exists|editor: Option<(PathBuf, Vec<String>)>| launched(session, written, editor, step),
        session.phase == EditPhase::Serialized && session.file_name is Some && written is Ok ==> {
            ||| rolled_back(session, step, ErrorKind::ExternalToolUnavailable, GENERIC_ERROR@)
            ||| step.0.stands_at(EditPhase::Editing, session.file_name->0) && step.1
                is LaunchEditor
        },
{
    let search = match session.phase {
        EditPhase::Serialized => session.file_name.is_some() && written.is_ok(),
        _ => false,
    };
    let editor = if search {
        get_editor(platform)
    } else {
        None
    };
    editor_resolved(session, written, editor)
}

/// What `editor_exited` owes. `exit` is `None` when the editor could not be
/// started, and otherwise tells whether it exited successfully.
pub open spec fn exited(
    session: EditSession,
    exit: Option<bool>,
    step: (EditSession, EditAction),
) -> bool {
    if session.phase != EditPhase::Editing || session.file_name is None {
        rolled_back(session, step, ErrorKind::ValidationError, GENERIC_ERROR@)
    } else if exit == Some(true) {
        &&& step.0.stands_at(EditPhase::Reparsing, session.file_name->0)
        &&& step.1 matches EditAction::Reparse { file_name }
        &&& file_name == session.file_name->0
    } else {
        rolled_back(session, step, ErrorKind::ExternalToolUnavailable, GENERIC_ERROR@)
    }
}

/// Third step of a round trip: after a successful exit of the editor the
/// temporary file is to be parsed. An editor that could not be started or
/// that exited with a failure status ends the session: the temporary file
/// is to be deleted, and the stored system, which this function has no
/// access to, stays as it is.
pub fn editor_exited(session: EditSession, exit: Option<bool>) -> (step: (EditSession, EditAction))
    ensures
        exited(session, exit, step),
{
    let editing = match session.phase {
        EditPhase::Editing => session.file_name.is_some(),
        _ => false,
    };
    if !editing {
        return roll_back(session, CommandError::fixed(ErrorKind::ValidationError, GENERIC_ERROR));
    }
    let success = match exit {
        Some(success) => success,
        None => false,
    };
    if success {
        let file_name = session.file_name.unwrap();
        (
            EditSession { phase: EditPhase::Reparsing, file_name: Some(file_name.clone()) },
            EditAction::Reparse { file_name },
        )
    } else {
        roll_back(session, CommandError::fixed(ErrorKind::ExternalToolUnavailable, GENERIC_ERROR))
    }
}

/// On which grounds a replacement system is turned down, and with which text.
pub open spec fn replacement_refused<
    S,
    G,
    DF: Fn(&S) -> Result<(G, Viewport), String>,
    SF: Fn(&Diagram<G>) -> Result<String, String>,
>(replacement: ParsedSystem<S>, derive: DF, serialize: SF, error: CommandError) -> bool {
    match error.kind {
        ErrorKind::ValidationError => call_ensures(
            derive,
            (&replacement.model,),
            Err(error.message),
        ),
        ErrorKind::SerializationError => exists|diagram: Diagram<G>|
            {
                &&& #[trigger] derived_from(replacement.model, derive, diagram)
                &&& call_ensures(serialize, (&diagram,), Err(error.message))
            },
        _ => false,
    }
}

/// Replaces the stored system by `replacement` and the stored diagram by
/// the one derived from it, while both locks are held. Either both are
/// replaced and the text of the new diagram is returned, or, when no
/// diagram can be derived from the replacement or the diagram cannot be
/// serialized, both slots keep what they held.
pub fn commit_edit<
    S,
    G,
    DF: Fn(&S) -> Result<(G, Viewport), String>,
    SF: Fn(&Diagram<G>) -> Result<String, String>,
>(
    system: &mut Option<ParsedSystem<S>>,
    diagram: &mut Option<Diagram<G>>,
    replacement: ParsedSystem<S>,
    derive: DF,
    serialize: SF,
) -> (content: Result<String, CommandError>)
    requires
        forall|model: &S| call_requires(derive, (model,)),
        forall|framed: &Diagram<G>| call_requires(serialize, (framed,)),
    ensures
        match content {
            Ok(text) => {
                &&& *final(system) == Some(replacement)
                &&& *final(diagram) matches Some(stored)
                &&& derived_from(replacement.model, derive, stored)
                &&& call_ensures(serialize, (&stored,), Ok(text))
            },
            Err(error) => {
                &&& *final(system) == *old(system)
                &&& *final(diagram) == *old(diagram)
                &&& replacement_refused(replacement, derive, serialize, error)
            },
        },
{
    match derive(&replacement.model) {
        Err(reason) => Err(CommandError::new(ErrorKind::ValidationError, reason)),
        Ok((geometry, viewport)) => {
            let fresh = Diagram::new(geometry, viewport);
            assert(derived_from(replacement.model, derive, fresh));
            match install_diagram(diagram, fresh, serialize) {
                Ok(text) => {
                    *system = Some(replacement);
                    Ok(text)
                },
                Err(error) => Err(error),
            }
        },
    }
}

/// What `conclude_edit` owes.
pub open spec fn concluded(
    session: EditSession,
    committed: Result<String, CommandError>,
    timestamp: String,
    step: (EditSession, EditAction),
) -> bool {
    match committed {
        Ok(content) => {
            &&& step.0.phase == EditPhase::Committed
            &&& step.0.file_name is None
            &&& step.1 matches EditAction::Finish { remove, outcome }
            &&& remove == session.file_name
            &&& outcome matches Ok(svg)
            &&& svg.content == content
            &&& svg.timestamp == timestamp
        },
        Err(error) => {
            &&& rolled_back(session, step, error.kind, error.message@)
            &&& step.1 matches EditAction::Finish { outcome, .. }
            &&& outcome == Err::<SVGObject, CommandError>(error)
        },
    }
}

/// Last step of a round trip: ends the session as committed with the text
/// of the new diagram, or as rolled back with the reason why the
/// replacement was turned down. The temporary file is to be deleted either
/// way.
pub fn conclude_edit(
    session: EditSession,
    committed: Result<String, CommandError>,
    timestamp: String,
) -> (step: (EditSession, EditAction))
    ensures
        concluded(session, committed, timestamp, step),
{
    match committed {
        Ok(content) => (
            EditSession { phase: EditPhase::Committed, file_name: None },
            EditAction::Finish {
                remove: session.file_name,
                outcome: Ok(SVGObject { content, timestamp }),
            },
        ),
        Err(error) => roll_back(session, error),
    }
}

/// Whether `error` is one that `reparsed` reports for the parse result
/// `parsed`.
pub open spec fn reparse_refused<
    S,
    G,
    DF: Fn(&S) -> Result<(G, Viewport), String>,
    SF: Fn(&Diagram<G>) -> Result<String, String>,
>(
    session: EditSession,
    parsed: Result<ParsedSystem<S>, String>,
    derive: DF,
    serialize: SF,
    error: CommandError,
) -> bool {
    if session.phase != EditPhase::Reparsing || session.file_name is None {
        error.kind == ErrorKind::ValidationError && error.message@ == GENERIC_ERROR@
    } else {
        match parsed {
            Err(reason) => error.kind == ErrorKind::ValidationError && error.message == reason,
            Ok(replacement) => {
                ||| error.kind == ErrorKind::LockContention && error.message@ == GENERIC_ERROR@
                ||| replacement_refused(replacement, derive, serialize, error)
            },
        }
    }
}

/// Last step of a round trip: commits the system parsed from the edited
/// file. Waits for the system lock, then for the diagram lock.
///
/// The session ends in every case and the temporary file is to be deleted.
/// It ends as committed only when the file parsed, a diagram was derived
/// from the new system and serialized; then the answer carries the text of
/// that diagram. In all other cases it ends as rolled back.
pub fn reparsed<
    S,
    G,
    F,
    DF: Fn(&S) -> Result<(G, Viewport), String>,
    SF: Fn(&Diagram<G>) -> Result<String, String>,
>(
    state: &State<S, G, F>,
    session: EditSession,
    parsed: Result<ParsedSystem<S>, String>,
    derive: DF,
    serialize: SF,
) -> (step: (EditSession, EditAction))
    requires
        forall|model: &S| call_requires(derive, (model,)),
        forall|framed: &Diagram<G>| call_requires(serialize, (framed,)),
    ensures
        step.0.file_name is None,
        step.1 matches EditAction::Finish { remove, outcome } && remove == session.file_name
            && match outcome {
            Ok(svg) => {
                &&& step.0.phase == EditPhase::Committed
                &&& session.phase == EditPhase::Reparsing
                &&& parsed matches Ok(replacement)
                &&& exists|diagram: Diagram<G>|
                    {
                        &&& #[trigger] derived_from(replacement.model, derive, diagram)
                        &&& call_ensures(serialize, (&diagram,), Ok(svg.content))
                    }
            },
            Err(error) => {
                &&& step.0.phase == EditPhase::RolledBack
                &&& reparse_refused(session, parsed, derive, serialize, error)
            },
        },
{
    let reparsing = match session.phase {
        EditPhase::Reparsing => session.file_name.is_some(),
        _ => false,
    };
    if !reparsing {
        return roll_back(session, CommandError::fixed(ErrorKind::ValidationError, GENERIC_ERROR));
    }
    let replacement = match parsed {
        Ok(replacement) => replacement,
        Err(reason) => {
            return roll_back(session, CommandError::new(ErrorKind::ValidationError, reason));
        },
    };
    let mut ledger = LockLedger::new();
    let mut system_guard = match state.lock_system(&mut ledger) {
        Ok(guard) => guard,
        Err(_) => {
            return roll_back(
                session,
                CommandError::fixed(ErrorKind::LockContention, GENERIC_ERROR),
            );
        },
    };
    proof {
        ascending_acquisitions_are_admitted(
            LockLedger::new_spec(),
            Resource::System,
            Resource::Diagram,
        );
    }
    let mut diagram_guard = match state.lock_diagram(&mut ledger) {
        Ok(guard) => guard,
        Err(_) => {
            return roll_back(
                session,
                CommandError::fixed(ErrorKind::LockContention, GENERIC_ERROR),
            );
        },
    };
    let committed = commit_edit(
        guarded_mut(&mut system_guard),
        guarded_mut(&mut diagram_guard),
        replacement,
        derive,
        serialize,
    );
    conclude_edit(session, committed, timestamp_now())
}

/// An editor that cannot be started or that exits with a failure status
/// ends the round trip at once: the session is rolled back, the temporary
/// file it wrote is to be deleted, an error is reported, and no step that
/// could replace the stored system follows.
pub proof fn failed_editor_rolls_back(
    session: EditSession,
    exit: Option<bool>,
    step: (EditSession, EditAction),
)
    requires
        session.well_formed(),
        session.phase == EditPhase::Editing,
        exit != Some(true),
        exited(session, exit, step),
    ensures
        step.0.phase == EditPhase::RolledBack,
        step.1 matches EditAction::Finish { remove, outcome } && remove == session.file_name
            && remove is Some && outcome is Err,
{
}

/// The step is the end of a session, and it has the temporary file that
/// `session` may have written deleted.
pub open spec fn cleans_up(session: EditSession, step: (EditSession, EditAction)) -> bool {
    step.1 matches EditAction::Finish { remove, .. } ==> remove == session.file_name
        && step.0.file_name is None
}

/// Every step of a round trip keeps the session well formed, and every
/// step that ends the round trip, on whatever ground, has the temporary
/// file of the session deleted.
pub proof fn every_exit_cleans_up<S, TF: Fn(&S) -> Result<String, String>>(
    session: EditSession,
    step: (EditSession, EditAction),
    system: Option<ParsedSystem<S>>,
    identifier: String,
    to_text: TF,
    written: Result<(), String>,
    editor: Option<(PathBuf, Vec<String>)>,
    exit: Option<bool>,
    committed: Result<String, CommandError>,
    timestamp: String,
)
    requires
        session.well_formed(),
        ({
            ||| begun(session, system, identifier, to_text, step)
            ||| launched(session, written, editor, step)
            ||| exited(session, exit, step)
            ||| concluded(session, committed, timestamp, step)
        }),
    ensures
        step.0.well_formed(),
        cleans_up(session, step),
{
}

} // verus!
