use std::path::PathBuf;

use manycore_visualiser::configuration::get_attributes;
use manycore_visualiser::diagram::{Diagram, Viewport};
use manycore_visualiser::edit::utils::{
    editor_candidates, first_resolvable, get_editor, EditorCommand, Platform,
};
use manycore_visualiser::edit::{
    begin_edit, commit_edit, conclude_edit, editor_exited, editor_resolved, initiate_edit,
    reparsed, temporary_written, EditAction, EditPhase, EditSession,
};
use manycore_visualiser::error::{CommandError, ErrorKind};
use manycore_visualiser::parse::parse;
use manycore_visualiser::state::State;
use manycore_visualiser::svg::get_svg;
use manycore_visualiser::system::ParsedSystem;

type Store = State<String, String, u8>;

fn system(name: &str) -> ParsedSystem<String> {
    ParsedSystem::new(String::from(name), vec![String::from("load")])
}

fn to_text(model: &String) -> Result<String, String> {
    if model == "unwritable" {
        Err(String::from("cannot write"))
    } else {
        Ok(format!("<system>\n    <name>{model}</name>\n</system>"))
    }
}

fn derive(model: &String) -> Result<(String, Viewport), String> {
    if model == "undrawable" {
        Err(String::from("nothing to draw"))
    } else {
        Ok((format!("geometry of {model}"), Viewport::new(0, 0, 10, 20)))
    }
}

fn serialize(diagram: &Diagram<String>) -> Result<String, String> {
    if diagram.geometry.contains("unprintable") {
        Err(String::from("cannot print"))
    } else {
        Ok(format!("<svg>{}</svg>", diagram.geometry))
    }
}

fn stored_model(state: &Store) -> Option<String> {
    get_attributes(state, |model: &String| model.clone()).attributes
}

fn with_diagram<R>(state: &Store, look: impl FnOnce(Option<&Diagram<String>>) -> R) -> R {
    let taken = state.replace_diagram(None).unwrap();
    let seen = look(taken.as_ref());
    state.replace_diagram(taken).unwrap();
    seen
}

fn stored_geometry(state: &Store) -> Option<String> {
    with_diagram(state, |diagram| diagram.map(|diagram| diagram.geometry.clone()))
}

fn session_at(phase: EditPhase, file_name: &str) -> EditSession {
    EditSession { phase, file_name: Some(String::from(file_name)) }
}

fn failure(action: EditAction) -> (Option<String>, CommandError) {
    match action {
        EditAction::Finish { remove, outcome } => (remove, outcome.unwrap_err()),
        other => panic!("expected the end of the session, got {other:?}"),
    }
}

fn loaded_store(name: &str) -> Store {
    let state: Store = State::new(0);
    parse(Ok(system(name)), &state);
    get_svg(&state, derive, serialize);
    state
}

#[test]
fn candidates_per_platform() {
    let render = |platform: Platform| -> Vec<String> {
        editor_candidates(platform)
            .iter()
            .map(|command| {
                let mut line = command.binary.clone();
                for argument in &command.arguments {
                    line.push(' ');
                    line.push_str(argument);
                }
                line
            })
            .collect()
    };
    assert_eq!(render(Platform::Linux), vec!["codium -w -n", "code -w -n", "atom -w", "subl -w", "gedit", "gvim"]);
    assert_eq!(
        render(Platform::MacOs),
        vec!["codium -w -n", "code -w -n", "atom -w", "subl -w", "gvim", "mate", "open -Wt", "open -a TextEdit"]
    );
    assert_eq!(render(Platform::Windows), vec!["code.cmd -n -w", "atom.exe -w", "subl.exe -w", "notepad.exe"]);
}

#[test]
fn first_resolvable_candidate_wins() {
    let installed = |names: &'static [&'static str]| {
        move |binary: &String| -> Result<PathBuf, String> {
            if names.contains(&binary.as_str()) {
                Ok(PathBuf::from(format!("/usr/bin/{binary}")))
            } else {
                Err(format!("{binary} not found"))
            }
        }
    };
    let flags = |items: &[&str]| -> Vec<String> { items.iter().map(|item| String::from(*item)).collect() };

    let editor = first_resolvable(editor_candidates(Platform::Linux), installed(&["gvim", "subl", "gedit"]));
    assert_eq!(editor, Some((PathBuf::from("/usr/bin/subl"), flags(&["-w"]))));
    let editor = first_resolvable(editor_candidates(Platform::Linux), installed(&["gvim"]));
    assert_eq!(editor, Some((PathBuf::from("/usr/bin/gvim"), flags(&[]))));
    let editor = first_resolvable(editor_candidates(Platform::Linux), installed(&["codium", "code"]));
    assert_eq!(editor, Some((PathBuf::from("/usr/bin/codium"), flags(&["-w", "-n"]))));
    let editor = first_resolvable(editor_candidates(Platform::MacOs), installed(&["open"]));
    assert_eq!(editor, Some((PathBuf::from("/usr/bin/open"), flags(&["-Wt"]))));
    let editor = first_resolvable(editor_candidates(Platform::Windows), installed(&["notepad.exe", "gvim"]));
    assert_eq!(editor, Some((PathBuf::from("/usr/bin/notepad.exe"), flags(&[]))));
    assert_eq!(first_resolvable(editor_candidates(Platform::Linux), installed(&["notepad.exe"])), None);
    assert_eq!(first_resolvable(Vec::new(), installed(&["gvim"])), None);
}

#[test]
fn candidates_after_the_first_hit_are_not_tried() {
    let tried = std::cell::RefCell::new(Vec::new());
    let probe = |binary: &String| -> Result<PathBuf, ()> {
        tried.borrow_mut().push(binary.clone());
        if binary == "atom" {
            Ok(PathBuf::from("/opt/atom"))
        } else {
            Err(())
        }
    };
    let editor = first_resolvable(editor_candidates(Platform::Linux), probe);
    assert_eq!(editor.unwrap().0, PathBuf::from("/opt/atom"));
    assert_eq!(*tried.borrow(), vec!["codium", "code", "atom"]);
}

#[test]
fn custom_candidates() {
    let commands = vec![
        EditorCommand { binary: String::from("one"), arguments: vec![String::from("-a")] },
        EditorCommand { binary: String::from("two"), arguments: vec![String::from("-b")] },
    ];
    let editor = first_resolvable(commands, |binary: &String| -> Result<PathBuf, ()> {
        if binary == "two" {
            Ok(PathBuf::from("bin/two"))
        } else {
            Err(())
        }
    });
    assert_eq!(editor, Some((PathBuf::from("bin/two"), vec![String::from("-b")])));
}

#[test]
fn found_editor_is_one_of_the_candidates() {
    for platform in [Platform::Linux, Platform::MacOs, Platform::Windows] {
        if let Some((program, arguments)) = get_editor(platform) {
            let name = program.file_stem().unwrap().to_string_lossy().into_owned();
            assert!(editor_candidates(platform).iter().any(|command| {
                command.arguments == arguments && command.binary.starts_with(name.as_str())
            }));
        }
    }
}

#[test]
fn new_session_is_idle() {
    let session = EditSession::new();
    assert_eq!(session.phase, EditPhase::Idle);
    assert!(session.file_name.is_none());
}

#[test]
fn edit_without_system_has_no_side_effects() {
    let state: Store = State::new(0);
    let (session, action) = initiate_edit(&state, to_text);
    assert_eq!(session.phase, EditPhase::Idle);
    assert!(session.file_name.is_none());
    let (remove, error) = failure(action);
    assert!(remove.is_none());
    assert_eq!(error.kind, ErrorKind::NotLoaded);
    assert_eq!(error.message, "You must load a system first.");
    assert!(stored_model(&state).is_none());
}

#[test]
fn edit_serializes_to_a_freshly_named_file() {
    let state = loaded_store("abc");
    let (session, action) = initiate_edit(&state, to_text);
    assert_eq!(session.phase, EditPhase::Serialized);
    let first = match action {
        EditAction::WriteTemporary { file_name, contents } => {
            assert_eq!(contents, "<system>\n    <name>abc</name>\n</system>");
            assert_eq!(session.file_name.as_ref(), Some(&file_name));
            file_name
        }
        other => panic!("expected a file to write, got {other:?}"),
    };
    assert_eq!(first.len(), 36);
    assert!(first.chars().all(|c| c == '-' || c.is_ascii_hexdigit()));
    let (_, action) = initiate_edit(&state, to_text);
    match action {
        EditAction::WriteTemporary { file_name, .. } => assert_ne!(file_name, first),
        other => panic!("expected a file to write, got {other:?}"),
    }
}

#[test]
fn edit_of_an_unserializable_system_rolls_back() {
    let state = loaded_store("unwritable");
    let (session, action) = initiate_edit(&state, to_text);
    assert_eq!(session.phase, EditPhase::RolledBack);
    let (remove, error) = failure(action);
    assert!(remove.is_none());
    assert_eq!(error.kind, ErrorKind::SerializationError);
    assert_eq!(error.message, "Something went wrong, please try again.");
}

#[test]
fn begin_edit_only_from_idle() {
    let stored = Some(system("abc"));
    let (session, action) = begin_edit(session_at(EditPhase::Editing, "f"), &stored, String::from("g"), to_text);
    assert_eq!(session.phase, EditPhase::RolledBack);
    let (remove, error) = failure(action);
    assert_eq!(remove, Some(String::from("f")));
    assert_eq!(error.kind, ErrorKind::ValidationError);

    let (session, action) = begin_edit(EditSession::new(), &stored, String::from("g"), to_text);
    assert_eq!(session.phase, EditPhase::Serialized);
    assert_eq!(session.file_name, Some(String::from("g")));
    assert!(matches!(action, EditAction::WriteTemporary { .. }));
}

#[test]
fn written_file_is_opened_with_the_editor_found() {
    let editor = Some((PathBuf::from("/usr/bin/gedit"), vec![String::from("-w")]));
    let (session, action) = editor_resolved(session_at(EditPhase::Serialized, "f"), Ok(()), editor);
    assert_eq!(session.phase, EditPhase::Editing);
    assert_eq!(session.file_name, Some(String::from("f")));
    match action {
        EditAction::LaunchEditor { program, arguments, file_name } => {
            assert_eq!(program, PathBuf::from("/usr/bin/gedit"));
            assert_eq!(arguments, vec![String::from("-w")]);
            assert_eq!(file_name, "f");
        }
        other => panic!("expected a launch, got {other:?}"),
    }
}

#[test]
fn no_editor_rolls_back_and_cleans_up() {
    let (session, action) = editor_resolved(session_at(EditPhase::Serialized, "f"), Ok(()), None);
    assert_eq!(session.phase, EditPhase::RolledBack);
    assert!(session.file_name.is_none());
    let (remove, error) = failure(action);
    assert_eq!(remove, Some(String::from("f")));
    assert_eq!(error.kind, ErrorKind::ExternalToolUnavailable);
    assert_eq!(error.message, "Something went wrong, please try again.");
}

#[test]
fn unwritten_file_rolls_back_and_cleans_up() {
    let editor = Some((PathBuf::from("/usr/bin/gedit"), Vec::new()));
    let (session, action) =
        editor_resolved(session_at(EditPhase::Serialized, "f"), Err(String::from("disk full")), editor);
    assert_eq!(session.phase, EditPhase::RolledBack);
    let (remove, error) = failure(action);
    assert_eq!(remove, Some(String::from("f")));
    assert_eq!(error.kind, ErrorKind::IOError);

    let (session, action) =
        temporary_written(session_at(EditPhase::Serialized, "f"), Err(String::from("disk full")), Platform::Linux);
    assert_eq!(session.phase, EditPhase::RolledBack);
    let (remove, error) = failure(action);
    assert_eq!(remove, Some(String::from("f")));
    assert_eq!(error.kind, ErrorKind::IOError);
}

#[test]
fn temporary_written_launches_or_rolls_back() {
    let (session, action) = temporary_written(session_at(EditPhase::Serialized, "f"), Ok(()), Platform::Linux);
    match action {
        EditAction::LaunchEditor { arguments, file_name, .. } => {
            assert_eq!(session.phase, EditPhase::Editing);
            assert_eq!(file_name, "f");
            assert!(editor_candidates(Platform::Linux).iter().any(|command| command.arguments == arguments));
        }
        EditAction::Finish { remove, outcome } => {
            assert_eq!(session.phase, EditPhase::RolledBack);
            assert_eq!(remove, Some(String::from("f")));
            assert_eq!(outcome.unwrap_err().kind, ErrorKind::ExternalToolUnavailable);
        }
        other => panic!("unexpected step {other:?}"),
    }
    let (session, action) = temporary_written(EditSession::new(), Ok(()), Platform::Linux);
    assert_eq!(session.phase, EditPhase::RolledBack);
    let (remove, error) = failure(action);
    assert!(remove.is_none());
    assert_eq!(error.kind, ErrorKind::ValidationError);
}

#[test]
fn failed_editor_leaves_the_system_and_removes_the_file() {
    let state = loaded_store("abc");
    for exit in [Some(false), None] {
        let (session, action) = editor_exited(session_at(EditPhase::Editing, "f"), exit);
        assert_eq!(session.phase, EditPhase::RolledBack);
        assert!(session.file_name.is_none());
        let (remove, error) = failure(action);
        assert_eq!(remove, Some(String::from("f")));
        assert_eq!(error.kind, ErrorKind::ExternalToolUnavailable);
        assert_eq!(error.message, "Something went wrong, please try again.");
    }
    assert_eq!(stored_model(&state).unwrap(), "abc");
    assert_eq!(stored_geometry(&state).unwrap(), "geometry of abc");
}

#[test]
fn successful_editor_leads_to_reparsing() {
    let (session, action) = editor_exited(session_at(EditPhase::Editing, "f"), Some(true));
    assert_eq!(session.phase, EditPhase::Reparsing);
    assert_eq!(session.file_name, Some(String::from("f")));
    match action {
        EditAction::Reparse { file_name } => assert_eq!(file_name, "f"),
        other => panic!("expected a reparse, got {other:?}"),
    }
    let (session, action) = editor_exited(session_at(EditPhase::Serialized, "f"), Some(true));
    assert_eq!(session.phase, EditPhase::RolledBack);
    let (remove, error) = failure(action);
    assert_eq!(remove, Some(String::from("f")));
    assert_eq!(error.kind, ErrorKind::ValidationError);
}

#[test]
fn reparsed_system_replaces_system_and_diagram() {
    let state = loaded_store("abc");
    let (session, action) =
        reparsed(&state, session_at(EditPhase::Reparsing, "f"), Ok(system("edited")), derive, serialize);
    assert_eq!(session.phase, EditPhase::Committed);
    assert!(session.file_name.is_none());
    match action {
        EditAction::Finish { remove, outcome } => {
            assert_eq!(remove, Some(String::from("f")));
            let svg = outcome.unwrap();
            assert_eq!(svg.content, "<svg>geometry of edited</svg>");
            assert!(svg.timestamp.ends_with("UTC"));
        }
        other => panic!("expected the end of the session, got {other:?}"),
    }
    assert_eq!(stored_model(&state).unwrap(), "edited");
    with_diagram(&state, |diagram| {
        assert_eq!(diagram.unwrap().geometry, "geometry of edited");
        assert!(diagram.unwrap().visible.is_empty());
    });
}

#[test]
fn rejected_edit_keeps_the_committed_state() {
    let state = loaded_store("abc");
    let attempts: Vec<(Result<ParsedSystem<String>, String>, ErrorKind, &str)> = vec![
        (Err(String::from("line 2: unexpected end")), ErrorKind::ValidationError, "line 2: unexpected end"),
        (Ok(system("undrawable")), ErrorKind::ValidationError, "nothing to draw"),
        (Ok(system("unprintable")), ErrorKind::SerializationError, "cannot print"),
    ];
    for (parsed, kind, message) in attempts {
        let (session, action) = reparsed(&state, session_at(EditPhase::Reparsing, "f"), parsed, derive, serialize);
        assert_eq!(session.phase, EditPhase::RolledBack);
        let (remove, error) = failure(action);
        assert_eq!(remove, Some(String::from("f")));
        assert_eq!(error.kind, kind);
        assert_eq!(error.message, message);
        assert_eq!(stored_model(&state).unwrap(), "abc");
        assert_eq!(stored_geometry(&state).unwrap(), "geometry of abc");
    }
}

#[test]
fn reparsed_out_of_turn_commits_nothing() {
    let state = loaded_store("abc");
    let (session, action) =
        reparsed(&state, session_at(EditPhase::Editing, "f"), Ok(system("edited")), derive, serialize);
    assert_eq!(session.phase, EditPhase::RolledBack);
    let (remove, error) = failure(action);
    assert_eq!(remove, Some(String::from("f")));
    assert_eq!(error.kind, ErrorKind::ValidationError);
    assert_eq!(stored_model(&state).unwrap(), "abc");
}

#[test]
fn commit_is_all_or_nothing() {
    let mut manycore = Some(system("abc"));
    let mut diagram = Some(Diagram::new(String::from("old"), Viewport::new(0, 0, 1, 1)));
    let error = commit_edit(&mut manycore, &mut diagram, system("unprintable"), derive, serialize).unwrap_err();
    assert_eq!(error.kind, ErrorKind::SerializationError);
    assert_eq!(manycore.as_ref().unwrap().model, "abc");
    assert_eq!(diagram.as_ref().unwrap().geometry, "old");
    let text = commit_edit(&mut manycore, &mut diagram, system("new"), derive, serialize).unwrap();
    assert_eq!(text, "<svg>geometry of new</svg>");
    assert_eq!(manycore.as_ref().unwrap().model, "new");
    assert_eq!(diagram.as_ref().unwrap().geometry, "geometry of new");
    assert_eq!(diagram.as_ref().unwrap().viewport, Viewport::new(0, 0, 10, 20));
}

#[test]
fn concluding_a_session() {
    let (session, action) =
        conclude_edit(session_at(EditPhase::Reparsing, "f"), Ok(String::from("<svg/>")), String::from("now"));
    assert_eq!(session.phase, EditPhase::Committed);
    match action {
        EditAction::Finish { remove, outcome } => {
            assert_eq!(remove, Some(String::from("f")));
            let svg = outcome.unwrap();
            assert_eq!(svg.content, "<svg/>");
            assert_eq!(svg.timestamp, "now");
        }
        other => panic!("expected the end of the session, got {other:?}"),
    }
    let (session, action) = conclude_edit(
        session_at(EditPhase::Reparsing, "f"),
        Err(CommandError::new(ErrorKind::LockContention, String::from("busy"))),
        String::from("now"),
    );
    assert_eq!(session.phase, EditPhase::RolledBack);
    let (remove, error) = failure(action);
    assert_eq!(remove, Some(String::from("f")));
    assert_eq!(error.kind, ErrorKind::LockContention);
    assert_eq!(error.message, "busy");
}

#[test]
fn whole_round_trip() {
    let state = loaded_store("abc");
    let (session, action) = initiate_edit(&state, to_text);
    let file_name = match action {
        EditAction::WriteTemporary { file_name, .. } => file_name,
        other => panic!("unexpected step {other:?}"),
    };
    let editor = Some((PathBuf::from("/usr/bin/gvim"), Vec::new()));
    let (session, action) = editor_resolved(session, Ok(()), editor);
    assert!(matches!(action, EditAction::LaunchEditor { .. }));
    let (session, action) = editor_exited(session, Some(true));
    assert!(matches!(action, EditAction::Reparse { .. }));
    let (session, action) = reparsed(&state, session, Ok(system("edited")), derive, serialize);
    assert_eq!(session.phase, EditPhase::Committed);
    match action {
        EditAction::Finish { remove, outcome } => {
            assert_eq!(remove, Some(file_name));
            assert!(outcome.is_ok());
        }
        other => panic!("unexpected step {other:?}"),
    }
    assert_eq!(stored_model(&state).unwrap(), "edited");
}
