//! Choice of the text editor that a system is opened with.

use vstd::prelude::*;
use std::path::PathBuf;
use crate::diagram::names;

verus! {

/// The operating systems whose editors are known.
#[derive(Debug, Clone, Copy, PartialEq, Eq, Structural)]
pub enum Platform {
    Linux,
    MacOs,
    Windows,
}

/// An editor to try: the executable to look for and the arguments that make
/// it wait until the file is closed.
#[derive(Debug)]
pub struct EditorCommand {
    pub binary: String,
    pub arguments: Vec<String>,
}

/// An editor command as plain text.
pub struct EditorCommandView {
    pub binary: Seq<char>,
    pub arguments: Seq<Seq<char>>,
}

impl View for EditorCommand {
    type V = EditorCommandView;

    open spec fn view(&self) -> EditorCommandView {
        EditorCommandView { binary: self.binary@, arguments: names(self.arguments@) }
    }
}

/// The views of a list of editor commands.
pub open spec fn command_views(commands: Seq<EditorCommand>) -> Seq<EditorCommandView> {
    Seq::new(commands.len(), |i: int| commands[i]@)
}

/// The editors to try on `platform`, most preferred first.
pub open spec fn candidates(platform: Platform) -> Seq<EditorCommandView> {
    match platform {
        Platform::Linux => seq![
            EditorCommandView { binary: "codium"@, arguments: seq!["-w"@, "-n"@] },
            EditorCommandView { binary: "code"@, arguments: seq!["-w"@, "-n"@] },
            EditorCommandView { binary: "atom"@, arguments: seq!["-w"@] },
            EditorCommandView { binary: "subl"@, arguments: seq!["-w"@] },
            EditorCommandView { binary: "gedit"@, arguments: seq![] },
            EditorCommandView { binary: "gvim"@, arguments: seq![] },
        ],
        Platform::MacOs => seq![
            EditorCommandView { binary: "codium"@, arguments: seq!["-w"@, "-n"@] },
            EditorCommandView { binary: "code"@, arguments: seq!["-w"@, "-n"@] },
            EditorCommandView { binary: "atom"@, arguments: seq!["-w"@] },
            EditorCommandView { binary: "subl"@, arguments: seq!["-w"@] },
            EditorCommandView { binary: "gvim"@, arguments: seq![] },
            EditorCommandView { binary: "mate"@, arguments: seq![] },
            EditorCommandView { binary: "open"@, arguments: seq!["-Wt"@] },
            EditorCommandView { binary: "open"@, arguments: seq!["-a"@, "TextEdit"@] },
        ],
        Platform::Windows => seq![
            EditorCommandView { binary: "code.cmd"@, arguments: seq!["-n"@, "-w"@] },
            EditorCommandView { binary: "atom.exe"@, arguments: seq!["-w"@] },
            EditorCommandView { binary: "subl.exe"@, arguments: seq!["-w"@] },
            EditorCommandView { binary: "notepad.exe"@, arguments: seq![] },
        ],
    }
}

/// The command `binary` without arguments.
fn plain(binary: &str) -> (command: EditorCommand)
    ensures
        command@ == (EditorCommandView { binary: binary@, arguments: seq![] }),
{
    let command = EditorCommand { binary: binary.to_owned(), arguments: Vec::new() };
    assert(command@.arguments =~= seq![]);
    command
}

/// The command `binary first`.
fn with_one(binary: &str, first: &str) -> (command: EditorCommand)
    ensures
        command@ == (EditorCommandView { binary: binary@, arguments: seq![first@] }),
{
    let mut arguments = Vec::new();
    arguments.push(first.to_owned());
    let command = EditorCommand { binary: binary.to_owned(), arguments };
    assert(command@.arguments =~= seq![first@]);
    command
}

/// The command `binary first second`.
fn with_two(binary: &str, first: &str, second: &str) -> (command: EditorCommand)
    ensures
        command@ == (EditorCommandView { binary: binary@, arguments: seq![first@, second@] }),
{
    let mut arguments = Vec::new();
    arguments.push(first.to_owned());
    arguments.push(second.to_owned());
    let command = EditorCommand { binary: binary.to_owned(), arguments };
    assert(command@.arguments =~= seq![first@, second@]);
    command
}

/// The editors to try on `platform`, most preferred first.
pub fn editor_candidates(platform: Platform) -> (commands: Vec<EditorCommand>)
    ensures
        command_views(commands@) == candidates(platform),
{
    let mut commands = Vec::new();
    match platform {
        Platform::Linux => {
            commands.push(with_two("codium", "-w", "-n"));
            commands.push(with_two("code", "-w", "-n"));
            commands.push(with_one("atom", "-w"));
            commands.push(with_one("subl", "-w"));
            commands.push(plain("gedit"));
            commands.push(plain("gvim"));
        },
        Platform::MacOs => {
            commands.push(with_two("codium", "-w", "-n"));
            commands.push(with_two("code", "-w", "-n"));
            commands.push(with_one("atom", "-w"));
            commands.push(with_one("subl", "-w"));
            commands.push(plain("gvim"));
            commands.push(plain("mate"));
            commands.push(with_one("open", "-Wt"));
            commands.push(with_two("open", "-a", "TextEdit"));
        },
        Platform::Windows => {
            commands.push(with_two("code.cmd", "-n", "-w"));
            commands.push(with_one("atom.exe", "-w"));
            commands.push(with_one("subl.exe", "-w"));
            commands.push(plain("notepad.exe"));
        },
    }
    assert(command_views(commands@) =~= candidates(platform));
    commands
}

/// The error type of the `which` crate.
#[verifier::external_type_specification]
#[verifier::external_body]
pub struct ExWhichError(which::Error);

/// Looks for the executable `binary` on the search path: `which::which`.
///
/// The answer depends on the search path and on the files found there, so
/// nothing is stated of it.
#[verifier::external_body]
pub(crate) fn locate(binary: &str) -> (located: Result<PathBuf, which::Error>) {
    which::which(binary)
}

/// The search `probe` does not find the executable `binary`.
pub open spec fn not_found<E, P: Fn(&String) -> Result<PathBuf, E>>(
    probe: P,
    binary: String,
) -> bool {
    exists|error: E| call_ensures(probe, (&binary,), Err::<PathBuf, E>(error))
}

/// Candidate `index` is the first one whose executable `probe` finds, and
/// it finds it at `path`.
pub open spec fn first_found<E, P: Fn(&String) -> Result<PathBuf, E>>(
    commands: Seq<EditorCommand>,
    probe: P,
    index: int,
    path: PathBuf,
) -> bool {
    &&& 0 <= index < commands.len()
    &&& call_ensures(probe, (&commands[index].binary,), Ok::<PathBuf, E>(path))
    &&& forall|earlier: int|
        0 <= earlier < index ==> not_found(probe, (#[trigger] commands[earlier]).binary)
}

/// What `first_resolvable` owes.
pub open spec fn resolved<E, P: Fn(&String) -> Result<PathBuf, E>>(
    commands: Seq<EditorCommand>,
    probe: P,
    editor: Option<(PathBuf, Vec<String>)>,
) -> bool {
    match editor {
        Some(found) => exists|index: int|
            {
                &&& #[trigger] first_found(commands, probe, index, found.0)
                &&& found.1 == commands[index].arguments
            },
        None => forall|index: int|
            0 <= index < commands.len() ==> not_found(probe, (#[trigger] commands[index]).binary),
    }
}

/// Tries the candidates in order and settles on the first whose executable
/// `probe` finds: the answer is where the executable was found and the
/// arguments of that candidate. Candidates after it are not tried. The
/// answer is `None` when `probe` finds none of them.
pub fn first_resolvable<E, P: Fn(&String) -> Result<PathBuf, E>>(
    commands: Vec<EditorCommand>,
    probe: P,
) -> (editor: Option<(PathBuf, Vec<String>)>)
    requires
        forall|binary: &String| call_requires(probe, (binary,)),
    ensures
        resolved(commands@, probe, editor),
{
    let ghost all = commands@;
    let mut remaining = commands;
    while remaining.len() > 0
        invariant
            all == commands@,
            remaining.len() <= all.len(),
            forall|i: int|
                0 <= i < remaining.len() ==> remaining[i] == all[all.len() - remaining.len() + i],
            forall|i: int|
                0 <= i < all.len() - remaining.len() ==> not_found(
                    probe,
                    (#[trigger] all[i]).binary,
                ),
            forall|binary: &String| call_requires(probe, (binary,)),
        decreases remaining.len(),
    {
        let ghost index = all.len() - remaining.len();
        let command = remaining.remove(0);
        assert(command == all[index]);
        match probe(&command.binary) {
            Ok(path) => {
                let editor = Some((path, command.arguments));
                proof {
                    let found = editor->0;
                    assert(first_found(all, probe, index, found.0));
                    assert(found.1 == all[index].arguments);
                }
                return editor;
            },
            Err(error) => {
                assert(call_ensures(probe, (&all[index].binary,), Err::<PathBuf, E>(error)));
                assert(not_found(probe, all[index].binary));
            },
        }
    }
    None
}

/// The first editor of `platform`'s candidates whose executable is found on
/// the search path, with the arguments to launch it with; `None` when none
/// of them is found.
pub fn get_editor(platform: Platform) -> (editor: Option<(PathBuf, Vec<String>)>)
    ensures
        editor matches Some((_, arguments)) ==> exists|i: int|
            0 <= i < candidates(platform).len() && names(arguments@) == #[trigger] candidates(
                platform,
            )[i].arguments,
{
    let commands = editor_candidates(platform);
    let ghost all = commands@;
    let search = |binary: &String| -> (located: Result<PathBuf, which::Error>) {
        locate(binary.as_str())
    };
    let editor = first_resolvable(commands, search);
    proof {
        if editor is Some {
            let (path, arguments) = editor->0;
            let index = choose|index: int|
                {
                    &&& #[trigger] first_found(all, search, index, path)
                    &&& arguments == all[index].arguments
                };
            assert(command_views(all)[index] == all[index]@);
            assert(candidates(platform)[index].arguments == names(arguments@));
        }
    }
    editor
}

} // verus!
