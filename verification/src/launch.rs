//! Programs that take the terminal over for a while: an editor, or a shell in a container.

use vstd::prelude::*;

use crate::batch;
use crate::native::{self, NativeString};
use crate::shell::{self, Quotes};
use crate::text;

verus! {

/// Whether a character is white space, as Unicode has it.
pub open spec fn is_blank(ch: char) -> bool {
    ||| '\u{9}' <= ch <= '\u{d}'
    ||| ch == ' '
    ||| ch == '\u{85}'
    ||| ch == '\u{a0}'
    ||| ch == '\u{1680}'
    ||| '\u{2000}' <= ch <= '\u{200a}'
    ||| ch == '\u{2028}'
    ||| ch == '\u{2029}'
    ||| ch == '\u{202f}'
    ||| ch == '\u{205f}'
    ||| ch == '\u{3000}'
}

/// Whether a text holds nothing but white space.
pub open spec fn all_blank(s: Seq<char>) -> bool {
    forall|i: int| 0 <= i < s.len() ==> is_blank(#[trigger] s[i])
}

/// Whether a text holds nothing but white space.
pub fn is_blank_text(s: &str) -> (blank: bool)
    ensures
        blank == all_blank(s@),
{
    let chars = text::chars_of(s);
    for i in 0..chars.len()
        invariant
            chars@ == s@,
            forall|j: int| 0 <= j < i ==> is_blank(#[trigger] s@[j]),
    {
        let ch = chars[i];
        let blank = ('\u{9}' <= ch && ch <= '\u{d}') || ch == ' ' || ch == '\u{85}' || ch
            == '\u{a0}' || ch == '\u{1680}' || ('\u{2000}' <= ch && ch <= '\u{200a}') || ch
            == '\u{2028}' || ch == '\u{2029}' || ch == '\u{202f}' || ch == '\u{205f}' || ch
            == '\u{3000}';
        if !blank {
            assert(!is_blank(s@[i as int]));
            return false;
        }
    }
    true
}

/// The editor to use: what `VISUAL` says, else what `EDITOR` says. One that is blank says nothing.
pub open spec fn editor_choice(
    visual: Option<Seq<char>>,
    editor: Option<Seq<char>>,
) -> Option<Seq<char>> {
    if visual is Some && !all_blank(visual->0) {
        visual
    } else if editor is Some && !all_blank(editor->0) {
        editor
    } else {
        None
    }
}

/// Chooses the editor to use from the values of `VISUAL` and `EDITOR`.
pub fn choose_editor(visual: Option<String>, editor: Option<String>) -> (choice: Option<String>)
    ensures
        choice.deep_view() == editor_choice(visual.deep_view(), editor.deep_view()),
{
    if let Some(command) = visual {
        if !is_blank_text(&command) {
            return Some(command);
        }
    }
    if let Some(command) = editor {
        if !is_blank_text(&command) {
            return Some(command);
        }
    }
    None
}

/// A command that opens an editor.
#[derive(Debug)]
pub struct EditorCommand {
    pub program: &'static str,
    pub args: Vec<NativeString>,
}

/// The arguments with which a shell opens an editor on a file. The editor may be a command with
/// arguments of its own; the path is handed over as it is.
pub open spec fn editor_args(editor: Seq<char>, path: Seq<u8>) -> Seq<Seq<u8>> {
    seq![
        vstd::utf8::encode_utf8("-c"@),
        vstd::utf8::encode_utf8("exec "@ + editor + " \"$1\""@),
        vstd::utf8::encode_utf8("lazydc-editor"@),
        path,
    ]
}

/// The command that opens an editor on a file.
pub fn editor_command(editor: &str, path: &NativeString) -> (command: EditorCommand)
    ensures
        command.program@ == "/bin/sh"@,
        command.args.deep_view() == editor_args(editor@, path@),
{
    let script = "exec ".to_owned().concat(editor).concat(" \"$1\"");
    let mut args: Vec<NativeString> = Vec::new();
    args.push(NativeString::from_text("-c"));
    args.push(NativeString::from_text(&script));
    args.push(NativeString::from_text("lazydc-editor"));
    args.push(path.clone());
    assert(args.deep_view() =~= editor_args(editor@, path@));
    EditorCommand { program: "/bin/sh", args }
}

/// A command that opens a shell in a container.
#[derive(Debug)]
pub struct ShellCommand {
    pub program: NativeString,
    pub args: Vec<String>,
    pub display: String,
}

/// The arguments with which docker opens a shell in a container: bash where there is one, else sh.
pub open spec fn shell_args(container_id: Seq<char>) -> Seq<Seq<char>> {
    seq![
        "exec"@,
        "-it"@,
        container_id,
        "sh"@,
        "-lc"@,
        "command -v bash >/dev/null 2>&1 && exec bash || exec sh"@,
    ]
}

/// The command that opens a shell in a container.
pub fn shell_command(docker_bin: &NativeString, container_id: &str) -> (command: ShellCommand)
    ensures
        command.program@ == docker_bin@,
        command.args.deep_view() == shell_args(container_id@),
        command.display@ == shell::command_line(
            seq![native::shown_text(docker_bin@)] + shell_args(container_id@),
        ),
{
    let mut args: Vec<String> = Vec::new();
    args.push("exec".to_owned());
    args.push("-it".to_owned());
    args.push(container_id.to_owned());
    args.push("sh".to_owned());
    args.push("-lc".to_owned());
    args.push("command -v bash >/dev/null 2>&1 && exec bash || exec sh".to_owned());
    assert(args.deep_view() =~= shell_args(container_id@));
    let mut words: Vec<String> = Vec::new();
    words.push(docker_bin.display());
    let ghost all = seq![native::shown_text(docker_bin@)] + shell_args(container_id@);
    assert(words.deep_view() =~= all.take(1));
    for i in 0..args.len()
        invariant
            args.deep_view() == shell_args(container_id@),
            all == seq![native::shown_text(docker_bin@)] + shell_args(container_id@),
            words.deep_view() == all.take(i + 1),
    {
        let ghost before = words.deep_view();
        assert(args.deep_view()[i as int] == args@[i as int]@);
        words.push(args[i].clone());
        assert(words.deep_view() =~= before.push(all[i + 1]));
        assert(words.deep_view() =~= all.take(i + 2));
    }
    assert(all.take(all.len() as int) =~= all);
    ShellCommand { program: docker_bin.clone(), args, display: shell::write_command_line(&words) }
}

/// The message for an editor that could not be started.
pub fn editor_launch_failure(editor: &str) -> (message: String)
    ensures
        message@ == "failed to launch editor "@ + editor@,
{
    "failed to launch editor ".to_owned().concat(editor)
}

/// The message for a shell that could not be started.
pub fn shell_launch_failure(command: &ShellCommand) -> (message: String)
    ensures
        message@ == "failed to launch "@ + command.display@,
{
    "failed to launch ".to_owned().concat(&command.display)
}

/// What an editor or a shell came to.
pub open spec fn visit_result(
    what: Seq<char>,
    success: bool,
    exit_code: Option<i32>,
) -> Result<(), Seq<char>> {
    if success {
        Ok(())
    } else {
        Err(what + " exited with "@ + batch::exit_text(exit_code))
    }
}

/// Tells what an editor or a shell came to.
pub fn exit_result(what: &str, success: bool, exit_code: Option<i32>) -> (result: Result<(), String>)
    ensures
        text::outcome_view(result) == visit_result(what@, success, exit_code),
{
    if success {
        Ok(())
    } else {
        Err(what.to_owned().concat(" exited with ").concat(&batch::exit_code_text(exit_code)))
    }
}

/// What came of handing the terminal over and taking it back.
pub open spec fn suspension_result(
    what: Seq<char>,
    visit: Result<(), Seq<char>>,
    restored: bool,
) -> Result<(), Seq<char>> {
    let lost = "failed to restore TUI after "@ + what;
    match (visit, restored) {
        (visit, true) => visit,
        (Ok(()), false) => Err(lost),
        (Err(message), false) => Err(message + "; additionally "@ + lost + ": "@ + lost),
    }
}

/// Tells what came of handing the terminal over and taking it back.
pub fn after_suspension(what: &str, visit: Result<(), String>, restored: bool) -> (result: Result<
    (),
    String,
>)
    ensures
        text::outcome_view(result) == suspension_result(what@, text::outcome_view(visit), restored),
{
    if restored {
        return visit;
    }
    let lost = "failed to restore TUI after ".to_owned().concat(what);
    match visit {
        Ok(()) => Err(lost),
        Err(message) => Err(
            message.concat("; additionally ").concat(&lost).concat(": ").concat(&lost),
        ),
    }
}

/// The message for a terminal that could not be handed over.
pub fn suspension_failure(what: &str) -> (message: String)
    ensures
        message@ == "failed to suspend TUI for "@ + what@,
{
    "failed to suspend TUI for ".to_owned().concat(what)
}

/// The message for a directory that could not be created for a file to edit.
pub fn edit_dir_failure(dir: &NativeString) -> (message: String)
    ensures
        message@ == "failed to create dir "@ + native::shown_text(dir@),
{
    "failed to create dir ".to_owned().concat(&dir.display())
}

/// The message for a file to edit that could not be created.
pub fn edit_file_failure(path: &NativeString) -> (message: String)
    ensures
        message@ == "failed to create file "@ + native::shown_text(path@),
{
    "failed to create file ".to_owned().concat(&path.display())
}

/// The command that opens a shell can be run again by hand: from the line that is displayed, a shell
/// reads the program and the arguments. An empty program or id is the exception.
pub proof fn displayed_shell_can_be_rerun(docker_bin: Seq<u8>, container_id: Seq<char>)
    requires
        native::shown_text(docker_bin).len() > 0,
        container_id.len() > 0,
    ensures
        ({
            let words = seq![native::shown_text(docker_bin)] + shell_args(container_id);
            shell::shell_words(shell::command_line(words), Quotes::Outside, None) == Some(words)
        }),
{
    let words = seq![native::shown_text(docker_bin)] + shell_args(container_id);
    reveal_strlit("exec");
    reveal_strlit("-it");
    reveal_strlit("sh");
    reveal_strlit("-lc");
    reveal_strlit("command -v bash >/dev/null 2>&1 && exec bash || exec sh");
    assert forall|i: int| 0 <= i < words.len() implies (#[trigger] words[i]).len() > 0 by {}
    shell::command_line_is_read_back(words);
}

} // verus!
