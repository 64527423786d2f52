//! What is reported while commands run: to the terminal, or to the screen.

use vstd::prelude::*;

use crate::batch;
use crate::project::Project;

verus! {

/// Takes reports of running commands.
pub trait OutputSink {
    fn command_started(&mut self, project: &Project, command: &str);

    fn command_output(&mut self, line: &str, stderr: bool);

    fn command_finished(&mut self, project: &Project, success: bool, exit_code: Option<i32>);
}

/// A line of output, and whether it is one of errors.
#[derive(Debug)]
pub struct OutputLine {
    pub text: String,
    pub stderr: bool,
}

/// An [`OutputLine`] as plain values.
#[verifier::ext_equal]
pub struct LineModel {
    pub text: Seq<char>,
    pub stderr: bool,
}

impl View for OutputLine {
    type V = LineModel;

    open spec fn view(&self) -> LineModel {
        LineModel { text: self.text@, stderr: self.stderr }
    }
}

impl DeepView for OutputLine {
    type V = LineModel;

    open spec fn deep_view(&self) -> LineModel {
        self@
    }
}

impl Clone for OutputLine {
    fn clone(&self) -> (copy: Self)
        ensures
            copy@ == self@,
    {
        OutputLine { text: self.text.clone(), stderr: self.stderr }
    }
}

/// The line that announces a command.
pub open spec fn started_line(project: Seq<char>, command: Seq<char>) -> Seq<char> {
    "==> ["@ + project + "] "@ + command
}

/// The line that reports the end of a command.
pub open spec fn finished_line(
    project: Seq<char>,
    success: bool,
    exit_code: Option<i32>,
) -> Seq<char> {
    "-- ["@ + project + "] "@ + (if success {
        "ok"@
    } else {
        "failed"@
    }) + " (exit "@ + batch::exit_text(exit_code) + ")"@
}

/// Announces a command.
pub fn command_started_text(project: &str, command: &str) -> (line: String)
    ensures
        line@ == started_line(project@, command@),
{
    "==> [".to_owned().concat(project).concat("] ").concat(command)
}

/// Reports the end of a command.
pub fn command_finished_text(project: &str, success: bool, exit_code: Option<i32>) -> (line: String)
    ensures
        line@ == finished_line(project@, success, exit_code),
{
    let verdict = if success {
        "ok"
    } else {
        "failed"
    };
    "-- [".to_owned().concat(project).concat("] ").concat(verdict).concat(" (exit ").concat(
        &batch::exit_code_text(exit_code),
    ).concat(")")
}

/// Writes reports as lines for the terminal. The lines wait here until they are taken.
#[derive(Debug)]
pub struct CliOutputSink {
    pub lines: Vec<OutputLine>,
}

impl View for CliOutputSink {
    type V = Seq<LineModel>;

    open spec fn view(&self) -> Seq<LineModel> {
        self.lines.deep_view()
    }
}

impl Default for CliOutputSink {
    fn default() -> (sink: Self)
        ensures
            sink@ == Seq::<LineModel>::empty(),
    {
        let sink = CliOutputSink { lines: Vec::new() };
        assert(sink@ =~= Seq::empty());
        sink
    }
}

impl CliOutputSink {
    fn push(&mut self, text: String, stderr: bool)
        ensures
            final(self)@ == old(self)@.push(LineModel { text: text@, stderr }),
    {
        let ghost before = self@;
        self.lines.push(OutputLine { text, stderr });
        assert(self@ =~= before.push(LineModel { text: text@, stderr }));
    }

    /// Hands out the lines that wait, oldest first.
    pub fn take_lines(&mut self) -> (lines: Vec<OutputLine>)
        ensures
            lines.deep_view() == old(self)@,
            final(self)@ == Seq::<LineModel>::empty(),
    {
        let mut lines: Vec<OutputLine> = Vec::new();
        std::mem::swap(&mut lines, &mut self.lines);
        assert(self@ =~= Seq::empty());
        lines
    }
}

impl OutputSink for CliOutputSink {
    fn command_started(&mut self, project: &Project, command: &str)
        ensures
            final(self)@ == old(self)@.push(
                LineModel {
                    text: "\n"@ + started_line(project@.name, command@),
                    stderr: false,
                },
            ),
    {
        self.push("\n".to_owned().concat(&command_started_text(&project.name, command)), false);
    }

    fn command_output(&mut self, line: &str, stderr: bool)
        ensures
            final(self)@ == old(self)@.push(LineModel { text: line@, stderr }),
    {
        self.push(line.to_owned(), stderr);
    }

    fn command_finished(&mut self, project: &Project, success: bool, exit_code: Option<i32>)
        ensures
            final(self)@ == old(self)@.push(
                LineModel {
                    text: finished_line(project@.name, success, exit_code),
                    stderr: false,
                },
            ),
    {
        self.push(command_finished_text(&project.name, success, exit_code), false);
    }
}

} // verus!
