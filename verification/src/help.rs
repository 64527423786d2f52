//! The help overlay.

use vstd::prelude::*;

use crate::screen::{self, SpanModel, TextLine, TextSpan, Tone};

verus! {

/// How many lines the help has.
pub const HELP_LINE_COUNT: usize = 38;

/// The text of a line of the help below its heading.
pub open spec fn help_entry(index: usize) -> Seq<char> {
    match index {
        1 => ""@,
        2 => "Navigation"@,
        3 => "  j / k or Up / Down   Move selection"@,
        4 => "  Tab                  Switch focus"@,
        5 => "  Enter                Focus details"@,
        6 => "  PageUp / PageDown    Scroll details or output"@,
        7 => ""@,
        8 => "Selection"@,
        9 => "  Space                Mark or unmark project"@,
        10 => "  a                    Select all visible projects, or clear if all visible are selected"@,
        11 => "  A                    Invert visible project selection"@,
        12 => "  /                    Filter projects"@,
        13 => ""@,
        14 => "Actions"@,
        15 => "  u                    Deploy, with confirmation"@,
        16 => "  U                    Update, with confirmation"@,
        17 => "  s                    Stop, with confirmation"@,
        18 => "  r                    Restart, with confirmation"@,
        19 => "  d                    Remove, with confirmation"@,
        20 => "  D                    Remove and delete volumes, with confirmation"@,
        21 => "  x                    Delete project files, with confirmation"@,
        22 => "  X                    Purge project, volumes, and files, with confirmation"@,
        23 => "  l                    Show logs"@,
        24 => "  e                    Edit current project compose file"@,
        25 => "  E                    Edit current project .env"@,
        26 => "  Alt+e                Edit .env.global"@,
        27 => "  c                    Open shell in a project container"@,
        28 => ""@,
        29 => "Container Shell"@,
        30 => "  Enter                Open selected container shell"@,
        31 => "  j / k or Up / Down   Move container selection"@,
        32 => "  Esc / q              Cancel"@,
        33 => ""@,
        34 => "General"@,
        35 => "  n                    Create a new project"@,
        36 => "  q                    Quit"@,
        _ => "  ?                    Toggle this help"@,
    }
}

/// A line of the help. The first is its heading.
pub open spec fn help_line(index: int) -> Seq<SpanModel> {
    if index == 0 {
        seq![
            SpanModel { text: "TUI Help"@, tone: Tone::Bold },
            SpanModel { text: "  j/k scroll  PgUp/PgDn page  ?/Esc/q close"@, tone: Tone::Plain },
        ]
    } else {
        screen::plain_text(help_entry(index as usize))
    }
}

/// The help.
pub open spec fn help_text() -> Seq<Seq<SpanModel>> {
    Seq::new(HELP_LINE_COUNT as nat, |index: int| help_line(index))
}

fn help_entry_text(index: usize) -> (text: &'static str)
    ensures
        text@ == help_entry(index),
{
    match index {
        1 => "",
        2 => "Navigation",
        3 => "  j / k or Up / Down   Move selection",
        4 => "  Tab                  Switch focus",
        5 => "  Enter                Focus details",
        6 => "  PageUp / PageDown    Scroll details or output",
        7 => "",
        8 => "Selection",
        9 => "  Space                Mark or unmark project",
        10 => "  a                    Select all visible projects, or clear if all visible are selected",
        11 => "  A                    Invert visible project selection",
        12 => "  /                    Filter projects",
        13 => "",
        14 => "Actions",
        15 => "  u                    Deploy, with confirmation",
        16 => "  U                    Update, with confirmation",
        17 => "  s                    Stop, with confirmation",
        18 => "  r                    Restart, with confirmation",
        19 => "  d                    Remove, with confirmation",
        20 => "  D                    Remove and delete volumes, with confirmation",
        21 => "  x                    Delete project files, with confirmation",
        22 => "  X                    Purge project, volumes, and files, with confirmation",
        23 => "  l                    Show logs",
        24 => "  e                    Edit current project compose file",
        25 => "  E                    Edit current project .env",
        26 => "  Alt+e                Edit .env.global",
        27 => "  c                    Open shell in a project container",
        28 => "",
        29 => "Container Shell",
        30 => "  Enter                Open selected container shell",
        31 => "  j / k or Up / Down   Move container selection",
        32 => "  Esc / q              Cancel",
        33 => "",
        34 => "General",
        35 => "  n                    Create a new project",
        36 => "  q                    Quit",
        _ => "  ?                    Toggle this help",
    }
}

fn help_heading() -> (line: TextLine)
    ensures
        line@ == help_line(0),
{
    let mut spans: Vec<TextSpan> = Vec::new();
    spans.push(TextSpan { text: "TUI Help".to_owned(), tone: Tone::Bold });
    spans.push(
        TextSpan {
            text: "  j/k scroll  PgUp/PgDn page  ?/Esc/q close".to_owned(),
            tone: Tone::Plain,
        },
    );
    let line = TextLine { spans };
    assert(line@ =~= help_line(0));
    line
}

/// The lines of the help.
pub fn help_lines() -> (lines: Vec<TextLine>)
    ensures
        lines.deep_view() == help_text(),
{
    let mut lines: Vec<TextLine> = Vec::new();
    for index in 0..HELP_LINE_COUNT
        invariant
            lines.deep_view() == help_text().take(index as int),
    {
        let line = if index == 0 {
            help_heading()
        } else {
            TextLine::plain(help_entry_text(index))
        };
        let ghost before = lines.deep_view();
        lines.push(line);
        assert(lines.deep_view() =~= before.push(help_line(index as int)));
        assert(lines.deep_view() =~= help_text().take(index + 1));
    }
    assert(help_text().take(HELP_LINE_COUNT as int) =~= help_text());
    lines
}

} // verus!
