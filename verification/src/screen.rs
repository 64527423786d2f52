//! What stands on the screen: lines of styled text, in panels.

use vstd::prelude::*;

verus! {

/// How a piece of text is set off.
#[derive(Debug, Clone, Copy, PartialEq, Eq, Structural)]
pub enum Tone {
    Plain,
    Bold,
    Error,
}

/// A piece of text in one tone.
#[derive(Debug)]
pub struct TextSpan {
    pub text: String,
    pub tone: Tone,
}

/// A [`TextSpan`] as plain values.
#[verifier::ext_equal]
pub struct SpanModel {
    pub text: Seq<char>,
    pub tone: Tone,
}

impl View for TextSpan {
    type V = SpanModel;

    open spec fn view(&self) -> SpanModel {
        SpanModel { text: self.text@, tone: self.tone }
    }
}

impl DeepView for TextSpan {
    type V = SpanModel;

    open spec fn deep_view(&self) -> SpanModel {
        self@
    }
}

/// A line of text.
#[derive(Debug)]
pub struct TextLine {
    pub spans: Vec<TextSpan>,
}

impl View for TextLine {
    type V = Seq<SpanModel>;

    open spec fn view(&self) -> Seq<SpanModel> {
        self.spans.deep_view()
    }
}

impl DeepView for TextLine {
    type V = Seq<SpanModel>;

    open spec fn deep_view(&self) -> Seq<SpanModel> {
        self@
    }
}

/// A line that is not set off.
pub open spec fn plain_text(text: Seq<char>) -> Seq<SpanModel> {
    toned_text(text, Tone::Plain)
}

/// A line in one tone.
pub open spec fn toned_text(text: Seq<char>, tone: Tone) -> Seq<SpanModel> {
    seq![SpanModel { text, tone }]
}

/// A line that begins with a word in bold.
pub open spec fn headed_text(head: Seq<char>, text: Seq<char>) -> Seq<SpanModel> {
    seq![SpanModel { text: head, tone: Tone::Bold }, SpanModel { text, tone: Tone::Plain }]
}

/// The characters of a line.
pub open spec fn line_chars(line: Seq<SpanModel>) -> Seq<char>
    decreases line.len(),
{
    if line.len() == 0 {
        seq![]
    } else {
        line_chars(line.drop_last()) + line.last().text
    }
}

impl TextLine {
    /// A line that is not set off.
    pub fn plain(text: &str) -> (line: TextLine)
        ensures
            line@ == plain_text(text@),
    {
        TextLine::toned(text.to_owned(), Tone::Plain)
    }

    /// A line in one tone.
    pub fn toned(text: String, tone: Tone) -> (line: TextLine)
        ensures
            line@ == toned_text(text@, tone),
    {
        let mut spans: Vec<TextSpan> = Vec::new();
        spans.push(TextSpan { text, tone });
        let line = TextLine { spans };
        assert(line@ =~= toned_text(text@, tone));
        line
    }

    /// A line that begins with a word in bold.
    pub fn headed(head: &str, text: &str) -> (line: TextLine)
        ensures
            line@ == headed_text(head@, text@),
    {
        let mut spans: Vec<TextSpan> = Vec::new();
        spans.push(TextSpan { text: head.to_owned(), tone: Tone::Bold });
        spans.push(TextSpan { text: text.to_owned(), tone: Tone::Plain });
        let line = TextLine { spans };
        assert(line@ =~= headed_text(head@, text@));
        line
    }

    /// The characters of the line.
    pub fn to_string(&self) -> (text: String)
        ensures
            text@ == line_chars(self@),
    {
        let ghost views = self@;
        let mut text = String::new();
        for i in 0..self.spans.len()
            invariant
                views == self@,
                text@ == line_chars(views.take(i as int)),
        {
            text.append(&self.spans[i].text);
            assert(views.take(i + 1).drop_last() =~= views.take(i as int));
            assert(views.take(i + 1).last() == self.spans@[i as int]@);
        }
        assert(views.take(views.len() as int) =~= views);
        text
    }
}

} // verus!
