//! Composition of the display: pure functions from engine state and history
//! to styled lines.
//!
//! The driver paints these lines with its terminal backend; wrapping at the
//! viewport width and the concrete colors belong to the backend, not here.

use crate::state::App;
use crate::state::AppView;
use crate::state::CommandRecord;
use crate::state::RecordView;
use crate::state::State;
use crate::state::StateView;
use crate::text::string_of_chars;
use crate::text::string_of_range;
use vstd::prelude::*;
use vstd::string::StringExecFns;

verus! {

/// How a span is to be styled by the backend.
#[derive(Clone, Copy, Debug, PartialEq, Eq, Structural)]
pub enum SpanKind {
    /// The prompt, shown emphasized.
    Prompt,
    /// Unstyled text.
    Plain,
    /// Command or buffer text, shown bold.
    Bold,
    /// The single character at the cursor, shown as an inverted block.
    Cursor,
    /// A completion suggestion line.
    Suggestion,
    /// Error-emphasized output.
    Error,
}

/// One styled run of text within a display line.
pub struct Span {
    pub text: String,
    pub kind: SpanKind,
}

/// Mathematical model of a [`Span`].
#[verifier::ext_equal]
pub struct SpanView {
    pub text: Seq<char>,
    pub kind: SpanKind,
}

impl View for Span {
    type V = SpanView;

    open spec fn view(&self) -> SpanView {
        SpanView { text: self.text@, kind: self.kind }
    }
}

impl DeepView for Span {
    type V = SpanView;

    open spec fn deep_view(&self) -> SpanView {
        self.view()
    }
}

/// One display line: a row of styled spans.
pub struct RenderLine {
    pub spans: Vec<Span>,
}

impl View for RenderLine {
    type V = Seq<SpanView>;

    open spec fn view(&self) -> Seq<SpanView> {
        self.spans.deep_view()
    }
}

impl DeepView for RenderLine {
    type V = Seq<SpanView>;

    open spec fn deep_view(&self) -> Seq<SpanView> {
        self.view()
    }
}

/// A line made of one span.
pub open spec fn single_span_line(text: Seq<char>, kind: SpanKind) -> Seq<SpanView> {
    seq![SpanView { text, kind }]
}

/// The prompt-plus-command heading line.
pub open spec fn heading_line(prompt: Seq<char>, command: Seq<char>) -> Seq<SpanView> {
    seq![
        SpanView { text: prompt, kind: SpanKind::Prompt },
        SpanView { text: seq![' '], kind: SpanKind::Plain },
        SpanView { text: command, kind: SpanKind::Bold },
    ]
}

/// Each text of `lines` as a one-span display line of the given kind.
pub open spec fn plain_lines(lines: Seq<Seq<char>>, kind: SpanKind) -> Seq<Seq<SpanView>> {
    lines.map_values(|t: Seq<char>| single_span_line(t, kind))
}

/// The display lines of one history record: the heading, then the stdin,
/// stdout and error-styled stderr lines verbatim.
pub open spec fn record_lines(r: RecordView) -> Seq<Seq<SpanView>> {
    seq![heading_line(r.prompt, r.command)] + plain_lines(r.stdin, SpanKind::Plain) + plain_lines(
        r.stdout,
        SpanKind::Plain,
    ) + plain_lines(r.stderr, SpanKind::Error)
}

/// The display lines of the whole history, oldest record first.
pub open spec fn history_lines(h: Seq<RecordView>) -> Seq<Seq<SpanView>>
    decreases h.len(),
{
    if h.len() == 0 {
        Seq::empty()
    } else {
        history_lines(h.drop_last()) + record_lines(h.last())
    }
}

/// The span at the cursor: the character there inverted, or a blank
/// inverted block when the cursor sits at the end of the text.
pub open spec fn cursor_span(text: Seq<char>, cursor: int) -> SpanView {
    if cursor < text.len() {
        SpanView { text: seq![text[cursor]], kind: SpanKind::Cursor }
    } else {
        SpanView { text: seq![' '], kind: SpanKind::Cursor }
    }
}

/// The editing line: the prompt, then the buffer split at the cursor with
/// the cursor character shown as an inverted block.
pub open spec fn idle_line(prompt: Seq<char>, text: Seq<char>, cursor: int) -> Seq<SpanView> {
    seq![
        SpanView { text: prompt, kind: SpanKind::Prompt },
        SpanView { text: seq![' '], kind: SpanKind::Plain },
        SpanView { text: text.take(cursor), kind: SpanKind::Bold },
        cursor_span(text, cursor),
        SpanView {
            text: if cursor < text.len() {
                text.skip(cursor + 1)
            } else {
                Seq::empty()
            },
            kind: SpanKind::Bold,
        },
    ]
}

/// The suggestion lines: the whole buffer text followed by each suffix.
pub open spec fn suggestion_lines(text: Seq<char>, cands: Seq<Seq<char>>) -> Seq<Seq<SpanView>> {
    cands.map_values(|t: Seq<char>| single_span_line(text + t, SpanKind::Suggestion))
}

/// The display lines of the current state: while idle, the editing line and
/// any suggestions; while running, the heading and the stdin lines typed so
/// far.
pub open spec fn state_lines(s: StateView, prompt: Seq<char>) -> Seq<Seq<SpanView>> {
    match s {
        StateView::Idle { text, cursor, completions } => seq![idle_line(prompt, text, cursor)]
            + match completions {
            Option::None => Seq::empty(),
            Option::Some(cs) => suggestion_lines(text, cs),
        },
        StateView::Running { command, stdin, .. } => seq![heading_line(prompt, command)]
            + plain_lines(stdin, SpanKind::Plain),
    }
}

/// Everything on screen: the history's lines, then the current state's.
pub open spec fn display_lines(a: AppView, prompt: Seq<char>) -> Seq<Seq<SpanView>> {
    history_lines(a.history) + state_lines(a.state, prompt)
}

/// A one-character string holding a blank.
fn space_string() -> (r: String)
    ensures
        r@ == seq![' '],
{
    let mut s = String::new();
    s.push(' ');
    proof {
        assert(s@ =~= seq![' ']);
    }
    s
}

/// The executable heading line.
fn heading(prompt: &String, command: &String) -> (r: RenderLine)
    ensures
        r.deep_view() == heading_line(prompt@, command@),
{
    let mut spans: Vec<Span> = Vec::new();
    spans.push(Span { text: prompt.clone(), kind: SpanKind::Prompt });
    spans.push(Span { text: space_string(), kind: SpanKind::Plain });
    spans.push(Span { text: command.clone(), kind: SpanKind::Bold });
    let r = RenderLine { spans };
    proof {
        assert(r.deep_view() =~~= heading_line(prompt@, command@));
    }
    r
}

/// Appends each of `lines` as a one-span display line of the given kind.
fn push_plain(out: &mut Vec<RenderLine>, lines: &Vec<String>, kind: SpanKind)
    ensures
        final(out).deep_view() == old(out).deep_view() + plain_lines(lines.deep_view(), kind),
{
    let n = lines.len();
    let mut i: usize = 0;
    proof {
        assert(out.deep_view() =~~= old(out).deep_view() + plain_lines(
            lines.deep_view().take(0),
            kind,
        ));
    }
    while i < n
        invariant
            n == lines@.len(),
            i <= n,
            out.deep_view() == old(out).deep_view() + plain_lines(
                lines.deep_view().take(i as int),
                kind,
            ),
        decreases n - i,
    {
        let mut spans: Vec<Span> = Vec::new();
        spans.push(Span { text: lines[i].clone(), kind });
        let line = RenderLine { spans };
        proof {
            assert(line.deep_view() =~~= single_span_line(lines.deep_view()[i as int], kind));
        }
        out.push(line);
        proof {
            assert(plain_lines(lines.deep_view().take(i + 1), kind) =~~= plain_lines(
                lines.deep_view().take(i as int),
                kind,
            ).push(single_span_line(lines.deep_view()[i as int], kind)));
            assert(out.deep_view() =~~= (old(out).deep_view() + plain_lines(
                lines.deep_view().take(i as int),
                kind,
            )).push(single_span_line(lines.deep_view()[i as int], kind)));
            assert(out.deep_view() =~~= old(out).deep_view() + plain_lines(
                lines.deep_view().take(i + 1),
                kind,
            ));
        }
        i = i + 1;
    }
    proof {
        assert(lines.deep_view().take(n as int) =~~= lines.deep_view());
    }
}

/// The display lines of one finished command.
pub fn render_history(rec: &CommandRecord) -> (r: Vec<RenderLine>)
    ensures
        r.deep_view() == record_lines(rec@),
{
    let mut out: Vec<RenderLine> = Vec::new();
    out.push(heading(&rec.prompt, &rec.command));
    push_plain(&mut out, &rec.stdin, SpanKind::Plain);
    push_plain(&mut out, &rec.stdout, SpanKind::Plain);
    push_plain(&mut out, &rec.stderr, SpanKind::Error);
    proof {
        assert(out.deep_view() =~~= record_lines(rec@));
    }
    out
}

/// The executable editing line.
fn idle_editing_line(prompt: &String, chars: &Vec<char>, cursor: usize) -> (r: RenderLine)
    requires
        cursor <= chars@.len(),
    ensures
        r.deep_view() == idle_line(prompt@, chars@, cursor as int),
{
    let mut spans: Vec<Span> = Vec::new();
    spans.push(Span { text: prompt.clone(), kind: SpanKind::Prompt });
    spans.push(Span { text: space_string(), kind: SpanKind::Plain });
    spans.push(Span { text: string_of_range(chars, 0, cursor), kind: SpanKind::Bold });
    if cursor < chars.len() {
        let mut under = String::new();
        under.push(chars[cursor]);
        spans.push(Span { text: under, kind: SpanKind::Cursor });
        spans.push(
            Span { text: string_of_range(chars, cursor + 1, chars.len()), kind: SpanKind::Bold },
        );
    } else {
        spans.push(Span { text: space_string(), kind: SpanKind::Cursor });
        spans.push(Span { text: String::new(), kind: SpanKind::Bold });
    }
    let r = RenderLine { spans };
    proof {
        assert(r.deep_view() =~~= idle_line(prompt@, chars@, cursor as int));
    }
    r
}

/// Appends one suggestion line per candidate: buffer text plus suffix.
fn push_suggestions(out: &mut Vec<RenderLine>, chars: &Vec<char>, cands: &Vec<String>)
    ensures
        final(out).deep_view() == old(out).deep_view() + suggestion_lines(
            chars@,
            cands.deep_view(),
        ),
{
    let n = cands.len();
    let mut i: usize = 0;
    proof {
        assert(out.deep_view() =~~= old(out).deep_view() + suggestion_lines(
            chars@,
            cands.deep_view().take(0),
        ));
    }
    while i < n
        invariant
            n == cands@.len(),
            i <= n,
            out.deep_view() == old(out).deep_view() + suggestion_lines(
                chars@,
                cands.deep_view().take(i as int),
            ),
        decreases n - i,
    {
        let mut full = string_of_chars(chars);
        full.append(cands[i].as_str());
        let mut spans: Vec<Span> = Vec::new();
        spans.push(Span { text: full, kind: SpanKind::Suggestion });
        let line = RenderLine { spans };
        proof {
            assert(line.deep_view() =~~= single_span_line(
                chars@ + cands.deep_view()[i as int],
                SpanKind::Suggestion,
            ));
        }
        out.push(line);
        proof {
            assert(suggestion_lines(chars@, cands.deep_view().take(i + 1)) =~~= suggestion_lines(
                chars@,
                cands.deep_view().take(i as int),
            ).push(single_span_line(chars@ + cands.deep_view()[i as int], SpanKind::Suggestion)));
            assert(out.deep_view() =~~= (old(out).deep_view() + suggestion_lines(
                chars@,
                cands.deep_view().take(i as int),
            )).push(single_span_line(chars@ + cands.deep_view()[i as int], SpanKind::Suggestion)));
            assert(out.deep_view() =~~= old(out).deep_view() + suggestion_lines(
                chars@,
                cands.deep_view().take(i + 1),
            ));
        }
        i = i + 1;
    }
    proof {
        assert(cands.deep_view().take(n as int) =~~= cands.deep_view());
    }
}

impl App {
    /// Every display line of the current frame: the history log first, then
    /// the current state. The prompt is recomputed by the caller for every
    /// frame and passed in.
    pub fn render(&self, prompt: &String) -> (r: Vec<RenderLine>)
        requires
            self@.wf(),
        ensures
            r.deep_view() == display_lines(self@, prompt@),
    {
        let mut out: Vec<RenderLine> = Vec::new();
        let hist = self.history();
        let n = hist.len();
        let mut i: usize = 0;
        proof {
            assert(out.deep_view() =~~= history_lines(hist.deep_view().take(0)));
        }
        while i < n
            invariant
                n == hist@.len(),
                i <= n,
                hist.deep_view() == self@.history,
                out.deep_view() == history_lines(hist.deep_view().take(i as int)),
            decreases n - i,
        {
            let mut rl = render_history(&hist[i]);
            out.append(&mut rl);
            proof {
                let pre = hist.deep_view().take(i + 1);
                assert(pre.drop_last() =~= hist.deep_view().take(i as int));
                assert(pre.last() == hist.deep_view()[i as int]);
                assert(out.deep_view() =~~= history_lines(pre));
            }
            i = i + 1;
        }
        proof {
            assert(hist.deep_view().take(n as int) =~~= hist.deep_view());
        }
        match self.state() {
            State::Idle { buffer, completions } => {
                proof {
                    assert(self@.state matches StateView::Idle { text, cursor, .. } && text
                        == buffer.chars@ && cursor == buffer.cursor as int);
                }
                out.push(idle_editing_line(prompt, &buffer.chars, buffer.cursor));
                proof {
                    assert(out.deep_view() =~~= history_lines(self@.history).push(
                        idle_line(prompt@, buffer.chars@, buffer.cursor as int),
                    ));
                }
                match completions {
                    Option::None => {
                        proof {
                            assert(state_lines(self@.state, prompt@) =~~= seq![
                                idle_line(prompt@, buffer.chars@, buffer.cursor as int),
                            ]);
                            assert(out.deep_view() =~~= history_lines(self@.history) + seq![
                                idle_line(prompt@, buffer.chars@, buffer.cursor as int),
                            ]);
                            assert(out.deep_view() =~~= display_lines(self@, prompt@));
                        }
                    },
                    Option::Some(cs) => {
                        push_suggestions(&mut out, &buffer.chars, cs);
                        proof {
                            assert(state_lines(self@.state, prompt@) =~~= seq![
                                idle_line(prompt@, buffer.chars@, buffer.cursor as int),
                            ] + suggestion_lines(buffer.chars@, cs.deep_view()));
                            assert(out.deep_view() =~~= (history_lines(self@.history).push(
                                idle_line(prompt@, buffer.chars@, buffer.cursor as int),
                            )) + suggestion_lines(buffer.chars@, cs.deep_view()));
                            assert(out.deep_view() =~~= history_lines(self@.history) + (seq![
                                idle_line(prompt@, buffer.chars@, buffer.cursor as int),
                            ] + suggestion_lines(buffer.chars@, cs.deep_view())));
                            assert(out.deep_view() =~~= display_lines(self@, prompt@));
                        }
                    },
                }
            },
            State::Running { prepared, stdin } => {
                out.push(heading(prompt, &prepared.command));
                proof {
                    assert(out.deep_view() =~~= history_lines(self@.history).push(
                        heading_line(prompt@, prepared.command@),
                    ));
                }
                push_plain(&mut out, stdin, SpanKind::Plain);
                proof {
                    assert(state_lines(self@.state, prompt@) =~~= seq![
                        heading_line(prompt@, prepared.command@),
                    ] + plain_lines(stdin.deep_view(), SpanKind::Plain));
                    assert(out.deep_view() =~~= (history_lines(self@.history).push(
                        heading_line(prompt@, prepared.command@),
                    )) + plain_lines(stdin.deep_view(), SpanKind::Plain));
                    assert(out.deep_view() =~~= history_lines(self@.history) + (seq![
                        heading_line(prompt@, prepared.command@),
                    ] + plain_lines(stdin.deep_view(), SpanKind::Plain)));
                    assert(out.deep_view() =~~= display_lines(self@, prompt@));
                }
            },
        }
        out
    }
}

} // verus!
