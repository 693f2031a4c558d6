//! The execution state machine: Idle (editing a command) and Running
//! (feeding standard input to a prepared command), plus the append-only
//! history log.
//!
//! The engine never talks to the executor itself. Dispatching an event
//! yields an [`Effect`]; the driver performs the executor call the effect
//! names and hands the reply back through one of the `apply_*` methods.
//! Every transition is specified by a `step_*` spec function over the
//! engine's mathematical model.

use crate::completion::narrow_candidates;
use crate::completion::narrowed;
use crate::editor::EditorBuffer;
use crate::text::push_str_chars;
use crate::text::string_of_chars;
use vstd::prelude::*;

verus! {

/// What pre-submission analysis said of a command: its text and whether it
/// wants interactive standard input before it runs.
pub struct PreparedCommand {
    pub command: String,
    pub stdin_required: bool,
}

/// Mathematical model of a [`PreparedCommand`].
#[verifier::ext_equal]
pub struct PreparedView {
    pub command: Seq<char>,
    pub stdin_required: bool,
}

impl View for PreparedCommand {
    type V = PreparedView;

    open spec fn view(&self) -> PreparedView {
        PreparedView { command: self.command@, stdin_required: self.stdin_required }
    }
}

/// One finished command: the prompt at the time, the command text, and the
/// captured input and output streams. Immutable once created.
pub struct CommandRecord {
    pub prompt: String,
    pub command: String,
    pub stdin: Vec<String>,
    pub stdout: Vec<String>,
    pub stderr: Vec<String>,
}

/// Mathematical model of a [`CommandRecord`].
#[verifier::ext_equal]
pub struct RecordView {
    pub prompt: Seq<char>,
    pub command: Seq<char>,
    pub stdin: Seq<Seq<char>>,
    pub stdout: Seq<Seq<char>>,
    pub stderr: Seq<Seq<char>>,
}

impl View for CommandRecord {
    type V = RecordView;

    open spec fn view(&self) -> RecordView {
        RecordView {
            prompt: self.prompt@,
            command: self.command@,
            stdin: self.stdin.deep_view(),
            stdout: self.stdout.deep_view(),
            stderr: self.stderr.deep_view(),
        }
    }
}

impl DeepView for CommandRecord {
    type V = RecordView;

    open spec fn deep_view(&self) -> RecordView {
        self.view()
    }
}

/// The two phases of the engine.
pub enum State {
    /// Editing the next command; holds the buffer and any active completion
    /// set (suffixes relative to the buffer text).
    Idle { buffer: EditorBuffer, completions: Option<Vec<String>> },
    /// A prepared command waiting for interactive input; holds the stdin
    /// lines typed so far, the last one still being edited.
    Running { prepared: PreparedCommand, stdin: Vec<String> },
}

/// Mathematical model of a [`State`].
#[verifier::ext_equal]
pub enum StateView {
    Idle { text: Seq<char>, cursor: int, completions: Option<Seq<Seq<char>>> },
    Running { command: Seq<char>, stdin_required: bool, stdin: Seq<Seq<char>> },
}

impl View for State {
    type V = StateView;

    open spec fn view(&self) -> StateView {
        match self {
            State::Idle { buffer, completions } => StateView::Idle {
                text: buffer.chars@,
                cursor: buffer.cursor as int,
                completions: match completions {
                    Option::None => Option::None,
                    Option::Some(cs) => Option::Some(cs.deep_view()),
                },
            },
            State::Running { prepared, stdin } => StateView::Running {
                command: prepared.command@,
                stdin_required: prepared.stdin_required,
                stdin: stdin.deep_view(),
            },
        }
    }
}

impl StateView {
    /// While idle, the cursor always lies in `[0, text length]`.
    pub open spec fn wf(self) -> bool {
        match self {
            StateView::Idle { text, cursor, .. } => 0 <= cursor <= text.len(),
            StateView::Running { .. } => true,
        }
    }
}

/// A key event, already mapped from the terminal's encoding by the driver.
#[derive(Clone, Copy)]
pub enum Event {
    /// Clear the visible history log; the current state is untouched.
    ClearView,
    /// Interrupt or end-of-input: finalizes a running command, or asks the
    /// session to exit while idle.
    Interrupt,
    /// Move the cursor one character left.
    Left,
    /// Move the cursor one character right.
    Right,
    /// Request completion for the buffer text.
    Tab,
    /// Delete backward.
    Backspace,
    /// Submit the command, or commit the current stdin line.
    Enter,
    /// A typed character.
    Char(char),
    /// Any key the engine does not recognize; silently ignored.
    Other,
}

/// What the engine asks its driver to do after a step.
pub enum Effect {
    /// Nothing; keep reading events.
    Continue,
    /// End the session.
    Exit,
    /// Call the executor's completion capability on `text`, then hand the
    /// reply to [`App::apply_completion`].
    NeedCompletion { text: String },
    /// Call the executor's prepare capability on `command`, then hand the
    /// reply to [`App::apply_prepare`].
    NeedPrepare { command: String },
    /// Call the executor's execute capability with `command` and `stdin`,
    /// then hand the outcome to [`App::apply_outcome`].
    NeedExecute { command: String, stdin: Option<Vec<String>> },
}

/// Mathematical model of an [`Effect`].
#[verifier::ext_equal]
pub enum EffectView {
    Continue,
    Exit,
    NeedCompletion { text: Seq<char> },
    NeedPrepare { command: Seq<char> },
    NeedExecute { command: Seq<char>, stdin: Option<Seq<Seq<char>>> },
}

impl View for Effect {
    type V = EffectView;

    open spec fn view(&self) -> EffectView {
        match self {
            Effect::Continue => EffectView::Continue,
            Effect::Exit => EffectView::Exit,
            Effect::NeedCompletion { text } => EffectView::NeedCompletion { text: text@ },
            Effect::NeedPrepare { command } => EffectView::NeedPrepare { command: command@ },
            Effect::NeedExecute { command, stdin } => EffectView::NeedExecute {
                command: command@,
                stdin: match stdin {
                    Option::None => Option::None,
                    Option::Some(lines) => Option::Some(lines.deep_view()),
                },
            },
        }
    }
}

/// What the executor's execute capability produced.
pub enum OutputAction {
    /// A finished command to append to the history log.
    Command(CommandRecord),
    /// End the session.
    Exit,
    /// Drop the whole history log.
    Clear,
}

/// Mathematical model of an [`OutputAction`].
#[verifier::ext_equal]
pub enum OutputActionView {
    Command(RecordView),
    Exit,
    Clear,
}

impl View for OutputAction {
    type V = OutputActionView;

    open spec fn view(&self) -> OutputActionView {
        match self {
            OutputAction::Command(rec) => OutputActionView::Command(rec@),
            OutputAction::Exit => OutputActionView::Exit,
            OutputAction::Clear => OutputActionView::Clear,
        }
    }
}

/// The engine: the current phase plus the append-only history log.
pub struct App {
    state: State,
    history: Vec<CommandRecord>,
}

/// Mathematical model of the engine.
#[verifier::ext_equal]
pub struct AppView {
    pub state: StateView,
    pub history: Seq<RecordView>,
}

impl View for App {
    type V = AppView;

    closed spec fn view(&self) -> AppView {
        AppView { state: self.state@, history: self.history.deep_view() }
    }
}

impl AppView {
    pub open spec fn wf(self) -> bool {
        self.state.wf()
    }
}

/// The empty Idle state that every finished command returns to.
pub open spec fn empty_idle() -> StateView {
    StateView::Idle { text: Seq::empty(), cursor: 0, completions: Option::None }
}

/// One stdin keystroke: `c` is appended to the last line, and a first line
/// is created when none exists yet.
pub open spec fn stdin_with_char(stdin: Seq<Seq<char>>, c: char) -> Seq<Seq<char>> {
    if stdin.len() == 0 {
        seq![seq![c]]
    } else {
        stdin.update(stdin.len() - 1, stdin.last().push(c))
    }
}

/// One stdin delete-backward: the last character of the last line is
/// dropped, and a line left (or found) empty is removed whole, so repeated
/// deletion erases entire empty lines and ends at an empty sequence.
pub open spec fn stdin_backspace(stdin: Seq<Seq<char>>) -> Seq<Seq<char>> {
    if stdin.len() == 0 {
        stdin
    } else {
        let popped = if stdin.last().len() > 0 {
            stdin.update(stdin.len() - 1, stdin.last().drop_last())
        } else {
            stdin
        };
        if popped.last().len() == 0 {
            popped.drop_last()
        } else {
            popped
        }
    }
}

/// The engine after one key event, with the effect the driver must perform.
pub open spec fn step_event(s: AppView, ev: Event) -> (AppView, EffectView) {
    match ev {
        Event::ClearView => (AppView { state: s.state, history: Seq::empty() }, EffectView::Continue),
        Event::Interrupt => match s.state {
            StateView::Running { command, stdin_required, stdin } => (
                s,
                EffectView::NeedExecute { command, stdin: Option::Some(stdin) },
            ),
            StateView::Idle { .. } => (s, EffectView::Exit),
        },
        Event::Left => match s.state {
            StateView::Idle { text, cursor, completions } => if cursor > 0 {
                (
                    AppView {
                        state: StateView::Idle {
                            text,
                            cursor: cursor - 1,
                            completions: Option::None,
                        },
                        history: s.history,
                    },
                    EffectView::Continue,
                )
            } else {
                (s, EffectView::Continue)
            },
            StateView::Running { .. } => (s, EffectView::Continue),
        },
        Event::Right => match s.state {
            StateView::Idle { text, cursor, completions } => if cursor < text.len() {
                (
                    AppView {
                        state: StateView::Idle { text, cursor: cursor + 1, completions },
                        history: s.history,
                    },
                    EffectView::Continue,
                )
            } else {
                (s, EffectView::Continue)
            },
            StateView::Running { .. } => (s, EffectView::Continue),
        },
        Event::Tab => match s.state {
            StateView::Idle { text, cursor, completions } => if completions is None && cursor
                == text.len() {
                (s, EffectView::NeedCompletion { text })
            } else {
                (s, EffectView::Continue)
            },
            StateView::Running { .. } => (s, EffectView::Continue),
        },
        Event::Char(c) => match s.state {
            StateView::Idle { text, cursor, completions } => if text.len() < usize::MAX {
                (
                    AppView {
                        state: StateView::Idle {
                            text: text.insert(cursor, c),
                            cursor: cursor + 1,
                            completions: match completions {
                                Option::None => Option::None,
                                Option::Some(cs) => Option::Some(narrowed(cs, c)),
                            },
                        },
                        history: s.history,
                    },
                    EffectView::Continue,
                )
            } else {
                (s, EffectView::Continue)
            },
            StateView::Running { command, stdin_required, stdin } => (
                AppView {
                    state: StateView::Running {
                        command,
                        stdin_required,
                        stdin: stdin_with_char(stdin, c),
                    },
                    history: s.history,
                },
                EffectView::Continue,
            ),
        },
        Event::Backspace => match s.state {
            StateView::Idle { text, cursor, completions } => if cursor > 0 {
                (
                    AppView {
                        state: StateView::Idle {
                            text: text.remove(cursor - 1),
                            cursor: cursor - 1,
                            completions: Option::None,
                        },
                        history: s.history,
                    },
                    EffectView::Continue,
                )
            } else {
                (s, EffectView::Continue)
            },
            StateView::Running { command, stdin_required, stdin } => (
                AppView {
                    state: StateView::Running {
                        command,
                        stdin_required,
                        stdin: stdin_backspace(stdin),
                    },
                    history: s.history,
                },
                EffectView::Continue,
            ),
        },
        Event::Enter => match s.state {
            StateView::Idle { text, .. } => (s, EffectView::NeedPrepare { command: text }),
            StateView::Running { command, stdin_required, stdin } => (
                AppView {
                    state: StateView::Running {
                        command,
                        stdin_required,
                        stdin: stdin.push(Seq::empty()),
                    },
                    history: s.history,
                },
                EffectView::Continue,
            ),
        },
        Event::Other => (s, EffectView::Continue),
    }
}

/// The engine after the executor's completion reply: the fixed suffix is
/// appended whole, the cursor moves past it, and the candidates become the
/// active set. A reply that arrives in any other state is ignored.
pub open spec fn step_completion(s: AppView, fixed: Seq<char>, candidates: Seq<Seq<char>>) -> AppView {
    match s.state {
        StateView::Idle { text, cursor, completions } => if completions is None && cursor
            == text.len() {
            AppView {
                state: StateView::Idle {
                    text: text + fixed,
                    cursor: text.len() + fixed.len() as int,
                    completions: Option::Some(candidates),
                },
                history: s.history,
            }
        } else {
            s
        },
        StateView::Running { .. } => s,
    }
}

/// The engine after a submitted command was prepared: Running with empty
/// stdin. When the command needs no interactive input, the driver is asked
/// to execute the submitted text at once, with no stdin.
pub open spec fn step_prepare(s: AppView, p: PreparedView) -> (AppView, EffectView) {
    match s.state {
        StateView::Idle { text, .. } => {
            let ns = AppView {
                state: StateView::Running {
                    command: p.command,
                    stdin_required: p.stdin_required,
                    stdin: Seq::empty(),
                },
                history: s.history,
            };
            if p.stdin_required {
                (ns, EffectView::Continue)
            } else {
                (ns, EffectView::NeedExecute { command: text, stdin: Option::None })
            }
        },
        StateView::Running { .. } => (s, EffectView::Continue),
    }
}

/// The engine after a command finished: a fresh Idle state, with the
/// outcome acted on — a record appended to the history, an exit requested,
/// or the whole history log dropped.
pub open spec fn step_outcome(s: AppView, o: OutputActionView) -> (AppView, EffectView) {
    match o {
        OutputActionView::Command(rec) => (
            AppView { state: empty_idle(), history: s.history.push(rec) },
            EffectView::Continue,
        ),
        OutputActionView::Exit => (
            AppView { state: empty_idle(), history: s.history },
            EffectView::Exit,
        ),
        OutputActionView::Clear => (
            AppView { state: empty_idle(), history: Seq::empty() },
            EffectView::Continue,
        ),
    }
}

impl App {
    /// A fresh engine: empty Idle state, empty history.
    pub fn new() -> (r: App)
        ensures
            r@.state == empty_idle(),
            r@.history == Seq::<RecordView>::empty(),
            r@.wf(),
    {
        let r = App {
            state: State::Idle { buffer: EditorBuffer::new(), completions: Option::None },
            history: Vec::new(),
        };
        proof {
            assert(r@.state =~= empty_idle());
        }
        r
    }

    /// The current phase, for rendering and for the driver's dispatch.
    pub fn state(&self) -> (r: &State)
        ensures
            r@ == self@.state,
    {
        &self.state
    }

    /// The history log of finished commands, oldest first.
    pub fn history(&self) -> (r: &Vec<CommandRecord>)
        ensures
            r.deep_view() == self@.history,
    {
        &self.history
    }

    /// Dispatches one key event and returns the effect the driver must
    /// perform before reading the next event.
    pub fn input(&mut self, ev: Event) -> (r: Effect)
        requires
            old(self)@.wf(),
        ensures
            final(self)@.wf(),
            final(self)@ == step_event(old(self)@, ev).0,
            r@ == step_event(old(self)@, ev).1,
    {
        match ev {
            Event::ClearView => {
                self.history.clear();
                proof {
                    assert(self@ =~= step_event(old(self)@, ev).0);
                }
                Effect::Continue
            },
            Event::Interrupt => {
                match &self.state {
                    State::Running { prepared, stdin } => {
                        let r = Effect::NeedExecute {
                            command: prepared.command.clone(),
                            stdin: Option::Some(stdin.clone()),
                        };
                        proof {
                            assert(r@ =~= step_event(old(self)@, ev).1);
                        }
                        r
                    },
                    State::Idle { .. } => Effect::Exit,
                }
            },
            Event::Left => {
                match &mut self.state {
                    State::Idle { buffer, completions } => {
                        if buffer.cursor > 0 {
                            buffer.move_left();
                            *completions = Option::None;
                        }
                    },
                    State::Running { .. } => {},
                }
                proof {
                    assert(self@ =~= step_event(old(self)@, ev).0);
                }
                Effect::Continue
            },
            Event::Right => {
                match &mut self.state {
                    State::Idle { buffer, .. } => buffer.move_right(),
                    State::Running { .. } => {},
                }
                proof {
                    assert(self@ =~= step_event(old(self)@, ev).0);
                }
                Effect::Continue
            },
            Event::Tab => {
                match &self.state {
                    State::Idle { buffer, completions } => {
                        if completions.is_none() && buffer.cursor == buffer.chars.len() {
                            Effect::NeedCompletion { text: string_of_chars(&buffer.chars) }
                        } else {
                            Effect::Continue
                        }
                    },
                    State::Running { .. } => Effect::Continue,
                }
            },
            Event::Char(c) => {
                match &mut self.state {
                    State::Idle { buffer, completions } => {
                        if buffer.chars.len() < usize::MAX {
                            buffer.insert_char(c);
                            let narrowed_set = match completions {
                                Option::None => Option::None,
                                Option::Some(cs) => Option::Some(narrow_candidates(cs, c)),
                            };
                            *completions = narrowed_set;
                        }
                    },
                    State::Running { stdin, .. } => {
                        if stdin.len() == 0 {
                            let mut line = String::new();
                            line.push(c);
                            stdin.push(line);
                            proof {
                                assert(stdin.deep_view() =~= stdin_with_char(
                                    old(self)@.state->Running_stdin,
                                    c,
                                ));
                            }
                        } else {
                            let mut line = stdin.pop().unwrap();
                            line.push(c);
                            stdin.push(line);
                            proof {
                                assert(stdin.deep_view() =~= stdin_with_char(
                                    old(self)@.state->Running_stdin,
                                    c,
                                ));
                            }
                        }
                    },
                }
                proof {
                    assert(self@ =~= step_event(old(self)@, ev).0);
                }
                Effect::Continue
            },
            Event::Backspace => {
                match &mut self.state {
                    State::Idle { buffer, completions } => {
                        if buffer.cursor > 0 {
                            buffer.delete_backward();
                            *completions = Option::None;
                        }
                    },
                    State::Running { stdin, .. } => {
                        if stdin.len() > 0 {
                            let mut line = stdin.pop().unwrap();
                            line.pop();
                            if line.as_str().is_empty() {
                            } else {
                                stdin.push(line);
                            }
                            proof {
                                assert(stdin.deep_view() =~= stdin_backspace(
                                    old(self)@.state->Running_stdin,
                                ));
                            }
                        }
                    },
                }
                proof {
                    assert(self@ =~= step_event(old(self)@, ev).0);
                }
                Effect::Continue
            },
            Event::Enter => {
                match &mut self.state {
                    State::Idle { buffer, .. } => Effect::NeedPrepare {
                        command: string_of_chars(&buffer.chars),
                    },
                    State::Running { stdin, .. } => {
                        stdin.push(String::new());
                        proof {
                            assert(self@ =~= step_event(old(self)@, ev).0);
                        }
                        Effect::Continue
                    },
                }
            },
            Event::Other => Effect::Continue,
        }
    }

    /// Acts on the executor's completion reply for the current buffer.
    pub fn apply_completion(&mut self, fixed: &str, candidates: Vec<String>)
        requires
            old(self)@.wf(),
        ensures
            final(self)@.wf(),
            final(self)@ == step_completion(old(self)@, fixed@, candidates.deep_view()),
    {
        match &mut self.state {
            State::Idle { buffer, completions } => {
                if completions.is_none() && buffer.cursor == buffer.chars.len() {
                    push_str_chars(&mut buffer.chars, fixed);
                    buffer.cursor = buffer.chars.len();
                    *completions = Option::Some(candidates);
                }
            },
            State::Running { .. } => {},
        }
        proof {
            assert(self@ =~= step_completion(old(self)@, fixed@, candidates.deep_view()));
        }
    }

    /// Acts on the executor's prepared command for a submitted buffer.
    pub fn apply_prepare(&mut self, prepared: PreparedCommand) -> (r: Effect)
        requires
            old(self)@.wf(),
        ensures
            final(self)@.wf(),
            final(self)@ == step_prepare(old(self)@, prepared@).0,
            r@ == step_prepare(old(self)@, prepared@).1,
    {
        let is_idle = matches!(&self.state, State::Idle { .. });
        if is_idle {
            let text = match &self.state {
                State::Idle { buffer, .. } => string_of_chars(&buffer.chars),
                State::Running { .. } => String::new(),
            };
            let needs = prepared.stdin_required;
            self.state = State::Running { prepared, stdin: Vec::new() };
            proof {
                assert(self@ =~= step_prepare(old(self)@, prepared@).0);
            }
            if needs {
                Effect::Continue
            } else {
                Effect::NeedExecute { command: text, stdin: Option::None }
            }
        } else {
            Effect::Continue
        }
    }

    /// Acts on a finished command's outcome and returns to a fresh Idle
    /// state.
    pub fn apply_outcome(&mut self, outcome: OutputAction) -> (r: Effect)
        ensures
            final(self)@.wf(),
            final(self)@ == step_outcome(old(self)@, outcome@).0,
            r@ == step_outcome(old(self)@, outcome@).1,
    {
        self.state = State::Idle { buffer: EditorBuffer::new(), completions: Option::None };
        match outcome {
            OutputAction::Command(rec) => {
                let ghost rec_view = rec@;
                self.history.push(rec);
                proof {
                    assert(self.history.deep_view() =~= old(self).history.deep_view().push(
                        rec_view,
                    ));
                    assert(self@ =~= step_outcome(old(self)@, outcome@).0);
                }
                Effect::Continue
            },
            OutputAction::Exit => {
                proof {
                    assert(self@ =~= step_outcome(old(self)@, outcome@).0);
                }
                Effect::Exit
            },
            OutputAction::Clear => {
                self.history.clear();
                proof {
                    assert(self@ =~= step_outcome(old(self)@, outcome@).0);
                }
                Effect::Continue
            },
        }
    }
}

} // verus!
