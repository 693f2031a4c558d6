//! Stated laws of the engine, proved over the `step_*` transition model.

use crate::completion::lemma_narrowed_empty;
use crate::state::empty_idle;
use crate::state::step_completion;
use crate::state::step_event;
use crate::state::step_outcome;
use crate::state::step_prepare;
use crate::state::AppView;
use crate::state::EffectView;
use crate::state::Event;
use crate::state::OutputActionView;
use crate::state::PreparedView;
use crate::state::RecordView;
use crate::state::StateView;
use vstd::prelude::*;

verus! {

/// Every key event keeps the engine well-formed: the cursor stays within
/// `[0, text length]`, whatever sequence of operations ran before.
pub proof fn lemma_step_event_preserves_wf(s: AppView, ev: Event)
    requires
        s.wf(),
    ensures
        step_event(s, ev).0.wf(),
{
}

/// A completion reply keeps the engine well-formed, and leaves the cursor
/// at the end of the extended text.
pub proof fn lemma_step_completion_preserves_wf(s: AppView, fixed: Seq<char>, cands: Seq<Seq<char>>)
    requires
        s.wf(),
    ensures
        step_completion(s, fixed, cands).wf(),
{
}

/// A prepared command keeps the engine well-formed.
pub proof fn lemma_step_prepare_preserves_wf(s: AppView, p: PreparedView)
    requires
        s.wf(),
    ensures
        step_prepare(s, p).0.wf(),
{
}

/// A finished command's outcome keeps the engine well-formed.
pub proof fn lemma_step_outcome_preserves_wf(s: AppView, o: OutputActionView)
    requires
        s.wf(),
    ensures
        step_outcome(s, o).0.wf(),
{
}

/// Move-left with the cursor at 0 changes nothing at all.
pub proof fn lemma_move_left_at_start_noop(s: AppView)
    requires
        s.state matches StateView::Idle { cursor, .. } && cursor == 0,
    ensures
        step_event(s, Event::Left) == (s, EffectView::Continue),
{
}

/// Move-right with the cursor at the end of the text changes nothing at
/// all.
pub proof fn lemma_move_right_at_end_noop(s: AppView)
    requires
        s.state matches StateView::Idle { text, cursor, .. } && cursor == text.len(),
    ensures
        step_event(s, Event::Right) == (s, EffectView::Continue),
{
}

/// Typing against an exhausted completion set keeps the (still) empty set
/// active: narrowing never faults, it just filters nothing.
pub proof fn lemma_empty_completion_set_stays(s: AppView, c: char)
    requires
        s.state matches StateView::Idle { text, completions, .. } && completions == Some(
            Seq::<Seq<char>>::empty(),
        ) && text.len() < usize::MAX,
    ensures
        step_event(s, Event::Char(c)).0.state matches StateView::Idle { completions, .. }
            && completions == Some(Seq::<Seq<char>>::empty()),
{
    lemma_narrowed_empty(c);
}

/// Submitting while idle, when the prepared command needs no interactive
/// input, executes the submitted text at once and returns to a fresh Idle
/// with exactly one record appended to the history.
pub proof fn lemma_submit_without_stdin(s: AppView, p: PreparedView, rec: RecordView)
    requires
        s.state matches StateView::Idle { .. },
        !p.stdin_required,
    ensures
        ({
            let (s1, e1) = step_event(s, Event::Enter);
            let (s2, e2) = step_prepare(s1, p);
            let (s3, e3) = step_outcome(s2, OutputActionView::Command(rec));
            &&& s1 == s
            &&& e1 == (EffectView::NeedPrepare { command: s.state->Idle_text })
            &&& e2 == (EffectView::NeedExecute {
                command: s.state->Idle_text,
                stdin: Option::<Seq<Seq<char>>>::None,
            })
            &&& s3.state == empty_idle()
            &&& s3.history == s.history.push(rec)
            &&& e3 == EffectView::Continue
        }),
{
}

/// Submitting while idle, when the prepared command does need interactive
/// input, moves the engine to Running with an empty stdin and asks for
/// nothing further.
pub proof fn lemma_submit_with_stdin(s: AppView, p: PreparedView)
    requires
        s.state matches StateView::Idle { .. },
        p.stdin_required,
    ensures
        ({
            let (s1, e1) = step_event(s, Event::Enter);
            let (s2, e2) = step_prepare(s1, p);
            &&& s2.state == (StateView::Running {
                command: p.command,
                stdin_required: true,
                stdin: Seq::<Seq<char>>::empty(),
            })
            &&& s2.history == s.history
            &&& e2 == EffectView::Continue
        }),
{
}

/// Interrupting while Running finalizes: the executor is asked to run the
/// command with exactly the stdin lines typed so far, and the outcome's
/// record lands in the history as the engine returns to a fresh Idle.
pub proof fn lemma_interrupt_finalizes(s: AppView, rec: RecordView)
    requires
        s.state matches StateView::Running { .. },
    ensures
        ({
            let (s1, e1) = step_event(s, Event::Interrupt);
            let (s2, e2) = step_outcome(s1, OutputActionView::Command(rec));
            &&& s1 == s
            &&& e1 == (EffectView::NeedExecute {
                command: s.state->Running_command,
                stdin: Option::Some(s.state->Running_stdin),
            })
            &&& s2.state == empty_idle()
            &&& s2.history == s.history.push(rec)
            &&& e2 == EffectView::Continue
        }),
{
}

/// The display-only clear empties the history log and touches nothing
/// else: the editing state, buffer and cursor stay exactly as they were.
pub proof fn lemma_clear_view_keeps_state(s: AppView)
    ensures
        step_event(s, Event::ClearView).0.state == s.state,
        step_event(s, Event::ClearView).0.history == Seq::<RecordView>::empty(),
        step_event(s, Event::ClearView).1 == EffectView::Continue,
{
}

} // verus!
