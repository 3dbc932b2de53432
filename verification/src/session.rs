//! The session as a whole: what holds of the pipe and the interactive loop
//! together, across the two queues between them.

use crate::pipe::{
    course, inbound, lemma_relay_is_faithful, quiet, run, shown, transition, ActionView,
    EventView, PipePhase, Round,
};
use crate::text::{blank, closed_status, read_error_status};
use crate::ui::{after_key, after_lines, KeyCode, LoopState, UiModel};
use vstd::prelude::*;
use vstd::utf8::*;

verus! {

/// Inbound lines reach the history unchanged and in order. Over any
/// sequence of rounds of the relay, a loop that takes in what the pipe
/// shows has at the end of its history exactly the lines that arrived on
/// the inbound half, each as it came, in the order of arrival, whatever
/// was drained and written in between. If the stream then ends or fails,
/// one status line follows them and nothing else.
pub proof fn lemma_inbound_lines_reach_history(
    name: Seq<char>,
    ui: UiModel,
    rounds: Seq<Round>,
    reason: Seq<char>,
)
    ensures
        after_lines(ui, shown(run(name, PipePhase::Racing, course(rounds)).1)).history
            == ui.history + inbound(rounds),
        after_lines(
            ui,
            shown(run(name, PipePhase::Racing, course(rounds).push(EventView::EndOfStream)).1),
        ).history == ui.history + inbound(rounds).push(closed_status()),
        after_lines(
            ui,
            shown(
                run(name, PipePhase::Racing, course(rounds).push(EventView::ReadFailed(reason))).1,
            ),
        ).history == ui.history + inbound(rounds).push(read_error_status(reason)),
{
    lemma_relay_is_faithful(name, rounds);
    let relayed = run(name, PipePhase::Racing, course(rounds));
    let closing = course(rounds).push(EventView::EndOfStream);
    assert(closing.drop_last() =~= course(rounds));
    assert(closing.last() == EventView::EndOfStream);
    let closed = run(name, PipePhase::Racing, closing).1;
    assert(closed.drop_last() =~= relayed.1);
    assert(shown(closed) =~= inbound(rounds).push(closed_status()));
    let failing = course(rounds).push(EventView::ReadFailed(reason));
    assert(failing.drop_last() =~= course(rounds));
    assert(failing.last() == EventView::ReadFailed(reason));
    let failed = run(name, PipePhase::Racing, failing).1;
    assert(failed.drop_last() =~= relayed.1);
    assert(shown(failed) =~= inbound(rounds).push(read_error_status(reason)));
}

/// The peer is sent what the user was shown. When enter submits an input
/// that is not blank, a draining pipe under the same display name turns the
/// command that the loop queued into the UTF-8 bytes of the line that the
/// loop echoed, and a line feed.
pub proof fn lemma_sent_as_echoed(ui: UiModel)
    requires
        ui.state == LoopState::Running,
        !blank(ui.input),
    ensures
        after_key(ui, KeyCode::Enter).1 matches Some(text) && transition(
            ui.name,
            PipePhase::Draining,
            EventView::Command(text),
        ) == Some(
            (
                PipePhase::Writing,
                quiet(
                    ActionView::Write(
                        encode_utf8(after_key(ui, KeyCode::Enter).0.history.last() + "\n"@),
                    ),
                ),
            ),
        ),
{
}

} // verus!
