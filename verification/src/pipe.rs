//! The session pipe: the relay between an established connection and the two
//! queues, as a state machine.
//!
//! The machine never waits, reads or writes. It tells its driver what to do
//! next ([`PipeAction`]) and is told what happened ([`PipeEvent`]). One round
//! of the driver's loop is one call of [`SessionPipe::step`].

use crate::command::NetworkCommand;
use crate::text::{
    closed_line, closed_status, read_error_line, read_error_status, wire, wire_bytes,
    write_error_line, write_error_status,
};
use vstd::prelude::*;

verus! {

/// Where the pipe stands between two steps.
#[derive(Debug, Clone, Copy, PartialEq, Eq, Structural)]
pub enum PipePhase {
    /// Waiting for the next inbound line or the tick, whichever comes first.
    Racing,
    /// The tick came first: taking commands off the outbound queue.
    Draining,
    /// A framed line is being written to the outbound half.
    Writing,
    /// The relay has ended; nothing is read or written any more.
    Finished,
}

/// What the driver reports to the pipe.
#[derive(Debug, PartialEq, Eq)]
pub enum PipeEvent {
    /// The reader decoded a complete line (without its line feed).
    Line(String),
    /// The peer closed its side: the reader reached the end of the stream.
    EndOfStream,
    /// The reader failed; the text describes the failure.
    ReadFailed(String),
    /// The tick elapsed before a line was complete.
    Tick,
    /// The outbound queue held a command.
    Command(NetworkCommand),
    /// The outbound queue held nothing.
    QueueEmpty,
    /// The bytes handed out for writing were written in full.
    Written,
    /// The write failed; the text describes the failure.
    WriteFailed(String),
}

/// What the pipe asks its driver to do next.
#[derive(Debug, PartialEq, Eq)]
pub enum PipeAction {
    /// Wait for the next inbound line and for the tick; report the first.
    Race,
    /// Take one command off the outbound queue without blocking.
    Poll,
    /// Write all of these bytes to the outbound half.
    Write(Vec<u8>),
    /// Leave the loop.
    Stop,
}

/// The result of one step: a line for the inbound display queue, if the step
/// produced one, and the driver's next action.
#[derive(Debug, PartialEq, Eq)]
pub struct PipeStep {
    pub display: Option<String>,
    pub action: PipeAction,
}

/// A [`PipeEvent`] with its texts as sequences.
pub enum EventView {
    Line(Seq<char>),
    EndOfStream,
    ReadFailed(Seq<char>),
    Tick,
    Command(Seq<char>),
    QueueEmpty,
    Written,
    WriteFailed(Seq<char>),
}

/// A [`PipeAction`] with its bytes as a sequence.
pub enum ActionView {
    Race,
    Poll,
    Write(Seq<u8>),
    Stop,
}

/// A [`PipeStep`] over sequences.
pub struct StepView {
    pub display: Option<Seq<char>>,
    pub action: ActionView,
}

/// A [`SessionPipe`] as a value: the display name and the phase.
pub struct PipeModel {
    pub name: Seq<char>,
    pub phase: PipePhase,
}

impl View for PipeEvent {
    type V = EventView;

    open spec fn view(&self) -> EventView {
        match self {
            PipeEvent::Line(line) => EventView::Line(line@),
            PipeEvent::EndOfStream => EventView::EndOfStream,
            PipeEvent::ReadFailed(reason) => EventView::ReadFailed(reason@),
            PipeEvent::Tick => EventView::Tick,
            PipeEvent::Command(command) => EventView::Command(command.text()),
            PipeEvent::QueueEmpty => EventView::QueueEmpty,
            PipeEvent::Written => EventView::Written,
            PipeEvent::WriteFailed(reason) => EventView::WriteFailed(reason@),
        }
    }
}

impl View for PipeAction {
    type V = ActionView;

    open spec fn view(&self) -> ActionView {
        match self {
            PipeAction::Race => ActionView::Race,
            PipeAction::Poll => ActionView::Poll,
            PipeAction::Write(bytes) => ActionView::Write(bytes@),
            PipeAction::Stop => ActionView::Stop,
        }
    }
}

impl View for PipeStep {
    type V = StepView;

    open spec fn view(&self) -> StepView {
        StepView {
            display: match self.display {
                Some(line) => Some(line@),
                None => None,
            },
            action: self.action@,
        }
    }
}

/// A step that shows nothing and asks for `action`.
pub open spec fn quiet(action: ActionView) -> StepView {
    StepView { display: None, action }
}

/// A step that shows `line` and asks for `action`.
pub open spec fn showing(line: Seq<char>, action: ActionView) -> StepView {
    StepView { display: Some(line), action }
}

/// The pipe's transition relation: the phase that follows and the step that
/// is taken when `event` is reported in `phase`, or `None` where the event
/// cannot be the answer to what the pipe asked for in that phase.
///
/// - Racing: a line is shown verbatim and the race goes on; the end of the
///   stream and a read failure each show one status line and end the relay;
///   the tick starts a drain of the outbound queue.
/// - Draining: a command is framed under the display name and handed out
///   for writing; an empty queue ends the drain and the race begins anew.
/// - Writing: a completed write returns to the queue; a failed write shows
///   one status line and ends the relay, whatever is still queued.
/// - Finished: nothing is accepted.
pub open spec fn transition(name: Seq<char>, phase: PipePhase, event: EventView) -> Option<
    (PipePhase, StepView),
> {
    match (phase, event) {
        (PipePhase::Racing, EventView::Line(line)) => Some(
            (PipePhase::Racing, showing(line, ActionView::Race)),
        ),
        (PipePhase::Racing, EventView::EndOfStream) => Some(
            (PipePhase::Finished, showing(closed_status(), ActionView::Stop)),
        ),
        (PipePhase::Racing, EventView::ReadFailed(reason)) => Some(
            (PipePhase::Finished, showing(read_error_status(reason), ActionView::Stop)),
        ),
        (PipePhase::Racing, EventView::Tick) => Some(
            (PipePhase::Draining, quiet(ActionView::Poll)),
        ),
        (PipePhase::Draining, EventView::Command(text)) => Some(
            (PipePhase::Writing, quiet(ActionView::Write(wire(name, text)))),
        ),
        (PipePhase::Draining, EventView::QueueEmpty) => Some(
            (PipePhase::Racing, quiet(ActionView::Race)),
        ),
        (PipePhase::Writing, EventView::Written) => Some(
            (PipePhase::Draining, quiet(ActionView::Poll)),
        ),
        (PipePhase::Writing, EventView::WriteFailed(reason)) => Some(
            (PipePhase::Finished, showing(write_error_status(reason), ActionView::Stop)),
        ),
        _ => None,
    }
}

/// The relay over one established connection.
pub struct SessionPipe {
    name: String,
    phase: PipePhase,
}

impl View for SessionPipe {
    type V = PipeModel;

    closed spec fn view(&self) -> PipeModel {
        PipeModel { name: self.name@, phase: self.phase }
    }
}

impl SessionPipe {
    /// A pipe for a connection that was just established, under the given
    /// display name, and what its driver does first: the race.
    pub fn open(name: String) -> (opened: (SessionPipe, PipeAction))
        ensures
            opened.0@ == (PipeModel { name: name@, phase: PipePhase::Racing }),
            opened.1@ == ActionView::Race,
    {
        (SessionPipe { name, phase: PipePhase::Racing }, PipeAction::Race)
    }

    /// The phase in which the pipe stands.
    pub fn phase(&self) -> (phase: PipePhase)
        ensures
            phase == self@.phase,
    {
        self.phase
    }

    /// The display name under which outbound lines are framed.
    pub fn name(&self) -> (name: &str)
        ensures
            name@ == self@.name,
    {
        self.name.as_str()
    }

    /// Whether the relay has ended.
    pub fn is_finished(&self) -> (done: bool)
        ensures
            done == (self@.phase == PipePhase::Finished),
    {
        match self.phase {
            PipePhase::Finished => true,
            _ => false,
        }
    }

    /// Takes the step that `event` calls for, as [`transition`] defines it.
    /// An event that the current phase does not accept is refused: the
    /// result is `None` and the pipe is unchanged.
    pub fn step(&mut self, event: PipeEvent) -> (taken: Option<PipeStep>)
        ensures
            final(self)@.name == old(self)@.name,
            match transition(old(self)@.name, old(self)@.phase, event@) {
                Some((next, step)) => taken matches Some(t) && t@ == step && final(self)@.phase
                    == next,
                None => taken is None && final(self)@.phase == old(self)@.phase,
            },
    {
        match self.phase {
            PipePhase::Racing => match event {
                PipeEvent::Line(line) => Some(
                    PipeStep { display: Some(line), action: PipeAction::Race },
                ),
                PipeEvent::EndOfStream => {
                    self.phase = PipePhase::Finished;
                    Some(PipeStep { display: Some(closed_line()), action: PipeAction::Stop })
                },
                PipeEvent::ReadFailed(reason) => {
                    self.phase = PipePhase::Finished;
                    Some(
                        PipeStep {
                            display: Some(read_error_line(reason.as_str())),
                            action: PipeAction::Stop,
                        },
                    )
                },
                PipeEvent::Tick => {
                    self.phase = PipePhase::Draining;
                    Some(PipeStep { display: None, action: PipeAction::Poll })
                },
                _ => None,
            },
            PipePhase::Draining => match event {
                PipeEvent::Command(NetworkCommand::Send(text)) => {
                    let bytes = wire_bytes(self.name.as_str(), text.as_str());
                    self.phase = PipePhase::Writing;
                    Some(PipeStep { display: None, action: PipeAction::Write(bytes) })
                },
                PipeEvent::QueueEmpty => {
                    self.phase = PipePhase::Racing;
                    Some(PipeStep { display: None, action: PipeAction::Race })
                },
                _ => None,
            },
            PipePhase::Writing => match event {
                PipeEvent::Written => {
                    self.phase = PipePhase::Draining;
                    Some(PipeStep { display: None, action: PipeAction::Poll })
                },
                PipeEvent::WriteFailed(reason) => {
                    self.phase = PipePhase::Finished;
                    Some(
                        PipeStep {
                            display: Some(write_error_line(reason.as_str())),
                            action: PipeAction::Stop,
                        },
                    )
                },
                _ => None,
            },
            PipePhase::Finished => None,
        }
    }
}

/// The pipe's course over a sequence of reported events, from `phase`: the
/// phase in which it ends and the steps that it takes, in order. A refused
/// event leaves the phase as it is and adds no step.
pub open spec fn run(name: Seq<char>, phase: PipePhase, events: Seq<EventView>) -> (
    PipePhase,
    Seq<StepView>,
)
    decreases events.len(),
{
    if events.len() == 0 {
        (phase, Seq::empty())
    } else {
        let (before, steps) = run(name, phase, events.drop_last());
        match transition(name, before, events.last()) {
            Some((next, step)) => (next, steps.push(step)),
            None => (before, steps),
        }
    }
}

/// The lines that a sequence of steps puts on the inbound display queue, in
/// order.
pub open spec fn shown(steps: Seq<StepView>) -> Seq<Seq<char>>
    decreases steps.len(),
{
    if steps.len() == 0 {
        Seq::empty()
    } else {
        match steps.last().display {
            Some(line) => shown(steps.drop_last()).push(line),
            None => shown(steps.drop_last()),
        }
    }
}

/// The bytes that a sequence of steps puts on the outbound half, in order:
/// what its writes carry, one after the other.
pub open spec fn written(steps: Seq<StepView>) -> Seq<u8>
    decreases steps.len(),
{
    if steps.len() == 0 {
        Seq::empty()
    } else {
        match steps.last().action {
            ActionView::Write(bytes) => written(steps.drop_last()) + bytes,
            _ => written(steps.drop_last()),
        }
    }
}

/// The reports of `lines` arriving one after the other on the inbound half.
pub open spec fn arrivals(lines: Seq<Seq<char>>) -> Seq<EventView> {
    Seq::new(lines.len(), |i: int| EventView::Line(lines[i]))
}

/// What a driver reports during one drain in which the outbound queue holds
/// `texts`, up to the last completed write: the tick, then for each command
/// in queue order that it was taken and that its write completed.
pub open spec fn drain_served(texts: Seq<Seq<char>>) -> Seq<EventView>
    decreases texts.len(),
{
    if texts.len() == 0 {
        seq![EventView::Tick]
    } else {
        drain_served(texts.drop_last()).push(EventView::Command(texts.last())).push(
            EventView::Written,
        )
    }
}

/// The reports of one whole drain: [`drain_served`], and then that the queue
/// is empty.
pub open spec fn drain(texts: Seq<Seq<char>>) -> Seq<EventView> {
    drain_served(texts).push(EventView::QueueEmpty)
}

/// The steps of one whole drain of `texts` under `name`: a poll of the queue
/// before each command and after the last, the commands' framed bytes handed
/// out for writing in queue order between the polls, and, last of all, the
/// return to the race.
pub open spec fn drain_steps(name: Seq<char>, texts: Seq<Seq<char>>) -> Seq<StepView> {
    Seq::new(
        2 * texts.len() + 2,
        |i: int|
            if i == 2 * texts.len() + 1 {
                quiet(ActionView::Race)
            } else if i % 2 == 0 {
                quiet(ActionView::Poll)
            } else {
                quiet(ActionView::Write(wire(name, texts[i / 2])))
            },
    )
}

/// The framed lines of `texts` under `name`, one after the other, as bytes.
pub open spec fn outbound_stream(name: Seq<char>, texts: Seq<Seq<char>>) -> Seq<u8>
    decreases texts.len(),
{
    if texts.len() == 0 {
        Seq::empty()
    } else {
        outbound_stream(name, texts.drop_last()) + wire(name, texts.last())
    }
}

/// One round of the relay loop, by what won its race: an inbound line that
/// arrived, or the tick, with the commands that the outbound queue held
/// during the drain that followed.
pub enum Round {
    Arrival(Seq<char>),
    Drain(Seq<Seq<char>>),
}

/// What a driver reports during one round.
pub open spec fn round_events(round: Round) -> Seq<EventView> {
    match round {
        Round::Arrival(line) => seq![EventView::Line(line)],
        Round::Drain(texts) => drain(texts),
    }
}

/// What a driver reports over a sequence of rounds.
pub open spec fn course(rounds: Seq<Round>) -> Seq<EventView>
    decreases rounds.len(),
{
    if rounds.len() == 0 {
        Seq::empty()
    } else {
        course(rounds.drop_last()) + round_events(rounds.last())
    }
}

/// The lines that arrived during a sequence of rounds, in order of arrival.
pub open spec fn inbound(rounds: Seq<Round>) -> Seq<Seq<char>>
    decreases rounds.len(),
{
    if rounds.len() == 0 {
        Seq::empty()
    } else {
        match rounds.last() {
            Round::Arrival(line) => inbound(rounds.drop_last()).push(line),
            Round::Drain(_) => inbound(rounds.drop_last()),
        }
    }
}

/// The commands that were queued during a sequence of rounds, framed under
/// `name` and laid end to end in the order in which they were queued.
pub open spec fn outbound(name: Seq<char>, rounds: Seq<Round>) -> Seq<u8>
    decreases rounds.len(),
{
    if rounds.len() == 0 {
        Seq::empty()
    } else {
        match rounds.last() {
            Round::Arrival(_) => outbound(name, rounds.drop_last()),
            Round::Drain(texts) => outbound(name, rounds.drop_last()) + outbound_stream(
                name,
                texts,
            ),
        }
    }
}

/// Running over two sequences of events, one after the other, is running
/// over the first and then, from where that ended, over the second.
pub proof fn lemma_run_concat(
    name: Seq<char>,
    phase: PipePhase,
    first: Seq<EventView>,
    second: Seq<EventView>,
)
    ensures
        run(name, phase, first + second) == (
            run(name, run(name, phase, first).0, second).0,
            run(name, phase, first).1 + run(name, run(name, phase, first).0, second).1,
        ),
    decreases second.len(),
{
    let middle = run(name, phase, first);
    if second.len() == 0 {
        assert(first + second =~= first);
        assert(middle.1 + Seq::<StepView>::empty() =~= middle.1);
    } else {
        lemma_run_concat(name, phase, first, second.drop_last());
        assert((first + second).drop_last() =~= first + second.drop_last());
        assert((first + second).last() == second.last());
        let rest = run(name, middle.0, second.drop_last());
        assert(run(name, phase, first + second).1 =~= middle.1 + run(name, middle.0, second).1);
    }
}

/// What two sequences of steps show, one after the other, is what the first
/// shows and then what the second shows.
pub proof fn lemma_shown_concat(first: Seq<StepView>, second: Seq<StepView>)
    ensures
        shown(first + second) == shown(first) + shown(second),
    decreases second.len(),
{
    if second.len() == 0 {
        assert(first + second =~= first);
        assert(shown(first) + Seq::<Seq<char>>::empty() =~= shown(first));
    } else {
        lemma_shown_concat(first, second.drop_last());
        assert((first + second).drop_last() =~= first + second.drop_last());
        assert((first + second).last() == second.last());
        assert(shown(first + second) =~= shown(first) + shown(second));
    }
}

/// What two sequences of steps write, one after the other, is what the
/// first writes and then what the second writes.
pub proof fn lemma_written_concat(first: Seq<StepView>, second: Seq<StepView>)
    ensures
        written(first + second) == written(first) + written(second),
    decreases second.len(),
{
    if second.len() == 0 {
        assert(first + second =~= first);
        assert(written(first) + Seq::<u8>::empty() =~= written(first));
    } else {
        lemma_written_concat(first, second.drop_last());
        assert((first + second).drop_last() =~= first + second.drop_last());
        assert((first + second).last() == second.last());
        assert(written(first + second) =~= written(first) + written(second));
    }
}

/// Inbound lines pass through unchanged: while the pipe races, `lines`
/// arriving in order are shown exactly as they came, in the same order;
/// nothing is written, and the pipe goes on racing.
pub proof fn lemma_lines_pass_verbatim(name: Seq<char>, lines: Seq<Seq<char>>)
    ensures
        run(name, PipePhase::Racing, arrivals(lines)).0 == PipePhase::Racing,
        run(name, PipePhase::Racing, arrivals(lines)).1.len() == lines.len(),
        forall|i: int|
            0 <= i < lines.len() ==> #[trigger] run(name, PipePhase::Racing, arrivals(lines)).1[i]
                == showing(lines[i], ActionView::Race),
        shown(run(name, PipePhase::Racing, arrivals(lines)).1) == lines,
        written(run(name, PipePhase::Racing, arrivals(lines)).1) == Seq::<u8>::empty(),
    decreases lines.len(),
{
    if lines.len() > 0 {
        let front = lines.drop_last();
        lemma_lines_pass_verbatim(name, front);
        assert(arrivals(lines).drop_last() =~= arrivals(front));
        let steps = run(name, PipePhase::Racing, arrivals(lines)).1;
        assert(steps.drop_last() =~= run(name, PipePhase::Racing, arrivals(front)).1);
        assert(shown(steps) =~= lines);
    } else {
        assert(shown(run(name, PipePhase::Racing, arrivals(lines)).1) =~= lines);
    }
}

proof fn lemma_drain_served(name: Seq<char>, texts: Seq<Seq<char>>)
    ensures
        run(name, PipePhase::Racing, drain_served(texts)) == (
            PipePhase::Draining,
            drain_steps(name, texts).drop_last(),
        ),
        written(drain_steps(name, texts).drop_last()) == outbound_stream(name, texts),
        shown(drain_steps(name, texts).drop_last()) == Seq::<Seq<char>>::empty(),
    decreases texts.len(),
{
    let served = drain_served(texts);
    let steps = drain_steps(name, texts).drop_last();
    if texts.len() == 0 {
        assert(served.drop_last() =~= Seq::<EventView>::empty());
        assert(run(name, PipePhase::Racing, served.drop_last()) == (
            PipePhase::Racing,
            Seq::<StepView>::empty(),
        ));
        assert(served.last() == EventView::Tick);
        assert(run(name, PipePhase::Racing, served).1 =~= steps);
        assert(steps.drop_last() =~= Seq::<StepView>::empty());
        assert(written(steps.drop_last()) =~= Seq::<u8>::empty());
        assert(shown(steps.drop_last()) =~= Seq::<Seq<char>>::empty());
    } else {
        let front = texts.drop_last();
        lemma_drain_served(name, front);
        let taken = drain_served(front).push(EventView::Command(texts.last()));
        let polled = drain_steps(name, front).drop_last();
        let handed = polled.push(quiet(ActionView::Write(wire(name, texts.last()))));
        assert(taken.drop_last() =~= drain_served(front));
        assert(taken.last() == EventView::Command(texts.last()));
        assert(run(name, PipePhase::Racing, taken) == (PipePhase::Writing, handed));
        assert(served.drop_last() =~= taken);
        assert(served.last() == EventView::Written);
        assert(run(name, PipePhase::Racing, served) == (
            PipePhase::Draining,
            handed.push(quiet(ActionView::Poll)),
        ));
        assert(handed.push(quiet(ActionView::Poll)) =~= steps);
        assert(steps.drop_last() =~= handed);
        assert(handed.drop_last() =~= polled);
        assert(written(handed) == written(polled) + wire(name, texts.last()));
        assert(shown(handed) == shown(polled));
    }
}

/// A drain is exhaustive and keeps the queue's order. If the outbound queue
/// holds `texts` when the tick fires, then before the next race begins every
/// one of them is framed under the display name and handed out for writing,
/// the k-th write carrying the k-th command, so that the bytes on the
/// outbound half are the framed lines in queue order; nothing is shown
/// meanwhile, and only the last step of the drain returns to the race.
pub proof fn lemma_drain_exhaustive(name: Seq<char>, texts: Seq<Seq<char>>)
    ensures
        run(name, PipePhase::Racing, drain(texts)) == (
            PipePhase::Racing,
            drain_steps(name, texts),
        ),
        drain_steps(name, texts).len() == 2 * texts.len() + 2,
        forall|k: int|
            0 <= k < texts.len() ==> (#[trigger] drain_steps(name, texts)[2 * k + 1]).action
                == ActionView::Write(wire(name, texts[k])),
        forall|k: int|
            0 <= k <= texts.len() ==> (#[trigger] drain_steps(name, texts)[2 * k]).action
                == ActionView::Poll,
        drain_steps(name, texts).last().action == ActionView::Race,
        forall|i: int|
            0 <= i < 2 * texts.len() + 1 ==> (#[trigger] drain_steps(name, texts)[i]).action
                != ActionView::Race,
        written(drain_steps(name, texts)) == outbound_stream(name, texts),
        shown(drain_steps(name, texts)) == Seq::<Seq<char>>::empty(),
{
    lemma_drain_served(name, texts);
    assert(drain(texts).drop_last() =~= drain_served(texts));
    assert(drain(texts).last() == EventView::QueueEmpty);
    let steps = drain_steps(name, texts);
    assert(steps.drop_last().push(quiet(ActionView::Race)) =~= steps);
    assert forall|k: int| 0 <= k < texts.len() implies (#[trigger] steps[2 * k + 1]).action
        == ActionView::Write(wire(name, texts[k])) by {
        assert((2 * k + 1) / 2 == k);
        assert((2 * k + 1) % 2 == 1);
    }
}

/// The relay is faithful in both directions. Over any sequence of rounds,
/// however arrivals and drains alternate, the display queue is given
/// exactly the lines that arrived, each as it came and in the order of
/// arrival; the outbound half is given exactly the commands that were
/// queued, each framed under the display name, in the order in which they
/// were queued; and the pipe is back at the race.
pub proof fn lemma_relay_is_faithful(name: Seq<char>, rounds: Seq<Round>)
    ensures
        run(name, PipePhase::Racing, course(rounds)).0 == PipePhase::Racing,
        shown(run(name, PipePhase::Racing, course(rounds)).1) == inbound(rounds),
        written(run(name, PipePhase::Racing, course(rounds)).1) == outbound(name, rounds),
    decreases rounds.len(),
{
    if rounds.len() > 0 {
        let front = rounds.drop_last();
        lemma_relay_is_faithful(name, front);
        let before = run(name, PipePhase::Racing, course(front)).1;
        let events = round_events(rounds.last());
        let steps = run(name, PipePhase::Racing, events).1;
        lemma_run_concat(name, PipePhase::Racing, course(front), events);
        lemma_shown_concat(before, steps);
        lemma_written_concat(before, steps);
        match rounds.last() {
            Round::Arrival(line) => {
                assert(events =~= arrivals(seq![line]));
                lemma_lines_pass_verbatim(name, seq![line]);
                assert(inbound(front) + seq![line] =~= inbound(front).push(line));
                assert(outbound(name, front) + Seq::<u8>::empty() =~= outbound(name, front));
            },
            Round::Drain(texts) => {
                lemma_drain_exhaustive(name, texts);
                assert(inbound(front) + Seq::<Seq<char>>::empty() =~= inbound(front));
            },
        }
    }
}

/// The end is final. Whatever is reported to a finished pipe, it stays
/// finished and takes no step: it asks for no further read, poll or write
/// and shows no further line.
pub proof fn lemma_finished_is_final(name: Seq<char>, events: Seq<EventView>)
    ensures
        run(name, PipePhase::Finished, events) == (PipePhase::Finished, Seq::<StepView>::empty()),
    decreases events.len(),
{
    if events.len() > 0 {
        lemma_finished_is_final(name, events.drop_last());
    }
}

/// The course of a pipe over one event that ends the relay and whatever is
/// reported after it.
proof fn lemma_ending(
    name: Seq<char>,
    phase: PipePhase,
    ending: EventView,
    status: Seq<char>,
    later: Seq<EventView>,
)
    requires
        transition(name, phase, ending) == Some(
            (PipePhase::Finished, showing(status, ActionView::Stop)),
        ),
    ensures
        run(name, phase, seq![ending] + later) == (
            PipePhase::Finished,
            seq![showing(status, ActionView::Stop)],
        ),
        shown(run(name, phase, seq![ending] + later).1) == seq![status],
        written(run(name, phase, seq![ending] + later).1) == Seq::<u8>::empty(),
{
    let last = seq![showing(status, ActionView::Stop)];
    assert(seq![ending].drop_last() =~= Seq::<EventView>::empty());
    assert(run(name, phase, seq![ending].drop_last()) == (phase, Seq::<StepView>::empty()));
    assert(run(name, phase, seq![ending]).1 =~= last);
    lemma_run_concat(name, phase, seq![ending], later);
    lemma_finished_is_final(name, later);
    assert(last + Seq::<StepView>::empty() =~= last);
    assert(last.drop_last() =~= Seq::<StepView>::empty());
    assert(shown(last.drop_last()) =~= Seq::<Seq<char>>::empty());
    assert(shown(last) =~= seq![status]);
    assert(written(last.drop_last()) =~= Seq::<u8>::empty());
}

/// The end of the stream is shown once and ends the relay: reported to a
/// racing pipe, it puts exactly one line on the display queue, the status
/// line for a connection closed by the peer, and whatever is reported after
/// it is refused: no further read is asked for and nothing more is shown.
pub proof fn lemma_end_of_stream_closes(name: Seq<char>, later: Seq<EventView>)
    ensures
        run(name, PipePhase::Racing, seq![EventView::EndOfStream] + later) == (
            PipePhase::Finished,
            seq![showing(closed_status(), ActionView::Stop)],
        ),
        shown(run(name, PipePhase::Racing, seq![EventView::EndOfStream] + later).1)
            == seq![closed_status()],
{
    lemma_ending(name, PipePhase::Racing, EventView::EndOfStream, closed_status(), later);
}

/// A failure ends the relay and is shown once. A read failure reported to a
/// racing pipe, and a write failure reported to a writing pipe, each put
/// one status line with the failure's description on the display queue;
/// whatever is reported after it is refused, so that commands still queued
/// are never taken and nothing more is written.
pub proof fn lemma_failure_ends_relay(name: Seq<char>, reason: Seq<char>, later: Seq<EventView>)
    ensures
        run(name, PipePhase::Racing, seq![EventView::ReadFailed(reason)] + later) == (
            PipePhase::Finished,
            seq![showing(read_error_status(reason), ActionView::Stop)],
        ),
        run(name, PipePhase::Writing, seq![EventView::WriteFailed(reason)] + later) == (
            PipePhase::Finished,
            seq![showing(write_error_status(reason), ActionView::Stop)],
        ),
        shown(run(name, PipePhase::Racing, seq![EventView::ReadFailed(reason)] + later).1)
            == seq![read_error_status(reason)],
        shown(run(name, PipePhase::Writing, seq![EventView::WriteFailed(reason)] + later).1)
            == seq![write_error_status(reason)],
        written(run(name, PipePhase::Writing, seq![EventView::WriteFailed(reason)] + later).1)
            == Seq::<u8>::empty(),
{
    lemma_ending(
        name,
        PipePhase::Racing,
        EventView::ReadFailed(reason),
        read_error_status(reason),
        later,
    );
    lemma_ending(
        name,
        PipePhase::Writing,
        EventView::WriteFailed(reason),
        write_error_status(reason),
        later,
    );
}

} // verus!
