//! The interactive loop: the message history, the input buffer and what a
//! key does to them.
//!
//! The loop's driver owns the terminal. Each round it hands over the lines
//! that the inbound display queue held, draws what [`Interactive::recent`]
//! and [`Interactive::input`] give, waits for a key no longer than
//! [`crate::pacing::poll_budget`] allows, and reports the key, if there was
//! one, to [`Interactive::handle_event`].

use crate::command::NetworkCommand;
use crate::text::{authored, authored_line, blank, exiting_line, exiting_status, is_blank};
use vstd::prelude::*;
use vstd::string::*;

verus! {

/// How many of the most recent history lines are drawn.
pub const HISTORY_WINDOW: usize = 1000;

/// The loop's two states. It starts running and never returns from exiting.
#[derive(Debug, Clone, Copy, PartialEq, Eq, Structural)]
pub enum LoopState {
    Running,
    Exiting,
}

/// The keys that the loop tells apart.
#[derive(Debug, Clone, Copy, PartialEq, Eq)]
pub enum KeyCode {
    /// A character key, with the character it types.
    Char(char),
    Backspace,
    Enter,
    /// The cancel key.
    Esc,
    /// Any other key.
    Other,
}

/// What happened to a key.
#[derive(Debug, Clone, Copy, PartialEq, Eq, Structural)]
pub enum KeyKind {
    Press,
    Repeat,
    Release,
}

/// What the terminal reported.
#[derive(Debug, Clone, Copy, PartialEq, Eq)]
pub enum InputEvent {
    Key { code: KeyCode, kind: KeyKind },
    /// Anything that is not a key: the mouse, a resize, a paste.
    Other,
}

/// An [`Interactive`] as a value.
#[verifier::ext_equal]
pub struct UiModel {
    /// The display name.
    pub name: Seq<char>,
    /// The message history, oldest line first.
    pub history: Seq<Seq<char>>,
    /// The input buffer.
    pub input: Seq<char>,
    pub state: LoopState,
}

/// The texts of a sequence of strings.
pub open spec fn texts(lines: Seq<String>) -> Seq<Seq<char>> {
    Seq::new(lines.len(), |i: int| lines[i]@)
}

/// The text of the command that a key queued, if it queued one.
pub open spec fn queued_text(queued: Option<NetworkCommand>) -> Option<Seq<char>> {
    match queued {
        Some(command) => Some(command.text()),
        None => None,
    }
}

/// The label of the input region: it names the user.
pub open spec fn input_label(name: Seq<char>) -> Seq<char> {
    "Type and press Enter ("@ + name + ")"@
}

/// The last `size` lines of a history, or all of it where it has no more.
pub open spec fn window(history: Seq<Seq<char>>, size: nat) -> Seq<Seq<char>> {
    if history.len() <= size {
        history
    } else {
        history.subrange(history.len() - size, history.len() as int)
    }
}

/// The loop after lines from the inbound display queue were taken in: they
/// stand at the end of the history, in the order in which they came.
pub open spec fn after_lines(m: UiModel, lines: Seq<Seq<char>>) -> UiModel {
    UiModel { history: m.history + lines, ..m }
}

/// What a pressed key does: the loop after it, and the text of the outbound
/// command that it queues, if any.
///
/// - A character is appended to the input buffer.
/// - Backspace removes the buffer's last character; an empty buffer stays
///   empty.
/// - Enter on a buffer that is not blank echoes `<name>: <text>` to the
///   history, queues the text as it stands in the buffer, untrimmed, and
///   empties the buffer. On a blank buffer it does nothing.
/// - The cancel key appends the exit status line and leaves the running
///   state.
/// - Any other key does nothing, and so does every key once the loop is
///   exiting.
pub open spec fn after_key(m: UiModel, code: KeyCode) -> (UiModel, Option<Seq<char>>) {
    if m.state != LoopState::Running {
        (m, None)
    } else {
        match code {
            KeyCode::Char(c) => (UiModel { input: m.input.push(c), ..m }, None),
            KeyCode::Backspace => if m.input.len() == 0 {
                (m, None)
            } else {
                (UiModel { input: m.input.drop_last(), ..m }, None)
            },
            KeyCode::Enter => if blank(m.input) {
                (m, None)
            } else {
                (
                    UiModel {
                        history: m.history.push(authored(m.name, m.input)),
                        input: Seq::empty(),
                        ..m
                    },
                    Some(m.input),
                )
            },
            KeyCode::Esc => (
                UiModel {
                    history: m.history.push(exiting_status()),
                    state: LoopState::Exiting,
                    ..m
                },
                None,
            ),
            KeyCode::Other => (m, None),
        }
    }
}

/// What a terminal event does: a key press acts as [`after_key`] says;
/// a repeat, a release and whatever is no key do nothing.
pub open spec fn after_event(m: UiModel, event: InputEvent) -> (UiModel, Option<Seq<char>>) {
    match event {
        InputEvent::Key { code, kind: KeyKind::Press } => after_key(m, code),
        _ => (m, None),
    }
}

/// The state of the interactive loop.
pub struct Interactive {
    name: String,
    history: Vec<String>,
    input: String,
    state: LoopState,
}

impl View for Interactive {
    type V = UiModel;

    closed spec fn view(&self) -> UiModel {
        UiModel {
            name: self.name@,
            history: texts(self.history@),
            input: self.input@,
            state: self.state,
        }
    }
}

impl Interactive {
    /// A running loop under the given display name, with no history and an
    /// empty input buffer.
    pub fn new(name: String) -> (ui: Interactive)
        ensures
            ui@ == (UiModel {
                name: name@,
                history: Seq::empty(),
                input: Seq::empty(),
                state: LoopState::Running,
            }),
    {
        Interactive { name, history: Vec::new(), input: String::new(), state: LoopState::Running }
    }

    /// The state in which the loop stands.
    pub fn state(&self) -> (state: LoopState)
        ensures
            state == self@.state,
    {
        self.state
    }

    /// Whether the loop goes on for another round.
    pub fn is_running(&self) -> (running: bool)
        ensures
            running == (self@.state == LoopState::Running),
    {
        match self.state {
            LoopState::Running => true,
            LoopState::Exiting => false,
        }
    }

    /// The display name: it labels the input region and the echoed lines.
    pub fn name(&self) -> (name: &str)
        ensures
            name@ == self@.name,
    {
        self.name.as_str()
    }

    /// The input buffer, as it is drawn.
    pub fn input(&self) -> (input: &str)
        ensures
            input@ == self@.input,
    {
        self.input.as_str()
    }

    /// The whole message history, oldest line first.
    pub fn history(&self) -> (history: &Vec<String>)
        ensures
            texts(history@) == self@.history,
    {
        &self.history
    }

    /// The label of the input region.
    pub fn input_title(&self) -> (title: String)
        ensures
            title@ == input_label(self@.name),
    {
        let mut title = String::from_str("Type and press Enter (");
        title.append(self.name.as_str());
        title.append(")");
        title
    }

    /// The most recent `size` lines of the history, oldest first: what is
    /// drawn. The history itself keeps every line.
    pub fn recent(&self, size: usize) -> (lines: Vec<String>)
        ensures
            texts(lines@) == window(self@.history, size as nat),
    {
        let len: usize = self.history.len();
        let start: usize = if len <= size {
            0
        } else {
            len - size
        };
        let mut lines: Vec<String> = Vec::new();
        let mut i: usize = start;
        while i < len
            invariant
                len == self.history.len(),
                start <= i <= len,
                lines.len() == i - start,
                forall|j: int| 0 <= j < lines.len() ==> lines[j]@ == self.history[start + j]@,
            decreases len - i,
        {
            lines.push(self.history[i].clone());
            i += 1;
        }
        assert(texts(lines@) =~= window(self@.history, size as nat));
        lines
    }

    /// Takes in one line from the inbound display queue: it is appended to
    /// the history as it is.
    pub fn receive(&mut self, line: String)
        ensures
            final(self)@ == after_lines(old(self)@, seq![line@]),
    {
        self.history.push(line);
        assert(texts(self.history@) =~= texts(old(self).history@) + seq![line@]);
    }

    /// Takes in the lines that the inbound display queue held, in the order
    /// in which they were queued.
    pub fn absorb(&mut self, lines: Vec<String>)
        ensures
            final(self)@ == after_lines(old(self)@, texts(lines@)),
    {
        let mut lines = lines;
        let ghost taken = lines@;
        self.history.append(&mut lines);
        assert(texts(self.history@) =~= texts(old(self).history@) + texts(taken));
    }

    /// Acts on a pressed key, as [`after_key`] says, and returns the
    /// command to put on the outbound queue, if the key produced one.
    pub fn handle_key(&mut self, code: KeyCode) -> (queued: Option<NetworkCommand>)
        ensures
            final(self)@ == after_key(old(self)@, code).0,
            queued_text(queued) == after_key(old(self)@, code).1,
    {
        match self.state {
            LoopState::Exiting => {
                return None;
            },
            LoopState::Running => {},
        }
        match code {
            KeyCode::Char(c) => {
                self.input.push(c);
                None
            },
            KeyCode::Backspace => {
                self.input.pop();
                None
            },
            KeyCode::Enter => {
                if is_blank(self.input.as_str()) {
                    None
                } else {
                    let text = self.input.clone();
                    let echo = authored_line(self.name.as_str(), text.as_str());
                    self.history.push(echo);
                    self.input = String::new();
                    assert(texts(self.history@) =~= texts(old(self).history@).push(echo@));
                    Some(NetworkCommand::Send(text))
                }
            },
            KeyCode::Esc => {
                let farewell = exiting_line();
                self.history.push(farewell);
                self.state = LoopState::Exiting;
                assert(texts(self.history@) =~= texts(old(self).history@).push(farewell@));
                None
            },
            KeyCode::Other => None,
        }
    }

    /// Acts on what the terminal reported, as [`after_event`] says: only a
    /// key press does anything.
    pub fn handle_event(&mut self, event: InputEvent) -> (queued: Option<NetworkCommand>)
        ensures
            final(self)@ == after_event(old(self)@, event).0,
            queued_text(queued) == after_event(old(self)@, event).1,
    {
        match event {
            InputEvent::Key { code, kind: KeyKind::Press } => self.handle_key(code),
            _ => None,
        }
    }
}

/// Enter submits once. On a running loop whose input is not blank, enter
/// queues exactly one command, which carries the input as it stands,
/// untrimmed; appends exactly one line to the history, the echo
/// `<name>: <text>` of that same text; and empties the input buffer.
pub proof fn lemma_enter_submits_once(m: UiModel)
    requires
        m.state == LoopState::Running,
        !blank(m.input),
    ensures
        after_key(m, KeyCode::Enter).1 == Some(m.input),
        after_key(m, KeyCode::Enter).0 == (UiModel {
            history: m.history.push(authored(m.name, m.input)),
            input: Seq::empty(),
            ..m
        }),
        after_key(m, KeyCode::Enter).0.history.len() == m.history.len() + 1,
{
}

/// Enter on a blank input does nothing. Where the input buffer is empty or
/// holds white space only, enter queues no command and adds no line to the
/// history, and the buffer keeps what it held.
pub proof fn lemma_enter_on_blank_does_nothing(m: UiModel)
    requires
        blank(m.input),
    ensures
        after_key(m, KeyCode::Enter) == (m, None::<Seq<char>>),
        after_event(m, InputEvent::Key { code: KeyCode::Enter, kind: KeyKind::Press }) == (
            m,
            None::<Seq<char>>,
        ),
{
}

/// Backspace on an empty input does nothing: the buffer stays empty, the
/// history and the state stay as they are, and no command is queued.
pub proof fn lemma_backspace_on_empty_does_nothing(m: UiModel)
    requires
        m.input.len() == 0,
    ensures
        after_key(m, KeyCode::Backspace) == (m, None::<Seq<char>>),
        after_event(m, InputEvent::Key { code: KeyCode::Backspace, kind: KeyKind::Press }) == (
            m,
            None::<Seq<char>>,
        ),
{
}

/// The history is append-only and the exit is final. Whatever the terminal
/// reports and whatever lines come in, the lines that the history held
/// stay where they are, and the display name stays the same. A loop leaves
/// the running state on a press of the cancel key and on nothing else, and
/// once it is exiting no event changes it or queues a command.
pub proof fn lemma_history_only_grows(m: UiModel, event: InputEvent, lines: Seq<Seq<char>>)
    ensures
        m.history.is_prefix_of(after_event(m, event).0.history),
        m.history.is_prefix_of(after_lines(m, lines).history),
        after_event(m, event).0.name == m.name,
        after_lines(m, lines).name == m.name,
        m.state == LoopState::Exiting ==> after_event(m, event) == (m, None::<Seq<char>>),
        m.state == LoopState::Running ==> (after_event(m, event).0.state == LoopState::Exiting
            <==> event == (InputEvent::Key { code: KeyCode::Esc, kind: KeyKind::Press })),
{
}

} // verus!
