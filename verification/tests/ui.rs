use linechat::command::NetworkCommand;
use linechat::ui::{InputEvent, Interactive, KeyCode, KeyKind, LoopState, HISTORY_WINDOW};

fn press(code: KeyCode) -> InputEvent {
    InputEvent::Key { code, kind: KeyKind::Press }
}

fn typed(name: &str, text: &str) -> Interactive {
    let mut ui = Interactive::new(name.to_string());
    for c in text.chars() {
        assert_eq!(ui.handle_key(KeyCode::Char(c)), None);
    }
    ui
}

#[test]
fn new_loop_is_running_and_empty() {
    let ui = Interactive::new("you".to_string());
    assert_eq!(ui.state(), LoopState::Running);
    assert!(ui.is_running());
    assert_eq!(ui.name(), "you");
    assert_eq!(ui.input(), "");
    assert!(ui.history().is_empty());
}

#[test]
fn characters_are_appended_to_the_input() {
    let mut ui = Interactive::new("you".to_string());
    assert_eq!(ui.handle_key(KeyCode::Char('h')), None);
    assert_eq!(ui.input(), "h");
    assert_eq!(ui.handle_key(KeyCode::Char('\u{e9}')), None);
    assert_eq!(ui.handle_key(KeyCode::Char(' ')), None);
    assert_eq!(ui.input(), "h\u{e9} ");
    assert!(ui.history().is_empty());
}

#[test]
fn backspace_removes_the_last_character() {
    let mut ui = typed("you", "h\u{e9}y");
    assert_eq!(ui.handle_key(KeyCode::Backspace), None);
    assert_eq!(ui.input(), "h\u{e9}");
    assert_eq!(ui.handle_key(KeyCode::Backspace), None);
    assert_eq!(ui.input(), "h");
    assert_eq!(ui.handle_key(KeyCode::Backspace), None);
    assert_eq!(ui.input(), "");
}

#[test]
fn backspace_on_empty_input_does_nothing() {
    let mut ui = Interactive::new("you".to_string());
    ui.receive("bob: hi".to_string());
    for _ in 0..3 {
        assert_eq!(ui.handle_key(KeyCode::Backspace), None);
        assert_eq!(ui.input(), "");
        assert_eq!(ui.history(), &vec!["bob: hi".to_string()]);
        assert!(ui.is_running());
    }
}

#[test]
fn enter_echoes_and_queues_the_input() {
    let mut ui = typed("bob", "hi");
    let queued = ui.handle_key(KeyCode::Enter);
    assert_eq!(queued, Some(NetworkCommand::Send("hi".to_string())));
    assert_eq!(ui.history(), &vec!["bob: hi".to_string()]);
    assert_eq!(ui.input(), "");
    assert!(ui.is_running());
}

#[test]
fn enter_keeps_the_text_untrimmed() {
    let mut ui = typed("bob", "  hi there \t");
    let queued = ui.handle_key(KeyCode::Enter);
    assert_eq!(queued, Some(NetworkCommand::Send("  hi there \t".to_string())));
    assert_eq!(ui.history(), &vec!["bob:   hi there \t".to_string()]);
    assert_eq!(ui.input(), "");
}

#[test]
fn enter_on_empty_input_does_nothing() {
    let mut ui = Interactive::new("bob".to_string());
    assert_eq!(ui.handle_key(KeyCode::Enter), None);
    assert_eq!(ui.input(), "");
    assert!(ui.history().is_empty());
}

#[test]
fn enter_on_white_space_leaves_the_buffer() {
    let mut ui = typed("bob", " \t\u{3000} ");
    assert_eq!(ui.handle_key(KeyCode::Enter), None);
    assert_eq!(ui.input(), " \t\u{3000} ");
    assert!(ui.history().is_empty());
    assert_eq!(ui.handle_key(KeyCode::Char('x')), None);
    let queued = ui.handle_key(KeyCode::Enter);
    assert_eq!(queued, Some(NetworkCommand::Send(" \t\u{3000} x".to_string())));
}

#[test]
fn each_enter_queues_one_command() {
    let mut ui = Interactive::new("bob".to_string());
    let mut queue: Vec<NetworkCommand> = Vec::new();
    for word in ["one", "two", "three"] {
        for c in word.chars() {
            queue.extend(ui.handle_key(KeyCode::Char(c)));
        }
        queue.extend(ui.handle_key(KeyCode::Enter));
        queue.extend(ui.handle_key(KeyCode::Enter));
    }
    assert_eq!(
        queue,
        vec![
            NetworkCommand::Send("one".to_string()),
            NetworkCommand::Send("two".to_string()),
            NetworkCommand::Send("three".to_string()),
        ]
    );
    assert_eq!(ui.history(), &vec!["bob: one".to_string(), "bob: two".to_string(), "bob: three".to_string()]);
}

#[test]
fn cancel_appends_the_exit_line_and_leaves() {
    let mut ui = typed("bob", "half");
    assert_eq!(ui.handle_key(KeyCode::Esc), None);
    assert_eq!(ui.state(), LoopState::Exiting);
    assert!(!ui.is_running());
    assert_eq!(ui.history(), &vec!["--- Exiting ---".to_string()]);
    assert_eq!(ui.input(), "half");
}

#[test]
fn keys_do_nothing_once_exiting() {
    let mut ui = typed("bob", "half");
    ui.handle_key(KeyCode::Esc);
    for code in [KeyCode::Char('x'), KeyCode::Backspace, KeyCode::Enter, KeyCode::Esc, KeyCode::Other] {
        assert_eq!(ui.handle_key(code), None);
        assert_eq!(ui.input(), "half");
        assert_eq!(ui.history(), &vec!["--- Exiting ---".to_string()]);
        assert_eq!(ui.state(), LoopState::Exiting);
    }
}

#[test]
fn other_keys_do_nothing() {
    let mut ui = typed("bob", "hi");
    ui.receive("alice: yo".to_string());
    assert_eq!(ui.handle_key(KeyCode::Other), None);
    assert_eq!(ui.input(), "hi");
    assert_eq!(ui.history(), &vec!["alice: yo".to_string()]);
    assert!(ui.is_running());
}

#[test]
fn only_a_press_acts() {
    let mut ui = typed("bob", "hi");
    for kind in [KeyKind::Release, KeyKind::Repeat] {
        for code in [KeyCode::Char('x'), KeyCode::Backspace, KeyCode::Enter, KeyCode::Esc, KeyCode::Other] {
            assert_eq!(ui.handle_event(InputEvent::Key { code, kind }), None);
            assert_eq!(ui.input(), "hi");
            assert!(ui.history().is_empty());
            assert!(ui.is_running());
        }
    }
    assert_eq!(ui.handle_event(InputEvent::Other), None);
    assert_eq!(ui.input(), "hi");
    assert_eq!(ui.handle_event(press(KeyCode::Char('!'))), None);
    assert_eq!(ui.input(), "hi!");
    assert_eq!(ui.handle_event(press(KeyCode::Backspace)), None);
    assert_eq!(ui.input(), "hi");
    assert_eq!(
        ui.handle_event(press(KeyCode::Enter)),
        Some(NetworkCommand::Send("hi".to_string()))
    );
    assert_eq!(ui.handle_event(press(KeyCode::Esc)), None);
    assert!(!ui.is_running());
}

#[test]
fn received_lines_are_appended_as_they_are() {
    let mut ui = Interactive::new("you".to_string());
    ui.receive("--- Connected to server ---".to_string());
    ui.receive("  bob: hi ".to_string());
    ui.receive(String::new());
    assert_eq!(
        ui.history(),
        &vec!["--- Connected to server ---".to_string(), "  bob: hi ".to_string(), String::new()]
    );
    assert_eq!(ui.input(), "");
}

#[test]
fn absorbed_lines_keep_their_order() {
    let mut ui = Interactive::new("you".to_string());
    ui.receive("zero".to_string());
    ui.absorb(vec!["one".to_string(), "two".to_string(), "one".to_string()]);
    ui.absorb(Vec::new());
    ui.absorb(vec!["three".to_string()]);
    assert_eq!(ui.history(), &vec!["zero", "one", "two", "one", "three"]);
}

#[test]
fn history_interleaves_echo_and_inbound_by_time() {
    let mut ui = Interactive::new("you".to_string());
    ui.receive("bob: hi".to_string());
    for c in "yo".chars() {
        ui.handle_key(KeyCode::Char(c));
    }
    ui.handle_key(KeyCode::Enter);
    ui.receive("bob: bye".to_string());
    assert_eq!(ui.history(), &vec!["bob: hi", "you: yo", "bob: bye"]);
}

#[test]
fn recent_gives_the_last_lines_in_order() {
    let mut ui = Interactive::new("you".to_string());
    assert!(ui.recent(3).is_empty());
    ui.absorb((0..5).map(|i| format!("line {}", i)).collect());
    assert_eq!(ui.recent(3), vec!["line 2", "line 3", "line 4"]);
    assert_eq!(ui.recent(5), vec!["line 0", "line 1", "line 2", "line 3", "line 4"]);
    assert_eq!(ui.recent(9).len(), 5);
    assert!(ui.recent(0).is_empty());
    assert_eq!(ui.recent(1), vec!["line 4"]);
    assert_eq!(ui.history().len(), 5);
}

#[test]
fn window_is_the_last_thousand_lines() {
    assert_eq!(HISTORY_WINDOW, 1000);
    let mut ui = Interactive::new("you".to_string());
    ui.absorb((0..1005).map(|i| format!("line {}", i)).collect());
    let drawn = ui.recent(HISTORY_WINDOW);
    assert_eq!(drawn.len(), 1000);
    assert_eq!(drawn[0], "line 5");
    assert_eq!(drawn[999], "line 1004");
    assert_eq!(ui.history().len(), 1005);
    assert_eq!(ui.history()[0], "line 0");
}

#[test]
fn input_title_names_the_user() {
    assert_eq!(Interactive::new("you".to_string()).input_title(), "Type and press Enter (you)");
    assert_eq!(Interactive::new(String::new()).input_title(), "Type and press Enter ()");
}
