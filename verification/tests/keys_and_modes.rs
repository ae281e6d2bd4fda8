use procmux::app::{Action, App, InputMode, ProcessColor, ProcessOp, ProcessStatus, ProcfileEntry};
use procmux::app::KeyPhase;
use procmux::keys::{char_bytes, input_bytes, KeyCode, KeyInput, KeyModifiers, LineEnding};

fn mods(control: bool, alt: bool) -> KeyModifiers {
    KeyModifiers { shift: false, control, alt, super_key: false, hyper: false, meta: false }
}

fn key(code: KeyCode) -> KeyInput {
    KeyInput { code, modifiers: mods(false, false) }
}

fn ch(c: char) -> KeyInput {
    key(KeyCode::Char(c))
}

fn ctrl(c: char) -> KeyInput {
    KeyInput { code: KeyCode::Char(c), modifiers: mods(true, false) }
}

fn alt(code: KeyCode) -> KeyInput {
    KeyInput { code, modifiers: mods(false, true) }
}

fn app_with(n: usize) -> App {
    let entries = (0..n)
        .map(|i| ProcfileEntry { name: format!("p{}", i), command: format!("cmd {}", i) })
        .collect();
    App::new(entries)
}

fn nav(app: &App) -> (usize, Option<usize>, InputMode, bool) {
    (app.selected_index, app.fullscreen_index, app.input_mode, app.show_help)
}

#[test]
fn new_app_starts_in_normal_mode_with_first_selected() {
    let app = app_with(14);
    assert!(app.running);
    assert_eq!(app.processes.len(), 14);
    assert_eq!(nav(&app), (0, None, InputMode::Normal, false));
    assert_eq!(app.processes[3].name, "p3");
    assert_eq!(app.processes[3].command, "cmd 3");
    assert_eq!(app.processes[0].color, ProcessColor::Cyan);
    assert_eq!(app.processes[11].color, ProcessColor::LightBlue);
    assert_eq!(app.processes[12].color, ProcessColor::Cyan);
    assert_eq!(app.processes[13].color, ProcessColor::Magenta);
    assert!(app.processes.iter().all(|p| p.status == ProcessStatus::Stopped));
}

#[test]
fn quit_keys_ask_to_quit() {
    let mut app = app_with(2);
    assert!(matches!(app.handle_key_events(ch('q')), Action::Quit));
    assert!(matches!(app.handle_key_events(ctrl('c')), Action::Quit));
    assert!(matches!(app.handle_key_events(ctrl('C')), Action::Quit));
    // A plain 'c' does nothing.
    assert!(matches!(app.handle_key_events(ch('c')), Action::Nothing));
    assert!(app.running);
}

#[test]
fn help_hides_on_any_key_and_nothing_else_happens() {
    let mut app = app_with(3);
    app.handle_key_events(ch('p'));
    assert!(app.show_help);
    let before = nav(&app);
    assert!(matches!(app.handle_key_events(ch('q')), Action::Nothing));
    assert_eq!(nav(&app), (before.0, before.1, before.2, false));
    app.handle_key_events(ch('?'));
    assert!(app.show_help);
    app.handle_key_events(key(KeyCode::Right));
    assert!(!app.show_help);
    assert_eq!(app.selected_index, 0);
}

#[test]
fn fullscreen_toggles_and_leaves() {
    let mut app = app_with(3);
    app.handle_key_events(ch('l'));
    app.handle_key_events(ch('f'));
    assert_eq!(app.fullscreen_index, Some(1));
    app.handle_key_events(key(KeyCode::Enter));
    assert_eq!(app.fullscreen_index, None);
    app.handle_key_events(key(KeyCode::Enter));
    assert_eq!(app.fullscreen_index, Some(1));
    app.handle_key_events(key(KeyCode::Esc));
    assert_eq!(app.fullscreen_index, None);
    app.handle_key_events(key(KeyCode::Esc));
    assert_eq!(app.fullscreen_index, None);
}

#[test]
fn grid_navigation_stays_in_bounds() {
    let mut app = app_with(5);
    app.handle_key_events(key(KeyCode::Left));
    assert_eq!(app.selected_index, 0);
    app.handle_key_events(key(KeyCode::Up));
    assert_eq!(app.selected_index, 0);
    app.handle_key_events(ch('j'));
    assert_eq!(app.selected_index, 2);
    app.handle_key_events(key(KeyCode::Down));
    assert_eq!(app.selected_index, 4);
    app.handle_key_events(key(KeyCode::Down));
    assert_eq!(app.selected_index, 4);
    app.handle_key_events(key(KeyCode::Right));
    assert_eq!(app.selected_index, 4);
    app.handle_key_events(ch('h'));
    assert_eq!(app.selected_index, 3);
    app.handle_key_events(ch('k'));
    assert_eq!(app.selected_index, 1);
}

#[test]
fn right_then_left_restores_selection() {
    let mut app = app_with(4);
    let before = nav(&app);
    app.handle_key_events(ch('l'));
    assert_eq!(app.selected_index, 1);
    app.handle_key_events(ch('h'));
    assert_eq!(nav(&app), before);
}

#[test]
fn down_then_up_restores_selection() {
    let mut app = app_with(4);
    app.handle_key_events(ch('l'));
    let before = nav(&app);
    app.handle_key_events(ch('j'));
    assert_eq!(app.selected_index, 3);
    app.handle_key_events(ch('k'));
    assert_eq!(nav(&app), before);
}

#[test]
fn fullscreen_follows_left_right_but_not_up_down() {
    let mut app = app_with(6);
    app.handle_key_events(ch('f'));
    app.handle_key_events(ch('l'));
    assert_eq!(app.fullscreen_index, Some(1));
    app.handle_key_events(ch('j'));
    assert_eq!(app.selected_index, 3);
    assert_eq!(app.fullscreen_index, Some(1));
    // Toggling now closes the pane and opens the selected one.
    app.handle_key_events(ch('f'));
    app.handle_key_events(ch('f'));
    assert_eq!(app.fullscreen_index, Some(3));
}

#[test]
fn digits_jump_to_processes() {
    let mut app = app_with(3);
    app.handle_key_events(ch('3'));
    assert_eq!(app.selected_index, 2);
    app.handle_key_events(ch('4'));
    assert_eq!(app.selected_index, 2);
    app.handle_key_events(ch('0'));
    assert_eq!(app.selected_index, 2);
    app.handle_key_events(ch('f'));
    app.handle_key_events(ch('1'));
    assert_eq!(app.selected_index, 0);
    assert_eq!(app.fullscreen_index, Some(0));
}

#[test]
fn scroll_keys_act_on_selected_process() {
    let mut app = app_with(2);
    app.handle_key_events(ch('l'));
    assert!(matches!(app.handle_key_events(key(KeyCode::PageUp)), Action::ScrollUp { index: 1, lines: 10 }));
    assert!(matches!(app.handle_key_events(ch('u')), Action::ScrollUp { index: 1, lines: 10 }));
    assert!(matches!(app.handle_key_events(key(KeyCode::PageDown)), Action::ScrollDown { index: 1, lines: 10 }));
    assert!(matches!(app.handle_key_events(ch('d')), Action::ScrollDown { index: 1, lines: 10 }));
    assert!(matches!(app.handle_key_events(key(KeyCode::End)), Action::ScrollToBottom { index: 1 }));
    let mut empty = app_with(0);
    assert!(matches!(empty.handle_key_events(ch('u')), Action::Nothing));
}

#[test]
fn process_commands() {
    let mut app = app_with(2);
    match app.handle_key_events(ch('t')) {
        Action::Run { index, ops } => {
            assert_eq!(index, 0);
            assert_eq!(ops, vec![ProcessOp::Spawn]);
        }
        _ => panic!("expected an operation"),
    }
    app.set_status(0, ProcessStatus::Running);
    match app.handle_key_events(ch('t')) {
        Action::Run { ops, .. } => assert!(ops.is_empty()),
        _ => panic!("expected an operation"),
    }
    match app.handle_key_events(ch('s')) {
        Action::Run { ops, .. } => assert_eq!(ops, vec![ProcessOp::Kill]),
        _ => panic!("expected an operation"),
    }
    match app.handle_key_events(ch('r')) {
        Action::Run { ops, .. } => assert_eq!(ops, vec![ProcessOp::Kill, ProcessOp::Spawn]),
        _ => panic!("expected an operation"),
    }
    let before = nav(&app);
    match app.handle_key_events(ch('e')) {
        Action::Run { index, ops } => {
            assert_eq!(index, 0);
            assert_eq!(ops, vec![ProcessOp::Kill, ProcessOp::Spawn]);
        }
        _ => panic!("expected an operation"),
    }
    assert_eq!(nav(&app), before);
    let mut empty = app_with(0);
    match empty.handle_key_events(ch('r')) {
        Action::Run { ops, .. } => assert!(ops.is_empty()),
        _ => panic!("expected an operation"),
    }
}

#[test]
fn set_status_records_one_process() {
    let mut app = app_with(3);
    app.set_status(1, ProcessStatus::Running);
    assert_eq!(app.processes[1].status, ProcessStatus::Running);
    assert_eq!(app.processes[0].status, ProcessStatus::Stopped);
    assert_eq!(app.processes[1].name, "p1");
    app.set_status(7, ProcessStatus::Running);
    assert_eq!(app.processes.len(), 3);
}

#[test]
fn interactive_round_trip() {
    let mut app = app_with(2);
    let before = nav(&app);
    assert!(matches!(app.handle_key_events(ch('i')), Action::Nothing));
    assert_eq!(app.input_mode, InputMode::Interactive);
    // Normal-mode bindings no longer apply.
    match app.handle_key_events(ch('q')) {
        Action::Write { index, bytes } => {
            assert_eq!(index, 0);
            assert_eq!(bytes, vec![b'q']);
        }
        _ => panic!("expected a write"),
    }
    assert!(matches!(app.handle_key_events(ctrl('a')), Action::Nothing));
    assert_eq!(nav(&app), before);
}

#[test]
fn ctrl_a_with_other_modifiers_still_leaves_interactive() {
    let mut app = app_with(1);
    app.handle_key_events(ch('i'));
    let k = KeyInput { code: KeyCode::Char('a'), modifiers: KeyModifiers { shift: true, ..mods(true, true) } };
    assert!(matches!(app.handle_key_events(k), Action::Nothing));
    assert_eq!(app.input_mode, InputMode::Normal);
}

#[test]
fn interactive_alt_scrolls() {
    let mut app = app_with(1);
    app.handle_key_events(ch('i'));
    assert!(matches!(app.handle_key_events(alt(KeyCode::PageUp)), Action::ScrollUp { index: 0, lines: 10 }));
    assert!(matches!(app.handle_key_events(alt(KeyCode::PageDown)), Action::ScrollDown { index: 0, lines: 10 }));
    assert!(matches!(app.handle_key_events(alt(KeyCode::End)), Action::ScrollToBottom { index: 0 }));
    match app.handle_key_events(key(KeyCode::PageUp)) {
        Action::Write { bytes, .. } => assert_eq!(bytes, vec![27, 91, 53, 126]),
        _ => panic!("expected a write"),
    }
    match app.handle_key_events(alt(KeyCode::Home)) {
        Action::Write { bytes, .. } => assert_eq!(bytes, vec![27, 91, 72]),
        _ => panic!("expected a write"),
    }
}

#[test]
fn interactive_without_processes_does_nothing() {
    let mut app = app_with(0);
    app.handle_key_events(ch('i'));
    assert!(matches!(app.handle_key_events(ch('x')), Action::Nothing));
    assert!(matches!(app.handle_key_events(key(KeyCode::F(1))), Action::Nothing));
}

#[test]
fn interactive_keys_without_bytes_send_nothing() {
    let mut app = app_with(1);
    app.handle_key_events(ch('i'));
    assert!(matches!(app.handle_key_events(key(KeyCode::F(5))), Action::Nothing));
    assert!(matches!(app.handle_key_events(key(KeyCode::Null)), Action::Nothing));
}

#[test]
fn special_key_sequences() {
    let expect: Vec<(KeyCode, Vec<u8>)> = vec![
        (KeyCode::Enter, vec![10]),
        (KeyCode::Backspace, vec![8]),
        (KeyCode::Left, vec![27, 91, 68]),
        (KeyCode::Right, vec![27, 91, 67]),
        (KeyCode::Up, vec![27, 91, 65]),
        (KeyCode::Down, vec![27, 91, 66]),
        (KeyCode::Tab, vec![9]),
        (KeyCode::Home, vec![27, 91, 72]),
        (KeyCode::End, vec![27, 91, 70]),
        (KeyCode::PageUp, vec![27, 91, 53, 126]),
        (KeyCode::PageDown, vec![27, 91, 54, 126]),
        (KeyCode::BackTab, vec![27, 91, 90]),
        (KeyCode::Delete, vec![27, 91, 51, 126]),
        (KeyCode::Insert, vec![27, 91, 50, 126]),
        (KeyCode::Esc, vec![27]),
    ];
    for (code, bytes) in expect {
        assert_eq!(input_bytes(key(code), LineEnding::Lf), Some(bytes));
    }
    assert_eq!(input_bytes(key(KeyCode::Other), LineEnding::Lf), None);
    assert_eq!(input_bytes(key(KeyCode::Enter), LineEnding::CrLf), Some(vec![13, 10]));
    assert_eq!(input_bytes(ch('x'), LineEnding::CrLf), Some(vec![b'x']));
}

#[test]
fn control_letters_send_control_codes() {
    let c = mods(true, false);
    assert_eq!(char_bytes('a', c), vec![1]);
    assert_eq!(char_bytes('A', c), vec![1]);
    assert_eq!(char_bytes('c', c), vec![3]);
    assert_eq!(char_bytes('z', c), vec![26]);
    assert_eq!(char_bytes('Z', c), vec![26]);
}

#[test]
fn control_symbols_send_control_codes() {
    let c = mods(true, false);
    assert_eq!(char_bytes('2', c), vec![0]);
    assert_eq!(char_bytes('@', c), vec![0]);
    assert_eq!(char_bytes(' ', c), vec![0]);
    assert_eq!(char_bytes('3', c), vec![27]);
    assert_eq!(char_bytes('[', c), vec![27]);
    assert_eq!(char_bytes('4', c), vec![28]);
    assert_eq!(char_bytes('\\', c), vec![28]);
    assert_eq!(char_bytes('5', c), vec![29]);
    assert_eq!(char_bytes(']', c), vec![29]);
    assert_eq!(char_bytes('6', c), vec![30]);
    assert_eq!(char_bytes('^', c), vec![30]);
    assert_eq!(char_bytes('7', c), vec![31]);
    assert_eq!(char_bytes('-', c), vec![31]);
    assert_eq!(char_bytes('_', c), vec![31]);
    // No control code: the character's low byte.
    assert_eq!(char_bytes('1', c), vec![b'1']);
    assert_eq!(char_bytes('{', c), vec![b'{']);
}

#[test]
fn characters_send_their_low_byte() {
    let none = mods(false, false);
    assert_eq!(char_bytes('x', none), vec![b'x']);
    assert_eq!(char_bytes('é', none), vec![0xe9]);
    assert_eq!(char_bytes('€', none), vec![0xac]);
    // Control with another modifier is not a control code.
    let ctrl_alt = mods(true, true);
    assert_eq!(char_bytes('a', ctrl_alt), vec![b'a']);
}

#[test]
fn quit_stops_and_kills_everything() {
    let mut app = app_with(3);
    app.handle_key_events(ch('l'));
    let to_kill = app.quit();
    assert_eq!(to_kill, vec![0, 1, 2]);
    assert!(app.running);
    app.finish_quit();
    assert!(!app.running);
    assert_eq!(app.selected_index, 1);
    assert_eq!(app.processes.len(), 3);
    app.tick();
}

#[test]
fn help_key_twice_restores_state() {
    let mut app = app_with(3);
    app.handle_key_events(ch('l'));
    let before = nav(&app);
    assert!(matches!(app.handle_key_events(ch('?')), Action::Nothing));
    assert!(app.show_help);
    assert!(matches!(app.handle_key_events(ch('?')), Action::Nothing));
    assert_eq!(nav(&app), before);
}

#[test]
fn only_key_presses_are_handled() {
    let mut app = app_with(2);
    assert!(matches!(app.on_key_event(ch('l'), KeyPhase::Release), Action::Nothing));
    assert!(matches!(app.on_key_event(ch('q'), KeyPhase::Repeat), Action::Nothing));
    assert_eq!(app.selected_index, 0);
    app.on_key_event(ch('l'), KeyPhase::Press);
    assert_eq!(app.selected_index, 1);
    assert!(matches!(app.on_key_event(ch('q'), KeyPhase::Press), Action::Quit));
}

#[test]
fn enter_sends_the_configured_line_ending() {
    let mut app = app_with(1);
    assert_eq!(app.line_ending, LineEnding::Lf);
    app.line_ending = LineEnding::CrLf;
    app.handle_key_events(ch('i'));
    match app.handle_key_events(key(KeyCode::Enter)) {
        Action::Write { bytes, .. } => assert_eq!(bytes, vec![13, 10]),
        _ => panic!("expected a write"),
    }
}
