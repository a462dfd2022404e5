use menu_term::{Action, Event, Events, KeyCode, KeyEvent, KeyEventKind};

fn press(code: KeyCode) -> KeyEvent {
    KeyEvent::new(code)
}

#[test]
fn new_key_event_is_a_plain_press() {
    let event = KeyEvent::new(KeyCode::Char('k'));
    assert_eq!(event.code, KeyCode::Char('k'));
    assert_eq!(event.modifiers, 0);
    assert_eq!(event.kind, KeyEventKind::Press);
    assert_eq!(event.state, 0);
}

#[test]
fn k_moves_up() {
    assert_eq!(Action::from_event(press(KeyCode::Char('k'))), Some(Action::Up));
}

#[test]
fn up_arrow_moves_up() {
    assert_eq!(Action::from_event(press(KeyCode::Up)), Some(Action::Up));
}

#[test]
fn down_arrow_moves_down() {
    assert_eq!(Action::from_event(press(KeyCode::Down)), Some(Action::Down));
}

#[test]
fn j_moves_down() {
    assert_eq!(Action::from_event(press(KeyCode::Char('j'))), Some(Action::Down));
}

#[test]
fn enter_accepts() {
    assert_eq!(Action::from_event(press(KeyCode::Enter)), Some(Action::Accept));
}

#[test]
fn q_exits() {
    assert_eq!(Action::from_event(press(KeyCode::Char('q'))), Some(Action::Exit));
}

#[test]
fn escape_exits() {
    assert_eq!(Action::from_event(press(KeyCode::Esc)), Some(Action::Exit));
}

#[test]
fn x_is_not_bound() {
    assert_eq!(Action::from_event(press(KeyCode::Char('x'))), None);
}

#[test]
fn upper_case_letters_are_not_bound() {
    for c in ['K', 'J', 'Q'] {
        assert_eq!(Action::from_event(press(KeyCode::Char(c))), None);
    }
}

#[test]
fn other_keys_are_not_bound() {
    let codes = [
        KeyCode::Backspace,
        KeyCode::Left,
        KeyCode::Right,
        KeyCode::Home,
        KeyCode::End,
        KeyCode::PageUp,
        KeyCode::PageDown,
        KeyCode::Tab,
        KeyCode::BackTab,
        KeyCode::Delete,
        KeyCode::Insert,
        KeyCode::F(1),
        KeyCode::Null,
        KeyCode::CapsLock,
        KeyCode::ScrollLock,
        KeyCode::NumLock,
        KeyCode::PrintScreen,
        KeyCode::Pause,
        KeyCode::Menu,
        KeyCode::KeypadBegin,
        KeyCode::Media,
        KeyCode::Modifier,
        KeyCode::Char(' '),
        KeyCode::Char('\n'),
    ];
    for code in codes {
        assert_eq!(Action::from_event(press(code)), None);
    }
}

#[test]
fn every_character_but_three_is_unbound() {
    let mut bound = Vec::new();
    for c in '\0'..='\u{ffff}' {
        if Action::from_event(press(KeyCode::Char(c))).is_some() {
            bound.push(c);
        }
    }
    assert_eq!(bound, vec!['j', 'k', 'q']);
}

#[test]
fn same_event_gives_same_action() {
    let event = press(KeyCode::Char('j'));
    let first = Action::from_event(event);
    let second = Action::from_event(event);
    assert_eq!(first, second);
    assert_eq!(first, Some(Action::Down));
}

#[test]
fn only_the_key_counts() {
    let plain = press(KeyCode::Char('q'));
    let held = KeyEvent { code: KeyCode::Char('q'), modifiers: 0b10, kind: KeyEventKind::Repeat, state: 1 };
    let released = KeyEvent { code: KeyCode::Char('q'), modifiers: 0, kind: KeyEventKind::Release, state: 0 };
    assert_eq!(Action::from_event(plain), Some(Action::Exit));
    assert_eq!(Action::from_event(held), Some(Action::Exit));
    assert_eq!(Action::from_event(released), Some(Action::Exit));
}

#[test]
fn read_returns_a_key_event_as_it_came() {
    let key = KeyEvent { code: KeyCode::Enter, modifiers: 4, kind: KeyEventKind::Press, state: 2 };
    let next: Option<Result<KeyEvent, String>> = Events::read(Ok(Event::Key(key)));
    assert_eq!(next, Some(Ok(key)));
}

#[test]
fn read_passes_over_other_events() {
    let others = [
        Event::FocusGained,
        Event::FocusLost,
        Event::Mouse,
        Event::Paste,
        Event::Resize(80, 24),
    ];
    for event in others {
        let next: Option<Result<KeyEvent, String>> = Events::read(Ok(event));
        assert_eq!(next, None);
    }
}

#[test]
fn read_hands_a_failure_on() {
    let next = Events::read(Err::<Event, String>("input closed".to_string()));
    assert_eq!(next, Some(Err("input closed".to_string())));
}

fn first_settled(outcomes: Vec<Result<Event, String>>) -> (usize, Option<Result<KeyEvent, String>>) {
    let mut taken = 0;
    for outcome in outcomes {
        taken += 1;
        if let Some(settled) = Events::read(outcome) {
            return (taken, Some(settled));
        }
    }
    (taken, None)
}

#[test]
fn reading_goes_on_until_the_first_key() {
    let key = press(KeyCode::Char('k'));
    let later = press(KeyCode::Char('j'));
    let outcomes = vec![
        Ok(Event::Resize(10, 10)),
        Ok(Event::Mouse),
        Ok(Event::Key(key)),
        Ok(Event::Key(later)),
    ];
    assert_eq!(first_settled(outcomes), (3, Some(Ok(key))));
}

#[test]
fn reading_stops_at_a_failure() {
    let outcomes = vec![
        Ok(Event::FocusGained),
        Err("gone".to_string()),
        Ok(Event::Key(press(KeyCode::Enter))),
    ];
    assert_eq!(first_settled(outcomes), (2, Some(Err("gone".to_string()))));
}

#[test]
fn key_read_then_mapped() {
    let outcome: Result<Event, String> = Ok(Event::Key(press(KeyCode::Down)));
    let key = Events::read(outcome).unwrap().unwrap();
    assert_eq!(Action::from_event(key), Some(Action::Down));
}
