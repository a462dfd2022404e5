//! Key presses and the navigation actions they stand for.

use vstd::prelude::*;

verus! {

/// The key that a key event reports.
#[derive(Clone, Copy, Debug, PartialEq, Eq, Structural)]
pub enum KeyCode {
    Backspace,
    Enter,
    Left,
    Right,
    Up,
    Down,
    Home,
    End,
    PageUp,
    PageDown,
    Tab,
    BackTab,
    Delete,
    Insert,
    /// A function key, by its number.
    F(u8),
    /// A key that produces a character.
    Char(char),
    Null,
    Esc,
    CapsLock,
    ScrollLock,
    NumLock,
    PrintScreen,
    Pause,
    Menu,
    KeypadBegin,
    /// One of the media keys.
    Media,
    /// A modifier key reported on its own.
    Modifier,
}

/// Whether a key went down, is being held, or came up.
#[derive(Clone, Copy, Debug, PartialEq, Eq, Structural)]
pub enum KeyEventKind {
    Press,
    Repeat,
    Release,
}

/// One key event as the input layer reports it.
///
/// `modifiers` and `state` are the bit sets of the input layer, carried
/// along untouched.
#[derive(Clone, Copy, Debug, PartialEq, Eq, Structural)]
pub struct KeyEvent {
    pub code: KeyCode,
    pub modifiers: u8,
    pub kind: KeyEventKind,
    pub state: u8,
}

impl KeyEvent {
    /// A plain press of `code`, with no modifier held.
    pub fn new(code: KeyCode) -> (event: KeyEvent)
        ensures
            event == (KeyEvent { code, modifiers: 0, kind: KeyEventKind::Press, state: 0 }),
    {
        KeyEvent { code, modifiers: 0, kind: KeyEventKind::Press, state: 0 }
    }
}

/// What the user asks of a menu.
#[derive(Clone, Copy, Debug, PartialEq, Eq, Structural)]
pub enum Action {
    Up,
    Down,
    Accept,
    Exit,
}

impl Action {
    /// The action bound to a key, if any.
    ///
    /// | key                | action |
    /// |--------------------|--------|
    /// | up arrow, `k`      | Up     |
    /// | down arrow, `j`    | Down   |
    /// | enter              | Accept |
    /// | escape, `q`        | Exit   |
    pub open spec fn of_code(code: KeyCode) -> Option<Action> {
        match code {
            KeyCode::Up => Some(Action::Up),
            KeyCode::Down => Some(Action::Down),
            KeyCode::Enter => Some(Action::Accept),
            KeyCode::Esc => Some(Action::Exit),
            KeyCode::Char(c) => if c == 'k' {
                Some(Action::Up)
            } else if c == 'j' {
                Some(Action::Down)
            } else if c == 'q' {
                Some(Action::Exit)
            } else {
                None
            },
            _ => None,
        }
    }

    /// Whether a key is bound to an action.
    pub open spec fn is_bound(code: KeyCode) -> bool {
        code == KeyCode::Up || code == KeyCode::Down || code == KeyCode::Enter || code
            == KeyCode::Esc || code == KeyCode::Char('k') || code == KeyCode::Char('j') || code
            == KeyCode::Char('q')
    }

    /// What [`Action::from_event`] returns, as a mathematical function.
    pub open spec fn spec_from_event(event: KeyEvent) -> Option<Action> {
        Action::of_code(event.code)
    }

    /// Maps a key event to the action bound to its key. Modifiers,
    /// the kind of the event and the keyboard state play no part.
    #[verifier::when_used_as_spec(spec_from_event)]
    pub fn from_event(event: KeyEvent) -> (action: Option<Action>)
        ensures
            action == Action::of_code(event.code),
            action is Some <==> Action::is_bound(event.code),
    {
        match event.code {
            KeyCode::Up | KeyCode::Char('k') => Some(Action::Up),
            KeyCode::Down | KeyCode::Char('j') => Some(Action::Down),
            KeyCode::Enter => Some(Action::Accept),
            KeyCode::Esc | KeyCode::Char('q') => Some(Action::Exit),
            _ => None,
        }
    }

    /// Each action is reached from exactly the two keys (for `Accept`, the
    /// one key) that the table lists for it, and a key outside the table
    /// gives no action.
    pub proof fn lemma_keys_of_each_action(code: KeyCode)
        ensures
            Action::of_code(code) == Some(Action::Up) <==> code == KeyCode::Up || code
                == KeyCode::Char('k'),
            Action::of_code(code) == Some(Action::Down) <==> code == KeyCode::Down || code
                == KeyCode::Char('j'),
            Action::of_code(code) == Some(Action::Accept) <==> code == KeyCode::Enter,
            Action::of_code(code) == Some(Action::Exit) <==> code == KeyCode::Esc || code
                == KeyCode::Char('q'),
            Action::of_code(code) is None <==> !Action::is_bound(code),
    {
    }

    /// The mapping is a function of its input: the same event gives
    /// the same action every time. More than that, only the key counts: two
    /// events that report the same key give the same action, whatever else
    /// they carry.
    pub proof fn lemma_action_depends_on_code_only(first: KeyEvent, second: KeyEvent)
        ensures
            first == second ==> Action::from_event(first) == Action::from_event(second),
            first.code == second.code ==> Action::from_event(first) == Action::from_event(
                second,
            ),
    {
    }
}

} // verus!
