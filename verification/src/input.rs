//! What the user interface does with terminal input.
//!
//! The terminal reports focus changes, key presses, mouse events, pasted
//! text and resizes. Only the key `q` has an effect so far: it asks the
//! application to exit.

use vstd::prelude::*;

verus! {

/// A key as far as the interface tells keys apart.
#[derive(Clone, Copy, Debug, PartialEq, Eq)]
pub enum KeyInput {
    Char(char),
    Enter,
    Other,
}

/// An event read from the terminal.
#[derive(Clone, Debug)]
pub enum InputEvent {
    FocusGained,
    FocusLost,
    Key(KeyInput),
    Mouse,
    Paste(String),
    Resize(u16, u16),
}

/// The key that quits the application.
pub const QUIT_KEY: char = 'q';

/// Whether an event asks the application to exit.
pub open spec fn is_quit(event: InputEvent) -> bool {
    event matches InputEvent::Key(KeyInput::Char(c)) && c == QUIT_KEY
}

/// The state of the user interface.
#[derive(Clone, Debug)]
pub struct AppState {
    /// Set once the user asked to leave; the main loop then ends.
    pub exit: bool,
}

impl Default for AppState {
    /// The state at start-up: nothing asked yet.
    fn default() -> (state: Self)
        ensures
            !state.exit,
    {
        AppState { exit: false }
    }
}

impl AppState {
    /// The state at start-up: nothing asked yet.
    pub fn new() -> (state: Self)
        ensures
            !state.exit,
    {
        Self::default()
    }
}

/// Applies one terminal event to the state: the quit key sets `exit`,
/// every other event leaves the state as it was.
pub fn handle_event(state: &mut AppState, event: &InputEvent)
    ensures
        final(state).exit == (old(state).exit || is_quit(*event)),
        final(state).exit == (old(state).exit || event matches InputEvent::Key(KeyInput::Char('q'))),
{
    match event {
        InputEvent::FocusGained => {},
        InputEvent::FocusLost => {},
        InputEvent::Key(key) => {
            match key {
                KeyInput::Char(c) => {
                    if *c == QUIT_KEY {
                        state.exit = true;
                    }
                },
                KeyInput::Enter => {},
                KeyInput::Other => {},
            }
        },
        InputEvent::Mouse => {},
        InputEvent::Paste(_text) => {},
        InputEvent::Resize(_width, _height) => {},
    }
}

/// The key `q` is the only key that quits, and no event other than a key
/// press quits.
pub proof fn lemma_only_q_quits(event: InputEvent)
    ensures
        is_quit(event) <==> event == InputEvent::Key(KeyInput::Char('q')),
        forall|c: char| #[trigger] is_quit(InputEvent::Key(KeyInput::Char(c))) <==> c == 'q',
        !is_quit(InputEvent::Key(KeyInput::Enter)),
        !is_quit(InputEvent::Key(KeyInput::Other)),
{
}

/// Handling an event that is not the `q` key leaves the state as it was;
/// handling the `q` key makes the application exit, whatever the state was.
pub proof fn lemma_handle_event_effect(exit: bool, event: InputEvent)
    ensures
        event != InputEvent::Key(KeyInput::Char('q')) ==> exit_after(exit, seq![event]) == exit,
        event == InputEvent::Key(KeyInput::Char('q')) ==> exit_after(exit, seq![event]),
{
    assert(seq![event].drop_last() =~= Seq::<InputEvent>::empty());
    assert(exit_after(exit, Seq::<InputEvent>::empty()) == exit);
    assert(seq![event].last() == event);
}

/// The exit flag after a run of events, starting from `exit`, as
/// `handle_event` leaves it.
pub open spec fn exit_after(exit: bool, events: Seq<InputEvent>) -> bool
    decreases events.len(),
{
    if events.len() == 0 {
        exit
    } else {
        let before = exit_after(exit, events.drop_last());
        before || is_quit(events.last())
    }
}

/// After any run of events the application exits exactly when it was
/// already exiting or one of the events was the quit key: once set, the
/// exit flag stays set, and no other event sets it.
pub proof fn lemma_exit_after(exit: bool, events: Seq<InputEvent>)
    ensures
        exit_after(exit, events) == (exit || exists|i: int|
            0 <= i < events.len() && #[trigger] is_quit(events[i])),
    decreases events.len(),
{
    if events.len() > 0 {
        let prefix = events.drop_last();
        lemma_exit_after(exit, prefix);
        if exit_after(exit, events) {
            if !exit && !is_quit(events.last()) {
                let i = choose|i: int| 0 <= i < prefix.len() && #[trigger] is_quit(prefix[i]);
                assert(events[i] == prefix[i]);
            }
            if !exit && is_quit(events.last()) {
                assert(is_quit(events[events.len() - 1]));
            }
        } else {
            assert forall|i: int| 0 <= i < events.len() implies !#[trigger] is_quit(events[i]) by {
                if i < prefix.len() {
                    assert(events[i] == prefix[i]);
                }
            }
        }
    }
}

} // verus!
