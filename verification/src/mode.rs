//! The modes of the game and the inputs it understands.
//!
//! Exactly one mode is active at a time. The game takes its input as
//! intents; which intent a key stands for depends on the mode in which it
//! is pressed.

use vstd::prelude::*;
use crate::focus::{Direction, Focus};

verus! {

/// The mode the game is in.
#[derive(Clone, Copy, Debug, PartialEq, Eq, Structural)]
pub enum GameState {
    /// The title screen, before the life begins.
    Title,
    /// The simulation runs.
    Game,
    /// A life event waits for an answer; the simulation is suspended.
    Modal,
    /// The character travels to a new home.
    Fly,
    /// The life is over.
    GameOver,
}

/// What the player wants the game to do.
#[derive(Clone, Copy, Debug, PartialEq, Eq, Structural)]
pub enum Intent {
    /// Leave the game.
    Quit,
    /// Begin the life, from the title screen.
    StartGame,
    /// Put an activity in focus.
    SelectFocus(Focus),
    /// Move the focus to a neighbouring activity.
    CycleFocus(Direction),
    /// Move the cursor of the open life event.
    ModalMove(Direction),
    /// Answer the open life event with the choice under the cursor.
    ModalConfirm,
    /// Open the university event at once, whatever has happened before.
    TriggerDebugModal,
}

/// A key of the keyboard that the game listens to.
#[derive(Clone, Copy, Debug, PartialEq, Eq, Structural)]
pub enum Key {
    Escape,
    Space,
    Up,
    Down,
    Return,
    P,
    S,
    T,
    C,
    W,
    L,
}

/// Something the player did.
#[derive(Clone, Copy, Debug, PartialEq, Eq, Structural)]
pub enum InputEvent {
    /// The window was closed.
    Quit,
    /// A key went down.
    KeyDown(Key),
}

/// The intent that an event stands for in a mode, if any.
///
/// Closing the window and `Escape` quit in every mode. `Space` starts the
/// game from the title screen. While the simulation runs, the arrow keys
/// cycle the focus, a letter selects an activity and `L` opens the
/// university event. While a life event is open, the arrow keys move its
/// cursor and `Return` confirms.
pub open spec fn bound_intent(state: GameState, event: InputEvent) -> Option<Intent> {
    match event {
        InputEvent::Quit => Some(Intent::Quit),
        InputEvent::KeyDown(Key::Escape) => Some(Intent::Quit),
        InputEvent::KeyDown(key) => match state {
            GameState::Title => match key {
                Key::Space => Some(Intent::StartGame),
                _ => None,
            },
            GameState::Modal => match key {
                Key::Up => Some(Intent::ModalMove(Direction::Up)),
                Key::Down => Some(Intent::ModalMove(Direction::Down)),
                Key::Return => Some(Intent::ModalConfirm),
                _ => None,
            },
            GameState::Game => match key {
                Key::Up => Some(Intent::CycleFocus(Direction::Up)),
                Key::Down => Some(Intent::CycleFocus(Direction::Down)),
                Key::P => Some(Intent::SelectFocus(Focus::Play)),
                Key::S => Some(Intent::SelectFocus(Focus::Socialize)),
                Key::T => Some(Intent::SelectFocus(Focus::Research)),
                Key::C => Some(Intent::SelectFocus(Focus::Create)),
                Key::W => Some(Intent::SelectFocus(Focus::Work)),
                Key::L => Some(Intent::TriggerDebugModal),
                _ => None,
            },
            _ => None,
        },
    }
}

/// The intent that an event stands for in a mode, if any.
pub fn intent_for(state: GameState, event: InputEvent) -> (intent: Option<Intent>)
    ensures
        intent == bound_intent(state, event),
{
    match event {
        InputEvent::Quit => Some(Intent::Quit),
        InputEvent::KeyDown(Key::Escape) => Some(Intent::Quit),
        InputEvent::KeyDown(key) => match state {
            GameState::Title => match key {
                Key::Space => Some(Intent::StartGame),
                _ => None,
            },
            GameState::Modal => match key {
                Key::Up => Some(Intent::ModalMove(Direction::Up)),
                Key::Down => Some(Intent::ModalMove(Direction::Down)),
                Key::Return => Some(Intent::ModalConfirm),
                _ => None,
            },
            GameState::Game => match key {
                Key::Up => Some(Intent::CycleFocus(Direction::Up)),
                Key::Down => Some(Intent::CycleFocus(Direction::Down)),
                Key::P => Some(Intent::SelectFocus(Focus::Play)),
                Key::S => Some(Intent::SelectFocus(Focus::Socialize)),
                Key::T => Some(Intent::SelectFocus(Focus::Research)),
                Key::C => Some(Intent::SelectFocus(Focus::Create)),
                Key::W => Some(Intent::SelectFocus(Focus::Work)),
                Key::L => Some(Intent::TriggerDebugModal),
                _ => None,
            },
            _ => None,
        },
    }
}

} // verus!
