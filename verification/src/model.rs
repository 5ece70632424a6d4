//! The game as a mathematical state machine.
//!
//! A [`GameView`] is the whole state of a game. Every operation of the game
//! is described here as a function from one state to the next; the
//! executable game in [`crate::game`] is proved to follow these functions
//! step by step.

use vstd::prelude::*;
use crate::catalog::{applies, built, catalog, debug_view, CATALOG_LEN};
use crate::city::{home_index, registry_wf, rehomed, City};
use crate::clock::{advanced, age_at};
use crate::focus::{cycled, is_unlocked, Focus};
use crate::modal::{decided, effect_of, moved_selection, ModalKind, ModalView};
use crate::mode::{bound_intent, GameState, InputEvent, Intent};
use crate::stats::{initial_stats, stats_after, summed, Stats};
use crate::text::same_text;

verus! {

/// The state of a game.
pub struct GameView {
    /// Simulated time, in nanoseconds.
    pub nanos: u64,
    /// The character's age as of the last simulation step.
    pub age: u32,
    pub stats: Stats,
    /// The activity in focus.
    pub focus: Focus,
    pub married: bool,
    /// Number of moves to another city so far.
    pub moves: u32,
    /// Where the current or latest journey began.
    pub origin: [i32; 2],
    /// Number of unit steps travelled on that journey.
    pub steps: u64,
    /// The life event that waits for an answer, if any.
    pub modal: Option<ModalView>,
    /// The life events answered so far, oldest first.
    pub done: Seq<ModalView>,
    /// The mode the game is in.
    pub state: GameState,
    pub cities: Seq<City>,
}

/// What one call of `tick` is given: the events since the last call and the
/// time that has passed, in nanoseconds.
pub struct Frame {
    pub events: Seq<InputEvent>,
    pub dt: u32,
}

/// Distance from which a journey counts as over, in map units.
pub const ARRIVAL_DISTANCE: u64 = 4;

impl GameView {
    /// What holds of every state that a game can reach.
    ///
    /// The registry has distinct names and one home. A life event is open
    /// exactly in mode `Modal`, and its cursor is on one of its choices. The
    /// activity in focus is available at the character's age. The age is
    /// not ahead of the clock, and on the title screen it is zero.
    pub open spec fn wf(self) -> bool {
        &&& registry_wf(self.cities)
        &&& (self.state == GameState::Modal <==> self.modal is Some)
        &&& (self.modal is Some ==> self.modal->0.wf())
        &&& is_unlocked(self.focus, self.age as int)
        &&& self.age <= age_at(self.nanos as int)
        &&& (self.state == GameState::Title ==> self.age == 0)
    }

    /// The city the character lives in.
    pub open spec fn home(self) -> City {
        self.cities[home_index(self.cities)]
    }

    /// Whether a life event with this prompt has been answered.
    pub open spec fn consumed(self, text: Seq<char>) -> bool {
        exists|i: int| 0 <= i < self.done.len() && same_text(#[trigger] self.done[i].text, text)
    }

    /// Whether a life event with this prompt is open or has been answered.
    pub open spec fn seen(self, text: Seq<char>) -> bool {
        ||| (self.modal is Some && same_text(self.modal->0.text, text))
        ||| self.consumed(text)
    }
}

/// The state in which a new game begins: on the title screen, at time
/// zero, with the starting stats and `Play` in focus.
pub open spec fn initial(cities: Seq<City>) -> GameView {
    GameView {
        nanos: 0,
        age: 0,
        stats: initial_stats(),
        focus: Focus::Play,
        married: false,
        moves: 0,
        origin: [0, 0],
        steps: 0,
        modal: None,
        done: Seq::empty(),
        state: GameState::Title,
        cities: cities,
    }
}

/// Whether a life event may open: none is open, and none with the same
/// prompt has been answered.
pub open spec fn can_start(v: GameView, m: ModalView) -> bool {
    v.modal is None && !v.consumed(m.text)
}

/// The state with a life event opened.
pub open spec fn started(v: GameView, m: ModalView) -> GameView {
    GameView { modal: Some(m), state: GameState::Modal, ..v }
}

/// The state after an attempt to open a life event: the event opens if it
/// may, and otherwise nothing changes.
pub open spec fn try_start(v: GameView, m: ModalView) -> GameView {
    if can_start(v, m) {
        started(v, m)
    } else {
        v
    }
}

/// A counter after one more count, stopping at `u32::MAX`.
pub open spec fn counted(n: u32) -> u32 {
    if n < u32::MAX {
        (n + 1) as u32
    } else {
        n
    }
}

/// The state after the open life event has been confirmed.
///
/// The label under the cursor is read and its consequences applied: the
/// stats change without being clamped, the character may marry, and the home
/// may move, which counts as one more move; a label that names no city
/// leaves the home where it is and counts as a move all the same. An offer
/// to move also marks the old home as the start of a journey. The event
/// joins the answered ones and the game goes on in the mode that the
/// consequences name.
pub open spec fn confirmed(v: GameView) -> GameView {
    let m = v.modal->0;
    let d = decided(m.kind, m.choice(), v.home().name@);
    let e = effect_of(d, v.moves as int);
    GameView {
        stats: summed(v.stats, e.delta),
        married: v.married || e.marries,
        moves: if e.relocates {
            counted(v.moves)
        } else {
            v.moves
        },
        cities: if e.relocates {
            rehomed(v.cities, m.choice())
        } else {
            v.cities
        },
        origin: if m.kind == ModalKind::Move {
            v.home().position
        } else {
            v.origin
        },
        steps: if m.kind == ModalKind::Move {
            0
        } else {
            v.steps
        },
        modal: None,
        done: v.done.push(m),
        state: e.exit,
        ..v
    }
}

/// The state after an intent has been handled. An intent that does not
/// apply in the current mode changes nothing.
pub open spec fn after_intent(v: GameView, intent: Intent) -> GameView {
    match intent {
        Intent::Quit => v,
        Intent::StartGame => if v.state == GameState::Title {
            GameView { state: GameState::Game, nanos: 0, ..v }
        } else {
            v
        },
        Intent::SelectFocus(f) => if v.state == GameState::Game && is_unlocked(f, v.age as int) {
            GameView { focus: f, ..v }
        } else {
            v
        },
        Intent::CycleFocus(dir) => if v.state == GameState::Game {
            GameView { focus: cycled(v.focus, v.age as int, dir), ..v }
        } else {
            v
        },
        Intent::ModalMove(dir) => if v.state == GameState::Modal && v.modal is Some {
            let m = v.modal->0;
            GameView {
                modal: Some(
                    ModalView {
                        selection: moved_selection(m.selection, m.choices.len() as int, dir),
                        ..m
                    },
                ),
                ..v
            }
        } else {
            v
        },
        Intent::ModalConfirm => if v.state == GameState::Modal && v.modal is Some {
            confirmed(v)
        } else {
            v
        },
        Intent::TriggerDebugModal => if v.state == GameState::Game {
            started(v, debug_view())
        } else {
            v
        },
    }
}

/// The state after the catalog entries from position `i` on have been
/// tried in order: each entry that fires at the current age attempts to
/// open its life event.
pub open spec fn after_catalog(v: GameView, i: int) -> GameView
    decreases CATALOG_LEN - i,
{
    if i < 0 || i >= CATALOG_LEN {
        v
    } else {
        let e = catalog()[i];
        let next = if applies(e.trigger, v.age as int, v.married) {
            try_start(v, built(e, v.home().name@))
        } else {
            v
        };
        after_catalog(next, i + 1)
    }
}

/// Square of the distance between two places on the map.
pub open spec fn distance_squared(a: [i32; 2], b: [i32; 2]) -> int {
    (b[0] - a[0]) * (b[0] - a[0]) + (b[1] - a[1]) * (b[1] - a[1])
}

/// Whether a traveller who set out from `origin` towards `target` and has
/// made `steps` unit steps is less than `ARRIVAL_DISTANCE` away from the
/// target.
pub open spec fn arrived(origin: [i32; 2], target: [i32; 2], steps: int) -> bool {
    distance_squared(origin, target) < (steps + ARRIVAL_DISTANCE) * (steps + ARRIVAL_DISTANCE)
}

/// The state after one step of a journey: the game returns to the
/// simulation if the traveller has arrived, and the traveller makes one
/// more unit step towards the home.
pub open spec fn flown(v: GameView) -> GameView {
    GameView {
        state: if arrived(v.origin, v.home().position, v.steps as int) {
            GameState::Game
        } else {
            GameState::Fly
        },
        steps: if v.steps < u64::MAX {
            (v.steps + 1) as u64
        } else {
            v.steps
        },
        ..v
    }
}

/// The state after one simulation step of `dt` nanoseconds.
///
/// While the simulation runs, the age is read off the clock, the catalog is
/// tried, and the stats drift and are clamped, in this order. During a
/// journey the traveller advances. In every other mode nothing happens.
pub open spec fn after_update(v: GameView, dt: u32) -> GameView {
    match v.state {
        GameState::Game => {
            let aged = GameView { age: age_at(v.nanos as int) as u32, ..v };
            let met = after_catalog(aged, 0);
            GameView { stats: stats_after(met.stats, met.age as int, met.focus, dt as int), ..met }
        },
        GameState::Fly => flown(v),
        _ => v,
    }
}

/// The state after a list of events has been handled in order, and whether
/// one of them asked to quit. Each event is read in the mode the game is in
/// when its turn comes; nothing after a request to quit is handled.
pub open spec fn after_events(v: GameView, events: Seq<InputEvent>) -> (GameView, bool)
    decreases events.len(),
{
    if events.len() == 0 {
        (v, false)
    } else {
        match bound_intent(v.state, events[0]) {
            Some(Intent::Quit) => (v, true),
            Some(intent) => after_events(after_intent(v, intent), events.drop_first()),
            None => after_events(v, events.drop_first()),
        }
    }
}

/// The state after one tick, and whether the player asked to quit: the
/// clock advances, then the events are handled, then the simulation makes
/// its step. A request to quit leaves out everything that would follow it.
pub open spec fn after_tick(v: GameView, frame: Frame) -> (GameView, bool) {
    let timed = GameView { nanos: advanced(v.nanos as int, frame.dt as int) as u64, ..v };
    let (handled, quit) = after_events(timed, frame.events);
    if quit {
        (handled, true)
    } else {
        (after_update(handled, frame.dt), false)
    }
}

/// The state after a sequence of ticks.
pub open spec fn after_ticks(v: GameView, frames: Seq<Frame>) -> GameView
    decreases frames.len(),
{
    if frames.len() == 0 {
        v
    } else {
        after_tick(after_ticks(v, frames.drop_last()), frames.last()).0
    }
}

} // verus!
