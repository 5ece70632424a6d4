//! The executable game.
//!
//! A [`GameData`] owns the whole state of one game. Its state as a
//! mathematical value is its view, a [`GameView`], and every operation
//! below is specified by the function of [`crate::model`] that it follows.

use vstd::prelude::*;
use crate::catalog::{catalog_modal, catalog_trigger, debug_modal, trigger_applies, CATALOG_LEN};
use crate::city::{home_city, registry_wf, set_home_city, City, CityRegistry};
use crate::clock::{advanced, lemma_age_after_advance, lemma_age_monotonic, Clock};
use crate::focus::{is_unlocked, stage_at, stage_of, Focus};
use crate::modal::{decide, resolve, Modal, ModalKind, ModalView};
use crate::mode::{intent_for, GameState, InputEvent, Intent};
use crate::model::{
    after_catalog, after_events, after_intent, after_tick, after_update, arrived, can_start,
    confirmed, initial, try_start, Frame, GameView, ARRIVAL_DISTANCE,
};
use crate::stats::Stats;
use crate::text::{same_text, str_eq};

verus! {

/// The whole state of one game.
pub struct GameData {
    clock: Clock,
    age: u32,
    stats: Stats,
    current_focus: Focus,
    married: bool,
    moves: u32,
    plane_origin: [i32; 2],
    plane_steps: u64,
    current_modal: Option<Modal>,
    modals_done: Vec<Modal>,
    game_state: GameState,
    cities: CityRegistry,
}

/// The life events of a list, each as what it is made of.
pub open spec fn views_of(s: Seq<Modal>) -> Seq<ModalView> {
    Seq::new(s.len(), |i: int| s[i]@)
}

impl View for GameData {
    type V = GameView;

    closed spec fn view(&self) -> GameView {
        GameView {
            nanos: self.clock.nanos,
            age: self.age,
            stats: self.stats,
            focus: self.current_focus,
            married: self.married,
            moves: self.moves,
            origin: self.plane_origin,
            steps: self.plane_steps,
            modal: match self.current_modal {
                Some(m) => Some(m@),
                None => None,
            },
            done: views_of(self.modals_done@),
            state: self.game_state,
            cities: self.cities@,
        }
    }
}

impl GameData {
    /// A new game on the title screen.
    pub fn new(cities: CityRegistry) -> (gd: GameData)
        requires
            registry_wf(cities@),
        ensures
            gd@ == initial(cities@),
            gd@.wf(),
    {
        let gd = GameData {
            clock: Clock::new(),
            age: 0,
            stats: Stats::new(),
            current_focus: Focus::Play,
            married: false,
            moves: 0,
            plane_origin: [0, 0],
            plane_steps: 0,
            current_modal: None,
            modals_done: Vec::new(),
            game_state: GameState::Title,
            cities: cities,
        };
        assert(gd@.done =~= Seq::empty());
        gd
    }

    /// A new game on the title screen with the given cities, if their names
    /// are distinct, letter case ignored, and exactly one of them is home.
    pub fn with_cities(cities: Vec<City>) -> (r: Option<GameData>)
        ensures
            r is Some <==> registry_wf(cities@),
            r is Some ==> r->0@ == initial(cities@) && r->0@.wf(),
    {
        match CityRegistry::new(cities) {
            Some(registry) => Some(GameData::new(registry)),
            None => None,
        }
    }

    /// Checks at run time what holds of every state that a game can
    /// reach. A game made by `new` or `with_cities` and changed through the
    /// functions of this module always passes.
    pub fn is_well_formed(&self) -> (ok: bool)
        ensures
            ok == self@.wf(),
    {
        let modal_ok: bool = match &self.current_modal {
            Some(m) => m.is_well_formed() && self.game_state == GameState::Modal,
            None => self.game_state != GameState::Modal,
        };
        let title_ok: bool = self.game_state != GameState::Title || self.age == 0;
        modal_ok && title_ok && self.cities.is_well_formed() && self.current_focus.unlocked_at(
            self.age,
        ) && self.age <= self.clock.current_age()
    }

    /// The mode the game is in.
    pub fn game_state(&self) -> (state: GameState)
        ensures
            state == self@.state,
    {
        self.game_state
    }

    /// The character's age as of the last simulation step.
    pub fn age(&self) -> (age: u32)
        ensures
            age == self@.age,
    {
        self.age
    }

    /// Simulated time since the game started, in nanoseconds.
    pub fn elapsed_nanos(&self) -> (nanos: u64)
        ensures
            nanos == self@.nanos,
    {
        self.clock.nanos
    }

    /// The meters and experience accumulators.
    pub fn stats(&self) -> (stats: Stats)
        ensures
            stats == self@.stats,
    {
        self.stats
    }

    /// The activity in focus.
    pub fn current_focus(&self) -> (focus: Focus)
        ensures
            focus == self@.focus,
    {
        self.current_focus
    }

    /// Whether the character is married.
    pub fn married(&self) -> (married: bool)
        ensures
            married == self@.married,
    {
        self.married
    }

    /// Number of moves to another city so far.
    pub fn moves(&self) -> (moves: u32)
        ensures
            moves == self@.moves,
    {
        self.moves
    }

    /// Where the current or latest journey began.
    pub fn plane_origin(&self) -> (origin: [i32; 2])
        ensures
            origin == self@.origin,
    {
        self.plane_origin
    }

    /// Number of unit steps travelled on the current or latest journey. The
    /// traveller is found this many map units from the origin on the
    /// straight line to the home.
    pub fn plane_steps(&self) -> (steps: u64)
        ensures
            steps == self@.steps,
    {
        self.plane_steps
    }

    /// The life event that waits for an answer, if any.
    pub fn current_modal(&self) -> (modal: Option<&Modal>)
        ensures
            modal is Some <==> self@.modal is Some,
            modal is Some ==> modal->0@ == self@.modal->0,
    {
        self.current_modal.as_ref()
    }

    /// The life events answered so far, oldest first.
    pub fn modals_done(&self) -> (done: &Vec<Modal>)
        ensures
            views_of(done@) == self@.done,
    {
        &self.modals_done
    }

    /// The cities, one of them home.
    pub fn cities(&self) -> (cities: &CityRegistry)
        ensures
            cities@ == self@.cities,
    {
        &self.cities
    }
}

/// Tries to open a life event.
///
/// The event opens, and the game enters mode `Modal`, unless a life event is
/// already open or one with the same prompt, letter case ignored, has been
/// answered before. Otherwise nothing changes.
pub fn maybe_start_modal(gd: &mut GameData, new_modal: Modal) -> (started: bool)
    ensures
        started == can_start(old(gd)@, new_modal@),
        final(gd)@ == try_start(old(gd)@, new_modal@),
        !started ==> final(gd)@ == old(gd)@,
        old(gd)@.wf() && new_modal@.wf() ==> final(gd)@.wf(),
{
    if gd.current_modal.is_some() {
        return false;
    }
    let mut i: usize = 0;
    while i < gd.modals_done.len()
        invariant
            i <= gd.modals_done.len(),
            *gd == *old(gd),
            forall|k: int| 0 <= k < i ==> !same_text(#[trigger] gd@.done[k].text, new_modal@.text),
        decreases gd.modals_done.len() - i,
    {
        if str_eq(gd.modals_done[i].text(), new_modal.text()) {
            assert(same_text(gd@.done[i as int].text, new_modal@.text));
            return false;
        }
        i = i + 1;
    }
    gd.current_modal = Some(new_modal);
    gd.game_state = GameState::Modal;
    true
}

/// Position of the last activity available at the character's age.
pub fn focus_stage(gd: &GameData) -> (stage: u32)
    ensures
        stage == stage_at(gd@.age as int),
        stage <= 4,
{
    stage_of(gd.age)
}

/// Whether an activity is available at the character's age.
pub fn focus_is_unlocked(gd: &GameData, f: Focus) -> (open: bool)
    ensures
        open == is_unlocked(f, gd@.age as int),
{
    f.unlocked_at(gd.age)
}

/// Confirms the open life event with the choice under its cursor.
///
/// The consequences of the choice are applied, the event joins the answered
/// ones, and the game goes on in the mode that the consequences name.
pub fn execute_modal(gd: &mut GameData)
    requires
        old(gd)@.wf(),
        old(gd)@.state == GameState::Modal,
    ensures
        final(gd)@ == confirmed(old(gd)@),
        final(gd)@.wf(),
{
    let modal: Modal = match gd.current_modal.take() {
        Some(m) => m,
        None => vstd::pervasive::unreached(),
    };
    let choice: &'static str = modal.choice();
    let home: City = home_city(&gd.cities);
    let decision = decide(modal.kind(), choice, home.name);
    let effect = resolve(decision, gd.moves);
    match modal.kind() {
        ModalKind::Move => {
            gd.plane_origin = home.position;
            gd.plane_steps = 0;
        },
        _ => {},
    }
    if effect.relocates {
        set_home_city(&mut gd.cities, choice);
        if gd.moves < u32::MAX {
            gd.moves = gd.moves + 1;
        }
    }
    gd.stats = gd.stats.plus(effect.delta);
    if effect.marries {
        gd.married = true;
    }
    gd.game_state = effect.exit;
    gd.modals_done.push(modal);
    assert(gd@.done =~= old(gd)@.done.push(modal@));
}

/// Handles one intent of the player and tells whether it asks to quit.
///
/// An intent that does not apply in the current mode, or that selects an
/// activity not yet available, changes nothing.
pub fn handle_input(gd: &mut GameData, intent: Intent) -> (quit: bool)
    requires
        old(gd)@.wf(),
    ensures
        quit == (intent == Intent::Quit),
        final(gd)@ == after_intent(old(gd)@, intent),
        final(gd)@.wf(),
{
    match intent {
        Intent::Quit => {
            return true;
        },
        Intent::StartGame => {
            match gd.game_state {
                GameState::Title => {
                    gd.game_state = GameState::Game;
                    gd.clock.reset();
                },
                _ => {},
            }
        },
        Intent::SelectFocus(f) => {
            match gd.game_state {
                GameState::Game => {
                    if f.unlocked_at(gd.age) {
                        gd.current_focus = f;
                    }
                },
                _ => {},
            }
        },
        Intent::CycleFocus(dir) => {
            match gd.game_state {
                GameState::Game => {
                    gd.current_focus = gd.current_focus.cycle(gd.age, dir);
                },
                _ => {},
            }
        },
        Intent::ModalMove(dir) => {
            match gd.game_state {
                GameState::Modal => {
                    match &mut gd.current_modal {
                        Some(m) => {
                            m.move_selection(dir);
                        },
                        None => {},
                    }
                },
                _ => {},
            }
        },
        Intent::ModalConfirm => {
            match gd.game_state {
                GameState::Modal => {
                    execute_modal(gd);
                },
                _ => {},
            }
        },
        Intent::TriggerDebugModal => {
            match gd.game_state {
                GameState::Game => {
                    gd.current_modal = Some(debug_modal());
                    gd.game_state = GameState::Modal;
                },
                _ => {},
            }
        },
    }
    false
}

/// Whether a traveller who set out from `origin` towards `target` and has
/// made `steps` unit steps is less than `ARRIVAL_DISTANCE` away from the
/// target.
pub fn has_arrived(origin: [i32; 2], target: [i32; 2], steps: u64) -> (there: bool)
    ensures
        there == arrived(origin, target, steps as int),
{
    let dx: i128 = target[0] as i128 - origin[0] as i128;
    let dy: i128 = target[1] as i128 - origin[1] as i128;
    assert(0 <= dx * dx <= 0x1_0000_0000_0000_0000) by (nonlinear_arith)
        requires
            -0x1_0000_0000 <= dx <= 0x1_0000_0000,
    ;
    assert(0 <= dy * dy <= 0x1_0000_0000_0000_0000) by (nonlinear_arith)
        requires
            -0x1_0000_0000 <= dy <= 0x1_0000_0000,
    ;
    let span: i128 = dx * dx + dy * dy;
    if steps >= 0x2_0000_0000 {
        assert((steps + 4) * (steps + 4) >= 0x4_0000_0000_0000_0000) by (nonlinear_arith)
            requires
                steps >= 0x2_0000_0000,
        ;
        true
    } else {
        let reach: i128 = steps as i128 + ARRIVAL_DISTANCE as i128;
        assert(0 <= reach * reach <= 0x10_0000_0000_0000_0000) by (nonlinear_arith)
            requires
                0 <= reach <= 0x4_0000_0000,
        ;
        span < reach * reach
    }
}

/// Makes one simulation step of `dt` nanoseconds.
///
/// While the simulation runs, the age is read off the clock, the catalog is
/// tried, and the stats drift and are clamped. During a journey the
/// traveller advances, and the simulation resumes on arrival. In every other
/// mode nothing happens.
pub fn update(gd: &mut GameData, dt: u32)
    requires
        old(gd)@.wf(),
    ensures
        final(gd)@ == after_update(old(gd)@, dt),
        final(gd)@.wf(),
{
    match gd.game_state {
        GameState::Game => {
            proof {
                lemma_age_monotonic(0, gd@.nanos as int);
            }
            gd.age = gd.clock.current_age();
            let ghost aged = gd@;
            let mut i: usize = 0;
            while i < CATALOG_LEN
                invariant
                    i <= CATALOG_LEN,
                    gd@.wf(),
                    gd@.state == GameState::Game || gd@.state == GameState::Modal,
                    gd@.age == aged.age,
                    gd@.nanos == aged.nanos,
                    gd@.focus == aged.focus,
                    after_catalog(gd@, i as int) == after_catalog(aged, 0),
                decreases CATALOG_LEN - i,
            {
                match catalog_trigger(i) {
                    Some(trigger) => {
                        if trigger_applies(trigger, gd.age, gd.married) {
                            let home: City = home_city(&gd.cities);
                            match catalog_modal(i, home.name) {
                                Some(m) => {
                                    maybe_start_modal(gd, m);
                                },
                                None => {},
                            }
                        }
                    },
                    None => {},
                }
                i = i + 1;
            }
            gd.stats.update(dt, gd.age, gd.current_focus);
        },
        GameState::Fly => {
            let home: City = home_city(&gd.cities);
            if has_arrived(gd.plane_origin, home.position, gd.plane_steps) {
                gd.game_state = GameState::Game;
            }
            if gd.plane_steps < u64::MAX {
                gd.plane_steps = gd.plane_steps + 1;
            }
        },
        _ => {},
    }
}

/// Makes one tick: lets `dt` nanoseconds pass on the clock, handles the
/// events in order, then makes the simulation step. Tells whether the
/// player asked to quit; nothing that would follow such a request is done.
pub fn tick(gd: &mut GameData, events: &Vec<InputEvent>, dt: u32) -> (quit: bool)
    requires
        old(gd)@.wf(),
    ensures
        (final(gd)@, quit) == after_tick(old(gd)@, Frame { events: events@, dt: dt }),
        final(gd)@.wf(),
{
    proof {
        lemma_age_after_advance(gd@.nanos as int, dt as int);
    }
    gd.clock.advance(dt);
    let ghost timed = gd@;
    assert(events@.skip(0) =~= events@);
    let mut i: usize = 0;
    while i < events.len()
        invariant
            i <= events.len(),
            gd@.wf(),
            timed == (GameView {
                nanos: advanced(old(gd)@.nanos as int, dt as int) as u64,
                ..old(gd)@
            }),
            after_events(gd@, events@.skip(i as int)) == after_events(timed, events@),
        decreases events.len() - i,
    {
        assert(events@.skip(i as int).drop_first() =~= events@.skip(i + 1));
        assert(events@.skip(i as int)[0] == events@[i as int]);
        match intent_for(gd.game_state, events[i]) {
            Some(intent) => {
                if handle_input(gd, intent) {
                    return true;
                }
            },
            None => {},
        }
        i = i + 1;
    }
    assert(events@.skip(i as int).len() == 0);
    update(gd, dt);
    false
}

} // verus!
