//! What holds of every game, proved over the state machine of
//! [`crate::model`].

use vstd::prelude::*;
use crate::catalog::{
    applies, built, catalog, entry_for, lemma_catalog_built_wf, lemma_one_entry_fires, CATALOG_LEN,
};
use crate::city::{home_count, lemma_rehomed_wf};
use crate::clock::{advanced, lemma_age_after_advance, lemma_age_monotonic};
use crate::focus::lemma_cycle_wraps;
use crate::modal::ModalView;
use crate::mode::{bound_intent, GameState, InputEvent, Intent};
use crate::model::{
    after_catalog, after_events, after_intent, after_tick, after_ticks, after_update, can_start,
    confirmed, started, try_start, Frame, GameView,
};
use crate::stats::{in_range, lemma_step_in_range};
use crate::text::same_text;

verus! {

/// A life event whose prompt is open or has been answered cannot open
/// again: the attempt is refused and the state stays as it is.
pub proof fn lemma_seen_blocks(v: GameView, m: ModalView)
    requires
        v.seen(m.text),
    ensures
        !can_start(v, m),
        try_start(v, m) == v,
{
}

/// Once a life event has opened, its prompt counts as seen, and so does
/// every prompt that differs from it in letter case only.
pub proof fn lemma_start_marks_seen(v: GameView, m: ModalView, text: Seq<char>)
    requires
        can_start(v, m),
        same_text(m.text, text),
    ensures
        try_start(v, m) == started(v, m),
        try_start(v, m).seen(text),
{
}

/// An attempt to open a life event keeps the state well formed and forgets
/// no prompt.
pub proof fn lemma_try_start_keeps(v: GameView, m: ModalView)
    requires
        v.wf(),
        m.wf(),
    ensures
        try_start(v, m).wf(),
        forall|text: Seq<char>| v.seen(text) ==> try_start(v, m).seen(text),
{
}

/// Confirming the open life event keeps the state well formed, closes the
/// event, and forgets no prompt: the prompt of the confirmed event is among
/// the answered ones from then on.
pub proof fn lemma_confirmed_keeps(v: GameView)
    requires
        v.wf(),
        v.state == GameState::Modal,
    ensures
        confirmed(v).wf(),
        confirmed(v).modal is None,
        confirmed(v).state != GameState::Modal,
        confirmed(v).state != GameState::Title,
        confirmed(v).age == v.age,
        confirmed(v).nanos == v.nanos,
        home_count(confirmed(v).cities) == 1,
        forall|text: Seq<char>| v.seen(text) ==> confirmed(v).seen(text),
{
    let m = v.modal->0;
    let w = confirmed(v);
    lemma_rehomed_wf(v.cities, m.choice());
    assert forall|text: Seq<char>| v.seen(text) implies w.seen(text) by {
        if same_text(m.text, text) {
            assert(w.done[v.done.len() as int] == m);
        } else {
            let i = choose|i: int|
                0 <= i < v.done.len() && same_text(#[trigger] v.done[i].text, text);
            assert(w.done[i] == v.done[i]);
        }
    }
}

/// Handling an intent keeps the state well formed, never lowers the age and
/// forgets no prompt.
pub proof fn lemma_intent_keeps(v: GameView, intent: Intent)
    requires
        v.wf(),
    ensures
        after_intent(v, intent).wf(),
        after_intent(v, intent).age == v.age,
        forall|text: Seq<char>| v.seen(text) ==> after_intent(v, intent).seen(text),
{
    match intent {
        Intent::ModalConfirm => {
            if v.state == GameState::Modal {
                lemma_confirmed_keeps(v);
            }
        },
        Intent::CycleFocus(dir) => {
            lemma_cycle_wraps(v.focus, v.age as int, dir);
        },
        Intent::StartGame => {
            lemma_age_monotonic(0, 0);
        },
        _ => {},
    }
}

/// Trying the catalog changes nothing but the open life event and the mode,
/// keeps the state well formed and forgets no prompt.
pub proof fn lemma_catalog_keeps(v: GameView, i: int)
    requires
        v.wf(),
        v.state == GameState::Game || v.state == GameState::Modal,
        0 <= i <= CATALOG_LEN,
    ensures
        after_catalog(v, i).wf(),
        after_catalog(v, i).state == GameState::Game || after_catalog(v, i).state
            == GameState::Modal,
        after_catalog(v, i) == (GameView {
            modal: after_catalog(v, i).modal,
            state: after_catalog(v, i).state,
            ..v
        }),
        forall|text: Seq<char>| v.seen(text) ==> after_catalog(v, i).seen(text),
    decreases CATALOG_LEN - i,
{
    if i < CATALOG_LEN {
        let e = catalog()[i];
        let m = built(e, v.home().name@);
        lemma_catalog_built_wf(i, v.home().name@);
        lemma_try_start_keeps(v, m);
        let next = if applies(e.trigger, v.age as int, v.married) {
            try_start(v, m)
        } else {
            v
        };
        lemma_catalog_keeps(next, i + 1);
    }
}

/// Trying the entries from position `i` on opens nothing when the one entry
/// that fires lies before `i` or does not exist.
proof fn lemma_catalog_tail_quiet(v: GameView, i: int)
    requires
        0 <= i <= CATALOG_LEN,
        match entry_for(v.age as int, v.married) {
            Some(k) => k < i,
            None => true,
        },
    ensures
        after_catalog(v, i) == v,
    decreases CATALOG_LEN - i,
{
    if i < CATALOG_LEN {
        lemma_one_entry_fires(i, v.age as int, v.married);
        lemma_catalog_tail_quiet(v, i + 1);
    }
}

/// Trying the entries from position `i` on attempts exactly the one entry
/// that fires, when it lies at `i` or after it.
proof fn lemma_catalog_tail_fires(v: GameView, i: int, k: int)
    requires
        0 <= i <= k < CATALOG_LEN,
        entry_for(v.age as int, v.married) == Some(k),
    ensures
        after_catalog(v, i) == try_start(v, built(catalog()[k], v.home().name@)),
    decreases CATALOG_LEN - i,
{
    lemma_one_entry_fires(i, v.age as int, v.married);
    if i == k {
        let next = try_start(v, built(catalog()[k], v.home().name@));
        assert(next.age == v.age && next.married == v.married);
        lemma_catalog_tail_quiet(next, k + 1);
    } else {
        lemma_catalog_tail_fires(v, i + 1, k);
    }
}

/// Trying the whole catalog comes to one attempt: that of the entry that
/// fires at the character's age and marital status, if there is one.
pub proof fn lemma_catalog_is_one_attempt(v: GameView)
    ensures
        after_catalog(v, 0) == match entry_for(v.age as int, v.married) {
            Some(k) => try_start(v, built(catalog()[k], v.home().name@)),
            None => v,
        },
{
    match entry_for(v.age as int, v.married) {
        Some(k) => {
            lemma_catalog_tail_fires(v, 0, k);
        },
        None => {
            lemma_catalog_tail_quiet(v, 0);
        },
    }
}

/// A simulation step keeps the state well formed, never lowers the age,
/// forgets no prompt, and leaves every meter in range whenever it lets the
/// stats drift.
pub proof fn lemma_update_keeps(v: GameView, dt: u32)
    requires
        v.wf(),
    ensures
        after_update(v, dt).wf(),
        after_update(v, dt).age >= v.age,
        after_update(v, dt).nanos == v.nanos,
        v.state == GameState::Game ==> in_range(after_update(v, dt).stats),
        forall|text: Seq<char>| v.seen(text) ==> after_update(v, dt).seen(text),
{
    match v.state {
        GameState::Game => {
            lemma_age_monotonic(0, v.nanos as int);
            let aged = GameView { age: crate::clock::age_at(v.nanos as int) as u32, ..v };
            lemma_catalog_keeps(aged, 0);
            let met = after_catalog(aged, 0);
            lemma_step_in_range(
                met.stats,
                crate::stats::bracket_at(met.age as int),
                met.focus,
                dt as int,
            );
            assert forall|text: Seq<char>| v.seen(text) implies after_update(v, dt).seen(text) by {
                assert(aged.seen(text));
                assert(met.seen(text));
            }
        },
        GameState::Fly => {
            crate::city::lemma_home_index(v.cities);
        },
        _ => {},
    }
}

/// Handling a list of events keeps the state well formed, never lowers the
/// age and forgets no prompt.
pub proof fn lemma_events_keep(v: GameView, events: Seq<InputEvent>)
    requires
        v.wf(),
    ensures
        after_events(v, events).0.wf(),
        after_events(v, events).0.age == v.age,
        forall|text: Seq<char>| v.seen(text) ==> after_events(v, events).0.seen(text),
    decreases events.len(),
{
    if events.len() > 0 {
        match bound_intent(v.state, events[0]) {
            Some(Intent::Quit) => {},
            Some(intent) => {
                lemma_intent_keeps(v, intent);
                lemma_events_keep(after_intent(v, intent), events.drop_first());
            },
            None => {
                lemma_events_keep(v, events.drop_first());
            },
        }
    }
}

/// A tick keeps the state well formed, never lowers the age and forgets no
/// prompt.
pub proof fn lemma_tick_keeps(v: GameView, frame: Frame)
    requires
        v.wf(),
    ensures
        after_tick(v, frame).0.wf(),
        after_tick(v, frame).0.age >= v.age,
        home_count(after_tick(v, frame).0.cities) == 1,
        forall|text: Seq<char>| v.seen(text) ==> after_tick(v, frame).0.seen(text),
{
    lemma_age_after_advance(v.nanos as int, frame.dt as int);
    let timed = GameView { nanos: advanced(v.nanos as int, frame.dt as int) as u64, ..v };
    assert(timed.wf());
    lemma_events_keep(timed, frame.events);
    let handled = after_events(timed, frame.events).0;
    lemma_update_keeps(handled, frame.dt);
    assert forall|text: Seq<char>| v.seen(text) implies after_tick(v, frame).0.seen(text) by {
        assert(timed.seen(text));
        assert(handled.seen(text));
    }
}

/// Any number of ticks keep the state well formed: in particular exactly
/// one city is home, whatever the player did. The age never decreases and
/// no prompt is forgotten.
pub proof fn lemma_ticks_keep(v: GameView, frames: Seq<Frame>)
    requires
        v.wf(),
    ensures
        after_ticks(v, frames).wf(),
        after_ticks(v, frames).age >= v.age,
        home_count(after_ticks(v, frames).cities) == 1,
        forall|text: Seq<char>| v.seen(text) ==> after_ticks(v, frames).seen(text),
    decreases frames.len(),
{
    if frames.len() > 0 {
        lemma_ticks_keep(v, frames.drop_last());
        let before = after_ticks(v, frames.drop_last());
        lemma_tick_keeps(before, frames.last());
        assert forall|text: Seq<char>| v.seen(text) implies after_ticks(v, frames).seen(text) by {
            assert(before.seen(text));
        }
    }
}

/// A prompt fires once. When a life event has been tried, and was either
/// opened or refused because its prompt had been seen, then after any
/// number of ticks, whatever the player did in them, an attempt to open a
/// life event with the same prompt, letter case ignored, is refused and
/// changes nothing.
///
/// The one attempt this does not speak of is the one refused only because
/// a life event with another prompt was open: that prompt was dropped
/// unseen, and may still open later.
pub proof fn lemma_prompt_fires_once(
    v: GameView,
    first: ModalView,
    frames: Seq<Frame>,
    second: ModalView,
)
    requires
        v.wf(),
        first.wf(),
        v.modal is None || v.seen(first.text),
        same_text(first.text, second.text),
    ensures
        !can_start(after_ticks(try_start(v, first), frames), second),
        try_start(after_ticks(try_start(v, first), frames), second) == after_ticks(
            try_start(v, first),
            frames,
        ),
{
    let tried = try_start(v, first);
    lemma_try_start_keeps(v, first);
    if can_start(v, first) {
        lemma_start_marks_seen(v, first, second.text);
    } else {
        assert(v.consumed(first.text) || v.seen(first.text));
        assert(v.seen(second.text)) by {
            if v.modal is Some && same_text(v.modal->0.text, first.text) {
            } else {
                let i = choose|i: int|
                    0 <= i < v.done.len() && same_text(#[trigger] v.done[i].text, first.text);
                assert(same_text(v.done[i].text, second.text));
            }
        }
    }
    assert(tried.seen(second.text));
    lemma_ticks_keep(tried, frames);
    lemma_seen_blocks(after_ticks(tried, frames), second);
}

/// The end of the life is final: in mode `GameOver` no intent and no
/// simulation step changes anything, and a tick only lets the clock run.
pub proof fn lemma_game_over_is_final(v: GameView, intent: Intent, frame: Frame)
    requires
        v.state == GameState::GameOver,
    ensures
        after_intent(v, intent) == v,
        after_update(v, frame.dt) == v,
        after_tick(v, frame).0 == (GameView {
            nanos: advanced(v.nanos as int, frame.dt as int) as u64,
            ..v
        }),
{
    let timed = GameView { nanos: advanced(v.nanos as int, frame.dt as int) as u64, ..v };
    lemma_game_over_ignores(timed, frame.events);
}

/// In mode `GameOver` a list of events changes nothing.
proof fn lemma_game_over_ignores(v: GameView, events: Seq<InputEvent>)
    requires
        v.state == GameState::GameOver,
    ensures
        after_events(v, events).0 == v,
    decreases events.len(),
{
    if events.len() > 0 {
        lemma_game_over_ignores(v, events.drop_first());
    }
}

/// While a life event is open the simulation is suspended: a simulation
/// step changes nothing.
pub proof fn lemma_modal_suspends(v: GameView, dt: u32)
    requires
        v.state == GameState::Modal,
    ensures
        after_update(v, dt) == v,
{
}

} // verus!
