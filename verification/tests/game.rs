use belonging::city::{home_city, standard_cities, City};
use belonging::focus::{Direction, Focus};
use belonging::game::{
    execute_modal, focus_is_unlocked, focus_stage, handle_input, has_arrived, maybe_start_modal,
    tick, update, GameData,
};
use belonging::modal::{Modal, ModalKind};
use belonging::mode::{GameState, InputEvent, Intent, Key};
use belonging::stats::Stats;
use belonging::units::{AGE_NANOS, HUNDREDTH, METER_MAX, ONE};

const WEEK: u32 = 60_000_000;
const SECOND: u32 = 1_000_000_000;

fn new_game() -> GameData {
    GameData::with_cities(standard_cities()).expect("the standard cities form a registry")
}

fn started_game() -> GameData {
    let mut gd = new_game();
    assert!(!handle_input(&mut gd, Intent::StartGame));
    assert_eq!(gd.game_state(), GameState::Game);
    gd
}

fn key(k: Key) -> Vec<InputEvent> {
    vec![InputEvent::KeyDown(k)]
}

/// Ticks without input, one second at a time, until the character has the
/// given age or the simulation is interrupted.
fn live_until(gd: &mut GameData, age: u32) {
    let mut guard = 0;
    while gd.game_state() == GameState::Game && gd.age() < age {
        assert!(!tick(gd, &vec![], SECOND));
        guard += 1;
        assert!(guard < 10_000);
    }
}

/// Ticks without input until a journey is over.
fn land(gd: &mut GameData) {
    let mut guard = 0;
    while gd.game_state() == GameState::Fly {
        assert!(!tick(gd, &vec![], 1));
        guard += 1;
        assert!(guard < 10_000);
    }
}

/// Moves the cursor of the open life event onto the label and confirms.
fn answer(gd: &mut GameData, label: &str) {
    assert_eq!(gd.game_state(), GameState::Modal);
    let count = gd.current_modal().expect("an open life event").choices().len();
    for _ in 0..count {
        if gd.current_modal().expect("an open life event").choice() == label {
            assert!(!handle_input(gd, Intent::ModalConfirm));
            return;
        }
        handle_input(gd, Intent::ModalMove(Direction::Down));
    }
    panic!("no choice {label}");
}

fn prompt(gd: &GameData) -> &'static str {
    gd.current_modal().expect("an open life event").text()
}

/// Lives up to the given age, declining every life event on the way where
/// it can be declined, and taking its first choice where it cannot.
fn live_quietly_until(gd: &mut GameData, age: u32) {
    loop {
        live_until(gd, age);
        match gd.game_state() {
            GameState::Modal => {
                if gd.age() >= age {
                    return;
                }
                let home = home_city(gd.cities()).name;
                let m = gd.current_modal().expect("an open life event");
                let label = match m.kind() {
                    ModalKind::Move => {
                        if m.choices().contains(&"no") {
                            "no"
                        } else if m.choices().contains(&home) {
                            home
                        } else {
                            m.choices()[0]
                        }
                    },
                    ModalKind::Die => "if i must",
                    _ => {
                        if m.choices().contains(&"no") {
                            "no"
                        } else {
                            m.choices()[0]
                        }
                    },
                };
                answer(gd, label);
            },
            GameState::Fly => land(gd),
            _ => return,
        }
    }
}

#[test]
fn a_new_game_waits_on_the_title_screen() {
    let gd = new_game();
    assert_eq!(gd.game_state(), GameState::Title);
    assert_eq!(gd.age(), 0);
    assert_eq!(gd.elapsed_nanos(), 0);
    assert_eq!(gd.stats(), Stats::new());
    assert_eq!(gd.current_focus(), Focus::Play);
    assert!(!gd.married());
    assert_eq!(gd.moves(), 0);
    assert!(gd.current_modal().is_none());
    assert!(gd.modals_done().is_empty());
    assert_eq!(home_city(gd.cities()).name, "Toronto");
    assert_eq!(gd.cities().count_home(), 1);
}

#[test]
fn a_game_needs_a_well_formed_city_list() {
    assert!(GameData::with_cities(vec![]).is_none());
    assert!(GameData::with_cities(vec![City::new("A", [0, 0])]).is_none());
    assert!(GameData::with_cities(vec![
        City::new_home("A", [0, 0]),
        City::new("a", [1, 1])
    ])
    .is_none());
    assert!(GameData::with_cities(vec![City::new_home("A", [0, 0])]).is_some());
}

#[test]
fn title_only_accepts_start_and_quit() {
    let mut gd = new_game();
    for intent in [
        Intent::SelectFocus(Focus::Play),
        Intent::CycleFocus(Direction::Down),
        Intent::ModalMove(Direction::Down),
        Intent::ModalConfirm,
        Intent::TriggerDebugModal,
    ] {
        assert!(!handle_input(&mut gd, intent));
        assert_eq!(gd.game_state(), GameState::Title);
        assert!(gd.current_modal().is_none());
    }
    // time passes on the title screen, but nobody ages
    assert!(!tick(&mut gd, &vec![], SECOND));
    assert!(!tick(&mut gd, &vec![], SECOND));
    assert!(!tick(&mut gd, &vec![], SECOND));
    assert!(!tick(&mut gd, &vec![], SECOND));
    assert_eq!(gd.elapsed_nanos(), 4 * SECOND as u64);
    assert_eq!(gd.age(), 0);
    assert_eq!(gd.stats(), Stats::new());
    assert!(handle_input(&mut gd, Intent::Quit));
    assert_eq!(gd.game_state(), GameState::Title);
    // starting resets the clock
    assert!(!tick(&mut gd, &key(Key::Space), SECOND));
    assert_eq!(gd.game_state(), GameState::Game);
    assert_eq!(gd.elapsed_nanos(), 0);
    assert_eq!(gd.age(), 0);
}

#[test]
fn age_follows_the_clock() {
    let mut gd = started_game();
    assert!(!tick(&mut gd, &vec![], (AGE_NANOS - 1) as u32));
    assert_eq!(gd.age(), 0);
    assert!(!tick(&mut gd, &vec![], 1));
    assert_eq!(gd.age(), 1);
    assert_eq!(gd.elapsed_nanos(), AGE_NANOS);
    assert_eq!(focus_stage(&gd), 1);
    assert!(focus_is_unlocked(&gd, Focus::Socialize));
    assert!(!focus_is_unlocked(&gd, Focus::Research));
}

#[test]
fn quit_stops_the_tick_at_once() {
    let mut gd = started_game();
    let events = vec![
        InputEvent::KeyDown(Key::Escape),
        InputEvent::KeyDown(Key::L),
    ];
    assert!(tick(&mut gd, &events, SECOND));
    // the clock has advanced, but nothing after the request was done
    assert_eq!(gd.elapsed_nanos(), SECOND as u64);
    assert_eq!(gd.game_state(), GameState::Game);
    assert_eq!(gd.stats(), Stats::new());
    assert!(tick(&mut gd, &vec![InputEvent::Quit], SECOND));
}

#[test]
fn input_is_handled_before_the_simulation_step() {
    let mut gd = started_game();
    live_until(&mut gd, 1);
    let before = gd.stats();
    // the focus chosen in this tick already counts for this tick's drift
    assert!(!tick(&mut gd, &key(Key::S), WEEK));
    assert_eq!(gd.current_focus(), Focus::Socialize);
    assert_eq!(gd.stats().belonging, (before.belonging + 100 * WEEK as i64).min(METER_MAX));
    assert_eq!(gd.stats().relaxation, before.relaxation - 50 * WEEK as i64);
}

#[test]
fn locked_activities_cannot_be_selected() {
    let mut gd = started_game();
    for f in [Focus::Socialize, Focus::Research, Focus::Create, Focus::Work] {
        assert!(!handle_input(&mut gd, Intent::SelectFocus(f)));
        assert_eq!(gd.current_focus(), Focus::Play);
    }
    handle_input(&mut gd, Intent::CycleFocus(Direction::Down));
    assert_eq!(gd.current_focus(), Focus::Play);
    live_until(&mut gd, 1);
    handle_input(&mut gd, Intent::SelectFocus(Focus::Research));
    assert_eq!(gd.current_focus(), Focus::Play);
    handle_input(&mut gd, Intent::SelectFocus(Focus::Socialize));
    assert_eq!(gd.current_focus(), Focus::Socialize);
    handle_input(&mut gd, Intent::CycleFocus(Direction::Down));
    assert_eq!(gd.current_focus(), Focus::Play);
    handle_input(&mut gd, Intent::CycleFocus(Direction::Up));
    assert_eq!(gd.current_focus(), Focus::Socialize);
    handle_input(&mut gd, Intent::SelectFocus(Focus::Play));
    assert_eq!(gd.current_focus(), Focus::Play);
}

#[test]
fn infancy_with_play_in_focus() {
    // one week per tick from birth until the second birthday
    let mut gd = new_game();
    assert!(!tick(&mut gd, &key(Key::Space), WEEK));
    let mut ticks = 1;
    while gd.age() < 2 {
        let before = gd.stats();
        assert!(!tick(&mut gd, &vec![], WEEK));
        ticks += 1;
        let after = gd.stats();
        assert_eq!(after.relaxation, (before.relaxation + 100 * WEEK as i64).min(METER_MAX));
        assert_eq!(after.belonging, before.belonging - 50 * WEEK as i64);
        assert_eq!(after.pride, ONE);
        assert_eq!(after.purpose, ONE);
    }
    assert_eq!(ticks, 101);
    assert_eq!(gd.age(), 2);
    let s = gd.stats();
    assert!(s.relaxation > ONE);
    assert_eq!(s.relaxation, METER_MAX);
    assert!(s.belonging < ONE);
    assert_eq!(s.belonging, ONE - 101 * 50 * WEEK as i64);
    assert!(0 <= s.belonging && s.belonging <= METER_MAX);
    assert!(0 <= s.relaxation && s.relaxation <= METER_MAX);
    // the second birthday brings the tantrum
    assert_eq!(gd.game_state(), GameState::Modal);
    assert_eq!(prompt(&gd), "tantrum?");
}

#[test]
fn an_open_life_event_suspends_the_simulation() {
    let mut gd = started_game();
    live_until(&mut gd, 2);
    assert_eq!(gd.game_state(), GameState::Modal);
    let stats = gd.stats();
    let nanos = gd.elapsed_nanos();
    for _ in 0..10 {
        assert!(!tick(&mut gd, &vec![], SECOND));
    }
    assert_eq!(gd.stats(), stats);
    assert_eq!(gd.age(), 2);
    assert_eq!(gd.elapsed_nanos(), nanos + 10 * SECOND as u64);
    // focus keys mean nothing while the event is open
    handle_input(&mut gd, Intent::SelectFocus(Focus::Socialize));
    assert_eq!(gd.current_focus(), Focus::Play);
    update(&mut gd, SECOND);
    assert_eq!(gd.stats(), stats);
    // after the answer the age catches up with the clock
    answer(&mut gd, "no");
    assert_eq!(gd.game_state(), GameState::Game);
    assert!(!tick(&mut gd, &vec![], SECOND));
    assert_eq!(gd.age(), ((nanos + 11 * SECOND as u64) / AGE_NANOS) as u32);
}

#[test]
fn tantrum_answers() {
    let mut gd = started_game();
    live_until(&mut gd, 2);
    let before = gd.stats();
    answer(&mut gd, "yes");
    let after = gd.stats();
    assert_eq!(after.relaxation, before.relaxation + 10 * HUNDREDTH);
    assert_eq!(after.social_exp, before.social_exp - 10 * HUNDREDTH);
    assert_eq!(after.social_exp, -10 * HUNDREDTH);
    assert_eq!(gd.game_state(), GameState::Game);

    let mut gd = started_game();
    live_until(&mut gd, 2);
    let before = gd.stats();
    answer(&mut gd, "no");
    let after = gd.stats();
    assert_eq!(after.relaxation, before.relaxation - 10 * HUNDREDTH);
    assert_eq!(after.social_exp, 10 * HUNDREDTH);
    assert_eq!(after.belonging, before.belonging);
}

#[test]
fn an_answered_prompt_never_opens_again() {
    let mut gd = started_game();
    live_until(&mut gd, 2);
    assert_eq!(prompt(&gd), "tantrum?");
    answer(&mut gd, "yes");
    assert_eq!(gd.modals_done().len(), 1);
    assert_eq!(gd.modals_done()[0].text(), "tantrum?");
    // still two years old: the catalog fires again and is refused
    assert!(!tick(&mut gd, &vec![], 1));
    assert_eq!(gd.age(), 2);
    assert_eq!(gd.game_state(), GameState::Game);
    assert!(gd.current_modal().is_none());
    // a later trigger with the same prompt in other letters is refused too
    live_until(&mut gd, 5);
    let stats = gd.stats();
    let again = Modal::new(ModalKind::Move, "TANTRUM?", vec!["ottawa", "no"]);
    assert!(!maybe_start_modal(&mut gd, again));
    assert_eq!(gd.game_state(), GameState::Game);
    assert!(gd.current_modal().is_none());
    assert_eq!(gd.modals_done().len(), 1);
    assert_eq!(gd.stats(), stats);
    assert_eq!(gd.age(), 5);
    assert_eq!(gd.moves(), 0);
}

#[test]
fn only_one_life_event_is_open_at_a_time() {
    let mut gd = started_game();
    let first = Modal::new(ModalKind::Married, "first?", vec!["yes", "no"]);
    let second = Modal::new(ModalKind::Kids, "second?", vec!["yes", "no"]);
    assert!(maybe_start_modal(&mut gd, first));
    assert_eq!(gd.game_state(), GameState::Modal);
    assert!(!maybe_start_modal(&mut gd, second));
    assert_eq!(prompt(&gd), "first?");
    assert_eq!(gd.current_modal().expect("open").kind(), ModalKind::Married);
    assert!(gd.modals_done().is_empty());
    // the same prompt again while it is open is dropped as well
    let echo = Modal::new(ModalKind::Married, "First?", vec!["yes", "no"]);
    assert!(!maybe_start_modal(&mut gd, echo));
    answer(&mut gd, "no");
    // the dropped event was never answered, so it may still open
    let second = Modal::new(ModalKind::Kids, "second?", vec!["yes", "no"]);
    assert!(maybe_start_modal(&mut gd, second));
    assert_eq!(prompt(&gd), "second?");
}

#[test]
fn university_is_offered_at_eighteen() {
    let mut gd = started_game();
    live_quietly_until(&mut gd, 18);
    assert_eq!(gd.age(), 18);
    assert_eq!(gd.game_state(), GameState::Modal);
    let m = gd.current_modal().expect("an open life event");
    assert_eq!(m.kind(), ModalKind::Move);
    assert_eq!(m.text(), "goto university?");
    assert_eq!(m.choices(), &vec!["toronto", "ottawa", "montreal", "no"]);
    assert_eq!(m.choices().len(), 4);
    assert_eq!(m.selection(), 0);
}

#[test]
fn first_move_to_another_city() {
    let mut gd = started_game();
    live_quietly_until(&mut gd, 18);
    let before = gd.stats();
    assert_eq!(gd.moves(), 0);
    answer(&mut gd, "ottawa");
    assert_eq!(gd.moves(), 1);
    let after = gd.stats();
    // not clamped: pride may stand above the range until the next step
    assert_eq!(after.relaxation, before.relaxation - 5 * HUNDREDTH);
    assert_eq!(after.purpose, before.purpose + 10 * HUNDREDTH);
    assert_eq!(after.belonging, before.belonging + 10 * HUNDREDTH);
    assert_eq!(after.pride, before.pride + 25 * HUNDREDTH);
    assert_eq!(after.money, before.money);
    assert_eq!(after.play_exp, before.play_exp);
    assert_eq!(after.social_exp, before.social_exp);
    assert_eq!(home_city(gd.cities()).name, "Ottawa");
    assert_eq!(gd.cities().count_home(), 1);
    assert_eq!(gd.game_state(), GameState::Fly);
    assert!(gd.current_modal().is_none());
    assert_eq!(gd.plane_origin(), [181, 135]);
    assert_eq!(gd.plane_steps(), 0);
    assert!(!gd.married());
}

#[test]
fn the_next_step_clamps_what_a_life_event_left_out_of_range() {
    let mut gd = started_game();
    live_until(&mut gd, 2);
    // relaxation is at its maximum after two years of play
    assert_eq!(gd.stats().relaxation, METER_MAX);
    answer(&mut gd, "yes");
    assert_eq!(gd.stats().relaxation, METER_MAX + 10 * HUNDREDTH);
    assert!(!tick(&mut gd, &vec![], 1));
    assert_eq!(gd.stats().relaxation, METER_MAX);
}

#[test]
fn declining_a_move_still_takes_the_journey_mode() {
    let mut gd = started_game();
    live_quietly_until(&mut gd, 18);
    let before = gd.stats();
    answer(&mut gd, "no");
    assert_eq!(gd.game_state(), GameState::Fly);
    assert_eq!(gd.moves(), 0);
    assert_eq!(gd.stats(), before);
    assert_eq!(home_city(gd.cities()).name, "Toronto");
    // nowhere to go: the journey is over with the next step
    assert!(!tick(&mut gd, &vec![], 1));
    assert_eq!(gd.game_state(), GameState::Game);
    assert_eq!(gd.stats(), before);
}

#[test]
fn choosing_the_current_home_is_no_move() {
    let mut gd = started_game();
    live_quietly_until(&mut gd, 18);
    let before = gd.stats();
    answer(&mut gd, "toronto");
    assert_eq!(gd.game_state(), GameState::Fly);
    assert_eq!(gd.moves(), 0);
    assert_eq!(gd.stats(), before);
    assert_eq!(home_city(gd.cities()).name, "Toronto");

    let mut gd = started_game();
    live_quietly_until(&mut gd, 24);
    assert_eq!(prompt(&gd), "take job?");
    assert_eq!(
        gd.current_modal().expect("open").choices(),
        &vec!["Toronto", "vancouver", "sf", "ny"]
    );
    let before = gd.stats();
    answer(&mut gd, "Toronto");
    assert_eq!(gd.moves(), 0);
    assert_eq!(gd.stats(), before);
}

#[test]
fn a_journey_lasts_as_long_as_the_distance() {
    let mut gd = started_game();
    live_quietly_until(&mut gd, 18);
    answer(&mut gd, "montreal");
    // Toronto [181, 135] to Montreal [196, 122]: 15 east, 13 north, a
    // distance of about 19.85
    assert_eq!(gd.game_state(), GameState::Fly);
    let stats = gd.stats();
    let mut steps = 0;
    while gd.game_state() == GameState::Fly {
        assert_eq!(gd.plane_steps(), steps);
        assert!(!tick(&mut gd, &vec![], SECOND));
        steps += 1;
        assert!(steps < 100);
    }
    // arrival is noticed at the start of the step in which less than 4
    // units remain: after 16 steps 3.85 remain
    assert_eq!(steps, 17);
    assert_eq!(gd.plane_steps(), 17);
    assert_eq!(gd.game_state(), GameState::Game);
    assert_eq!(gd.stats(), stats);
    assert_eq!(gd.age(), 18);
}

#[test]
fn arrival_is_decided_by_the_remaining_distance() {
    // a distance of exactly 5: 3-4-5 triangle
    assert!(!has_arrived([0, 0], [3, 4], 0));
    assert!(!has_arrived([0, 0], [3, 4], 1));
    assert!(has_arrived([0, 0], [3, 4], 2));
    // a distance of exactly 4 is not less than 4
    assert!(!has_arrived([0, 0], [4, 0], 0));
    assert!(has_arrived([0, 0], [4, 0], 1));
    assert!(has_arrived([0, 0], [3, 0], 0));
    assert!(has_arrived([7, 7], [7, 7], 0));
    // the far corners of the map
    assert!(!has_arrived([i32::MIN, i32::MIN], [i32::MAX, i32::MAX], 0));
    assert!(!has_arrived([i32::MIN, i32::MIN], [i32::MAX, i32::MAX], 6_074_000_990));
    assert!(has_arrived([i32::MIN, i32::MIN], [i32::MAX, i32::MAX], 6_074_001_000));
    assert!(has_arrived([i32::MIN, i32::MIN], [i32::MAX, i32::MAX], u64::MAX));
    assert!(has_arrived([i32::MAX, 0], [i32::MIN, 0], 1 << 33));
}

#[test]
fn later_moves_are_paid_differently() {
    let mut gd = started_game();
    live_quietly_until(&mut gd, 18);
    answer(&mut gd, "ottawa");
    land(&mut gd);
    live_quietly_until(&mut gd, 24);
    let before = gd.stats();
    answer(&mut gd, "sf");
    assert_eq!(gd.moves(), 2);
    assert_eq!(gd.stats().pride, before.pride + 5 * HUNDREDTH);
    assert_eq!(gd.stats().relaxation, before.relaxation);
    assert_eq!(gd.plane_origin(), [183, 123]);
    assert_eq!(home_city(gd.cities()).name, "SF");
    land(&mut gd);
    live_until(&mut gd, 30);
    answer(&mut gd, "no");
    live_until(&mut gd, 35);
    assert_eq!(prompt(&gd), "move somewhere\nexciting?");
    let before = gd.stats();
    answer(&mut gd, "la");
    assert_eq!(gd.moves(), 3);
    assert_eq!(gd.stats().relaxation, before.relaxation - 5 * HUNDREDTH);
    assert_eq!(gd.stats().purpose, before.purpose - 10 * HUNDREDTH);
    assert_eq!(gd.stats().pride, before.pride);
    land(&mut gd);
    live_until(&mut gd, 60);
    assert_eq!(prompt(&gd), "time to retire?");
    assert_eq!(gd.current_modal().expect("open").choices(), &vec!["LA", "miami", "la"]);
    let before = gd.stats();
    answer(&mut gd, "miami");
    assert_eq!(gd.moves(), 4);
    assert_eq!(gd.stats().belonging, before.belonging - 10 * HUNDREDTH);
    assert_eq!(gd.stats().purpose, before.purpose - 10 * HUNDREDTH);
    assert_eq!(home_city(gd.cities()).name, "Miami");
    assert_eq!(gd.cities().count_home(), 1);
}

#[test]
fn declining_marriage_changes_nothing() {
    let mut gd = started_game();
    live_quietly_until(&mut gd, 30);
    assert_eq!(gd.age(), 30);
    assert_eq!(prompt(&gd), "get married?");
    assert_eq!(gd.current_modal().expect("open").kind(), ModalKind::Married);
    let before = gd.stats();
    answer(&mut gd, "no");
    assert_eq!(gd.stats(), before);
    assert!(!gd.married());
    assert_eq!(gd.game_state(), GameState::Game);
    assert_eq!(gd.moves(), 0);
}

#[test]
fn marriage_and_what_follows() {
    let mut gd = started_game();
    live_quietly_until(&mut gd, 30);
    let before = gd.stats();
    answer(&mut gd, "yes");
    assert!(gd.married());
    assert_eq!(gd.stats().purpose, before.purpose + 20 * HUNDREDTH);
    assert_eq!(gd.stats().belonging, before.belonging + 10 * HUNDREDTH);
    assert_eq!(gd.stats().relaxation, before.relaxation - 10 * HUNDREDTH);
    assert_eq!(gd.stats().pride, before.pride);
    assert_eq!(gd.game_state(), GameState::Game);

    live_until(&mut gd, 32);
    assert_eq!(prompt(&gd), "spouse wants kids");
    let before = gd.stats();
    answer(&mut gd, "yes");
    assert_eq!(gd.stats().pride, before.pride + 30 * HUNDREDTH);
    assert_eq!(gd.stats().purpose, before.purpose + 10 * HUNDREDTH);
    assert_eq!(gd.stats().relaxation, before.relaxation - 10 * HUNDREDTH);

    // the move at 35 is for the unmarried only
    live_until(&mut gd, 40);
    assert_eq!(gd.age(), 40);
    assert_eq!(prompt(&gd), "failing marriage");
    assert_eq!(
        gd.current_modal().expect("open").choices(),
        &vec!["divorce", "mend", "suffer"]
    );
    let before = gd.stats();
    answer(&mut gd, "mend");
    assert_eq!(gd.stats().pride, before.pride + 30 * HUNDREDTH);
    assert_eq!(gd.stats().purpose, before.purpose + 10 * HUNDREDTH);
    assert_eq!(gd.stats().belonging, before.belonging + 10 * HUNDREDTH);
    assert_eq!(gd.stats().relaxation, before.relaxation - 20 * HUNDREDTH);
    assert!(gd.married());
}

#[test]
fn the_unmarried_get_no_children_and_no_crisis() {
    let mut gd = started_game();
    live_quietly_until(&mut gd, 30);
    answer(&mut gd, "no");
    live_until(&mut gd, 35);
    // nothing opened at 32
    assert_eq!(gd.age(), 35);
    assert_eq!(prompt(&gd), "move somewhere\nexciting?");
}

#[test]
fn divorce_and_suffer() {
    for (label, relaxation, pride, purpose) in [("divorce", 10, -10, -10), ("suffer", -10, -10, 30)]
    {
        let mut gd = started_game();
        live_quietly_until(&mut gd, 30);
        answer(&mut gd, "yes");
        live_until(&mut gd, 32);
        answer(&mut gd, "no");
        live_until(&mut gd, 40);
        let before = gd.stats();
        answer(&mut gd, label);
        assert_eq!(gd.stats().relaxation, before.relaxation + relaxation * HUNDREDTH);
        assert_eq!(gd.stats().pride, before.pride + pride * HUNDREDTH);
        assert_eq!(gd.stats().purpose, before.purpose + purpose * HUNDREDTH);
        assert_eq!(gd.stats().belonging, before.belonging);
        assert_eq!(gd.game_state(), GameState::Game);
    }
}

#[test]
fn the_married_die_at_seventy_five() {
    let mut gd = started_game();
    live_quietly_until(&mut gd, 30);
    answer(&mut gd, "yes");
    live_quietly_until(&mut gd, 75);
    assert!(gd.married());
    assert_eq!(gd.age(), 75);
    assert_eq!(gd.game_state(), GameState::Modal);
    let m = gd.current_modal().expect("an open life event");
    assert_eq!(m.kind(), ModalKind::Die);
    assert_eq!(m.text(), "die?");
    assert_eq!(m.choices(), &vec!["if i must"]);
    let before = gd.stats();
    assert!(!handle_input(&mut gd, Intent::ModalConfirm));
    assert_eq!(gd.game_state(), GameState::GameOver);
    assert_eq!(gd.stats(), before);
}

#[test]
fn the_unmarried_die_at_seventy() {
    let mut gd = started_game();
    live_quietly_until(&mut gd, 70);
    assert!(!gd.married());
    assert_eq!(gd.age(), 70);
    assert_eq!(gd.current_modal().expect("open").kind(), ModalKind::Die);
    answer(&mut gd, "if i must");
    assert_eq!(gd.game_state(), GameState::GameOver);
}

#[test]
fn whoever_missed_seventy_dies_at_seventy_five() {
    let mut gd = started_game();
    live_quietly_until(&mut gd, 60);
    assert!(!gd.married());
    assert_eq!(prompt(&gd), "time to retire?");
    // the question stays open while the seventieth birthday passes
    while gd.elapsed_nanos() < 71 * AGE_NANOS {
        assert!(!tick(&mut gd, &vec![], SECOND));
    }
    assert_eq!(gd.age(), 60);
    let home = home_city(gd.cities()).name;
    answer(&mut gd, home);
    assert_eq!(home_city(gd.cities()).name, home);
    land(&mut gd);
    live_until(&mut gd, 75);
    assert_eq!(gd.age(), 75);
    assert_eq!(gd.game_state(), GameState::Modal);
    assert_eq!(gd.current_modal().expect("open").kind(), ModalKind::Die);
    assert!(!tick(&mut gd, &key(Key::Return), SECOND));
    assert_eq!(gd.game_state(), GameState::GameOver);
}

#[test]
fn game_over_is_final() {
    let mut gd = started_game();
    live_quietly_until(&mut gd, 70);
    answer(&mut gd, "if i must");
    assert_eq!(gd.game_state(), GameState::GameOver);
    let stats = gd.stats();
    let nanos = gd.elapsed_nanos();
    for intent in [
        Intent::StartGame,
        Intent::SelectFocus(Focus::Play),
        Intent::CycleFocus(Direction::Up),
        Intent::ModalMove(Direction::Down),
        Intent::ModalConfirm,
        Intent::TriggerDebugModal,
    ] {
        assert!(!handle_input(&mut gd, intent));
        assert_eq!(gd.game_state(), GameState::GameOver);
    }
    let events = vec![
        InputEvent::KeyDown(Key::Space),
        InputEvent::KeyDown(Key::L),
        InputEvent::KeyDown(Key::Return),
    ];
    assert!(!tick(&mut gd, &events, SECOND));
    assert_eq!(gd.game_state(), GameState::GameOver);
    assert_eq!(gd.stats(), stats);
    assert_eq!(gd.age(), 70);
    assert_eq!(gd.elapsed_nanos(), nanos + SECOND as u64);
    assert!(gd.current_modal().is_none());
    assert!(tick(&mut gd, &key(Key::Escape), SECOND));
}

#[test]
fn the_debug_intent_opens_the_university_offer_again_and_again() {
    let mut gd = started_game();
    for round in 1..=5u32 {
        assert!(!handle_input(&mut gd, Intent::TriggerDebugModal));
        assert_eq!(gd.game_state(), GameState::Modal);
        assert_eq!(prompt(&gd), "goto university?");
        assert_eq!(
            gd.current_modal().expect("open").choices(),
            &vec!["Toronto", "SF", "Montreal", "No"]
        );
        let label = if round % 2 == 1 { "SF" } else { "Montreal" };
        answer(&mut gd, label);
        assert_eq!(gd.moves(), round);
        assert_eq!(gd.cities().count_home(), 1);
        assert_eq!(gd.modals_done().len(), round as usize);
        land(&mut gd);
    }
    assert_eq!(home_city(gd.cities()).name, "SF");
    // the offer made by the catalog at eighteen has the same prompt
    live_quietly_until(&mut gd, 19);
    assert_eq!(gd.age(), 19);
    assert_eq!(gd.game_state(), GameState::Game);
}

#[test]
fn confirming_through_the_keyboard() {
    let mut gd = new_game();
    assert!(!tick(&mut gd, &key(Key::Space), SECOND));
    let events = vec![
        InputEvent::KeyDown(Key::L),
        InputEvent::KeyDown(Key::Down),
        InputEvent::KeyDown(Key::Down),
        InputEvent::KeyDown(Key::Up),
        InputEvent::KeyDown(Key::Return),
    ];
    // each key is read in the mode the game is in when its turn comes
    assert!(!tick(&mut gd, &events, SECOND));
    assert_eq!(home_city(gd.cities()).name, "SF");
    assert_eq!(gd.moves(), 1);
    assert_eq!(gd.current_focus(), Focus::Play);
    // the journey began and made its first step in the same tick
    assert_eq!(gd.game_state(), GameState::Fly);
    assert_eq!(gd.plane_steps(), 1);
}

#[test]
fn execute_modal_confirms_the_choice_under_the_cursor() {
    let mut gd = started_game();
    let m = Modal::new(ModalKind::Married, "marry me?", vec!["no", "yes"]);
    assert!(maybe_start_modal(&mut gd, m));
    handle_input(&mut gd, Intent::ModalMove(Direction::Up));
    assert_eq!(gd.current_modal().expect("open").choice(), "yes");
    execute_modal(&mut gd);
    assert!(gd.married());
    assert_eq!(gd.game_state(), GameState::Game);
    assert_eq!(gd.modals_done().len(), 1);
    assert_eq!(gd.modals_done()[0].text(), "marry me?");
    assert_eq!(gd.modals_done()[0].selection(), 1);
}

#[test]
fn whatever_the_player_does_the_state_stays_well_formed() {
    let keys = [
        Key::Space,
        Key::Up,
        Key::Down,
        Key::Return,
        Key::P,
        Key::S,
        Key::T,
        Key::C,
        Key::W,
        Key::L,
    ];
    for seed in 1u64..=20 {
        let mut gd = new_game();
        let mut state = seed;
        let mut age = 0;
        for _ in 0..3_000 {
            state = state.wrapping_mul(6364136223846793005).wrapping_add(1442695040888963407);
            let mut events = Vec::new();
            let count = (state >> 60) % 3;
            for n in 0..count {
                let pick = ((state >> (20 + 8 * n)) % keys.len() as u64) as usize;
                events.push(InputEvent::KeyDown(keys[pick]));
            }
            let dt = ((state >> 33) % 700_000_000) as u32;
            assert!(!tick(&mut gd, &events, dt));
            assert!(gd.is_well_formed());
            assert_eq!(gd.cities().count_home(), 1);
            assert!(gd.age() >= age);
            age = gd.age();
            assert!(gd.current_focus().unlocked_at(gd.age()));
            assert_eq!(gd.current_modal().is_some(), gd.game_state() == GameState::Modal);
            if let Some(m) = gd.current_modal() {
                assert!(m.selection() < m.choices().len());
            }
            let mut texts: Vec<String> =
                gd.modals_done().iter().map(|m| m.text().to_lowercase()).collect();
            texts.retain(|t| t != "goto university?");
            let answered = texts.len();
            texts.sort();
            texts.dedup();
            // only the debug key can bring a prompt back
            assert_eq!(texts.len(), answered);
        }
    }
}

#[test]
fn a_fresh_game_is_well_formed() {
    let mut gd = new_game();
    assert!(gd.is_well_formed());
    assert!(gd.cities().is_well_formed());
    handle_input(&mut gd, Intent::StartGame);
    assert!(gd.is_well_formed());
    live_until(&mut gd, 2);
    assert!(gd.is_well_formed());
    assert!(gd.current_modal().expect("open").is_well_formed());
    answer(&mut gd, "yes");
    assert!(gd.is_well_formed());
}
