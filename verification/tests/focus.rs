use belonging::focus::{stage_of, Direction, Focus};
use belonging::mode::{intent_for, GameState, InputEvent, Intent, Key};

fn all_focus() -> [Focus; 5] {
    [Focus::Play, Focus::Socialize, Focus::Research, Focus::Create, Focus::Work]
}

#[test]
fn activities_unlock_at_their_ages() {
    let thresholds = [
        (Focus::Play, 0),
        (Focus::Socialize, 1),
        (Focus::Research, 8),
        (Focus::Create, 15),
        (Focus::Work, 22),
    ];
    for (f, age) in thresholds {
        assert!(f.unlocked_at(age));
        assert!(f.unlocked_at(u32::MAX));
        if age > 0 {
            assert!(!f.unlocked_at(age - 1));
        }
    }
}

#[test]
fn unlocked_stays_unlocked() {
    for f in all_focus() {
        let mut open = false;
        for age in 0u32..100 {
            let now = f.unlocked_at(age);
            assert!(now || !open);
            open = now;
        }
        assert!(open);
    }
}

#[test]
fn stage_counts_the_unlocked_activities() {
    for age in 0u32..100 {
        let unlocked = all_focus().iter().filter(|f| f.unlocked_at(age)).count() as u32;
        assert_eq!(stage_of(age) + 1, unlocked);
    }
    assert_eq!(stage_of(0), 0);
    assert_eq!(stage_of(1), 1);
    assert_eq!(stage_of(7), 1);
    assert_eq!(stage_of(8), 2);
    assert_eq!(stage_of(14), 2);
    assert_eq!(stage_of(15), 3);
    assert_eq!(stage_of(21), 3);
    assert_eq!(stage_of(22), 4);
}

#[test]
fn index_and_from_index_are_inverse() {
    for (i, f) in all_focus().into_iter().enumerate() {
        assert_eq!(f.index(), i as u32);
        assert_eq!(Focus::from_index(i as u32), f);
    }
    assert_eq!(Focus::from_index(17), Focus::Work);
}

#[test]
fn cycling_wraps_within_the_unlocked_prefix() {
    // at age 10 Play, Socialize and Research are available
    assert_eq!(Focus::Play.cycle(10, Direction::Down), Focus::Socialize);
    assert_eq!(Focus::Socialize.cycle(10, Direction::Down), Focus::Research);
    assert_eq!(Focus::Research.cycle(10, Direction::Down), Focus::Play);
    assert_eq!(Focus::Play.cycle(10, Direction::Up), Focus::Research);
    assert_eq!(Focus::Research.cycle(10, Direction::Up), Focus::Socialize);
    assert_eq!(Focus::Socialize.cycle(10, Direction::Up), Focus::Play);
    // at age 0 only Play is available
    assert_eq!(Focus::Play.cycle(0, Direction::Down), Focus::Play);
    assert_eq!(Focus::Play.cycle(0, Direction::Up), Focus::Play);
    // at age 22 everything is
    assert_eq!(Focus::Work.cycle(22, Direction::Down), Focus::Play);
    assert_eq!(Focus::Play.cycle(22, Direction::Up), Focus::Work);
    assert_eq!(Focus::Create.cycle(22, Direction::Down), Focus::Work);
}

#[test]
fn cycling_always_lands_on_an_unlocked_activity() {
    for age in 0u32..40 {
        for f in all_focus() {
            for dir in [Direction::Up, Direction::Down] {
                assert!(f.cycle(age, dir).unlocked_at(age));
            }
        }
    }
}

#[test]
fn keys_mean_what_the_mode_says() {
    let down = |k: Key| InputEvent::KeyDown(k);
    for state in [
        GameState::Title,
        GameState::Game,
        GameState::Modal,
        GameState::Fly,
        GameState::GameOver,
    ] {
        assert_eq!(intent_for(state, InputEvent::Quit), Some(Intent::Quit));
        assert_eq!(intent_for(state, down(Key::Escape)), Some(Intent::Quit));
    }
    assert_eq!(intent_for(GameState::Title, down(Key::Space)), Some(Intent::StartGame));
    assert_eq!(intent_for(GameState::Game, down(Key::Space)), None);
    assert_eq!(intent_for(GameState::Title, down(Key::Up)), None);
    assert_eq!(
        intent_for(GameState::Game, down(Key::Up)),
        Some(Intent::CycleFocus(Direction::Up))
    );
    assert_eq!(
        intent_for(GameState::Game, down(Key::Down)),
        Some(Intent::CycleFocus(Direction::Down))
    );
    assert_eq!(
        intent_for(GameState::Modal, down(Key::Up)),
        Some(Intent::ModalMove(Direction::Up))
    );
    assert_eq!(
        intent_for(GameState::Modal, down(Key::Down)),
        Some(Intent::ModalMove(Direction::Down))
    );
    assert_eq!(intent_for(GameState::Modal, down(Key::Return)), Some(Intent::ModalConfirm));
    assert_eq!(intent_for(GameState::Game, down(Key::Return)), None);
    assert_eq!(
        intent_for(GameState::Game, down(Key::P)),
        Some(Intent::SelectFocus(Focus::Play))
    );
    assert_eq!(
        intent_for(GameState::Game, down(Key::S)),
        Some(Intent::SelectFocus(Focus::Socialize))
    );
    assert_eq!(
        intent_for(GameState::Game, down(Key::T)),
        Some(Intent::SelectFocus(Focus::Research))
    );
    assert_eq!(
        intent_for(GameState::Game, down(Key::C)),
        Some(Intent::SelectFocus(Focus::Create))
    );
    assert_eq!(
        intent_for(GameState::Game, down(Key::W)),
        Some(Intent::SelectFocus(Focus::Work))
    );
    assert_eq!(intent_for(GameState::Game, down(Key::L)), Some(Intent::TriggerDebugModal));
    assert_eq!(intent_for(GameState::Modal, down(Key::L)), None);
    assert_eq!(intent_for(GameState::Fly, down(Key::Return)), None);
    assert_eq!(intent_for(GameState::GameOver, down(Key::Space)), None);
}
