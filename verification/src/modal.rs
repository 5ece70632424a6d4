//! Life events: the dialog that presents one, and what an answer does.
//!
//! A life event shows a prompt and a list of choices with a cursor. When it
//! is confirmed, the label under the cursor is read against the labels that
//! the kind of event knows, and the reading decides the consequences.

use vstd::prelude::*;
use crate::focus::Direction;
use crate::mode::GameState;
use crate::stats::{no_change, Stats};
use crate::text::{same_text, str_eq};
use crate::units::HUNDREDTH;

verus! {

/// The kind of a life event.
#[derive(Clone, Copy, Debug, PartialEq, Eq, Structural)]
pub enum ModalKind {
    /// A small child's tantrum.
    Tantrum,
    /// An offer to move to another city.
    Move,
    /// A marriage proposal.
    Married,
    /// A marriage in trouble.
    Divorce,
    /// The question of children.
    Kids,
    /// The end of the life.
    Die,
}

/// A life event waiting for an answer.
pub struct Modal {
    kind: ModalKind,
    text: &'static str,
    choices: Vec<&'static str>,
    selection: usize,
}

/// What a life event is made of.
pub struct ModalView {
    pub kind: ModalKind,
    /// The prompt. Two events with the same prompt, letter case ignored,
    /// count as the same event.
    pub text: Seq<char>,
    /// The labels offered, in order.
    pub choices: Seq<Seq<char>>,
    /// Position of the cursor in `choices`.
    pub selection: int,
}

/// The texts of a list of labels.
pub open spec fn labels(s: Seq<&'static str>) -> Seq<Seq<char>> {
    Seq::new(s.len(), |i: int| s[i]@)
}

impl ModalView {
    /// The cursor points at one of the choices; in particular there is at
    /// least one choice.
    pub open spec fn wf(self) -> bool {
        0 <= self.selection < self.choices.len()
    }

    /// The label under the cursor.
    pub open spec fn choice(self) -> Seq<char> {
        self.choices[self.selection]
    }
}

impl View for Modal {
    type V = ModalView;

    closed spec fn view(&self) -> ModalView {
        ModalView {
            kind: self.kind,
            text: self.text@,
            choices: labels(self.choices@),
            selection: self.selection as int,
        }
    }
}

/// Where the cursor stands after one step in a list of `count` choices:
/// one position up or down, wrapping around at either end.
pub open spec fn moved_selection(selection: int, count: int, dir: Direction) -> int {
    match dir {
        Direction::Up => if selection - 1 < 0 {
            count - 1
        } else {
            selection - 1
        },
        Direction::Down => (selection + 1) % count,
    }
}

impl Modal {
    /// A life event with the cursor on its first choice.
    pub fn new(k: ModalKind, text: &'static str, choices: Vec<&'static str>) -> (m: Modal)
        requires
            choices@.len() > 0,
        ensures
            m@ == (ModalView { kind: k, text: text@, choices: labels(choices@), selection: 0 }),
            m@.wf(),
    {
        Modal { kind: k, text: text, choices: choices, selection: 0 }
    }

    /// The kind of the event.
    pub fn kind(&self) -> (k: ModalKind)
        ensures
            k == self@.kind,
    {
        self.kind
    }

    /// The prompt.
    pub fn text(&self) -> (t: &'static str)
        ensures
            t@ == self@.text,
    {
        self.text
    }

    /// The labels offered, in order.
    pub fn choices(&self) -> (c: &Vec<&'static str>)
        ensures
            labels(c@) == self@.choices,
    {
        &self.choices
    }

    /// Position of the cursor.
    pub fn selection(&self) -> (s: usize)
        ensures
            s == self@.selection,
    {
        self.selection
    }

    /// Checks that the cursor points at one of the choices.
    pub fn is_well_formed(&self) -> (ok: bool)
        ensures
            ok == self@.wf(),
    {
        self.selection < self.choices.len()
    }

    /// The label under the cursor.
    pub fn choice(&self) -> (c: &'static str)
        requires
            self@.wf(),
        ensures
            c@ == self@.choice(),
    {
        self.choices[self.selection]
    }

    /// Moves the cursor one step, wrapping around at either end.
    pub fn move_selection(&mut self, dir: Direction)
        requires
            old(self)@.wf(),
        ensures
            final(self)@ == (ModalView {
                selection: moved_selection(
                    old(self)@.selection,
                    old(self)@.choices.len() as int,
                    dir,
                ),
                ..old(self)@
            }),
            final(self)@.wf(),
    {
        let count: usize = self.choices.len();
        match dir {
            Direction::Up => {
                if self.selection == 0 {
                    self.selection = count - 1;
                } else {
                    self.selection = self.selection - 1;
                }
            },
            Direction::Down => {
                self.selection = (self.selection + 1) % count;
            },
        }
    }
}

/// How a troubled marriage is answered.
#[derive(Clone, Copy, Debug, PartialEq, Eq, Structural)]
pub enum Rift {
    Mend,
    Divorce,
    Suffer,
    /// None of the three.
    Ignore,
}

/// The reading of an answer: the kind of the event together with what the
/// chosen label means for it.
#[derive(Clone, Copy, Debug, PartialEq, Eq, Structural)]
pub enum Decision {
    /// An offer to move; `moving` unless the label declines or names the
    /// city the character already lives in.
    Move { moving: bool },
    Married { yes: bool },
    Kids { yes: bool },
    Divorce(Rift),
    Tantrum { yes: bool },
    Die,
}

/// The consequences of an answer.
#[derive(Clone, Copy, Debug, PartialEq, Eq, Structural)]
pub struct Effect {
    /// Change of the stats, added without clamping.
    pub delta: Stats,
    /// Whether the character is married from now on.
    pub marries: bool,
    /// Whether the home moves to the chosen city.
    pub relocates: bool,
    /// The mode in which the game goes on.
    pub exit: GameState,
}

/// The reading of a chosen label for an event of the given kind, where
/// `home` is the name of the city the character lives in.
///
/// Labels are compared without regard to letter case. A move is declined by
/// "no" and by the name of the current home. Marriage, children and a
/// tantrum know "yes"; every other label declines. A troubled marriage knows
/// "mend", "divorce" and "suffer".
pub open spec fn decided(kind: ModalKind, choice: Seq<char>, home: Seq<char>) -> Decision {
    match kind {
        ModalKind::Move => Decision::Move {
            moving: !(same_text(choice, "no"@) || same_text(choice, home)),
        },
        ModalKind::Married => Decision::Married { yes: same_text(choice, "yes"@) },
        ModalKind::Kids => Decision::Kids { yes: same_text(choice, "yes"@) },
        ModalKind::Divorce => Decision::Divorce(
            if same_text(choice, "mend"@) {
                Rift::Mend
            } else if same_text(choice, "divorce"@) {
                Rift::Divorce
            } else if same_text(choice, "suffer"@) {
                Rift::Suffer
            } else {
                Rift::Ignore
            },
        ),
        ModalKind::Tantrum => Decision::Tantrum { yes: same_text(choice, "yes"@) },
        ModalKind::Die => Decision::Die,
    }
}

/// A number of hundredths of a point, in grains.
pub open spec fn points(hundredths: int) -> i64 {
    (hundredths * HUNDREDTH) as i64
}

/// What a move does to the stats, by the number of moves made so far, this
/// one included.
pub open spec fn move_bundle(ordinal: int) -> Stats {
    if ordinal <= 1 {
        Stats {
            relaxation: points(-5),
            purpose: points(10),
            belonging: points(10),
            pride: points(25),
            ..no_change()
        }
    } else if ordinal == 2 {
        Stats { pride: points(5), ..no_change() }
    } else if ordinal == 3 {
        Stats { relaxation: points(-5), purpose: points(-10), ..no_change() }
    } else {
        Stats { belonging: points(-10), purpose: points(-10), ..no_change() }
    }
}

/// The consequences of a decision for a character who has moved
/// `moves_before` times so far.
pub open spec fn effect_of(d: Decision, moves_before: int) -> Effect {
    let nothing = Effect {
        delta: no_change(),
        marries: false,
        relocates: false,
        exit: GameState::Game,
    };
    match d {
        Decision::Move { moving } => if moving {
            Effect {
                delta: move_bundle(moves_before + 1),
                relocates: true,
                exit: GameState::Fly,
                ..nothing
            }
        } else {
            Effect { exit: GameState::Fly, ..nothing }
        },
        Decision::Married { yes } => if yes {
            Effect {
                delta: Stats {
                    purpose: points(20),
                    belonging: points(10),
                    relaxation: points(-10),
                    ..no_change()
                },
                marries: true,
                ..nothing
            }
        } else {
            nothing
        },
        Decision::Kids { yes } => if yes {
            Effect {
                delta: Stats {
                    pride: points(30),
                    purpose: points(10),
                    relaxation: points(-10),
                    ..no_change()
                },
                ..nothing
            }
        } else {
            nothing
        },
        Decision::Divorce(rift) => match rift {
            Rift::Mend => Effect {
                delta: Stats {
                    pride: points(30),
                    purpose: points(10),
                    belonging: points(10),
                    relaxation: points(-20),
                    ..no_change()
                },
                ..nothing
            },
            Rift::Divorce => Effect {
                delta: Stats {
                    pride: points(-10),
                    purpose: points(-10),
                    relaxation: points(10),
                    ..no_change()
                },
                ..nothing
            },
            Rift::Suffer => Effect {
                delta: Stats {
                    pride: points(-10),
                    purpose: points(30),
                    relaxation: points(-10),
                    ..no_change()
                },
                ..nothing
            },
            Rift::Ignore => nothing,
        },
        Decision::Tantrum { yes } => if yes {
            Effect {
                delta: Stats { relaxation: points(10), social_exp: points(-10), ..no_change() },
                ..nothing
            }
        } else {
            Effect {
                delta: Stats { relaxation: points(-10), social_exp: points(10), ..no_change() },
                ..nothing
            }
        },
        Decision::Die => Effect { exit: GameState::GameOver, ..nothing },
    }
}

/// Reads a chosen label for an event of the given kind.
pub fn decide(kind: ModalKind, choice: &'static str, home: &'static str) -> (d: Decision)
    ensures
        d == decided(kind, choice@, home@),
{
    match kind {
        ModalKind::Move => {
            let stays: bool = str_eq(choice, "no") || str_eq(choice, home);
            Decision::Move { moving: !stays }
        },
        ModalKind::Married => Decision::Married { yes: str_eq(choice, "yes") },
        ModalKind::Kids => Decision::Kids { yes: str_eq(choice, "yes") },
        ModalKind::Divorce => {
            if str_eq(choice, "mend") {
                Decision::Divorce(Rift::Mend)
            } else if str_eq(choice, "divorce") {
                Decision::Divorce(Rift::Divorce)
            } else if str_eq(choice, "suffer") {
                Decision::Divorce(Rift::Suffer)
            } else {
                Decision::Divorce(Rift::Ignore)
            }
        },
        ModalKind::Tantrum => Decision::Tantrum { yes: str_eq(choice, "yes") },
        ModalKind::Die => Decision::Die,
    }
}

/// A number of hundredths of a point, in grains.
fn grains(hundredths: i64) -> (g: i64)
    requires
        -100 <= hundredths <= 100,
    ensures
        g == points(hundredths as int),
{
    hundredths * HUNDREDTH
}

/// What a move does to the stats, by the number of moves made so far, this
/// one included.
pub fn bundle_for_move(ordinal: u32) -> (delta: Stats)
    ensures
        delta == move_bundle(ordinal as int),
{
    let mut delta = Stats::zero();
    if ordinal <= 1 {
        delta.relaxation = grains(-5);
        delta.purpose = grains(10);
        delta.belonging = grains(10);
        delta.pride = grains(25);
    } else if ordinal == 2 {
        delta.pride = grains(5);
    } else if ordinal == 3 {
        delta.relaxation = grains(-5);
        delta.purpose = grains(-10);
    } else {
        delta.belonging = grains(-10);
        delta.purpose = grains(-10);
    }
    delta
}

/// The consequences of a decision for a character who has moved
/// `moves_before` times so far.
pub fn resolve(d: Decision, moves_before: u32) -> (e: Effect)
    ensures
        e == effect_of(d, moves_before as int),
{
    let mut e = Effect {
        delta: Stats::zero(),
        marries: false,
        relocates: false,
        exit: GameState::Game,
    };
    match d {
        Decision::Move { moving } => {
            e.exit = GameState::Fly;
            if moving {
                e.relocates = true;
                if moves_before >= 3 {
                    e.delta = bundle_for_move(4);
                } else {
                    e.delta = bundle_for_move(moves_before + 1);
                }
            }
        },
        Decision::Married { yes } => {
            if yes {
                e.delta.purpose = grains(20);
                e.delta.belonging = grains(10);
                e.delta.relaxation = grains(-10);
                e.marries = true;
            }
        },
        Decision::Kids { yes } => {
            if yes {
                e.delta.pride = grains(30);
                e.delta.purpose = grains(10);
                e.delta.relaxation = grains(-10);
            }
        },
        Decision::Divorce(rift) => match rift {
            Rift::Mend => {
                e.delta.pride = grains(30);
                e.delta.purpose = grains(10);
                e.delta.belonging = grains(10);
                e.delta.relaxation = grains(-20);
            },
            Rift::Divorce => {
                e.delta.pride = grains(-10);
                e.delta.purpose = grains(-10);
                e.delta.relaxation = grains(10);
            },
            Rift::Suffer => {
                e.delta.pride = grains(-10);
                e.delta.purpose = grains(30);
                e.delta.relaxation = grains(-10);
            },
            Rift::Ignore => {},
        },
        Decision::Tantrum { yes } => {
            if yes {
                e.delta.relaxation = grains(10);
                e.delta.social_exp = grains(-10);
            } else {
                e.delta.relaxation = grains(-10);
                e.delta.social_exp = grains(10);
            }
        },
        Decision::Die => {
            e.exit = GameState::GameOver;
        },
    }
    e
}

} // verus!
