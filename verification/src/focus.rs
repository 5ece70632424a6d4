//! The activity the player keeps in focus.
//!
//! Activities unlock with age, in declaration order, and stay unlocked from
//! then on. At every age the unlocked activities therefore form a prefix of
//! the list, and cycling through them wraps inside that prefix.

use vstd::prelude::*;

verus! {

/// An activity the character can spend time on.
#[derive(Clone, Copy, Debug, PartialEq, Eq, Structural)]
pub enum Focus {
    Play,
    Socialize,
    Research,
    Create,
    Work,
}

/// A direction in a list: towards its start or towards its end.
#[derive(Clone, Copy, Debug, PartialEq, Eq, Structural)]
pub enum Direction {
    Up,
    Down,
}

/// The age from which an activity is available.
pub open spec fn unlock_age(f: Focus) -> int {
    match f {
        Focus::Play => 0,
        Focus::Socialize => 1,
        Focus::Research => 8,
        Focus::Create => 15,
        Focus::Work => 22,
    }
}

/// Whether an activity is available at an age.
pub open spec fn is_unlocked(f: Focus, age: int) -> bool {
    age >= unlock_age(f)
}

/// Position of an activity in the list, from 0 for `Play` to 4 for `Work`.
pub open spec fn focus_index(f: Focus) -> int {
    match f {
        Focus::Play => 0,
        Focus::Socialize => 1,
        Focus::Research => 2,
        Focus::Create => 3,
        Focus::Work => 4,
    }
}

/// The activity at a position of the list; positions past the end give the
/// last activity.
pub open spec fn focus_at(index: int) -> Focus {
    if index <= 0 {
        Focus::Play
    } else if index == 1 {
        Focus::Socialize
    } else if index == 2 {
        Focus::Research
    } else if index == 3 {
        Focus::Create
    } else {
        Focus::Work
    }
}

/// Position of the last activity available at an age.
pub open spec fn stage_at(age: int) -> int {
    if age <= 0 {
        0
    } else if age <= 7 {
        1
    } else if age <= 14 {
        2
    } else if age <= 21 {
        3
    } else {
        4
    }
}

/// The activity reached from `f` by one step in direction `dir` among the
/// activities available at `age`: the nearest available activity in that
/// direction, wrapping from the last available one to `Play` and back.
pub open spec fn cycled(f: Focus, age: int, dir: Direction) -> Focus {
    let last = stage_at(age);
    let here = focus_index(f);
    match dir {
        Direction::Down => if here + 1 <= last {
            focus_at(here + 1)
        } else {
            Focus::Play
        },
        Direction::Up => if here == 0 {
            focus_at(last)
        } else if here - 1 <= last {
            focus_at(here - 1)
        } else {
            focus_at(last)
        },
    }
}

impl Focus {
    /// Position of this activity in the list.
    pub fn index(self) -> (i: u32)
        ensures
            i == focus_index(self),
            i <= 4,
    {
        match self {
            Focus::Play => 0,
            Focus::Socialize => 1,
            Focus::Research => 2,
            Focus::Create => 3,
            Focus::Work => 4,
        }
    }

    /// The activity at a position of the list.
    pub fn from_index(index: u32) -> (f: Focus)
        ensures
            f == focus_at(index as int),
    {
        if index == 0 {
            Focus::Play
        } else if index == 1 {
            Focus::Socialize
        } else if index == 2 {
            Focus::Research
        } else if index == 3 {
            Focus::Create
        } else {
            Focus::Work
        }
    }

    /// Whether this activity is available at `age`.
    pub fn unlocked_at(self, age: u32) -> (open: bool)
        ensures
            open == is_unlocked(self, age as int),
    {
        match self {
            Focus::Play => true,
            Focus::Socialize => age >= 1,
            Focus::Research => age >= 8,
            Focus::Create => age >= 15,
            Focus::Work => age >= 22,
        }
    }

    /// The neighbour of this activity in direction `dir` among those
    /// available at `age`.
    pub fn cycle(self, age: u32, dir: Direction) -> (next: Focus)
        ensures
            next == cycled(self, age as int, dir),
            is_unlocked(next, age as int),
    {
        let last: u32 = stage_of(age);
        let here: u32 = self.index();
        match dir {
            Direction::Down => {
                if here + 1 <= last {
                    Focus::from_index(here + 1)
                } else {
                    Focus::Play
                }
            },
            Direction::Up => {
                if here == 0 {
                    Focus::from_index(last)
                } else if here - 1 <= last {
                    Focus::from_index(here - 1)
                } else {
                    Focus::from_index(last)
                }
            },
        }
    }
}

/// Position of the last activity available at `age`.
pub fn stage_of(age: u32) -> (stage: u32)
    ensures
        stage == stage_at(age as int),
        stage <= 4,
{
    if age == 0 {
        0
    } else if age <= 7 {
        1
    } else if age <= 14 {
        2
    } else if age <= 21 {
        3
    } else {
        4
    }
}

/// An activity that is available stays available at every later age.
pub proof fn lemma_unlock_monotonic(f: Focus, age: int, later: int)
    requires
        age <= later,
        is_unlocked(f, age),
    ensures
        is_unlocked(f, later),
{
}

/// The available activities are exactly those up to the stage of the age.
pub proof fn lemma_unlocked_prefix(f: Focus, age: int)
    requires
        0 <= age,
    ensures
        is_unlocked(f, age) <==> focus_index(f) <= stage_at(age),
        focus_at(focus_index(f)) == f,
{
}

/// Cycling always lands on an available activity, and from an available
/// activity it moves by one position modulo the number of available ones.
pub proof fn lemma_cycle_wraps(f: Focus, age: int, dir: Direction)
    requires
        0 <= age,
        is_unlocked(f, age),
    ensures
        is_unlocked(cycled(f, age, dir), age),
        dir == Direction::Down ==> focus_index(cycled(f, age, dir)) == (focus_index(f) + 1) % (
        stage_at(age) + 1),
        dir == Direction::Up ==> focus_index(cycled(f, age, dir)) == (focus_index(f) + stage_at(
            age,
        )) % (stage_at(age) + 1),
{
    let last = stage_at(age);
    let here = focus_index(f);
    if last == 0 {
        assert((here + 1) % 1 == 0 && (here + 0) % 1 == 0);
    } else if last == 1 {
        assert((here + 1) % 2 == if here == 1 { 0int } else { 1int });
    } else if last == 2 {
        assert((here + 1) % 3 == if here == 2 { 0int } else { here + 1 });
        assert((here + 2) % 3 == if here == 0 { 2int } else { here - 1 });
    } else if last == 3 {
        assert((here + 1) % 4 == if here == 3 { 0int } else { here + 1 });
        assert((here + 3) % 4 == if here == 0 { 3int } else { here - 1 });
    } else {
        assert((here + 1) % 5 == if here == 4 { 0int } else { here + 1 });
        assert((here + 4) % 5 == if here == 0 { 4int } else { here - 1 });
    }
}

} // verus!
