//! The character's meters and how they drift with age and focus.
//!
//! Four meters (relaxation, belonging, pride, purpose) are kept within
//! `[0, METER_MAX]` by a clamp at the end of every simulation step. Money and
//! the five experience accumulators are never clamped.
//!
//! A life is cut into six age brackets. Each bracket has a passive decay of
//! the meters, and for each focus a bonus for some meters and experiences.
//! In two situations pride also grows with experience gathered earlier, and
//! in early childhood it grows while belonging is high.

use vstd::prelude::*;
use crate::focus::Focus;
use crate::units::{
    clamp_meter, clamp_wide, meter_clamp, saturate, saturating, saturating_sum, BELONGING_HIGH,
    FEEDBACK_DIVISOR, METER_MAX, ONE,
};

verus! {

/// The meters and experience accumulators of the character, in grains.
#[derive(Clone, Copy, Debug, PartialEq, Eq, Structural)]
pub struct Stats {
    pub money: i64,
    pub belonging: i64,
    pub purpose: i64,
    pub pride: i64,
    pub relaxation: i64,
    pub play_exp: i64,
    pub social_exp: i64,
    pub research_exp: i64,
    pub create_exp: i64,
    pub work_exp: i64,
}

/// A stretch of life with its own decay and bonuses.
#[derive(Clone, Copy, Debug, PartialEq, Eq, Structural)]
pub enum AgeBracket {
    /// Ages 0 to 2.
    Infant,
    /// Ages 3 to 5.
    Child,
    /// Ages 6 to 12.
    School,
    /// Ages 13 to 20.
    Teen,
    /// Ages 21 to 40.
    Adult,
    /// Ages 41 and up.
    Elder,
}

/// Rates of change, in ten-thousandths of a point per week.
#[derive(Clone, Copy, Debug, PartialEq, Eq, Structural)]
pub struct Rates {
    pub relaxation: i64,
    pub belonging: i64,
    pub pride: i64,
    pub purpose: i64,
    pub play_exp: i64,
    pub social_exp: i64,
    pub research_exp: i64,
    pub create_exp: i64,
}

/// The bracket an age falls into.
pub open spec fn bracket_at(age: int) -> AgeBracket {
    if age <= 2 {
        AgeBracket::Infant
    } else if age <= 5 {
        AgeBracket::Child
    } else if age <= 12 {
        AgeBracket::School
    } else if age <= 20 {
        AgeBracket::Teen
    } else if age <= 40 {
        AgeBracket::Adult
    } else {
        AgeBracket::Elder
    }
}

/// Rates that are all zero.
pub open spec fn no_rates() -> Rates {
    Rates {
        relaxation: 0,
        belonging: 0,
        pride: 0,
        purpose: 0,
        play_exp: 0,
        social_exp: 0,
        research_exp: 0,
        create_exp: 0,
    }
}

/// The passive decay of a bracket, whatever the focus.
pub open spec fn decay(b: AgeBracket) -> Rates {
    match b {
        AgeBracket::Infant => Rates {
            relaxation: (-50) as i64,
            belonging: (-50) as i64,
            ..no_rates()
        },
        AgeBracket::Child => Rates {
            relaxation: (-50) as i64,
            belonging: (-50) as i64,
            pride: (-20) as i64,
            ..no_rates()
        },
        AgeBracket::School | AgeBracket::Teen | AgeBracket::Adult => Rates {
            relaxation: (-50) as i64,
            belonging: (-50) as i64,
            pride: (-50) as i64,
            purpose: (-50) as i64,
            ..no_rates()
        },
        AgeBracket::Elder => Rates {
            relaxation: (-30) as i64,
            belonging: (-30) as i64,
            pride: (-30) as i64,
            purpose: (-30) as i64,
            ..no_rates()
        },
    }
}

/// The bonus that a focus earns in a bracket.
///
/// Where a bracket names fewer activities than there are, the last one it
/// names stands for all the others.
pub open spec fn bonus(b: AgeBracket, f: Focus) -> Rates {
    match b {
        AgeBracket::Infant => match f {
            Focus::Play => Rates { relaxation: 150, ..no_rates() },
            _ => Rates { belonging: 150, ..no_rates() },
        },
        AgeBracket::Child => match f {
            Focus::Play => Rates { relaxation: 150, play_exp: 50, ..no_rates() },
            Focus::Socialize => Rates { belonging: 150, social_exp: 50, ..no_rates() },
            _ => Rates { research_exp: 50, ..no_rates() },
        },
        AgeBracket::School => match f {
            Focus::Play => Rates { relaxation: 200, play_exp: 50, ..no_rates() },
            _ => Rates { belonging: 200, pride: 50, social_exp: 50, ..no_rates() },
        },
        AgeBracket::Teen => match f {
            Focus::Play => Rates { relaxation: 160, play_exp: 10, ..no_rates() },
            Focus::Socialize => Rates { belonging: 160, social_exp: 10, ..no_rates() },
            Focus::Research => Rates { belonging: 10, pride: 10, research_exp: 10, ..no_rates() },
            _ => Rates { purpose: 10, pride: 8, create_exp: 10, ..no_rates() },
        },
        AgeBracket::Adult | AgeBracket::Elder => match f {
            Focus::Play => Rates { relaxation: 170, play_exp: 70, ..no_rates() },
            Focus::Socialize => Rates { belonging: 170, social_exp: 70, ..no_rates() },
            Focus::Research => Rates { research_exp: 20, ..no_rates() },
            Focus::Create => Rates { create_exp: 10, ..no_rates() },
            Focus::Work => Rates { pride: 200, purpose: 100, ..no_rates() },
        },
    }
}

/// Pride gained from an experience accumulator during `dt` nanoseconds: a
/// hundredth of the experience per week, rounded down to a whole grain.
pub open spec fn feedback(exp: int, dt: int) -> int {
    (exp * dt) / (FEEDBACK_DIVISOR as int)
}

/// Pride gained beyond decay and bonus during one step.
///
/// A child's pride grows while belonging, after this step's decay, is above
/// `BELONGING_HIGH`. At school age playing turns play experience into pride;
/// from adulthood on creating turns create experience into pride. The
/// experience read is the value before this step's own increment.
pub open spec fn pride_extra(s: Stats, b: AgeBracket, f: Focus, dt: int) -> int {
    match b {
        AgeBracket::Child => if s.belonging + decay(b).belonging * dt > BELONGING_HIGH {
            60 * dt
        } else {
            0
        },
        AgeBracket::School => if f == Focus::Play {
            feedback(s.play_exp as int, dt)
        } else {
            0
        },
        AgeBracket::Adult | AgeBracket::Elder => if f == Focus::Create {
            feedback(s.create_exp as int, dt)
        } else {
            0
        },
        _ => 0,
    }
}

/// The stats after one simulation step of `dt` nanoseconds in bracket `b`
/// with focus `f`.
///
/// Each meter receives decay, bonus and, for pride, the extra gain, and is
/// then clamped into `[0, METER_MAX]`. Each experience receives its bonus and
/// saturates at the bounds of `i64`. Money and work experience stay.
pub open spec fn stepped(s: Stats, b: AgeBracket, f: Focus, dt: int) -> Stats {
    let d = decay(b);
    let g = bonus(b, f);
    Stats {
        money: s.money,
        relaxation: meter_clamp(s.relaxation + (d.relaxation + g.relaxation) * dt) as i64,
        belonging: meter_clamp(s.belonging + (d.belonging + g.belonging) * dt) as i64,
        pride: meter_clamp(s.pride + (d.pride + g.pride) * dt + pride_extra(s, b, f, dt)) as i64,
        purpose: meter_clamp(s.purpose + (d.purpose + g.purpose) * dt) as i64,
        play_exp: saturate(s.play_exp + g.play_exp * dt) as i64,
        social_exp: saturate(s.social_exp + g.social_exp * dt) as i64,
        research_exp: saturate(s.research_exp + g.research_exp * dt) as i64,
        create_exp: saturate(s.create_exp + g.create_exp * dt) as i64,
        work_exp: s.work_exp,
    }
}

/// The stats after one simulation step at a given age.
pub open spec fn stats_after(s: Stats, age: int, f: Focus, dt: int) -> Stats {
    stepped(s, bracket_at(age), f, dt)
}

/// The stats with the four meters clamped into `[0, METER_MAX]`.
pub open spec fn clamped(s: Stats) -> Stats {
    Stats {
        relaxation: meter_clamp(s.relaxation as int) as i64,
        belonging: meter_clamp(s.belonging as int) as i64,
        pride: meter_clamp(s.pride as int) as i64,
        purpose: meter_clamp(s.purpose as int) as i64,
        ..s
    }
}

/// The stats with another set of stats added field by field, each sum
/// saturating at the bounds of `i64`.
pub open spec fn summed(s: Stats, delta: Stats) -> Stats {
    Stats {
        money: saturate(s.money + delta.money) as i64,
        belonging: saturate(s.belonging + delta.belonging) as i64,
        purpose: saturate(s.purpose + delta.purpose) as i64,
        pride: saturate(s.pride + delta.pride) as i64,
        relaxation: saturate(s.relaxation + delta.relaxation) as i64,
        play_exp: saturate(s.play_exp + delta.play_exp) as i64,
        social_exp: saturate(s.social_exp + delta.social_exp) as i64,
        research_exp: saturate(s.research_exp + delta.research_exp) as i64,
        create_exp: saturate(s.create_exp + delta.create_exp) as i64,
        work_exp: saturate(s.work_exp + delta.work_exp) as i64,
    }
}

/// Stats that are all zero.
pub open spec fn no_change() -> Stats {
    Stats {
        money: 0,
        belonging: 0,
        purpose: 0,
        pride: 0,
        relaxation: 0,
        play_exp: 0,
        social_exp: 0,
        research_exp: 0,
        create_exp: 0,
        work_exp: 0,
    }
}

/// The stats a character starts with.
pub open spec fn initial_stats() -> Stats {
    Stats { belonging: ONE, purpose: ONE, pride: ONE, relaxation: ONE, ..no_change() }
}

/// The bracket an age falls into.
pub fn age_bracket(age: u32) -> (b: AgeBracket)
    ensures
        b == bracket_at(age as int),
{
    if age <= 2 {
        AgeBracket::Infant
    } else if age <= 5 {
        AgeBracket::Child
    } else if age <= 12 {
        AgeBracket::School
    } else if age <= 20 {
        AgeBracket::Teen
    } else if age <= 40 {
        AgeBracket::Adult
    } else {
        AgeBracket::Elder
    }
}

impl Rates {
    /// Rates that are all zero.
    pub fn none() -> (r: Rates)
        ensures
            r == no_rates(),
    {
        Rates {
            relaxation: 0,
            belonging: 0,
            pride: 0,
            purpose: 0,
            play_exp: 0,
            social_exp: 0,
            research_exp: 0,
            create_exp: 0,
        }
    }
}

/// The passive decay of a bracket.
pub fn decay_rates(b: AgeBracket) -> (r: Rates)
    ensures
        r == decay(b),
{
    let mut r = Rates::none();
    match b {
        AgeBracket::Infant => {
            r.relaxation = -50;
            r.belonging = -50;
        },
        AgeBracket::Child => {
            r.relaxation = -50;
            r.belonging = -50;
            r.pride = -20;
        },
        AgeBracket::School | AgeBracket::Teen | AgeBracket::Adult => {
            r.relaxation = -50;
            r.belonging = -50;
            r.pride = -50;
            r.purpose = -50;
        },
        AgeBracket::Elder => {
            r.relaxation = -30;
            r.belonging = -30;
            r.pride = -30;
            r.purpose = -30;
        },
    }
    r
}

/// The bonus that a focus earns in a bracket.
pub fn bonus_rates(b: AgeBracket, f: Focus) -> (r: Rates)
    ensures
        r == bonus(b, f),
{
    let mut r = Rates::none();
    match b {
        AgeBracket::Infant => match f {
            Focus::Play => {
                r.relaxation = 150;
            },
            _ => {
                r.belonging = 150;
            },
        },
        AgeBracket::Child => match f {
            Focus::Play => {
                r.relaxation = 150;
                r.play_exp = 50;
            },
            Focus::Socialize => {
                r.belonging = 150;
                r.social_exp = 50;
            },
            _ => {
                r.research_exp = 50;
            },
        },
        AgeBracket::School => match f {
            Focus::Play => {
                r.relaxation = 200;
                r.play_exp = 50;
            },
            _ => {
                r.belonging = 200;
                r.pride = 50;
                r.social_exp = 50;
            },
        },
        AgeBracket::Teen => match f {
            Focus::Play => {
                r.relaxation = 160;
                r.play_exp = 10;
            },
            Focus::Socialize => {
                r.belonging = 160;
                r.social_exp = 10;
            },
            Focus::Research => {
                r.belonging = 10;
                r.pride = 10;
                r.research_exp = 10;
            },
            _ => {
                r.purpose = 10;
                r.pride = 8;
                r.create_exp = 10;
            },
        },
        AgeBracket::Adult | AgeBracket::Elder => match f {
            Focus::Play => {
                r.relaxation = 170;
                r.play_exp = 70;
            },
            Focus::Socialize => {
                r.belonging = 170;
                r.social_exp = 70;
            },
            Focus::Research => {
                r.research_exp = 20;
            },
            Focus::Create => {
                r.create_exp = 10;
            },
            Focus::Work => {
                r.pride = 200;
                r.purpose = 100;
            },
        },
    }
    r
}

/// The change that a rate brings about in `dt` nanoseconds, in grains.
pub fn drift(rate: i64, dt: u32) -> (grains: i128)
    ensures
        grains == rate * dt,
        -0x8000_0000_0000_0000_0000_0000 <= grains <= 0x8000_0000_0000_0000_0000_0000,
{
    assert(-0x8000_0000_0000_0000_0000_0000 <= rate * dt <= 0x8000_0000_0000_0000_0000_0000)
        by (nonlinear_arith)
        requires
            -0x8000_0000_0000_0000 <= rate <= 0x8000_0000_0000_0000,
            0 <= dt <= 0x1_0000_0000,
    ;
    rate as i128 * dt as i128
}

/// Pride gained from an experience accumulator in `dt` nanoseconds.
pub fn pride_from_experience(exp: i64, dt: u32) -> (grains: i128)
    ensures
        grains == feedback(exp as int, dt as int),
        -0x8000_0000_0000_0000_0000_0000 <= grains <= 0x8000_0000_0000_0000_0000_0000,
{
    let product: i128 = drift(exp, dt);
    match product.checked_div_euclid(FEEDBACK_DIVISOR) {
        Some(q) => q,
        None => 0,
    }
}

/// Pride gained beyond decay and bonus during one step.
pub fn extra_pride(s: &Stats, b: AgeBracket, f: Focus, dt: u32) -> (grains: i128)
    ensures
        grains == pride_extra(*s, b, f, dt as int),
        -0x8000_0000_0000_0000_0000_0000 <= grains <= 0x8000_0000_0000_0000_0000_0000,
{
    match b {
        AgeBracket::Child => {
            let after_decay: i128 = s.belonging as i128 + drift(-50, dt);
            if after_decay > BELONGING_HIGH as i128 {
                drift(60, dt)
            } else {
                0
            }
        },
        AgeBracket::School => match f {
            Focus::Play => pride_from_experience(s.play_exp, dt),
            _ => 0,
        },
        AgeBracket::Adult | AgeBracket::Elder => match f {
            Focus::Create => pride_from_experience(s.create_exp, dt),
            _ => 0,
        },
        _ => 0,
    }
}

impl Stats {
    /// The stats a character starts with: every meter at one point, no
    /// money and no experience.
    pub fn new() -> (s: Stats)
        ensures
            s == initial_stats(),
    {
        Stats {
            money: 0,
            belonging: ONE,
            purpose: ONE,
            pride: ONE,
            relaxation: ONE,
            play_exp: 0,
            social_exp: 0,
            research_exp: 0,
            create_exp: 0,
            work_exp: 0,
        }
    }

    /// Stats that are all zero, the starting point of a set of changes.
    pub fn zero() -> (s: Stats)
        ensures
            s == no_change(),
    {
        Stats {
            money: 0,
            belonging: 0,
            purpose: 0,
            pride: 0,
            relaxation: 0,
            play_exp: 0,
            social_exp: 0,
            research_exp: 0,
            create_exp: 0,
            work_exp: 0,
        }
    }

    /// Adds a set of changes field by field, saturating at the bounds of
    /// `i64`. Nothing is clamped.
    pub fn plus(self, delta: Stats) -> (s: Stats)
        ensures
            s == summed(self, delta),
    {
        Stats {
            money: saturating_sum(self.money, delta.money),
            belonging: saturating_sum(self.belonging, delta.belonging),
            purpose: saturating_sum(self.purpose, delta.purpose),
            pride: saturating_sum(self.pride, delta.pride),
            relaxation: saturating_sum(self.relaxation, delta.relaxation),
            play_exp: saturating_sum(self.play_exp, delta.play_exp),
            social_exp: saturating_sum(self.social_exp, delta.social_exp),
            research_exp: saturating_sum(self.research_exp, delta.research_exp),
            create_exp: saturating_sum(self.create_exp, delta.create_exp),
            work_exp: saturating_sum(self.work_exp, delta.work_exp),
        }
    }

    /// Clamps the four meters into `[0, METER_MAX]`.
    pub fn clamp(&mut self)
        ensures
            *final(self) == clamped(*old(self)),
    {
        self.belonging = clamp_meter(self.belonging);
        self.purpose = clamp_meter(self.purpose);
        self.pride = clamp_meter(self.pride);
        self.relaxation = clamp_meter(self.relaxation);
    }

    /// Advances the stats by one simulation step of `dt` nanoseconds at the
    /// given age and with the given focus.
    pub fn update(&mut self, dt: u32, age: u32, focus: Focus)
        ensures
            *final(self) == stats_after(*old(self), age as int, focus, dt as int),
            in_range(*final(self)),
    {
        let b = age_bracket(age);
        let d = decay_rates(b);
        let g = bonus_rates(b, focus);
        let extra: i128 = extra_pride(self, b, focus, dt);
        let relaxation: i128 = self.relaxation as i128 + drift(d.relaxation + g.relaxation, dt);
        let belonging: i128 = self.belonging as i128 + drift(d.belonging + g.belonging, dt);
        let pride: i128 = self.pride as i128 + drift(d.pride + g.pride, dt) + extra;
        let purpose: i128 = self.purpose as i128 + drift(d.purpose + g.purpose, dt);
        self.play_exp = saturating(self.play_exp as i128 + drift(g.play_exp, dt));
        self.social_exp = saturating(self.social_exp as i128 + drift(g.social_exp, dt));
        self.research_exp = saturating(self.research_exp as i128 + drift(g.research_exp, dt));
        self.create_exp = saturating(self.create_exp as i128 + drift(g.create_exp, dt));
        self.relaxation = clamp_wide(relaxation);
        self.belonging = clamp_wide(belonging);
        self.pride = clamp_wide(pride);
        self.purpose = clamp_wide(purpose);
    }
}

/// Whether the four meters lie within `[0, METER_MAX]`.
pub open spec fn in_range(s: Stats) -> bool {
    &&& 0 <= s.relaxation <= METER_MAX
    &&& 0 <= s.belonging <= METER_MAX
    &&& 0 <= s.pride <= METER_MAX
    &&& 0 <= s.purpose <= METER_MAX
}

/// Two ages of one bracket are treated alike: they have the same decay and
/// the same bonus for every focus, and a step from the same stats with the
/// same focus and duration ends in the same stats.
pub proof fn lemma_bracket_decides(a: int, b: int, s: Stats, f: Focus, dt: int)
    requires
        a < b,
        bracket_at(a) == bracket_at(b),
    ensures
        decay(bracket_at(a)) == decay(bracket_at(b)),
        bonus(bracket_at(a), f) == bonus(bracket_at(b), f),
        pride_extra(s, bracket_at(a), f, dt) == pride_extra(s, bracket_at(b), f, dt),
        stats_after(s, a, f, dt) == stats_after(s, b, f, dt),
{
}

/// Every age between two ages of one bracket lies in that bracket too.
pub proof fn lemma_brackets_are_intervals(a: int, mid: int, b: int)
    requires
        a <= mid <= b,
        bracket_at(a) == bracket_at(b),
    ensures
        bracket_at(mid) == bracket_at(a),
{
}

/// Clamping stats is idempotent, and clamped stats are in range.
pub proof fn lemma_clamped_idempotent(s: Stats)
    ensures
        clamped(clamped(s)) == clamped(s),
        in_range(clamped(s)),
{
}

/// A simulation step ends with every meter in range, so a clamp right after
/// it changes nothing.
pub proof fn lemma_step_in_range(s: Stats, b: AgeBracket, f: Focus, dt: int)
    ensures
        in_range(stepped(s, b, f, dt)),
        clamped(stepped(s, b, f, dt)) == stepped(s, b, f, dt),
{
}

} // verus!
