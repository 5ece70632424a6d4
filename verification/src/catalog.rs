//! The catalog of life events.
//!
//! Each entry fires at one age, some only for a married or only for an
//! unmarried character. The catalog is a fixed, ordered table.

use vstd::prelude::*;
use crate::modal::{labels, Modal, ModalKind, ModalView};

verus! {

/// Whom an entry concerns.
#[derive(Clone, Copy, Debug, PartialEq, Eq, Structural)]
pub enum Condition {
    Always,
    Married,
    Unmarried,
}

/// When an entry fires.
#[derive(Clone, Copy, Debug, PartialEq, Eq, Structural)]
pub struct Trigger {
    pub age: u32,
    pub condition: Condition,
}

/// An entry of the catalog.
pub struct Entry {
    pub trigger: Trigger,
    pub kind: ModalKind,
    pub text: Seq<char>,
    /// Whether the name of the current home is offered as the first choice.
    pub offers_home: bool,
    /// The labels offered whatever the home.
    pub choices: Seq<Seq<char>>,
}

/// Number of entries in the catalog.
pub const CATALOG_LEN: usize = 10;

/// The catalog, in the order in which its entries are tried.
pub open spec fn catalog() -> Seq<Entry> {
    seq![
        Entry {
            trigger: Trigger { age: 2, condition: Condition::Always },
            kind: ModalKind::Tantrum,
            text: "tantrum?"@,
            offers_home: false,
            choices: seq!["yes"@, "no"@],
        },
        Entry {
            trigger: Trigger { age: 18, condition: Condition::Always },
            kind: ModalKind::Move,
            text: "goto university?"@,
            offers_home: false,
            choices: seq!["toronto"@, "ottawa"@, "montreal"@, "no"@],
        },
        Entry {
            trigger: Trigger { age: 24, condition: Condition::Always },
            kind: ModalKind::Move,
            text: "take job?"@,
            offers_home: true,
            choices: seq!["vancouver"@, "sf"@, "ny"@],
        },
        Entry {
            trigger: Trigger { age: 30, condition: Condition::Always },
            kind: ModalKind::Married,
            text: "get married?"@,
            offers_home: false,
            choices: seq!["yes"@, "no"@],
        },
        Entry {
            trigger: Trigger { age: 32, condition: Condition::Married },
            kind: ModalKind::Kids,
            text: "spouse wants kids"@,
            offers_home: false,
            choices: seq!["yes"@, "no"@],
        },
        Entry {
            trigger: Trigger { age: 35, condition: Condition::Unmarried },
            kind: ModalKind::Move,
            text: "move somewhere\nexciting?"@,
            offers_home: false,
            choices: seq!["seattle"@, "calgary"@, "boulder"@, "la"@],
        },
        Entry {
            trigger: Trigger { age: 40, condition: Condition::Married },
            kind: ModalKind::Divorce,
            text: "failing marriage"@,
            offers_home: false,
            choices: seq!["divorce"@, "mend"@, "suffer"@],
        },
        Entry {
            trigger: Trigger { age: 60, condition: Condition::Always },
            kind: ModalKind::Move,
            text: "time to retire?"@,
            offers_home: true,
            choices: seq!["miami"@, "la"@],
        },
        Entry {
            trigger: Trigger { age: 70, condition: Condition::Unmarried },
            kind: ModalKind::Die,
            text: "die?"@,
            offers_home: false,
            choices: seq!["if i must"@],
        },
        Entry {
            trigger: Trigger { age: 75, condition: Condition::Always },
            kind: ModalKind::Die,
            text: "die?"@,
            offers_home: false,
            choices: seq!["if i must"@],
        },
    ]
}

/// Whether a trigger fires for a character of the given age and marital
/// status.
pub open spec fn applies(t: Trigger, age: int, married: bool) -> bool {
    t.age == age && match t.condition {
        Condition::Always => true,
        Condition::Married => married,
        Condition::Unmarried => !married,
    }
}

/// The choices of an entry for a character who lives in the city called
/// `home`.
pub open spec fn offered(e: Entry, home: Seq<char>) -> Seq<Seq<char>> {
    if e.offers_home {
        seq![home] + e.choices
    } else {
        e.choices
    }
}

/// The life event that an entry opens for a character who lives in the city
/// called `home`.
pub open spec fn built(e: Entry, home: Seq<char>) -> ModalView {
    ModalView { kind: e.kind, text: e.text, choices: offered(e, home), selection: 0 }
}

/// The university event as the debug intent opens it.
pub open spec fn debug_view() -> ModalView {
    ModalView {
        kind: ModalKind::Move,
        text: "goto university?"@,
        choices: seq!["Toronto"@, "SF"@, "Montreal"@, "No"@],
        selection: 0,
    }
}

/// Position of the one entry that fires for a character of the given age
/// and marital status, if there is one.
pub open spec fn entry_for(age: int, married: bool) -> Option<int> {
    if age == 2 {
        Some(0)
    } else if age == 18 {
        Some(1)
    } else if age == 24 {
        Some(2)
    } else if age == 30 {
        Some(3)
    } else if age == 32 && married {
        Some(4)
    } else if age == 35 && !married {
        Some(5)
    } else if age == 40 && married {
        Some(6)
    } else if age == 60 {
        Some(7)
    } else if age == 70 && !married {
        Some(8)
    } else if age == 75 {
        Some(9)
    } else {
        None
    }
}

/// At every age and marital status at most one entry fires, and
/// `entry_for` names it.
pub proof fn lemma_one_entry_fires(i: int, age: int, married: bool)
    requires
        0 <= i < CATALOG_LEN,
    ensures
        applies(catalog()[i].trigger, age, married) <==> entry_for(age, married) == Some(i),
{
}

/// Every entry offers at least one choice, so every event built from the
/// catalog is well formed.
pub proof fn lemma_catalog_built_wf(i: int, home: Seq<char>)
    requires
        0 <= i < CATALOG_LEN,
    ensures
        catalog().len() == CATALOG_LEN,
        built(catalog()[i], home).wf(),
{
}

/// Whether a trigger fires for a character of the given age and marital
/// status.
pub fn trigger_applies(t: Trigger, age: u32, married: bool) -> (fires: bool)
    ensures
        fires == applies(t, age as int, married),
{
    t.age == age && match t.condition {
        Condition::Always => true,
        Condition::Married => married,
        Condition::Unmarried => !married,
    }
}

/// When the entry at position `i` fires; `None` past the end of the catalog.
pub fn catalog_trigger(i: usize) -> (t: Option<Trigger>)
    ensures
        t is Some <==> i < CATALOG_LEN,
        t is Some ==> t->0 == catalog()[i as int].trigger,
{
    if i == 0 {
        Some(Trigger { age: 2, condition: Condition::Always })
    } else if i == 1 {
        Some(Trigger { age: 18, condition: Condition::Always })
    } else if i == 2 {
        Some(Trigger { age: 24, condition: Condition::Always })
    } else if i == 3 {
        Some(Trigger { age: 30, condition: Condition::Always })
    } else if i == 4 {
        Some(Trigger { age: 32, condition: Condition::Married })
    } else if i == 5 {
        Some(Trigger { age: 35, condition: Condition::Unmarried })
    } else if i == 6 {
        Some(Trigger { age: 40, condition: Condition::Married })
    } else if i == 7 {
        Some(Trigger { age: 60, condition: Condition::Always })
    } else if i == 8 {
        Some(Trigger { age: 70, condition: Condition::Unmarried })
    } else if i == 9 {
        Some(Trigger { age: 75, condition: Condition::Always })
    } else {
        None
    }
}

/// A list of labels that starts with the name of the home.
fn home_first(home: &'static str) -> (v: Vec<&'static str>)
    ensures
        v@ == seq![home],
{
    let mut v: Vec<&'static str> = Vec::new();
    v.push(home);
    v
}

/// The life event that the entry at position `i` opens for a character who
/// lives in the city called `home`; `None` past the end of the catalog.
pub fn catalog_modal(i: usize, home: &'static str) -> (m: Option<Modal>)
    ensures
        m is Some <==> i < CATALOG_LEN,
        m is Some ==> m->0@ == built(catalog()[i as int], home@),
        m is Some ==> m->0@.wf(),
{
    if i == 0 {
        let mut choices: Vec<&'static str> = Vec::new();
        choices.push("yes");
        choices.push("no");
        assert(labels(choices@) =~= offered(catalog()[0], home@));
        Some(Modal::new(ModalKind::Tantrum, "tantrum?", choices))
    } else if i == 1 {
        let mut choices: Vec<&'static str> = Vec::new();
        choices.push("toronto");
        choices.push("ottawa");
        choices.push("montreal");
        choices.push("no");
        assert(labels(choices@) =~= offered(catalog()[1], home@));
        Some(Modal::new(ModalKind::Move, "goto university?", choices))
    } else if i == 2 {
        let mut choices: Vec<&'static str> = home_first(home);
        choices.push("vancouver");
        choices.push("sf");
        choices.push("ny");
        assert(labels(choices@) =~= offered(catalog()[2], home@));
        Some(Modal::new(ModalKind::Move, "take job?", choices))
    } else if i == 3 {
        let mut choices: Vec<&'static str> = Vec::new();
        choices.push("yes");
        choices.push("no");
        assert(labels(choices@) =~= offered(catalog()[3], home@));
        Some(Modal::new(ModalKind::Married, "get married?", choices))
    } else if i == 4 {
        let mut choices: Vec<&'static str> = Vec::new();
        choices.push("yes");
        choices.push("no");
        assert(labels(choices@) =~= offered(catalog()[4], home@));
        Some(Modal::new(ModalKind::Kids, "spouse wants kids", choices))
    } else if i == 5 {
        let mut choices: Vec<&'static str> = Vec::new();
        choices.push("seattle");
        choices.push("calgary");
        choices.push("boulder");
        choices.push("la");
        assert(labels(choices@) =~= offered(catalog()[5], home@));
        Some(Modal::new(ModalKind::Move, "move somewhere\nexciting?", choices))
    } else if i == 6 {
        let mut choices: Vec<&'static str> = Vec::new();
        choices.push("divorce");
        choices.push("mend");
        choices.push("suffer");
        assert(labels(choices@) =~= offered(catalog()[6], home@));
        Some(Modal::new(ModalKind::Divorce, "failing marriage", choices))
    } else if i == 7 {
        let mut choices: Vec<&'static str> = home_first(home);
        choices.push("miami");
        choices.push("la");
        assert(labels(choices@) =~= offered(catalog()[7], home@));
        Some(Modal::new(ModalKind::Move, "time to retire?", choices))
    } else if i == 8 {
        let mut choices: Vec<&'static str> = Vec::new();
        choices.push("if i must");
        assert(labels(choices@) =~= offered(catalog()[8], home@));
        Some(Modal::new(ModalKind::Die, "die?", choices))
    } else if i == 9 {
        let mut choices: Vec<&'static str> = Vec::new();
        choices.push("if i must");
        assert(labels(choices@) =~= offered(catalog()[9], home@));
        Some(Modal::new(ModalKind::Die, "die?", choices))
    } else {
        None
    }
}

/// The university event as the debug intent opens it.
pub fn debug_modal() -> (m: Modal)
    ensures
        m@ == debug_view(),
        m@.wf(),
{
    let mut choices: Vec<&'static str> = Vec::new();
    choices.push("Toronto");
    choices.push("SF");
    choices.push("Montreal");
    choices.push("No");
    assert(labels(choices@) =~= debug_view().choices);
    Modal::new(ModalKind::Move, "goto university?", choices)
}

} // verus!
