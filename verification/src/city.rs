//! The cities of the map and the one the character calls home.
//!
//! A registry holds cities whose names differ even when letter case is
//! ignored, and exactly one of them is marked as home. The only way to
//! change a registry is to move the home mark.

use vstd::prelude::*;
use crate::text::{same_text, str_eq};

verus! {

/// A place on the map.
#[derive(Clone, Copy, Debug)]
pub struct City {
    /// The name by which choices refer to the city.
    pub name: &'static str,
    /// Where the city lies on the map, as `[x, y]`.
    pub position: [i32; 2],
    /// Whether the character lives here.
    pub home: bool,
}

/// The cities of a game, one of them home.
pub struct CityRegistry {
    cities: Vec<City>,
}

impl View for CityRegistry {
    type V = Seq<City>;

    closed spec fn view(&self) -> Seq<City> {
        self.cities@
    }
}

/// Number of cities marked as home.
pub open spec fn home_count(s: Seq<City>) -> nat
    decreases s.len(),
{
    if s.len() == 0 {
        0
    } else {
        home_count(s.drop_last()) + if s.last().home {
            1nat
        } else {
            0nat
        }
    }
}

/// No two cities have the same name, letter case ignored.
pub open spec fn names_distinct(s: Seq<City>) -> bool {
    forall|i: int, j: int|
        0 <= i < j < s.len() ==> !same_text(#[trigger] s[i].name@, #[trigger] s[j].name@)
}

/// What every registry satisfies: distinct names and exactly one home.
pub open spec fn registry_wf(s: Seq<City>) -> bool {
    &&& names_distinct(s)
    &&& home_count(s) == 1
}

/// Whether some city bears the name, letter case ignored.
pub open spec fn has_city(s: Seq<City>, name: Seq<char>) -> bool {
    exists|k: int| 0 <= k < s.len() && same_text(#[trigger] s[k].name@, name)
}

/// Position in the registry of a city that bears the name.
pub open spec fn city_index(s: Seq<City>, name: Seq<char>) -> int {
    choose|k: int| 0 <= k < s.len() && same_text(#[trigger] s[k].name@, name)
}

/// Position in the registry of a city marked as home.
pub open spec fn home_index(s: Seq<City>) -> int {
    choose|k: int| 0 <= k < s.len() && (#[trigger] s[k]).home
}

/// The cities with the home mark on the city at position `k` and nowhere
/// else.
pub open spec fn with_home(s: Seq<City>, k: int) -> Seq<City> {
    Seq::new(s.len(), |i: int| City { home: i == k, ..s[i] })
}

/// The cities after the home has moved to the city called `name`. A name
/// that no city bears moves nothing.
pub open spec fn rehomed(s: Seq<City>, name: Seq<char>) -> Seq<City> {
    if has_city(s, name) {
        with_home(s, city_index(s, name))
    } else {
        s
    }
}

/// The cities after the home has moved once for each name, in order.
pub open spec fn rehomed_all(s: Seq<City>, names: Seq<Seq<char>>) -> Seq<City>
    decreases names.len(),
{
    if names.len() == 0 {
        s
    } else {
        rehomed(rehomed_all(s, names.drop_last()), names.last())
    }
}

/// A registry without a home has the mark nowhere, and a registry with the
/// mark somewhere counts at least one home.
pub proof fn lemma_home_count_zero(s: Seq<City>)
    ensures
        home_count(s) == 0 <==> forall|i: int| 0 <= i < s.len() ==> !(#[trigger] s[i]).home,
    decreases s.len(),
{
    if s.len() > 0 {
        lemma_home_count_zero(s.drop_last());
        assert(forall|i: int| 0 <= i < s.len() - 1 ==> s.drop_last()[i] == s[i]);
        if home_count(s) == 0 {
            assert forall|i: int| 0 <= i < s.len() implies !(#[trigger] s[i]).home by {
                if i < s.len() - 1 {
                    assert(!s.drop_last()[i].home);
                }
            }
        } else {
            if !s.last().home {
                let i = choose|i: int| 0 <= i < s.len() - 1 && (#[trigger] s.drop_last()[i]).home;
                assert(s[i].home);
            }
        }
    }
}

/// With exactly one home, any two marked positions are the same position.
pub proof fn lemma_home_unique(s: Seq<City>, i: int, j: int)
    requires
        home_count(s) == 1,
        0 <= i < s.len(),
        0 <= j < s.len(),
        s[i].home,
        s[j].home,
    ensures
        i == j,
    decreases s.len(),
{
    let front = s.drop_last();
    assert(forall|k: int| 0 <= k < s.len() - 1 ==> front[k] == s[k]);
    if s.last().home {
        lemma_home_count_zero(front);
        if i < s.len() - 1 {
            assert(front[i].home);
        }
        if j < s.len() - 1 {
            assert(front[j].home);
        }
    } else {
        lemma_home_unique(front, i, j);
    }
}

/// With exactly one home, `home_index` is the position of that home.
pub proof fn lemma_home_index(s: Seq<City>)
    requires
        home_count(s) == 1,
    ensures
        0 <= home_index(s) < s.len(),
        s[home_index(s)].home,
        forall|k: int| 0 <= k < s.len() && (#[trigger] s[k]).home ==> k == home_index(s),
{
    lemma_home_count_zero(s);
    let w = choose|i: int| 0 <= i < s.len() && (#[trigger] s[i]).home;
    assert(0 <= w < s.len() && s[w].home);
    assert forall|k: int| 0 <= k < s.len() && (#[trigger] s[k]).home implies k == home_index(s) by {
        lemma_home_unique(s, k, home_index(s));
    }
}

/// Counting the homes of a sequence that ends at position `n` of `s`.
proof fn lemma_home_count_prefix(s: Seq<City>, k: int, n: int)
    requires
        0 <= n <= s.len(),
        0 <= k < s.len(),
    ensures
        home_count(with_home(s, k).take(n)) == if k < n {
            1nat
        } else {
            0nat
        },
    decreases n,
{
    let t = with_home(s, k).take(n);
    if n > 0 {
        lemma_home_count_prefix(s, k, n - 1);
        assert(t.drop_last() =~= with_home(s, k).take(n - 1));
        assert(t.last().home == (n - 1 == k));
    }
}

/// Marking one city as home and no other leaves exactly one home.
pub proof fn lemma_with_home_counts_one(s: Seq<City>, k: int)
    requires
        0 <= k < s.len(),
    ensures
        home_count(with_home(s, k)) == 1,
        names_distinct(s) ==> names_distinct(with_home(s, k)),
        with_home(s, k).len() == s.len(),
{
    lemma_home_count_prefix(s, k, s.len() as int);
    assert(with_home(s, k).take(s.len() as int) =~= with_home(s, k));
    if names_distinct(s) {
        assert forall|i: int, j: int| 0 <= i < j < s.len() implies !same_text(
            #[trigger] with_home(s, k)[i].name@,
            #[trigger] with_home(s, k)[j].name@,
        ) by {
            assert(!same_text(s[i].name@, s[j].name@));
        }
    }
}

/// Moving the home keeps a registry well formed: afterwards there is still
/// exactly one home, and the names are what they were.
pub proof fn lemma_rehomed_wf(s: Seq<City>, name: Seq<char>)
    requires
        registry_wf(s),
    ensures
        registry_wf(rehomed(s, name)),
        home_count(rehomed(s, name)) == 1,
        rehomed(s, name).len() == s.len(),
        forall|i: int|
            0 <= i < s.len() ==> (#[trigger] rehomed(s, name)[i]).name == s[i].name,
        forall|i: int|
            0 <= i < s.len() ==> (#[trigger] rehomed(s, name)[i]).position == s[i].position,
{
    if has_city(s, name) {
        lemma_with_home_counts_one(s, city_index(s, name));
    }
}

/// After any sequence of moves of the home, exactly one city is home.
pub proof fn lemma_one_home_after_moves(s: Seq<City>, names: Seq<Seq<char>>)
    requires
        registry_wf(s),
    ensures
        registry_wf(rehomed_all(s, names)),
        home_count(rehomed_all(s, names)) == 1,
    decreases names.len(),
{
    if names.len() > 0 {
        lemma_one_home_after_moves(s, names.drop_last());
        lemma_rehomed_wf(rehomed_all(s, names.drop_last()), names.last());
    }
}

/// With distinct names, the city that bears a name is found at one
/// position only.
pub proof fn lemma_city_index(s: Seq<City>, name: Seq<char>, k: int)
    requires
        names_distinct(s),
        0 <= k < s.len(),
        same_text(s[k].name@, name),
    ensures
        has_city(s, name),
        city_index(s, name) == k,
{
    let w = city_index(s, name);
    assert(0 <= w < s.len() && same_text(s[w].name@, name));
    if w < k {
        assert(!same_text(s[w].name@, s[k].name@));
    } else if k < w {
        assert(!same_text(s[k].name@, s[w].name@));
    }
}

/// The cities a new game starts with, the first of them home.
pub open spec fn standard_seq() -> Seq<City> {
    seq![
        City { name: "Toronto", position: [181, 135], home: true },
        City { name: "Ottawa", position: [183, 123], home: false },
        City { name: "Montreal", position: [196, 122], home: false },
        City { name: "SF", position: [19, 165], home: false },
        City { name: "Seattle", position: [31, 117], home: false },
        City { name: "Vancouver", position: [32, 103], home: false },
        City { name: "LA", position: [29, 183], home: false },
        City { name: "Las Vegas", position: [48, 173], home: false },
        City { name: "Calgary", position: [77, 106], home: false },
        City { name: "Miami", position: [196, 223], home: false },
        City { name: "Chicago", position: [149, 149], home: false },
        City { name: "NY", position: [204, 145], home: false },
        City { name: "Halifax", position: [232, 115], home: false },
        City { name: "Boulder", position: [92, 166], home: false },
    ]
}

/// The cities a new game starts with.
pub fn standard_cities() -> (cities: Vec<City>)
    ensures
        cities@ == standard_seq(),
{
    let mut v: Vec<City> = Vec::new();
    v.push(City::new_home("Toronto", [181, 135]));
    v.push(City::new("Ottawa", [183, 123]));
    v.push(City::new("Montreal", [196, 122]));
    v.push(City::new("SF", [19, 165]));
    v.push(City::new("Seattle", [31, 117]));
    v.push(City::new("Vancouver", [32, 103]));
    v.push(City::new("LA", [29, 183]));
    v.push(City::new("Las Vegas", [48, 173]));
    v.push(City::new("Calgary", [77, 106]));
    v.push(City::new("Miami", [196, 223]));
    v.push(City::new("Chicago", [149, 149]));
    v.push(City::new("NY", [204, 145]));
    v.push(City::new("Halifax", [232, 115]));
    v.push(City::new("Boulder", [92, 166]));
    assert(v@ =~= standard_seq());
    v
}

/// Counts the cities marked as home.
pub fn count_homes(cities: &Vec<City>) -> (n: usize)
    ensures
        n == home_count(cities@),
{
    let mut n: usize = 0;
    let mut i: usize = 0;
    while i < cities.len()
        invariant
            i <= cities.len(),
            n <= i,
            n == home_count(cities@.take(i as int)),
        decreases cities.len() - i,
    {
        assert(cities@.take(i + 1).drop_last() =~= cities@.take(i as int));
        if cities[i].home {
            n = n + 1;
        }
        i = i + 1;
    }
    assert(cities@.take(i as int) =~= cities@);
    n
}

/// Checks that no two cities have the same name, letter case ignored.
pub fn distinct_names(cities: &Vec<City>) -> (ok: bool)
    ensures
        ok == names_distinct(cities@),
{
    let mut i: usize = 0;
    while i < cities.len()
        invariant
            i <= cities.len(),
            forall|a: int, b: int|
                0 <= a < b < cities.len() && a < i ==> !same_text(
                    #[trigger] cities@[a].name@,
                    #[trigger] cities@[b].name@,
                ),
        decreases cities.len() - i,
    {
        let mut j: usize = i + 1;
        while j < cities.len()
            invariant
                i < j <= cities.len(),
                forall|b: int|
                    i < b < j ==> !same_text(
                        cities@[i as int].name@,
                        #[trigger] cities@[b].name@,
                    ),
            decreases cities.len() - j,
        {
            if str_eq(cities[i].name, cities[j].name) {
                return false;
            }
            j = j + 1;
        }
        i = i + 1;
    }
    true
}

impl CityRegistry {
    /// Makes a registry of the given cities, if their names are distinct
    /// and exactly one of them is home.
    pub fn new(cities: Vec<City>) -> (r: Option<CityRegistry>)
        ensures
            r is Some <==> registry_wf(cities@),
            r is Some ==> r->0@ == cities@,
    {
        if count_homes(&cities) != 1 {
            return None;
        }
        if !distinct_names(&cities) {
            return None;
        }
        Some(CityRegistry { cities: cities })
    }

    /// Checks that the names are distinct and exactly one city is home.
    pub fn is_well_formed(&self) -> (ok: bool)
        ensures
            ok == registry_wf(self@),
    {
        count_homes(&self.cities) == 1 && distinct_names(&self.cities)
    }

    /// Number of cities.
    pub fn len(&self) -> (n: usize)
        ensures
            n == self@.len(),
    {
        self.cities.len()
    }

    /// The city at a position; `None` past the end of the registry.
    pub fn get(&self, i: usize) -> (c: Option<City>)
        ensures
            c is Some <==> i < self@.len(),
            c is Some ==> c->0 == self@[i as int],
    {
        if i < self.cities.len() {
            Some(self.cities[i])
        } else {
            None
        }
    }

    /// All cities, in registry order.
    pub fn cities(&self) -> (v: &Vec<City>)
        ensures
            v@ == self@,
    {
        &self.cities
    }

    /// Number of cities marked as home.
    pub fn count_home(&self) -> (n: usize)
        ensures
            n == home_count(self@),
    {
        count_homes(&self.cities)
    }

    /// Moves the home mark to the city at position `k`, so that this city
    /// is home and no other is. A position past the end moves nothing.
    pub fn set_home_at(&mut self, k: usize)
        ensures
            final(self)@ == if k < old(self)@.len() {
                with_home(old(self)@, k as int)
            } else {
                old(self)@
            },
            registry_wf(old(self)@) ==> registry_wf(final(self)@),
    {
        let n: usize = self.cities.len();
        if k >= n {
            return ;
        }
        proof {
            lemma_with_home_counts_one(self@, k as int);
        }
        let mut i: usize = 0;
        while i < n
            invariant
                i <= n,
                k < n,
                n == self.cities@.len(),
                n == old(self).cities@.len(),
                forall|j: int|
                    0 <= j < i ==> #[trigger] self.cities@[j] == with_home(
                        old(self).cities@,
                        k as int,
                    )[j],
                forall|j: int| i <= j < n ==> #[trigger] self.cities@[j] == old(self).cities@[j],
            decreases n - i,
        {
            let mut c: City = self.cities[i];
            c.home = i == k;
            self.cities.set(i, c);
            i = i + 1;
        }
        assert(self.cities@ =~= with_home(old(self).cities@, k as int));
    }

    /// Position of the first city that bears the name, letter case ignored.
    pub fn find(&self, name: &'static str) -> (r: Option<usize>)
        ensures
            r is Some <==> has_city(self@, name@),
            r is Some ==> r->0 < self@.len() && same_text(self@[r->0 as int].name@, name@),
            r is Some ==> forall|k: int|
                0 <= k < r->0 ==> !same_text(#[trigger] self@[k].name@, name@),
            r is Some && names_distinct(self@) ==> r->0 == city_index(self@, name@),
    {
        let mut i: usize = 0;
        while i < self.cities.len()
            invariant
                i <= self.cities.len(),
                forall|k: int| 0 <= k < i ==> !same_text(#[trigger] self.cities@[k].name@, name@),
            decreases self.cities.len() - i,
        {
            if str_eq(self.cities[i].name, name) {
                proof {
                    if names_distinct(self@) {
                        lemma_city_index(self@, name@, i as int);
                    }
                }
                return Some(i);
            }
            i = i + 1;
        }
        None
    }
}

/// The city the character lives in.
pub fn home_city(registry: &CityRegistry) -> (c: City)
    requires
        registry_wf(registry@),
    ensures
        c == registry@[home_index(registry@)],
        c.home,
{
    proof {
        lemma_home_index(registry@);
    }
    let mut i: usize = 0;
    while i < registry.cities.len()
        invariant
            i <= registry.cities.len(),
            registry@ == registry.cities@,
            0 <= home_index(registry@) < registry@.len(),
            registry@[home_index(registry@)].home,
            forall|k: int|
                0 <= k < registry@.len() && (#[trigger] registry@[k]).home ==> k == home_index(
                    registry@,
                ),
            forall|k: int| 0 <= k < i ==> !(#[trigger] registry@[k]).home,
        decreases registry.cities.len() - i,
    {
        if registry.cities[i].home {
            return registry.cities[i];
        }
        i = i + 1;
    }
    proof {
        assert(false);
    }
    vstd::pervasive::unreached()
}

/// Moves the home to the city called `new_home`, letter case ignored.
///
/// The mark leaves the old home and lands on the new one in the same call.
/// A name that no city bears moves nothing.
pub fn set_home_city(registry: &mut CityRegistry, new_home: &'static str)
    requires
        registry_wf(old(registry)@),
    ensures
        final(registry)@ == rehomed(old(registry)@, new_home@),
        registry_wf(final(registry)@),
        home_count(final(registry)@) == 1,
{
    proof {
        lemma_rehomed_wf(registry@, new_home@);
    }
    match registry.find(new_home) {
        None => {},
        Some(k) => {
            registry.set_home_at(k);
        },
    }
}

impl City {
    /// A city that is not the home.
    pub fn new(name: &'static str, position: [i32; 2]) -> (c: City)
        ensures
            c == (City { name: name, position: position, home: false }),
    {
        City { name: name, position: position, home: false }
    }

    /// A city that is the home.
    pub fn new_home(name: &'static str, position: [i32; 2]) -> (c: City)
        ensures
            c == (City { name: name, position: position, home: true }),
    {
        City { name: name, position: position, home: true }
    }
}

} // verus!
