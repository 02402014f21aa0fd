//! The environment variables of a command, as they are reported: one value
//! for each name, listed in the order of the names.

use crate::text::characters;
use vstd::prelude::*;

verus! {

/// Whether `a` comes before `b`, character by character.
pub open spec fn comes_before(a: Seq<char>, b: Seq<char>) -> bool
    decreases a.len(),
{
    if b.len() == 0 {
        false
    } else if a.len() == 0 {
        true
    } else if a[0] == b[0] {
        comes_before(a.drop_first(), b.drop_first())
    } else {
        a[0] < b[0]
    }
}

/// No text comes before itself, and no two come before each other.
proof fn lemma_order_strict(a: Seq<char>, b: Seq<char>)
    ensures
        !(comes_before(a, b) && comes_before(b, a)),
        !comes_before(a, a),
    decreases a.len(),
{
    if a.len() > 0 {
        lemma_order_strict(a.drop_first(), b.drop_first());
    }
}

/// The order is transitive.
proof fn lemma_order_transitive(a: Seq<char>, b: Seq<char>, c: Seq<char>)
    requires
        comes_before(a, b),
        comes_before(b, c),
    ensures
        comes_before(a, c),
    decreases a.len(),
{
    if a.len() > 0 && a[0] == b[0] && b[0] == c[0] {
        lemma_order_transitive(a.drop_first(), b.drop_first(), c.drop_first());
    }
}

/// How one text stands to another.
#[derive(Clone, Copy, Debug, PartialEq, Eq, Structural)]
pub enum TextOrder {
    Before,
    Same,
    After,
}

/// Decides how `a` stands to `b`.
pub fn order_of(a: &str, b: &str) -> (r: TextOrder)
    ensures
        r == TextOrder::Before <==> comes_before(a@, b@),
        r == TextOrder::Same <==> a@ == b@,
        r == TextOrder::After <==> comes_before(b@, a@),
{
    let left = characters(a);
    let right = characters(b);
    let mut i: usize = 0;
    proof {
        assert(a@.skip(0) == a@);
        assert(b@.skip(0) == b@);
        lemma_order_strict(a@, b@);
    }
    while i < left.len() && i < right.len()
        invariant
            left@ == a@,
            right@ == b@,
            i <= a@.len(),
            i <= b@.len(),
            a@.take(i as int) == b@.take(i as int),
            comes_before(a@, b@) == comes_before(a@.skip(i as int), b@.skip(i as int)),
            comes_before(b@, a@) == comes_before(b@.skip(i as int), a@.skip(i as int)),
            !(comes_before(a@, b@) && comes_before(b@, a@)),
        decreases left@.len() - i,
    {
        let ghost x = a@.skip(i as int);
        let ghost y = b@.skip(i as int);
        assert(x[0] == left@[i as int] && y[0] == right@[i as int]);
        if left[i] < right[i] {
            assert(a@[i as int] != b@[i as int]);
            return TextOrder::Before;
        }
        if right[i] < left[i] {
            assert(a@[i as int] != b@[i as int]);
            return TextOrder::After;
        }
        assert(x.drop_first() == a@.skip(i + 1));
        assert(y.drop_first() == b@.skip(i + 1));
        assert(a@.take(i + 1) == a@.take(i as int).push(a@[i as int]));
        assert(b@.take(i + 1) == b@.take(i as int).push(b@[i as int]));
        i = i + 1;
    }
    if left.len() < right.len() {
        TextOrder::Before
    } else if right.len() < left.len() {
        TextOrder::After
    } else {
        assert(a@.take(i as int) == a@);
        assert(b@.take(i as int) == b@);
        proof {
            lemma_order_strict(a@, a@);
        }
        TextOrder::Same
    }
}

/// Names and values, sorted by name, with no name twice.
pub open spec fn sorted_by_name(entries: Seq<(Seq<char>, Seq<char>)>) -> bool {
    forall|i: int, j: int|
        0 <= i < j < entries.len() ==> comes_before(#[trigger] entries[i].0, #[trigger] entries[j].0)
}

/// The value that a list of settings leaves under each name: a later setting
/// of a name replaces an earlier one.
pub open spec fn settled<K, V>(settings: Seq<(K, V)>) -> Map<K, V>
    decreases settings.len(),
{
    if settings.len() == 0 {
        Map::empty()
    } else {
        settled(settings.drop_last()).insert(settings.last().0, settings.last().1)
    }
}

/// Environment variables for reporting.
#[derive(Debug)]
pub struct Environment {
    entries: Vec<(String, String)>,
}

impl View for Environment {
    type V = Map<Seq<char>, Seq<char>>;

    closed spec fn view(&self) -> Map<Seq<char>, Seq<char>> {
        settled(self.entries.deep_view())
    }
}

/// A sorted list has, under each of its names, the value that stands there.
proof fn lemma_settled_sorted(entries: Seq<(Seq<char>, Seq<char>)>)
    requires
        sorted_by_name(entries),
    ensures
        forall|i: int|
            0 <= i < entries.len() ==> settled(entries).contains_pair(
                (#[trigger] entries[i]).0,
                entries[i].1,
            ),
        forall|k: Seq<char>| #[trigger]
            settled(entries).dom().contains(k) ==> exists|i: int|
                0 <= i < entries.len() && (#[trigger] entries[i]).0 == k,
    decreases entries.len(),
{
    if entries.len() > 0 {
        let front = entries.drop_last();
        lemma_settled_sorted(front);
        let last = entries.last();
        assert forall|i: int| 0 <= i < entries.len() implies settled(entries).contains_pair(
            (#[trigger] entries[i]).0,
            entries[i].1,
        ) by {
            if i < front.len() {
                assert(front[i] == entries[i]);
                assert(comes_before(entries[i].0, entries[entries.len() - 1].0));
                lemma_order_strict(entries[i].0, last.0);
            }
        }
        assert forall|k: Seq<char>| #[trigger] settled(entries).dom().contains(k) implies exists|
            i: int,
        |
            0 <= i < entries.len() && (#[trigger] entries[i]).0 == k by {
            if settled(front).dom().contains(k) {
                let i = choose|i: int| 0 <= i < front.len() && (#[trigger] front[i]).0 == k;
                assert(entries[i].0 == k);
            } else {
                assert(entries[entries.len() - 1].0 == k);
            }
        }
    }
}

/// A sorted list stands for the map that holds exactly its pairs.
proof fn lemma_sorted_list_of(entries: Seq<(Seq<char>, Seq<char>)>, map: Map<Seq<char>, Seq<char>>)
    requires
        sorted_by_name(entries),
        forall|i: int|
            0 <= i < entries.len() ==> map.contains_pair((#[trigger] entries[i]).0, entries[i].1),
        forall|k: Seq<char>| #[trigger]
            map.dom().contains(k) ==> exists|i: int|
                0 <= i < entries.len() && (#[trigger] entries[i]).0 == k,
    ensures
        settled(entries) == map,
{
    lemma_settled_sorted(entries);
    assert forall|k: Seq<char>| settled(entries).dom().contains(k) == map.dom().contains(k) by {
        if map.dom().contains(k) {
            let i = choose|i: int| 0 <= i < entries.len() && (#[trigger] entries[i]).0 == k;
            assert(settled(entries).contains_pair(entries[i].0, entries[i].1));
        }
        if settled(entries).dom().contains(k) {
            let i = choose|i: int| 0 <= i < entries.len() && (#[trigger] entries[i]).0 == k;
            assert(map.contains_pair(entries[i].0, entries[i].1));
        }
    }
    assert forall|k: Seq<char>| map.dom().contains(k) implies settled(entries)[k] == map[k] by {
        let i = choose|i: int| 0 <= i < entries.len() && (#[trigger] entries[i]).0 == k;
        assert(map.contains_pair(entries[i].0, entries[i].1));
        assert(settled(entries).contains_pair(entries[i].0, entries[i].1));
    }
    assert(settled(entries) =~= map);
}

impl Environment {
    /// The entries are sorted by name, and no name occurs twice.
    pub closed spec fn wf(self) -> bool {
        sorted_by_name(self.entries.deep_view())
    }

    /// No variables.
    pub fn new() -> (r: Environment)
        ensures
            r.wf(),
            r@ == Map::<Seq<char>, Seq<char>>::empty(),
    {
        Environment { entries: Vec::new() }
    }

    /// Sets a variable, in place of any earlier value.
    pub fn set(&mut self, name: String, value: String)
        requires
            old(self).wf(),
        ensures
            final(self).wf(),
            final(self)@ == old(self)@.insert(name@, value@),
    {
        let ghost before = self.entries.deep_view();
        let ghost pair = (name@, value@);
        let mut i: usize = 0;
        while i < self.entries.len()
            invariant
                *self == *old(self),
                self.entries.deep_view() == before,
                pair == (name@, value@),
                before.len() == self.entries@.len(),
                i <= before.len(),
                sorted_by_name(before),
                forall|j: int| 0 <= j < i ==> comes_before((#[trigger] before[j]).0, name@),
            decreases before.len() - i,
        {
            assert(before[i as int].0 == self.entries@[i as int].0@);
            match order_of(self.entries[i].0.as_str(), name.as_str()) {
                TextOrder::Before => {
                    i = i + 1;
                },
                TextOrder::Same => {
                    self.entries.set(i, (name, value));
                    proof {
                        let after = self.entries.deep_view();
                        assert(after == before.update(i as int, pair));
                        assert(sorted_by_name(after)) by {
                            assert forall|a: int, b: int| 0 <= a < b < after.len() implies comes_before(
                                #[trigger] after[a].0,
                                #[trigger] after[b].0,
                            ) by {
                                assert(after[a].0 == before[a].0 && after[b].0 == before[b].0);
                            }
                        }
                        lemma_replaced(before, i as int, pair);
                    }
                    return ;
                },
                TextOrder::After => {
                    self.insert_at(i, name, value);
                    return ;
                },
            }
        }
        self.insert_at(i, name, value);
    }

    /// Inserts a new variable between those before it and those after it.
    fn insert_at(&mut self, i: usize, name: String, value: String)
        requires
            old(self).wf(),
            i <= old(self).entries@.len(),
            forall|j: int|
                0 <= j < i ==> comes_before(
                    (#[trigger] old(self).entries.deep_view()[j]).0,
                    name@,
                ),
            i < old(self).entries@.len() ==> comes_before(
                name@,
                old(self).entries.deep_view()[i as int].0,
            ),
        ensures
            final(self).wf(),
            final(self)@ == old(self)@.insert(name@, value@),
    {
        let ghost before = self.entries.deep_view();
        let ghost pair = (name@, value@);
        self.entries.insert(i, (name, value));
        proof {
            let after = self.entries.deep_view();
            assert(after == before.insert(i as int, pair));
            lemma_inserted(before, i as int, pair);
        }
    }

    /// The variables with their values, in the order of the names.
    pub fn list(&self) -> (r: Vec<(&str, &str)>)
        requires
            self.wf(),
        ensures
            sorted_by_name(r.deep_view()),
            settled(r.deep_view()) == self@,
    {
        let mut out: Vec<(&str, &str)> = Vec::new();
        let mut i: usize = 0;
        while i < self.entries.len()
            invariant
                i <= self.entries@.len(),
                out@.len() == i,
                forall|j: int|
                    0 <= j < i ==> (#[trigger] out@[j]).0@ == self.entries@[j].0@ && out@[j].1@
                        == self.entries@[j].1@,
            decreases self.entries@.len() - i,
        {
            out.push((self.entries[i].0.as_str(), self.entries[i].1.as_str()));
            i = i + 1;
        }
        assert(out.deep_view() == self.entries.deep_view());
        out
    }
}

/// A new value for a name that is in the list.
proof fn lemma_replaced(
    before: Seq<(Seq<char>, Seq<char>)>,
    i: int,
    pair: (Seq<char>, Seq<char>),
)
    requires
        sorted_by_name(before),
        0 <= i < before.len(),
        before[i].0 == pair.0,
        sorted_by_name(before.update(i, pair)),
    ensures
        settled(before.update(i, pair)) == settled(before).insert(pair.0, pair.1),
{
    let after = before.update(i, pair);
    let map = settled(before).insert(pair.0, pair.1);
    lemma_settled_sorted(before);
    assert forall|j: int| 0 <= j < after.len() implies map.contains_pair(
        (#[trigger] after[j]).0,
        after[j].1,
    ) by {
        if j != i {
            assert(before[j] == after[j]);
            lemma_order_strict(before[i].0, before[j].0);
            if j < i {
                assert(comes_before(before[j].0, before[i].0));
            } else {
                assert(comes_before(before[i].0, before[j].0));
            }
        }
    }
    assert forall|k: Seq<char>| #[trigger] map.dom().contains(k) implies exists|j: int|
        0 <= j < after.len() && (#[trigger] after[j]).0 == k by {
        if k == pair.0 {
            assert(after[i].0 == k);
        } else {
            let j = choose|j: int| 0 <= j < before.len() && (#[trigger] before[j]).0 == k;
            assert(after[j].0 == k);
        }
    }
    lemma_sorted_list_of(after, map);
}

/// A name that was not in the list, put at its place.
proof fn lemma_inserted(
    before: Seq<(Seq<char>, Seq<char>)>,
    i: int,
    pair: (Seq<char>, Seq<char>),
)
    requires
        sorted_by_name(before),
        0 <= i <= before.len(),
        forall|j: int| 0 <= j < i ==> comes_before((#[trigger] before[j]).0, pair.0),
        i < before.len() ==> comes_before(pair.0, before[i].0),
    ensures
        sorted_by_name(before.insert(i, pair)),
        settled(before.insert(i, pair)) == settled(before).insert(pair.0, pair.1),
{
    let after = before.insert(i, pair);
    let map = settled(before).insert(pair.0, pair.1);
    assert forall|j: int| i <= j < before.len() implies comes_before(
        pair.0,
        (#[trigger] before[j]).0,
    ) by {
        if j > i {
            lemma_order_transitive(pair.0, before[i].0, before[j].0);
        }
    }
    assert forall|a: int, b: int| 0 <= a < b < after.len() implies comes_before(
        #[trigger] after[a].0,
        #[trigger] after[b].0,
    ) by {
        let x = if a < i { a } else { a - 1 };
        let y = if b < i { b } else { b - 1 };
        if a != i {
            assert(after[a] == before[x]);
        }
        if b != i {
            assert(after[b] == before[y]);
        }
    }
    lemma_settled_sorted(before);
    assert forall|j: int| 0 <= j < after.len() implies map.contains_pair(
        (#[trigger] after[j]).0,
        after[j].1,
    ) by {
        if j != i {
            let x = if j < i { j } else { j - 1 };
            assert(after[j] == before[x]);
            lemma_order_strict(before[x].0, pair.0);
        }
    }
    assert forall|k: Seq<char>| #[trigger] map.dom().contains(k) implies exists|j: int|
        0 <= j < after.len() && (#[trigger] after[j]).0 == k by {
        if k == pair.0 {
            assert(after[i].0 == k);
        } else {
            let x = choose|j: int| 0 <= j < before.len() && (#[trigger] before[j]).0 == k;
            let j = if x < i { x } else { x + 1 };
            assert(after[j].0 == k);
        }
    }
    lemma_sorted_list_of(after, map);
}

/// Texts are ordered by what follows the part that they have in common: by the first
/// characters there, and an end comes before any character.
pub proof fn law_order(common: Seq<char>, a: Seq<char>, b: Seq<char>)
    ensures
        comes_before(common + a, common + b) == comes_before(a, b),
        a.len() == 0 && b.len() > 0 ==> comes_before(a, b),
        b.len() == 0 ==> !comes_before(a, b),
        a.len() > 0 && b.len() > 0 && a[0] != b[0] ==> comes_before(a, b) == (a[0] < b[0]),
    decreases common.len(),
{
    if common.len() == 0 {
        assert(common + a == a && common + b == b);
    } else {
        law_order(common.drop_first(), a, b);
        assert((common + a).drop_first() == common.drop_first() + a);
        assert((common + b).drop_first() == common.drop_first() + b);
    }
}

/// In a list that is sorted by name each name comes before all later ones, so that
/// none stands twice.
pub proof fn law_sorted_by_name(entries: Seq<(Seq<char>, Seq<char>)>, i: int, j: int)
    requires
        sorted_by_name(entries),
        0 <= i < j < entries.len(),
    ensures
        comes_before(entries[i].0, entries[j].0),
        entries[i].0 != entries[j].0,
{
    lemma_order_strict(entries[i].0, entries[j].0);
}

/// A setting holds unless a later one has the same name.
pub proof fn law_last_setting_holds<K, V>(settings: Seq<(K, V)>, i: int)
    requires
        0 <= i < settings.len(),
        forall|j: int| i < j < settings.len() ==> (#[trigger] settings[j]).0 != settings[i].0,
    ensures
        settled(settings).contains_pair(settings[i].0, settings[i].1),
    decreases settings.len(),
{
    let front = settings.drop_last();
    if i < front.len() {
        assert forall|j: int| i < j < front.len() implies (#[trigger] front[j]).0 != front[i].0 by {
            assert(settings[j] == front[j]);
        }
        law_last_setting_holds(front, i);
        assert(settings[settings.len() - 1].0 != settings[i].0);
    }
}

/// Nothing holds that was not set.
pub proof fn law_only_settings_hold<K, V>(settings: Seq<(K, V)>, name: K)
    requires
        forall|i: int| 0 <= i < settings.len() ==> (#[trigger] settings[i]).0 != name,
    ensures
        !settled(settings).contains_key(name),
    decreases settings.len(),
{
    if settings.len() > 0 {
        let front = settings.drop_last();
        assert forall|i: int| 0 <= i < front.len() implies (#[trigger] front[i]).0 != name by {
            assert(settings[i] == front[i]);
        }
        law_only_settings_hold(front, name);
        assert(settings[settings.len() - 1].0 != name);
    }
}

} // verus!
