//! A keyed collection: values under text keys, no key twice.
//!
//! A `Table<V>` is viewed as a `Map` from a key's characters to the value
//! stored under it. The order in which a table hands its entries out is an
//! accident of its history; contracts that return entries speak of them
//! through [`lists`], which forgets the order.

use vstd::prelude::*;
use crate::text::texts;

verus! {

/// `items` holds the values of `m`, the value under `keys[i]` at place `i`,
/// and `keys` names every key of `m` once.
pub open spec fn lists_by<T>(items: Seq<T>, keys: Seq<Seq<char>>, m: Map<Seq<char>, T>) -> bool {
    &&& keys.len() == items.len()
    &&& keys.no_duplicates()
    &&& keys.to_set() =~= m.dom()
    &&& forall|i: int| 0 <= i < keys.len() ==> items[i] == m[#[trigger] keys[i]]
}

/// `items` holds the value of every entry of `m` once, in some order.
pub open spec fn lists<T>(items: Seq<T>, m: Map<Seq<char>, T>) -> bool {
    exists|keys: Seq<Seq<char>>| lists_by(items, keys, m)
}

/// The values behind a sequence of references.
pub open spec fn targets<T>(refs: Seq<&T>) -> Seq<T> {
    refs.map_values(|r: &T| *r)
}

/// The entries of `m` whose value passes `pred`.
pub open spec fn kept<T>(m: Map<Seq<char>, T>, pred: spec_fn(T) -> bool) -> Map<Seq<char>, T> {
    Map::new(|k: Seq<char>| m.contains_key(k) && pred(m[k]), |k: Seq<char>| m[k])
}

/// Taking a value's view, as a function.
pub open spec fn view_of<V: View>() -> spec_fn(V) -> V::V {
    |v: V| v@
}

/// The map with every value replaced by its view.
pub open spec fn views<V: View>(m: Map<Seq<char>, V>) -> Map<Seq<char>, V::V> {
    m.map_values(view_of::<V>())
}

/// The views of the values behind a sequence of references.
pub open spec fn seen<V: View>(refs: Seq<&V>) -> Seq<V::V> {
    targets(refs).map_values(view_of::<V>())
}

/// A test on values that executable code can run and contracts can speak of.
pub trait Test<V> {
    /// Whether `value` passes.
    spec fn passes(&self, value: V) -> bool;

    /// Runs the test.
    fn check(&self, value: &V) -> (passed: bool)
        ensures
            passed == self.passes(*value),
    ;
}

/// The values that pass `test`.
pub open spec fn passing<V, T: Test<V>>(test: T) -> spec_fn(V) -> bool {
    |v: V| test.passes(v)
}

/// The values that fail `test`.
pub open spec fn failing<V, T: Test<V>>(test: T) -> spec_fn(V) -> bool {
    |v: V| !test.passes(v)
}

/// A listing of a map has as many items as the map has entries.
pub proof fn lemma_lists_len<T>(items: Seq<T>, m: Map<Seq<char>, T>)
    requires
        lists(items, m),
    ensures
        m.dom().finite(),
        items.len() == m.len(),
{
    let keys = choose|keys: Seq<Seq<char>>| lists_by(items, keys, m);
    keys.unique_seq_to_set();
    vstd::seq_lib::seq_to_set_is_finite(keys);
}

/// A listing of a map holds exactly the values that the map holds.
pub proof fn lemma_lists_values<T>(items: Seq<T>, m: Map<Seq<char>, T>)
    requires
        lists(items, m),
    ensures
        forall|x: T| items.contains(x) <==> m.contains_value(x),
{
    let keys = choose|keys: Seq<Seq<char>>| lists_by(items, keys, m);
    assert forall|x: T| items.contains(x) <==> m.contains_value(x) by {
        if items.contains(x) {
            let i: int = items.index_of(x);
            assert(keys.to_set().contains(keys[i]));
            assert(m.contains_key(keys[i]) && m[keys[i]] == x);
        }
        if m.contains_value(x) {
            let k = choose|k: Seq<char>| m.contains_key(k) && m[k] == x;
            assert(keys.to_set().contains(k));
            let i: int = keys.index_of(k);
            assert(items[i] == x);
        }
    }
}

/// Applying `f` to every item of a listing lists the map with `f` applied
/// to every value.
pub proof fn lemma_lists_map_values<T, U>(items: Seq<T>, m: Map<Seq<char>, T>, f: spec_fn(T) -> U)
    requires
        lists(items, m),
    ensures
        lists(items.map_values(f), m.map_values(f)),
{
    let keys = choose|keys: Seq<Seq<char>>| lists_by(items, keys, m);
    assert(lists_by(items.map_values(f), keys, m.map_values(f))) by {
        assert(m.map_values(f).dom() =~= m.dom());
        assert forall|i: int| 0 <= i < keys.len() implies items.map_values(f)[i] == m.map_values(
            f,
        )[#[trigger] keys[i]] by {
            assert(keys.to_set().contains(keys[i]));
        }
    }
}

/// The map that holds `items[i]` under `keys[i]`.
pub open spec fn map_of<V>(keys: Seq<Seq<char>>, items: Seq<V>) -> Map<Seq<char>, V> {
    Map::new(|k: Seq<char>| keys.contains(k), |k: Seq<char>| items[keys.index_of(k)])
}

/// Whether `keys` and `items` can stand for a table's entries.
pub open spec fn paired<V>(keys: Seq<Seq<char>>, items: Seq<V>) -> bool {
    keys.len() == items.len() && keys.no_duplicates()
}

/// Paired keys and items list the map made of them.
pub proof fn lemma_map_of<V>(keys: Seq<Seq<char>>, items: Seq<V>)
    requires
        paired(keys, items),
    ensures
        lists_by(items, keys, map_of(keys, items)),
        map_of(keys, items).dom().finite(),
        map_of(keys, items).len() == keys.len(),
{
    let m = map_of(keys, items);
    assert(m.dom() =~= keys.to_set());
    assert forall|i: int| 0 <= i < keys.len() implies items[i] == m[#[trigger] keys[i]] by {
        let j: int = keys.index_of(keys[i]);
        assert(keys.contains(keys[i]));
        assert(keys[j] == keys[i]);
    }
    keys.unique_seq_to_set();
    vstd::seq_lib::seq_to_set_is_finite(keys);
}

proof fn lemma_map_of_push<V>(keys: Seq<Seq<char>>, items: Seq<V>, k: Seq<char>, v: V)
    requires
        paired(keys, items),
        !keys.contains(k),
    ensures
        paired(keys.push(k), items.push(v)),
        map_of(keys.push(k), items.push(v)) == map_of(keys, items).insert(k, v),
{
    let keys2 = keys.push(k);
    let items2 = items.push(v);
    assert forall|i: int, j: int| 0 <= i < keys2.len() && 0 <= j < keys2.len() && i != j implies keys2[i]
        != keys2[j] by {
        if i < keys.len() {
            assert(keys.contains(keys[i]));
        }
        if j < keys.len() {
            assert(keys.contains(keys[j]));
        }
    }
    lemma_map_of(keys, items);
    lemma_map_of(keys2, items2);
    let m = map_of(keys, items);
    let m2 = map_of(keys2, items2);
    assert forall|x: Seq<char>| m2.contains_key(x) <==> m.insert(k, v).contains_key(x) by {
        if m2.contains_key(x) {
            let j: int = keys2.index_of(x);
            if j < keys.len() {
                assert(keys.contains(keys[j]));
            }
        }
        if m.contains_key(x) {
            let j: int = keys.index_of(x);
            assert(keys2[j] == x);
        }
        if x == k {
            assert(keys2[keys.len() as int] == x);
        }
    }
    assert forall|x: Seq<char>| m2.contains_key(x) implies #[trigger] m2[x] == m.insert(k, v)[x] by {
        let j: int = keys2.index_of(x);
        assert(keys2.to_set().contains(keys2[j]));
        if j < keys.len() {
            assert(keys.to_set().contains(keys[j]));
            assert(items[j] == m[keys[j]]);
        }
    }
    assert(m2 =~= m.insert(k, v));
}

proof fn lemma_map_of_update<V>(keys: Seq<Seq<char>>, items: Seq<V>, i: int, v: V)
    requires
        paired(keys, items),
        0 <= i < keys.len(),
    ensures
        paired(keys, items.update(i, v)),
        map_of(keys, items.update(i, v)) == map_of(keys, items).insert(keys[i], v),
{
    let items2 = items.update(i, v);
    lemma_map_of(keys, items);
    lemma_map_of(keys, items2);
    let m = map_of(keys, items);
    let m2 = map_of(keys, items2);
    assert(keys.contains(keys[i]));
    assert forall|x: Seq<char>| m2.contains_key(x) implies #[trigger] m2[x] == m.insert(keys[i], v)[x] by {
        let j: int = keys.index_of(x);
        assert(keys.to_set().contains(keys[j]));
        assert(items2[j] == m2[keys[j]]);
        assert(items[j] == m[keys[j]]);
    }
    assert(m2 =~= m.insert(keys[i], v));
}

proof fn lemma_map_of_remove<V>(keys: Seq<Seq<char>>, items: Seq<V>, i: int)
    requires
        paired(keys, items),
        0 <= i < keys.len(),
    ensures
        paired(keys.remove(i), items.remove(i)),
        !keys.remove(i).contains(keys[i]),
        map_of(keys.remove(i), items.remove(i)) == map_of(keys, items).remove(keys[i]),
{
    let keys2 = keys.remove(i);
    let items2 = items.remove(i);
    let back = |a: int| -> int {
        if a < i {
            a
        } else {
            a + 1
        }
    };
    assert forall|a: int| 0 <= a < keys2.len() implies #[trigger] keys2[a] == keys[back(a)] by {}
    assert forall|a: int, b: int| 0 <= a < keys2.len() && 0 <= b < keys2.len() && a != b implies keys2[a]
        != keys2[b] by {
        assert(keys2[a] == keys[back(a)]);
        assert(keys2[b] == keys[back(b)]);
    }
    assert(!keys2.contains(keys[i])) by {
        if keys2.contains(keys[i]) {
            let a: int = keys2.index_of(keys[i]);
            assert(keys2[a] == keys[back(a)]);
        }
    }
    lemma_map_of(keys, items);
    lemma_map_of(keys2, items2);
    let m = map_of(keys, items);
    let m2 = map_of(keys2, items2);
    assert forall|x: Seq<char>| m2.contains_key(x) <==> m.remove(keys[i]).contains_key(x) by {
        if m2.contains_key(x) {
            let a: int = keys2.index_of(x);
            assert(keys2[a] == keys[back(a)]);
            assert(keys.contains(x));
        }
        if m.contains_key(x) && x != keys[i] {
            let j: int = keys.index_of(x);
            let a: int = if j < i {
                j
            } else {
                j - 1
            };
            assert(keys2[a] == x);
        }
    }
    assert forall|x: Seq<char>| m2.contains_key(x) implies #[trigger] m2[x] == m.remove(keys[i])[x] by {
        let a: int = keys2.index_of(x);
        let j: int = back(a);
        assert(keys2[a] == keys[j]);
        assert(keys2.to_set().contains(keys2[a]));
        assert(keys.to_set().contains(keys[j]));
        assert(items2[a] == m2[keys2[a]]);
        assert(items[j] == m[keys[j]]);
    }
    assert(m2 =~= m.remove(keys[i]));
}

/// Values under text keys. See the module's head.
pub struct Table<V> {
    keys: Vec<String>,
    vals: Vec<V>,
}

impl<V> View for Table<V> {
    type V = Map<Seq<char>, V>;

    closed spec fn view(&self) -> Map<Seq<char>, V> {
        map_of(self.keys(), self.items())
    }
}

impl<V> Table<V> {
    #[verifier::type_invariant]
    spec fn inv(self) -> bool {
        paired(texts(self.keys@), self.vals@)
    }

    /// The keys, in the order in which the table hands its entries out.
    pub closed spec fn keys(&self) -> Seq<Seq<char>> {
        texts(self.keys@)
    }

    /// The values, each at the place of its key in [`Table::keys`].
    pub closed spec fn items(&self) -> Seq<V> {
        self.vals@
    }

    /// How [`Table::keys`] and [`Table::items`] relate to the view.
    pub open spec fn indexed(&self) -> bool {
        &&& paired(self.keys(), self.items())
        &&& self@ == map_of(self.keys(), self.items())
        &&& lists_by(self.items(), self.keys(), self@)
        &&& self@.dom().finite()
        &&& self@.len() == self.keys().len()
    }

    fn take_apart(&mut self) -> (parts: (Vec<String>, Vec<V>))
        ensures
            texts(parts.0@) == old(self).keys(),
            parts.1@ == old(self).items(),
    {
        let mut taken = Table { keys: Vec::new(), vals: Vec::new() };
        std::mem::swap(self, &mut taken);
        let Table { keys, vals } = taken;
        (keys, vals)
    }

    /// An empty table.
    pub fn new() -> (t: Self)
        ensures
            t@ == Map::<Seq<char>, V>::empty(),
            t.keys() == Seq::<Seq<char>>::empty(),
    {
        let t = Table { keys: Vec::new(), vals: Vec::new() };
        assert(t.keys() =~= Seq::<Seq<char>>::empty());
        assert(t@ =~= Map::<Seq<char>, V>::empty());
        t
    }

    /// The number of entries.
    pub fn len(&self) -> (n: usize)
        ensures
            n == self@.len(),
            self.indexed(),
    {
        proof {
            use_type_invariant(self);
            lemma_map_of(self.keys(), self.items());
        }
        self.keys.len()
    }

    /// Whether the table holds nothing.
    pub fn is_empty(&self) -> (empty: bool)
        ensures
            empty == (self@.len() == 0),
            self.indexed(),
    {
        self.len() == 0
    }

    fn position(&self, key: &str) -> (at: Option<usize>)
        ensures
            match at {
                Some(i) => i < self.keys().len() && self.keys()[i as int] == key@,
                None => !self.keys().contains(key@),
            },
    {
        let mut i: usize = 0;
        while i < self.keys.len()
            invariant
                i <= self.keys@.len(),
                forall|j: int| 0 <= j < i ==> self.keys()[j] != key@,
            decreases self.keys@.len() - i,
        {
            assert(self.keys()[i as int] == self.keys@[i as int]@);
            if *self.keys[i].as_str() == *key {
                return Some(i);
            }
            i += 1;
        }
        None
    }

    /// Whether `key` has an entry.
    pub fn contains_key(&self, key: &str) -> (found: bool)
        ensures
            found == self@.contains_key(key@),
    {
        self.position(key).is_some()
    }

    /// The value under `key`, if there is one.
    pub fn get(&self, key: &str) -> (found: Option<&V>)
        ensures
            match found {
                Some(v) => self@.contains_key(key@) && *v == self@[key@],
                None => !self@.contains_key(key@),
            },
    {
        proof {
            use_type_invariant(self);
            lemma_map_of(self.keys(), self.items());
        }
        match self.position(key) {
            Some(i) => Some(&self.vals[i]),
            None => None,
        }
    }

    /// The value under `key`, to be changed in place. The key stays; what
    /// the caller leaves behind the reference is the entry's new value.
    pub fn get_mut(&mut self, key: &str) -> (found: Option<&mut V>)
        ensures
            match found {
                Some(v) => old(self)@.contains_key(key@) && *v == old(self)@[key@] && final(self)@
                    == old(self)@.insert(key@, *final(v)),
                None => !old(self)@.contains_key(key@) && final(self)@ == old(self)@,
            },
            final(self).keys() == old(self).keys(),
    {
        proof {
            use_type_invariant(&*self);
            lemma_map_of(self.keys(), self.items());
        }
        match self.position(key) {
            Some(i) => {
                let slot = &mut self.vals[i];
                proof {
                    lemma_map_of_update(old(self).keys(), old(self).items(), i as int, *final(slot));
                }
                Some(slot)
            },
            None => None,
        }
    }

    /// Puts `value` under `key`. An entry that `key` had gives way and is
    /// handed back; the other entries stay.
    pub fn insert(&mut self, key: String, value: V) -> (prev: Option<V>)
        ensures
            final(self)@ == old(self)@.insert(key@, value),
            match prev {
                Some(p) => old(self)@.contains_key(key@) && p == old(self)@[key@],
                None => !old(self)@.contains_key(key@),
            },
            final(self).keys() == (if old(self)@.contains_key(key@) {
                old(self).keys()
            } else {
                old(self).keys().push(key@)
            }),
    {
        proof {
            use_type_invariant(&*self);
            lemma_map_of(self.keys(), self.items());
        }
        let ghost new_value = value;
        match self.position(key.as_str()) {
            Some(i) => {
                let mut value = value;
                std::mem::swap(&mut self.vals[i], &mut value);
                proof {
                    lemma_map_of_update(old(self).keys(), old(self).items(), i as int, new_value);
                }
                Some(value)
            },
            None => {
                let (mut keys, mut vals) = self.take_apart();
                keys.push(key);
                vals.push(value);
                proof {
                    assert(texts(keys@) =~= old(self).keys().push(key@));
                    lemma_map_of_push(old(self).keys(), old(self).items(), key@, new_value);
                }
                *self = Table { keys, vals };
                None
            },
        }
    }

    /// Takes the entry of `key` out and hands its value back. Without such
    /// an entry nothing changes.
    pub fn remove(&mut self, key: &str) -> (prev: Option<V>)
        ensures
            final(self)@ == old(self)@.remove(key@),
            match prev {
                Some(p) => old(self)@.contains_key(key@) && p == old(self)@[key@],
                None => !old(self)@.contains_key(key@),
            },
    {
        proof {
            use_type_invariant(&*self);
            lemma_map_of(self.keys(), self.items());
        }
        match self.position(key) {
            Some(i) => {
                let (_, value) = self.remove_at(i);
                Some(value)
            },
            None => {
                assert(self@ =~= old(self)@.remove(key@));
                None
            },
        }
    }

    /// The key at place `i` of [`Table::keys`].
    pub(crate) fn key_at(&self, i: usize) -> (key: &String)
        requires
            i < self.keys().len(),
        ensures
            key@ == self.keys()[i as int],
    {
        proof {
            use_type_invariant(self);
        }
        &self.keys[i]
    }

    /// The value at place `i` of [`Table::items`].
    pub(crate) fn value_at(&self, i: usize) -> (value: &V)
        requires
            i < self.keys().len(),
        ensures
            *value == self.items()[i as int],
    {
        proof {
            use_type_invariant(self);
        }
        &self.vals[i]
    }

    /// Takes out the entry at place `i`; the entries behind it move up.
    pub(crate) fn remove_at(&mut self, i: usize) -> (entry: (String, V))
        requires
            i < old(self).keys().len(),
        ensures
            entry.0@ == old(self).keys()[i as int],
            entry.1 == old(self).items()[i as int],
            final(self).keys() == old(self).keys().remove(i as int),
            final(self).items() == old(self).items().remove(i as int),
            final(self)@ == old(self)@.remove(entry.0@),
            final(self).indexed(),
    {
        proof {
            use_type_invariant(&*self);
            lemma_map_of_remove(self.keys(), self.items(), i as int);
        }
        let (mut keys, mut vals) = self.take_apart();
        let key = keys.remove(i);
        let value = vals.remove(i);
        proof {
            assert(texts(keys@) =~= old(self).keys().remove(i as int));
            lemma_map_of(texts(keys@), vals@);
        }
        *self = Table { keys, vals };
        (key, value)
    }

    /// Every value, once.
    pub fn values(&self) -> (all: Vec<&V>)
        ensures
            targets(all@) == self.items(),
            lists(targets(all@), self@),
            all@.len() == self@.len(),
            self.indexed(),
    {
        proof {
            use_type_invariant(self);
            lemma_map_of(self.keys(), self.items());
        }
        let mut all: Vec<&V> = Vec::new();
        let mut i: usize = 0;
        while i < self.vals.len()
            invariant
                i <= self.vals@.len(),
                all@.len() == i,
                forall|j: int| 0 <= j < i ==> *all@[j] == self.vals@[j],
            decreases self.vals@.len() - i,
        {
            all.push(&self.vals[i]);
            i += 1;
        }
        assert(targets(all@) =~= self.items());
        all
    }

    /// Every key, once.
    pub fn key_list(&self) -> (all: Vec<String>)
        ensures
            texts(all@) == self.keys(),
            texts(all@).no_duplicates(),
            texts(all@).to_set() == self@.dom(),
    {
        proof {
            use_type_invariant(self);
            lemma_map_of(self.keys(), self.items());
        }
        crate::text::copy_texts(&self.keys)
    }
}

impl<V> Table<V> {
    /// Whether some value passes `test`.
    pub fn any<T: Test<V>>(&self, test: &T) -> (found: bool)
        ensures
            found == exists|k: Seq<char>| self@.contains_key(k) && test.passes(#[trigger] self@[k]),
    {
        let n = self.len();
        let mut i: usize = 0;
        while i < n
            invariant
                self.indexed(),
                n == self.keys().len(),
                i <= n,
                forall|a: int| 0 <= a < i ==> !test.passes(#[trigger] self.items()[a]),
            decreases n - i,
        {
            if test.check(self.value_at(i)) {
                proof {
                    let k = self.keys()[i as int];
                    assert(self.keys().to_set().contains(k));
                    assert(self@.contains_key(k) && test.passes(self@[k]));
                }
                return true;
            }
            i += 1;
        }
        proof {
            assert forall|k: Seq<char>| self@.contains_key(k) implies !test.passes(#[trigger] self@[k]) by {
                assert(self.keys().to_set().contains(k));
                let a: int = self.keys().index_of(k);
                assert(self.keys()[a] == k);
                assert(self.items()[a] == self@[self.keys()[a]]);
            }
        }
        false
    }

    /// Every value that passes `test`, once.
    pub fn select<T: Test<V>>(&self, test: &T) -> (found: Vec<&V>)
        ensures
            lists(targets(found@), kept(self@, passing(*test))),
            found@.len() == kept(self@, passing(*test)).len(),
    {
        let n = self.len();
        let mut found: Vec<&V> = Vec::new();
        let ghost mut places: Seq<int> = Seq::empty();
        let mut i: usize = 0;
        while i < n
            invariant
                self.indexed(),
                n == self.keys().len(),
                i <= n,
                places.len() == found@.len(),
                forall|j: int|
                    0 <= j < places.len() ==> 0 <= #[trigger] places[j] < i && test.passes(
                        self.items()[places[j]],
                    ) && *found@[j] == self.items()[places[j]],
                forall|j1: int, j2: int|
                    0 <= j1 < j2 < places.len() ==> #[trigger] places[j1] < #[trigger] places[j2],
                forall|a: int|
                    0 <= a < i && test.passes(#[trigger] self.items()[a]) ==> places.contains(a),
            decreases n - i,
        {
            let value = self.value_at(i);
            if test.check(value) {
                found.push(value);
                proof {
                    let ghost before = places;
                    places = places.push(i as int);
                    assert(places[before.len() as int] == i);
                    assert forall|a: int|
                        0 <= a < i + 1 && test.passes(#[trigger] self.items()[a]) implies places.contains(
                        a,
                    ) by {
                        if a < i {
                            assert(before.contains(a));
                            let j: int = before.index_of(a);
                            assert(places[j] == a);
                        }
                    }
                }
            }
            i += 1;
        }
        proof {
            let keys = self.keys();
            let items = self.items();
            let found_keys = Seq::new(places.len(), |j: int| keys[places[j]]);
            let want = kept(self@, passing(*test));
            assert forall|j1: int, j2: int|
                0 <= j1 < found_keys.len() && 0 <= j2 < found_keys.len() && j1 != j2 implies found_keys[j1]
                != found_keys[j2] by {
                if j1 < j2 {
                    assert(places[j1] < places[j2]);
                } else {
                    assert(places[j2] < places[j1]);
                }
            }
            assert forall|k: Seq<char>| found_keys.to_set().contains(k) <==> want.dom().contains(k) by {
                if found_keys.to_set().contains(k) {
                    let j: int = found_keys.index_of(k);
                    let a: int = places[j];
                    assert(found_keys[j] == keys[a]);
                    assert(keys.to_set().contains(keys[a]));
                    assert(items[a] == self@[keys[a]]);
                }
                if want.dom().contains(k) {
                    assert(keys.to_set().contains(k));
                    let a: int = keys.index_of(k);
                    assert(keys[a] == k);
                    assert(items[a] == self@[keys[a]]);
                    assert(places.contains(a));
                    let j: int = places.index_of(a);
                    assert(found_keys[j] == k);
                }
            }
            assert forall|j: int| 0 <= j < found_keys.len() implies targets(found@)[j] == want[#[trigger] found_keys[j]] by {
                let a: int = places[j];
                assert(keys.to_set().contains(keys[a]));
                assert(items[a] == self@[keys[a]]);
            }
            assert(lists_by(targets(found@), found_keys, want));
            lemma_lists_len(targets(found@), want);
        }
        found
    }

    /// Takes out every entry whose value passes `test`, and hands back the
    /// keys of the entries taken out.
    pub fn remove_where<T: Test<V>>(&mut self, test: &T) -> (removed: Vec<String>)
        ensures
            final(self)@ == kept(old(self)@, failing(*test)),
            texts(removed@).no_duplicates(),
            texts(removed@).to_set() == kept(old(self)@, passing(*test)).dom(),
    {
        let mut removed: Vec<String> = Vec::new();
        let mut n = self.len();
        let mut i: usize = 0;
        while i < n
            invariant
                self.indexed(),
                old(self).indexed(),
                n == self.keys().len(),
                i <= n,
                forall|k: Seq<char>| #[trigger]
                    self@.contains_key(k) ==> old(self)@.contains_key(k) && self@[k] == old(self)@[k],
                forall|k: Seq<char>|
                    old(self)@.contains_key(k) && !test.passes(#[trigger] old(self)@[k])
                        ==> self@.contains_key(k),
                forall|a: int| 0 <= a < i ==> !test.passes(#[trigger] self.items()[a]),
                texts(removed@).no_duplicates(),
                forall|k: Seq<char>| #[trigger]
                    texts(removed@).contains(k) <==> old(self)@.contains_key(k) && !self@.contains_key(k),
                forall|k: Seq<char>|
                    old(self)@.contains_key(k) && !self@.contains_key(k) ==> test.passes(
                        #[trigger] old(self)@[k],
                    ),
            decreases n - i,
        {
            if test.check(self.value_at(i)) {
                let ghost before = *self;
                let ghost taken = texts(removed@);
                proof {
                    assert(before.keys().to_set().contains(before.keys()[i as int]));
                    assert(before.items()[i as int] == before@[before.keys()[i as int]]);
                }
                let (key, _) = self.remove_at(i);
                removed.push(key);
                n = n - 1;
                proof {
                    assert(texts(removed@) =~= taken.push(key@));
                    assert(!taken.contains(key@));
                    assert forall|a: int, b: int|
                        0 <= a < texts(removed@).len() && 0 <= b < texts(removed@).len() && a != b implies texts(
                        removed@,
                    )[a] != texts(removed@)[b] by {
                        if a < taken.len() {
                            assert(taken.contains(taken[a]));
                        }
                        if b < taken.len() {
                            assert(taken.contains(taken[b]));
                        }
                    }
                    assert forall|k: Seq<char>| #[trigger]
                        texts(removed@).contains(k) <==> old(self)@.contains_key(k) && !self@.contains_key(
                            k,
                        ) by {
                        if texts(removed@).contains(k) {
                            let j: int = texts(removed@).index_of(k);
                            if j < taken.len() {
                                assert(taken.contains(k));
                            }
                        }
                        if old(self)@.contains_key(k) && !self@.contains_key(k) {
                            if k == key@ {
                                assert(texts(removed@)[taken.len() as int] == k);
                            } else {
                                assert(taken.contains(k));
                                let j: int = taken.index_of(k);
                                assert(texts(removed@)[j] == k);
                            }
                        }
                    }
                    assert forall|a: int| 0 <= a < i implies !test.passes(#[trigger] self.items()[a]) by {
                        assert(self.items()[a] == before.items()[a]);
                    }
                }
            } else {
                i += 1;
            }
        }
        proof {
            assert forall|k: Seq<char>| self@.contains_key(k) implies !test.passes(self@[k]) by {
                assert(self.keys().to_set().contains(k));
                let a: int = self.keys().index_of(k);
                assert(self.keys()[a] == k);
                assert(self.items()[a] == self@[self.keys()[a]]);
            }
            assert(self@ =~= kept(old(self)@, failing(*test)));
            assert(texts(removed@).to_set() =~= kept(old(self)@, passing(*test)).dom());
        }
        removed
    }
}

impl<V: Clone> Clone for Table<V> {
    /// A table with the same keys, each value copied by `V`'s `clone`.
    fn clone(&self) -> (copy: Self)
        ensures
            copy.keys() == self.keys(),
            copy@.dom() == self@.dom(),
            forall|k: Seq<char>| #[trigger] self@.contains_key(k) ==> cloned::<V>(self@[k], copy@[k]),
    {
        proof {
            use_type_invariant(self);
            lemma_map_of(self.keys(), self.items());
        }
        let keys = crate::text::copy_texts(&self.keys);
        let mut vals: Vec<V> = Vec::new();
        let mut i: usize = 0;
        while i < self.vals.len()
            invariant
                i <= self.vals@.len(),
                vals@.len() == i,
                forall|j: int| 0 <= j < i ==> cloned::<V>(self.vals@[j], #[trigger] vals@[j]),
            decreases self.vals@.len() - i,
        {
            vals.push(self.vals[i].clone());
            i += 1;
        }
        let copy = Table { keys, vals };
        proof {
            lemma_map_of(copy.keys(), copy.items());
            assert(copy@.dom() =~= self@.dom());
            assert forall|k: Seq<char>| #[trigger] self@.contains_key(k) implies cloned::<V>(
                self@[k],
                copy@[k],
            ) by {
                let j: int = self.keys().index_of(k);
                assert(self.keys().to_set().contains(k));
                assert(self.keys()[j] == k);
                assert(self.items()[j] == self@[self.keys()[j]]);
                assert(copy.items()[j] == copy@[copy.keys()[j]]);
            }
        }
        copy
    }
}

} // verus!
