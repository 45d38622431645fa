//! The values that a template is rendered with, by key.

use vstd::prelude::*;

verus! {

/// The texts of a list of keys with their values, in order.
pub open spec fn pair_texts(entries: Seq<(String, String)>) -> Seq<(Seq<char>, Seq<char>)> {
    entries.map_values(|entry: (String, String)| (entry.0@, entry.1@))
}

/// The map that results from giving each key its value, from the first pair
/// to the last: of two pairs with one key, the later one counts.
pub open spec fn as_map(pairs: Seq<(Seq<char>, Seq<char>)>) -> Map<Seq<char>, Seq<char>>
    decreases pairs.len(),
{
    if pairs.len() == 0 {
        Map::empty()
    } else {
        as_map(pairs.drop_last()).insert(pairs.last().0, pairs.last().1)
    }
}

/// No key occurs in two pairs.
pub open spec fn distinct_keys(pairs: Seq<(Seq<char>, Seq<char>)>) -> bool {
    forall|i: int, j: int| 0 <= i < j < pairs.len() ==> pairs[i].0 != pairs[j].0
}

/// The keys of the map are the keys of the pairs.
pub proof fn lemma_as_map_keys(pairs: Seq<(Seq<char>, Seq<char>)>, key: Seq<char>)
    ensures
        as_map(pairs).contains_key(key) <==> exists|i: int|
            0 <= i < pairs.len() && #[trigger] pairs[i].0 == key,
    decreases pairs.len(),
{
    if pairs.len() > 0 {
        let front = pairs.drop_last();
        lemma_as_map_keys(front, key);
        if as_map(pairs).contains_key(key) {
            if pairs.last().0 == key {
                assert(pairs[pairs.len() - 1].0 == key);
            } else {
                let i = choose|i: int| 0 <= i < front.len() && #[trigger] front[i].0 == key;
                assert(pairs[i].0 == key);
            }
        }
        if exists|i: int| 0 <= i < pairs.len() && #[trigger] pairs[i].0 == key {
            let i = choose|i: int| 0 <= i < pairs.len() && #[trigger] pairs[i].0 == key;
            if i < pairs.len() - 1 {
                assert(front[i].0 == key);
            }
        }
    }
}

/// Where no key occurs twice, the map gives each key the value it is paired
/// with.
pub proof fn lemma_as_map_value(pairs: Seq<(Seq<char>, Seq<char>)>, i: int)
    requires
        distinct_keys(pairs),
        0 <= i < pairs.len(),
    ensures
        as_map(pairs).contains_key(pairs[i].0),
        as_map(pairs)[pairs[i].0] == pairs[i].1,
    decreases pairs.len(),
{
    if i < pairs.len() - 1 {
        let front = pairs.drop_last();
        assert forall|a: int, b: int| 0 <= a < b < front.len() implies front[a].0 != front[b].0 by {
            assert(pairs[a].0 != pairs[b].0);
        }
        lemma_as_map_value(front, i);
        assert(front[i] == pairs[i]);
        assert(pairs[i].0 != pairs[pairs.len() - 1].0);
    }
}

/// Where no key occurs twice, a new value in one pair is a new value for
/// that pair's key.
pub proof fn lemma_as_map_update(pairs: Seq<(Seq<char>, Seq<char>)>, i: int, value: Seq<char>)
    requires
        distinct_keys(pairs),
        0 <= i < pairs.len(),
    ensures
        as_map(pairs.update(i, (pairs[i].0, value))) == as_map(pairs).insert(pairs[i].0, value),
    decreases pairs.len(),
{
    let updated = pairs.update(i, (pairs[i].0, value));
    let front = pairs.drop_last();
    if i == pairs.len() - 1 {
        assert(updated.drop_last() =~= front);
        assert(as_map(updated) =~= as_map(pairs).insert(pairs[i].0, value));
    } else {
        assert forall|a: int, b: int| 0 <= a < b < front.len() implies front[a].0 != front[b].0 by {
            assert(pairs[a].0 != pairs[b].0);
        }
        lemma_as_map_update(front, i, value);
        assert(front[i] == pairs[i]);
        assert(updated.drop_last() =~= front.update(i, (pairs[i].0, value)));
        assert(updated.last() == pairs.last());
        assert(pairs[i].0 != pairs[pairs.len() - 1].0);
        assert(as_map(updated) =~= as_map(pairs).insert(pairs[i].0, value));
    }
}

/// Template context values by key. A key occurs once.
#[derive(Debug)]
pub struct Context {
    entries: Vec<(String, String)>,
}

impl View for Context {
    type V = Map<Seq<char>, Seq<char>>;

    closed spec fn view(&self) -> Map<Seq<char>, Seq<char>> {
        as_map(pair_texts(self.entries@))
    }
}

impl Context {
    #[verifier::type_invariant]
    closed spec fn keys_occur_once(self) -> bool {
        distinct_keys(pair_texts(self.entries@))
    }

    /// The keys with their values, in the order in which [`Context::entries`]
    /// hands them out.
    pub closed spec fn pairs(&self) -> Seq<(Seq<char>, Seq<char>)> {
        pair_texts(self.entries@)
    }

    /// The empty context.
    pub fn new() -> (r: Self)
        ensures
            r@ == Map::<Seq<char>, Seq<char>>::empty(),
            r.pairs() == Seq::<(Seq<char>, Seq<char>)>::empty(),
    {
        let r = Context { entries: Vec::new() };
        assert(r.pairs() =~= Seq::<(Seq<char>, Seq<char>)>::empty());
        r
    }

    /// The place of `key` among the entries, if it has one.
    fn position(&self, key: &String) -> (r: Option<usize>)
        ensures
            match r {
                Some(i) => i < self.pairs().len() && self.pairs()[i as int].0 == key@,
                None => forall|i: int| 0 <= i < self.pairs().len() ==> self.pairs()[i].0 != key@,
            },
    {
        let mut i: usize = 0;
        while i < self.entries.len()
            invariant
                i <= self.entries.len(),
                forall|j: int| 0 <= j < i ==> self.pairs()[j].0 != key@,
            decreases self.entries.len() - i,
        {
            if self.entries[i].0 == *key {
                return Some(i);
            }
            i += 1;
        }
        None
    }

    /// The value of `key`, if it has one.
    pub fn get(&self, key: &str) -> (r: Option<&String>)
        ensures
            match r {
                Some(value) => self@.contains_key(key@) && self@[key@] == value@,
                None => !self@.contains_key(key@),
            },
    {
        let owned = key.to_owned();
        proof {
            use_type_invariant(self);
            lemma_as_map_keys(self.pairs(), key@);
        }
        match self.position(&owned) {
            Some(i) => {
                proof {
                    lemma_as_map_value(self.pairs(), i as int);
                }
                Some(&self.entries[i].1)
            },
            None => None,
        }
    }

    /// Gives `key` the value `value`, in place of any value it had.
    pub fn insert(&mut self, key: String, value: String)
        ensures
            final(self)@ == old(self)@.insert(key@, value@),
    {
        proof {
            use_type_invariant(&*self);
        }
        let ghost before = self.pairs();
        let position = self.position(&key);
        let mut entries: Vec<(String, String)> = Vec::new();
        assert(pair_texts(entries@) =~= Seq::<(Seq<char>, Seq<char>)>::empty());
        core::mem::swap(&mut self.entries, &mut entries);
        match position {
            Some(i) => {
                proof {
                    lemma_as_map_update(before, i as int, value@);
                }
                entries.set(i, (key, value));
                assert(pair_texts(entries@) =~= before.update(i as int, (key@, value@)));
            },
            None => {
                entries.push((key, value));
                assert(pair_texts(entries@) =~= before.push((key@, value@)));
                assert(pair_texts(entries@).drop_last() =~= before);
            },
        }
        core::mem::swap(&mut self.entries, &mut entries);
    }

    /// The keys with their values, each key once, in no particular order.
    pub fn entries(&self) -> (r: &Vec<(String, String)>)
        ensures
            pair_texts(r@) == self.pairs(),
            distinct_keys(self.pairs()),
            as_map(self.pairs()) == self@,
    {
        proof {
            use_type_invariant(self);
        }
        &self.entries
    }

    /// Gives every key of `other` the value it has there.
    pub fn extend(&mut self, other: &Context)
        ensures
            final(self)@ == old(self)@.union_prefer_right(other@),
    {
        let mut i: usize = 0;
        assert(other.pairs().subrange(0, 0) =~= Seq::<(Seq<char>, Seq<char>)>::empty());
        assert(self@ =~= old(self)@.union_prefer_right(as_map(other.pairs().subrange(0, 0))));
        while i < other.entries.len()
            invariant
                i <= other.entries.len(),
                self@ == old(self)@.union_prefer_right(as_map(other.pairs().subrange(0, i as int))),
            decreases other.entries.len() - i,
        {
            let ghost before = self@;
            let ghost done = as_map(other.pairs().subrange(0, i as int));
            self.insert(other.entries[i].0.clone(), other.entries[i].1.clone());
            proof {
                let next = other.pairs().subrange(0, i + 1);
                assert(next.drop_last() =~= other.pairs().subrange(0, i as int));
                assert(next.last() == other.pairs()[i as int]);
                assert(self@ =~= old(self)@.union_prefer_right(as_map(next)));
            }
            i += 1;
        }
        assert(other.pairs().subrange(0, i as int) =~= other.pairs());
    }

    /// This context with the values of `overrides` on top: a key of both has
    /// the value that `overrides` gives it.
    pub fn merged(&self, overrides: &Context) -> (r: Context)
        ensures
            r@ == self@.union_prefer_right(overrides@),
    {
        let mut r = Context::new();
        r.extend(self);
        r.extend(overrides);
        assert(r@ =~= self@.union_prefer_right(overrides@));
        r
    }
}

} // verus!
