//! The table of registered lobbies: which socket hosts the lobby of a given name.

use vstd::prelude::*;

verus! {

/// Whether no two pairs carry the same name.
pub open spec fn distinct_names(pairs: Seq<(String, u16)>) -> bool {
    forall|i: int, j: int|
        0 <= i < j < pairs.len() ==> (#[trigger] pairs[i]).0@ != (#[trigger] pairs[j]).0@
}

/// The map that a list of name and socket pairs writes down.
pub open spec fn pairs_map(pairs: Seq<(String, u16)>) -> Map<Seq<char>, u16>
    decreases pairs.len(),
{
    if pairs.len() == 0 {
        Map::empty()
    } else {
        pairs_map(pairs.drop_last()).insert(pairs.last().0@, pairs.last().1)
    }
}

/// Where names are distinct, the map holds the listed pairs and no others.
proof fn lemma_pairs_map(pairs: Seq<(String, u16)>)
    requires
        distinct_names(pairs),
    ensures
        forall|i: int|
            0 <= i < pairs.len() ==> pairs_map(pairs).contains_key((#[trigger] pairs[i]).0@)
                && pairs_map(pairs)[pairs[i].0@] == pairs[i].1,
        forall|name: Seq<char>| #[trigger]
            pairs_map(pairs).contains_key(name) ==> exists|i: int|
                0 <= i < pairs.len() && (#[trigger] pairs[i]).0@ == name,
    decreases pairs.len(),
{
    if pairs.len() > 0 {
        let rest = pairs.drop_last();
        let last = pairs.last();
        assert forall|i: int, j: int| 0 <= i < j < rest.len() implies (#[trigger] rest[i]).0@ != (
        #[trigger] rest[j]).0@ by {
            assert(rest[i] == pairs[i] && rest[j] == pairs[j]);
        }
        lemma_pairs_map(rest);
        assert forall|i: int| 0 <= i < pairs.len() implies pairs_map(pairs).contains_key(
            (#[trigger] pairs[i]).0@,
        ) && pairs_map(pairs)[pairs[i].0@] == pairs[i].1 by {
            if i < pairs.len() - 1 {
                assert(rest[i] == pairs[i]);
                assert(pairs[i].0@ != pairs[pairs.len() - 1].0@);
            }
        }
        assert forall|name: Seq<char>| #[trigger] pairs_map(pairs).contains_key(name) implies exists|
            i: int,
        | 0 <= i < pairs.len() && (#[trigger] pairs[i]).0@ == name by {
            if name == last.0@ {
                assert(pairs[pairs.len() - 1].0@ == name);
            } else {
                assert(pairs_map(rest).contains_key(name));
                let i = choose|i: int| 0 <= i < rest.len() && (#[trigger] rest[i]).0@ == name;
                assert(pairs[i].0@ == name);
            }
        }
    }
}

/// Taking out the pair at `at` takes its name out of the map.
proof fn lemma_pairs_map_remove(pairs: Seq<(String, u16)>, at: int)
    requires
        distinct_names(pairs),
        0 <= at < pairs.len(),
    ensures
        distinct_names(pairs.remove(at)),
        pairs_map(pairs.remove(at)) == pairs_map(pairs).remove(pairs[at].0@),
{
    let rest = pairs.remove(at);
    assert forall|i: int| 0 <= i < rest.len() implies #[trigger] rest[i] == pairs[if i < at {
        i
    } else {
        i + 1
    }] by {}
    assert forall|i: int, j: int| 0 <= i < j < rest.len() implies (#[trigger] rest[i]).0@ != (
    #[trigger] rest[j]).0@ by {
        let i0 = if i < at { i } else { i + 1 };
        let j0 = if j < at { j } else { j + 1 };
        assert(pairs[i0].0@ != pairs[j0].0@);
    }
    lemma_pairs_map(pairs);
    lemma_pairs_map(rest);
    let full = pairs_map(pairs).remove(pairs[at].0@);
    assert forall|name: Seq<char>|
        #![trigger pairs_map(rest).dom().contains(name)]
        #![trigger full.dom().contains(name)]
        pairs_map(rest).dom().contains(name) == full.dom().contains(name) && (full.dom().contains(
            name,
        ) ==> pairs_map(rest)[name] == full[name]) by {
        if pairs_map(rest).contains_key(name) {
            let i = choose|i: int| 0 <= i < rest.len() && (#[trigger] rest[i]).0@ == name;
            let i0 = if i < at { i } else { i + 1 };
            assert(rest[i] == pairs[i0]);
            if i0 < at {
                assert(pairs[i0].0@ != pairs[at].0@);
            } else {
                assert(pairs[at].0@ != pairs[i0].0@);
            }
            assert(full.contains_key(name));
        }
        if full.contains_key(name) {
            assert(pairs_map(pairs).contains_key(name));
            let i = choose|i: int| 0 <= i < pairs.len() && (#[trigger] pairs[i]).0@ == name;
            let i1 = if i < at { i } else { i - 1 };
            assert(rest[i1] == pairs[i]);
        }
    }
    assert(pairs_map(rest) =~= full);
}

/// The registered lobbies, each with the number of the socket that hosts it. A name occurs once.
#[derive(Debug)]
pub struct LobbyNames {
    entries: Vec<(String, u16)>,
}

impl View for LobbyNames {
    type V = Map<Seq<char>, u16>;

    closed spec fn view(&self) -> Map<Seq<char>, u16> {
        pairs_map(self.entries@)
    }
}

impl LobbyNames {
    #[verifier::type_invariant]
    spec fn names_are_distinct(self) -> bool {
        distinct_names(self.entries@)
    }

    /// An empty table.
    pub fn new() -> (names: Self)
        ensures
            names@ == Map::<Seq<char>, u16>::empty(),
    {
        LobbyNames { entries: Vec::new() }
    }

    /// The position of `name` in the list, or the length of the list where it is not there.
    fn position(&self, name: &String) -> (at: usize)
        ensures
            at <= self.entries@.len(),
            at < self.entries@.len() ==> self.entries@[at as int].0@ == name@,
            at < self.entries@.len() <==> self@.contains_key(name@),
    {
        proof {
            use_type_invariant(self);
            lemma_pairs_map(self.entries@);
        }
        let mut at: usize = 0;
        while at < self.entries.len()
            invariant
                at <= self.entries@.len(),
                forall|i: int| 0 <= i < at ==> (#[trigger] self.entries@[i]).0@ != name@,
                forall|i: int|
                    0 <= i < self.entries@.len() ==> pairs_map(self.entries@).contains_key(
                        (#[trigger] self.entries@[i]).0@,
                    ),
            decreases self.entries@.len() - at,
        {
            if self.entries[at].0.eq(name) {
                assert(pairs_map(self.entries@).contains_key(self.entries@[at as int].0@));
                return at;
            }
            at = at + 1;
        }
        at
    }

    /// Whether a lobby of this name is registered.
    pub fn contains_key(&self, name: &String) -> (found: bool)
        ensures
            found == self@.contains_key(name@),
    {
        self.position(name) < self.entries.len()
    }

    /// Registers `name` with `socket_idx`, in place of what the name stood for before.
    pub fn insert(&mut self, name: String, socket_idx: u16)
        ensures
            final(self)@ == old(self)@.insert(name@, socket_idx),
    {
        self.remove(&name);
        proof {
            use_type_invariant(&*self);
            lemma_pairs_map(self.entries@);
        }
        let ghost before = self.entries@;
        let mut entries: Vec<(String, u16)> = Vec::new();
        std::mem::swap(&mut entries, &mut self.entries);
        entries.push((name, socket_idx));
        assert(entries@.drop_last() == before);
        assert(distinct_names(entries@));
        self.entries = entries;
    }

    /// Takes `name` out of the table, where it is there.
    pub fn remove(&mut self, name: &String)
        ensures
            final(self)@ == old(self)@.remove(name@),
    {
        let at: usize = self.position(name);
        if at < self.entries.len() {
            proof {
                use_type_invariant(&*self);
                lemma_pairs_map_remove(self.entries@, at as int);
            }
            let mut entries: Vec<(String, u16)> = Vec::new();
            std::mem::swap(&mut entries, &mut self.entries);
            entries.remove(at);
            self.entries = entries;
        } else {
            assert(self@.remove(name@) =~= self@);
        }
    }

    /// A copy of the table.
    pub fn copy(&self) -> (names: Self)
        ensures
            names@ == self@,
    {
        proof {
            use_type_invariant(self);
        }
        let mut entries: Vec<(String, u16)> = Vec::new();
        let mut i: usize = 0;
        while i < self.entries.len()
            invariant
                i <= self.entries@.len(),
                entries@ == self.entries@.take(i as int),
            decreases self.entries@.len() - i,
        {
            let pair = &self.entries[i];
            entries.push((pair.0.clone(), pair.1));
            i = i + 1;
        }
        assert(entries@ == self.entries@);
        LobbyNames { entries }
    }

    /// The registered lobbies as a list, in no particular order.
    pub fn entries(&self) -> (pairs: &Vec<(String, u16)>)
        ensures
            distinct_names(pairs@),
            pairs_map(pairs@) == self@,
            forall|i: int, j: int|
                0 <= i < j < pairs@.len() ==> (#[trigger] pairs@[i]).0@ != (#[trigger] pairs@[j]).0@,
            forall|i: int|
                0 <= i < pairs@.len() ==> self@.contains_key((#[trigger] pairs@[i]).0@)
                    && self@[pairs@[i].0@] == pairs@[i].1,
            forall|name: Seq<char>| #[trigger]
                self@.contains_key(name) ==> exists|i: int|
                    0 <= i < pairs@.len() && (#[trigger] pairs@[i]).0@ == name,
    {
        proof {
            use_type_invariant(self);
            lemma_pairs_map(self.entries@);
        }
        &self.entries
    }
}

} // verus!
