//! Finite sets of record and enum ids, kept as duplicate-free vectors.

use vstd::prelude::*;

use crate::ids::{EnumId, RecordId};

verus! {

/// A set of record ids.
pub struct RecordIdSet {
    ids: Vec<RecordId>,
}

impl View for RecordIdSet {
    type V = Set<Seq<char>>;

    closed spec fn view(&self) -> Set<Seq<char>> {
        self.ids@.map_values(|id: RecordId| id@).to_set()
    }
}

impl RecordIdSet {
    /// The empty set.
    pub fn new() -> (res: Self)
        ensures
            res@ == Set::<Seq<char>>::empty(),
    {
        let res = RecordIdSet { ids: Vec::new() };
        assert(res@ =~= Set::<Seq<char>>::empty());
        res
    }

    /// Whether `id` is a member.
    pub fn contains(&self, id: &RecordId) -> (res: bool)
        ensures
            res == self@.contains(id@),
    {
        let ghost keys = self.ids@.map_values(|x: RecordId| x@);
        let mut i: usize = 0;
        while i < self.ids.len()
            invariant
                i <= self.ids@.len(),
                keys == self.ids@.map_values(|x: RecordId| x@),
                forall|j: int| 0 <= j < i ==> keys[j] != id@,
            decreases self.ids.len() - i,
        {
            if self.ids[i].same_as(id) {
                assert(keys[i as int] == id@);
                return true;
            }
            i = i + 1;
        }
        assert(!keys.contains(id@));
        false
    }

    /// Adds `id`; a member already present is left as it is.
    pub fn insert(&mut self, id: RecordId)
        ensures
            final(self)@ == old(self)@.insert(id@),
    {
        if !self.contains(&id) {
            let ghost old_keys = self.ids@.map_values(|x: RecordId| x@);
            let ghost v = id@;
            self.ids.push(id);
            assert(self.ids@.map_values(|x: RecordId| x@) =~= old_keys.push(v));
            proof { old_keys.lemma_push_to_set_commute(v); }
        } else {
            assert(self@.insert(id@) =~= self@);
        }
    }
}

/// A set of enum ids.
pub struct EnumIdSet {
    ids: Vec<EnumId>,
}

impl View for EnumIdSet {
    type V = Set<Seq<char>>;

    closed spec fn view(&self) -> Set<Seq<char>> {
        self.ids@.map_values(|id: EnumId| id@).to_set()
    }
}

impl EnumIdSet {
    /// The empty set.
    pub fn new() -> (res: Self)
        ensures
            res@ == Set::<Seq<char>>::empty(),
    {
        let res = EnumIdSet { ids: Vec::new() };
        assert(res@ =~= Set::<Seq<char>>::empty());
        res
    }

    /// Whether `id` is a member.
    pub fn contains(&self, id: &EnumId) -> (res: bool)
        ensures
            res == self@.contains(id@),
    {
        let ghost keys = self.ids@.map_values(|x: EnumId| x@);
        let mut i: usize = 0;
        while i < self.ids.len()
            invariant
                i <= self.ids@.len(),
                keys == self.ids@.map_values(|x: EnumId| x@),
                forall|j: int| 0 <= j < i ==> keys[j] != id@,
            decreases self.ids.len() - i,
        {
            if self.ids[i].same_as(id) {
                assert(keys[i as int] == id@);
                return true;
            }
            i = i + 1;
        }
        assert(!keys.contains(id@));
        false
    }

    /// Adds `id`; a member already present is left as it is.
    pub fn insert(&mut self, id: EnumId)
        ensures
            final(self)@ == old(self)@.insert(id@),
    {
        if !self.contains(&id) {
            let ghost old_keys = self.ids@.map_values(|x: EnumId| x@);
            let ghost v = id@;
            self.ids.push(id);
            assert(self.ids@.map_values(|x: EnumId| x@) =~= old_keys.push(v));
            proof { old_keys.lemma_push_to_set_commute(v); }
        } else {
            assert(self@.insert(id@) =~= self@);
        }
    }
}

/// A set of names.
pub struct NameSet {
    names: Vec<String>,
}

impl View for NameSet {
    type V = Set<Seq<char>>;

    closed spec fn view(&self) -> Set<Seq<char>> {
        self.names@.map_values(|n: String| n@).to_set()
    }
}

impl NameSet {
    /// The empty set.
    pub fn new() -> (res: Self)
        ensures
            res@ == Set::<Seq<char>>::empty(),
    {
        let res = NameSet { names: Vec::new() };
        assert(res@ =~= Set::<Seq<char>>::empty());
        res
    }

    /// Whether `name` is a member.
    pub fn contains(&self, name: &str) -> (res: bool)
        ensures
            res == self@.contains(name@),
    {
        let ghost keys = self.names@.map_values(|x: String| x@);
        let mut i: usize = 0;
        while i < self.names.len()
            invariant
                i <= self.names@.len(),
                keys == self.names@.map_values(|x: String| x@),
                forall|j: int| 0 <= j < i ==> keys[j] != name@,
            decreases self.names.len() - i,
        {
            if crate::naming::str_eq(self.names[i].as_str(), name) {
                assert(keys[i as int] == name@);
                return true;
            }
            i = i + 1;
        }
        assert(!keys.contains(name@));
        false
    }

    /// Adds `name`; a member already present is left as it is.
    pub fn insert(&mut self, name: String)
        ensures
            final(self)@ == old(self)@.insert(name@),
    {
        if !self.contains(name.as_str()) {
            let ghost old_keys = self.names@.map_values(|x: String| x@);
            let ghost v = name@;
            self.names.push(name);
            assert(self.names@.map_values(|x: String| x@) =~= old_keys.push(v));
            proof { old_keys.lemma_push_to_set_commute(v); }
        } else {
            assert(self@.insert(name@) =~= self@);
        }
    }
}

} // verus!
