//! The registry of exported classes: the module-qualified paths of the
//! types that have an exported `impl`, and the bare names that identify
//! exactly one of them.

use vstd::prelude::*;
use vstd::string::*;

use crate::naming::str_eq;

verus! {

/// The texts of the segments of a path.
pub open spec fn seg_views(p: Seq<String>) -> Seq<Seq<char>> {
    p.map_values(|s: String| s@)
}

/// The texts of a sequence of paths.
pub open spec fn path_views(ps: Seq<Vec<String>>) -> Seq<Seq<Seq<char>>> {
    ps.map_values(|p: Vec<String>| seg_views(p@))
}

/// How many of the paths end in the segment `name`.
pub open spec fn ending_count(ps: Seq<Seq<Seq<char>>>, name: Seq<char>) -> nat
    decreases ps.len(),
{
    if ps.len() == 0 {
        0
    } else {
        ending_count(ps.drop_last(), name) + if ps.last().len() > 0 && ps.last().last() == name {
            1nat
        } else {
            0nat
        }
    }
}

/// Whether `suffix` is a final run of segments of `path`.
pub open spec fn ends_with_path(path: Seq<Seq<char>>, suffix: Seq<Seq<char>>) -> bool {
    suffix.len() <= path.len() && path.subrange(path.len() - suffix.len(), path.len() as int) == suffix
}

/// The registry of exported classes.
pub struct ExportedClassRegistry {
    paths: Vec<Vec<String>>,
    unique_name_paths: Vec<(String, Vec<String>)>,
}

impl ExportedClassRegistry {
    /// The registered qualified paths, each once.
    pub closed spec fn registered(&self) -> Seq<Seq<Seq<char>>> {
        path_views(self.paths@)
    }

    /// The bare names recorded as unique, each with its qualified path.
    pub closed spec fn unique_entries(&self) -> Seq<(Seq<char>, Seq<Seq<char>>)> {
        self.unique_name_paths@.map_values(|e: (String, Vec<String>)| (e.0@, seg_views(e.1@)))
    }

    /// No path is registered twice and no name is recorded twice.
    pub open spec fn wf(&self) -> bool {
        &&& self.registered().no_duplicates()
        &&& forall|i: int, j: int|
            0 <= i < j < self.unique_entries().len() ==> (#[trigger] self.unique_entries()[i]).0 != (#[trigger] self.unique_entries()[j]).0
    }

    /// The recorded names are exactly those that end one registered path
    /// and no other, each with that path.
    pub open spec fn finalized(&self) -> bool {
        &&& forall|i: int|
            0 <= i < self.unique_entries().len() ==> self.registered().contains(#[trigger] self.unique_entries()[i].1)
                && self.unique_entries()[i].1.len() > 0 && self.unique_entries()[i].1.last() == self.unique_entries()[i].0
                && ending_count(self.registered(), self.unique_entries()[i].0) == 1
        &&& forall|name: Seq<char>|
            #[trigger] ending_count(self.registered(), name) == 1 ==> exists|i: int|
                0 <= i < self.unique_entries().len() && self.unique_entries()[i].0 == name
    }

    /// An empty registry.
    pub fn new() -> (res: Self)
        ensures
            res.wf(),
            res.finalized(),
            res.registered() == Seq::<Seq<Seq<char>>>::empty(),
    {
        let res = ExportedClassRegistry { paths: Vec::new(), unique_name_paths: Vec::new() };
        assert(res.registered() =~= Seq::<Seq<Seq<char>>>::empty());
        res
    }

    /// Registers the qualified path of an exported class; a path already
    /// registered stays once. The unique names are left for
    /// [`Self::finalize_unique_names`] to recompute.
    pub fn register(&mut self, qualified: Vec<String>)
        requires
            old(self).wf(),
        ensures
            final(self).wf(),
            final(self).registered().to_set() == old(self).registered().to_set().insert(seg_views(qualified@)),
            final(self).unique_entries() == old(self).unique_entries(),
    {
        let ghost q = seg_views(qualified@);
        let mut i: usize = 0;
        while i < self.paths.len()
            invariant
                i <= self.paths@.len(),
                q == seg_views(qualified@),
                self.wf(),
                self.registered() == old(self).registered(),
                self.unique_entries() == old(self).unique_entries(),
                forall|k: int| 0 <= k < i ==> path_views(self.paths@)[k] != q,
            decreases self.paths.len() - i,
        {
            if same_path(&self.paths[i], &qualified) {
                assert(path_views(self.paths@)[i as int] == q);
                assert(self.registered().to_set().insert(q) =~= self.registered().to_set());
                return;
            }
            i = i + 1;
        }
        let ghost before = self.registered();
        self.paths.push(qualified);
        assert(self.registered() =~= before.push(q));
        proof {
            before.lemma_push_to_set_commute(q);
            assert(!before.contains(q));
            assert forall|a: int, b: int| 0 <= a < b < self.registered().len() implies self.registered()[a] != self.registered()[b] by {
                if b < before.len() {
                    assert(before.no_duplicates());
                } else {
                    assert(self.registered()[b] == q);
                    assert(self.registered()[a] == before[a]);
                }
            }
        }
    }

    /// Records every bare name that ends exactly one registered path.
    pub fn finalize_unique_names(&mut self)
        requires
            old(self).wf(),
        ensures
            final(self).wf(),
            final(self).finalized(),
            final(self).registered() == old(self).registered(),
    {
        let ghost reg = self.registered();
        let mut unique: Vec<(String, Vec<String>)> = Vec::new();
        let mut i: usize = 0;
        while i < self.paths.len()
            invariant
                reg == path_views(self.paths@),
                i <= self.paths@.len(),
                unique@.map_values(|e: (String, Vec<String>)| (e.0@, seg_views(e.1@))) == unique_prefix(reg, i as int),
            decreases self.paths.len() - i,
        {
            let path = &self.paths[i];
            assert(reg[i as int] == seg_views(path@));
            if path.len() > 0 {
                let name = &path[path.len() - 1];
                let count = count_ending(&self.paths, name.as_str());
                if count == 1 {
                    let ghost before = unique@.map_values(|e: (String, Vec<String>)| (e.0@, seg_views(e.1@)));
                    let entry = (name.clone(), path.clone());
                    let ghost v = (entry.0@, seg_views(entry.1@));
                    unique.push(entry);
                    assert(unique@.map_values(|e: (String, Vec<String>)| (e.0@, seg_views(e.1@))) =~= before.push(v));
                }
            }
            i = i + 1;
        }
        self.unique_name_paths = unique;
        proof {
            let n = reg.len() as int;
            assert(self.registered() == reg);
            assert(self.unique_entries() == unique_prefix(reg, n));
            lemma_prefix_distinct(reg, n);
            assert forall|a: int| 0 <= a < self.unique_entries().len() implies self.registered().contains(
                #[trigger] self.unique_entries()[a].1,
            ) && self.unique_entries()[a].1.len() > 0 && self.unique_entries()[a].1.last() == self.unique_entries()[a].0 && ending_count(
                self.registered(),
                self.unique_entries()[a].0,
            ) == 1 by {
                let k = lemma_prefix_entry(reg, n, a);
                assert(reg[k] == reg[k]);
            }
            assert forall|name: Seq<char>| #[trigger] ending_count(self.registered(), name) == 1 implies exists|a: int|
                0 <= a < self.unique_entries().len() && self.unique_entries()[a].0 == name by {
                let k = lemma_count_witness(reg, name);
                let a = lemma_prefix_complete(reg, n, k);
            }
        }
    }

    /// Whether `segments` names an exported class: a single segment
    /// through the recorded unique names, a longer path when a registered
    /// path is a final run of it.
    pub fn lookup_qualified(&self, segments: &Vec<String>) -> (res: bool)
        requires
            self.wf(),
        ensures
            segments@.len() == 1 ==> res == exists|a: int|
                0 <= a < self.unique_entries().len() && self.unique_entries()[a].0 == segments@[0]@ && self.registered().contains(
                    self.unique_entries()[a].1,
                ),
            segments@.len() != 1 ==> res == exists|k: int|
                0 <= k < self.registered().len() && ends_with_path(seg_views(segments@), #[trigger] self.registered()[k]),
    {
        let ghost reg = self.registered();
        let ghost entries = self.unique_entries();
        if segments.len() == 1 {
            let name = segments[0].as_str();
            let mut a: usize = 0;
            while a < self.unique_name_paths.len()
                invariant
                    entries == self.unique_entries(),
                    a <= entries.len(),
                    self.wf(),
                    segments@.len() == 1,
                    name@ == segments@[0]@,
                    forall|b: int| 0 <= b < a ==> entries[b].0 != name@,
                decreases self.unique_name_paths.len() - a,
            {
                if str_eq(self.unique_name_paths[a].0.as_str(), name) {
                    let found = self.contains_path(&self.unique_name_paths[a].1);
                    proof {
                        assert(entries[a as int].0 == name@);
                        assert forall|b: int| 0 <= b < entries.len() && entries[b].0 == name@ implies b == a by {
                            if b != a {
                                if b < a {
                                    assert(entries[b].0 != entries[a as int].0);
                                } else {
                                    assert(entries[a as int].0 != entries[b].0);
                                }
                            }
                        }
                    }
                    return found;
                }
                a = a + 1;
            }
            return false;
        }
        let mut k: usize = 0;
        while k < self.paths.len()
            invariant
                reg == self.registered(),
                segments@.len() != 1,
                k <= reg.len(),
                forall|j: int| 0 <= j < k ==> !ends_with_path(seg_views(segments@), #[trigger] reg[j]),
            decreases self.paths.len() - k,
        {
            if path_ends_with(segments, &self.paths[k]) {
                assert(ends_with_path(seg_views(segments@), reg[k as int]));
                return true;
            }
            k = k + 1;
        }
        false
    }

    fn contains_path(&self, path: &Vec<String>) -> (res: bool)
        ensures
            res == self.registered().contains(seg_views(path@)),
    {
        let ghost reg = self.registered();
        let mut k: usize = 0;
        while k < self.paths.len()
            invariant
                reg == self.registered(),
                k <= reg.len(),
                forall|j: int| 0 <= j < k ==> reg[j] != seg_views(path@),
            decreases self.paths.len() - k,
        {
            if same_path(&self.paths[k], path) {
                assert(reg[k as int] == seg_views(path@));
                return true;
            }
            k = k + 1;
        }
        false
    }
}

/// Whether two paths have the same segments.
fn same_path(a: &Vec<String>, b: &Vec<String>) -> (res: bool)
    ensures
        res == (seg_views(a@) == seg_views(b@)),
{
    if a.len() != b.len() {
        proof {
            if seg_views(a@) == seg_views(b@) {
                assert(seg_views(a@).len() == seg_views(b@).len());
            }
        }
        return false;
    }
    let mut i: usize = 0;
    while i < a.len()
        invariant
            a@.len() == b@.len(),
            i <= a@.len(),
            forall|j: int| 0 <= j < i ==> a@[j]@ == b@[j]@,
        decreases a.len() - i,
    {
        if !str_eq(a[i].as_str(), b[i].as_str()) {
            proof {
                if seg_views(a@) == seg_views(b@) {
                    assert(seg_views(a@)[i as int] == seg_views(b@)[i as int]);
                }
            }
            return false;
        }
        i = i + 1;
    }
    assert(seg_views(a@) =~= seg_views(b@));
    true
}

/// Whether `suffix` is a final run of segments of `path`.
fn path_ends_with(path: &Vec<String>, suffix: &Vec<String>) -> (res: bool)
    ensures
        res == ends_with_path(seg_views(path@), seg_views(suffix@)),
{
    let n = path.len();
    let m = suffix.len();
    if m > n {
        return false;
    }
    let offset = n - m;
    let mut i: usize = 0;
    while i < m
        invariant
            n == path@.len(),
            m == suffix@.len(),
            offset == n - m,
            i <= m,
            forall|j: int| 0 <= j < i ==> path@[offset + j]@ == suffix@[j]@,
        decreases m - i,
    {
        if !str_eq(path[offset + i].as_str(), suffix[i].as_str()) {
            proof {
                if ends_with_path(seg_views(path@), seg_views(suffix@)) {
                    assert(seg_views(path@).subrange(offset as int, n as int)[i as int] == seg_views(suffix@)[i as int]);
                }
            }
            return false;
        }
        i = i + 1;
    }
    assert(seg_views(path@).subrange(offset as int, n as int) =~= seg_views(suffix@));
    true
}

/// How many of the paths end in `name`; see [`ending_count`].
fn count_ending(paths: &Vec<Vec<String>>, name: &str) -> (res: usize)
    ensures
        res == ending_count(path_views(paths@), name@),
{
    let ghost ps = path_views(paths@);
    let mut count: usize = 0;
    let mut i: usize = 0;
    while i < paths.len()
        invariant
            ps == path_views(paths@),
            i <= paths@.len(),
            count == ending_count(ps.take(i as int), name@),
            count <= i,
        decreases paths.len() - i,
    {
        let p = &paths[i];
        assert(ps.take(i + 1).drop_last() =~= ps.take(i as int));
        assert(ps.take(i + 1).last() == seg_views(p@));
        if p.len() > 0 && str_eq(p[p.len() - 1].as_str(), name) {
            count = count + 1;
        }
        i = i + 1;
    }
    assert(ps.take(paths@.len() as int) =~= ps);
    count
}

/// The names that end exactly one of the paths, with their paths, taken
/// from the first `n` paths in order.
pub open spec fn unique_prefix(reg: Seq<Seq<Seq<char>>>, n: int) -> Seq<(Seq<char>, Seq<Seq<char>>)>
    decreases n,
{
    if n <= 0 {
        Seq::empty()
    } else {
        let rest = unique_prefix(reg, n - 1);
        let p = reg[n - 1];
        if p.len() > 0 && ending_count(reg, p.last()) == 1 {
            rest.push((p.last(), p))
        } else {
            rest
        }
    }
}

proof fn lemma_prefix_entry(reg: Seq<Seq<Seq<char>>>, n: int, a: int) -> (k: int)
    requires
        0 <= n <= reg.len(),
        0 <= a < unique_prefix(reg, n).len(),
    ensures
        0 <= k < n,
        unique_prefix(reg, n)[a] == (reg[k].last(), reg[k]),
        reg[k].len() > 0,
        ending_count(reg, reg[k].last()) == 1,
    decreases n,
{
    let rest = unique_prefix(reg, n - 1);
    if a < rest.len() {
        lemma_prefix_entry(reg, n - 1, a)
    } else {
        n - 1
    }
}

proof fn lemma_prefix_complete(reg: Seq<Seq<Seq<char>>>, n: int, k: int) -> (a: int)
    requires
        0 <= k < n <= reg.len(),
        reg[k].len() > 0,
        ending_count(reg, reg[k].last()) == 1,
    ensures
        0 <= a < unique_prefix(reg, n).len(),
        unique_prefix(reg, n)[a].0 == reg[k].last(),
    decreases n,
{
    if k < n - 1 {
        lemma_prefix_complete(reg, n - 1, k)
    } else {
        unique_prefix(reg, n - 1).len() as int
    }
}

proof fn lemma_prefix_distinct(reg: Seq<Seq<Seq<char>>>, n: int)
    requires
        0 <= n <= reg.len(),
    ensures
        forall|a: int, b: int|
            0 <= a < b < unique_prefix(reg, n).len() ==> (#[trigger] unique_prefix(reg, n)[a]).0 != (#[trigger] unique_prefix(reg, n)[b]).0,
    decreases n,
{
    if n > 0 {
        lemma_prefix_distinct(reg, n - 1);
        let rest = unique_prefix(reg, n - 1);
        let p = reg[n - 1];
        if p.len() > 0 && ending_count(reg, p.last()) == 1 {
            assert forall|a: int, b: int| 0 <= a < b < unique_prefix(reg, n).len() implies (#[trigger] unique_prefix(reg, n)[a]).0 != (
            #[trigger] unique_prefix(reg, n)[b]).0 by {
                if b == rest.len() {
                    let k = lemma_prefix_entry(reg, n - 1, a);
                    if reg[k].last() == p.last() {
                        lemma_single_ending(reg, p.last(), k, n - 1);
                    }
                } else {
                    assert(unique_prefix(reg, n)[a] == rest[a] && unique_prefix(reg, n)[b] == rest[b]);
                }
            }
        }
    }
}

/// Two distinct positions ending in `name` make its count at least two.
proof fn lemma_single_ending(ps: Seq<Seq<Seq<char>>>, name: Seq<char>, k: int, i: int)
    requires
        0 <= k < i < ps.len(),
        ps[k].len() > 0 && ps[k].last() == name,
        ps[i].len() > 0 && ps[i].last() == name,
    ensures
        ending_count(ps, name) >= 2,
    decreases ps.len(),
{
    lemma_count_at_least_one(ps.take(i), name, k);
    lemma_count_prefix(ps, name, i + 1);
    assert(ps.take(i + 1).drop_last() =~= ps.take(i));
}

proof fn lemma_count_at_least_one(ps: Seq<Seq<Seq<char>>>, name: Seq<char>, k: int)
    requires
        0 <= k < ps.len(),
        ps[k].len() > 0 && ps[k].last() == name,
    ensures
        ending_count(ps, name) >= 1,
    decreases ps.len(),
{
    if k < ps.len() - 1 {
        lemma_count_at_least_one(ps.drop_last(), name, k);
    }
}

proof fn lemma_count_prefix(ps: Seq<Seq<Seq<char>>>, name: Seq<char>, n: int)
    requires
        0 <= n <= ps.len(),
    ensures
        ending_count(ps.take(n), name) <= ending_count(ps, name),
    decreases ps.len() - n,
{
    if n < ps.len() {
        lemma_count_prefix(ps, name, n + 1);
        assert(ps.take(n + 1).drop_last() =~= ps.take(n));
    } else {
        assert(ps.take(n) =~= ps);
    }
}

/// A name with a positive count ends some path.
proof fn lemma_count_witness(ps: Seq<Seq<Seq<char>>>, name: Seq<char>) -> (k: int)
    requires
        ending_count(ps, name) >= 1,
    ensures
        0 <= k < ps.len(),
        ps[k].len() > 0 && ps[k].last() == name,
    decreases ps.len(),
{
    if ps.last().len() > 0 && ps.last().last() == name {
        ps.len() - 1
    } else {
        lemma_count_witness(ps.drop_last(), name)
    }
}

/// A bare name finds a class exactly when one registered path ends in it.
pub proof fn lemma_unique_name_lookup(registry: ExportedClassRegistry, name: Seq<char>)
    requires
        registry.wf(),
        registry.finalized(),
    ensures
        (exists|a: int|
            0 <= a < registry.unique_entries().len() && registry.unique_entries()[a].0 == name && registry.registered().contains(
                registry.unique_entries()[a].1,
            )) <==> ending_count(registry.registered(), name) == 1,
{
    if ending_count(registry.registered(), name) == 1 {
        let a = choose|a: int| 0 <= a < registry.unique_entries().len() && registry.unique_entries()[a].0 == name;
        assert(registry.registered().contains(registry.unique_entries()[a].1));
    }
}

/// Every registered path of two or more segments names its class.
pub proof fn lemma_registered_path_found(registry: ExportedClassRegistry, k: int)
    requires
        0 <= k < registry.registered().len(),
    ensures
        ends_with_path(registry.registered()[k], registry.registered()[k]),
{
    let p = registry.registered()[k];
    assert(p.subrange(0, p.len() as int) =~= p);
}

/// An item of a scanned source file, as far as the registry reads it.
pub enum SourceItem {
    /// An `impl` block: whether it carries an `export` attribute, and the
    /// last segment of its self type when that type is a plain path.
    Impl { exported: bool, self_type: Option<String> },
    /// A module: its name, and its items when they are written inline.
    Module { name: String, items: Option<Vec<SourceItem>> },
    /// Any other item.
    Other,
}

/// The qualified paths an item exports under the module path `prefix`: the
/// self type of an exported `impl`, and what the items of an inline module
/// export under the module's name, in order.
pub open spec fn item_paths(prefix: Seq<Seq<char>>, item: SourceItem) -> Seq<Seq<Seq<char>>>
    decreases item, 0nat,
{
    match item {
        SourceItem::Impl { exported, self_type } => if exported && self_type is Some {
            seq![prefix.push(self_type->0@)]
        } else {
            Seq::empty()
        },
        SourceItem::Module { name, items } => match items {
            Some(v) => {
                proof {
                    assert(decreases_to!(v => v@));
                }
                items_paths(prefix.push(name@), v@)
            },
            None => Seq::empty(),
        },
        SourceItem::Other => Seq::empty(),
    }
}

/// The qualified paths a run of items exports under `prefix`, in order.
pub open spec fn items_paths(prefix: Seq<Seq<char>>, items: Seq<SourceItem>) -> Seq<Seq<Seq<char>>>
    decreases items, 1nat,
{
    if items.len() == 0 {
        Seq::empty()
    } else {
        proof {
            assert(decreases_to!(items => items.subrange(0, items.len() - 1)));
        }
        items_paths(prefix, items.subrange(0, items.len() - 1)) + item_paths(prefix, items[items.len() - 1])
    }
}

/// Registers every class the items export under `scope`; the module
/// path is as it was afterwards.
pub fn collect_items(registry: &mut ExportedClassRegistry, scope: &mut Vec<String>, items: &Vec<SourceItem>)
    requires
        old(registry).wf(),
    ensures
        final(registry).wf(),
        final(registry).registered().to_set() == old(registry).registered().to_set() + items_paths(
            seg_views(old(scope)@),
            items@,
        ).to_set(),
        final(registry).unique_entries() == old(registry).unique_entries(),
        final(scope)@ == old(scope)@,
    decreases items@, 1nat,
{
    let ghost prefix = seg_views(scope@);
    let ghost start = registry.registered().to_set();
    let mut i: usize = 0;
    while i < items.len()
        invariant
            i <= items@.len(),
            registry.wf(),
            scope@ == old(scope)@,
            prefix == seg_views(scope@),
            start == old(registry).registered().to_set(),
            registry.registered().to_set() == start + items_paths(prefix, items@.subrange(0, i as int)).to_set(),
            registry.unique_entries() == old(registry).unique_entries(),
        decreases items.len() - i,
    {
        let ghost before = registry.registered().to_set();
        proof {
            assert(items@.subrange(0, i + 1).subrange(0, i as int) =~= items@.subrange(0, i as int));
            assert(decreases_to!(items@ => items@[i as int]));
        }
        collect_item(registry, scope, &items[i]);
        proof {
            let done = items_paths(prefix, items@.subrange(0, i as int));
            let more = item_paths(prefix, items@[i as int]);
            assert(items_paths(prefix, items@.subrange(0, i + 1)) == done + more);
            assert((done + more).to_set() =~= done.to_set() + more.to_set()) by {
                assert forall|x: Seq<Seq<char>>| (done + more).to_set().contains(x) <==> done.to_set().contains(x) || more.to_set().contains(x) by {
                    if (done + more).contains(x) {
                        let k = choose|k: int| 0 <= k < (done + more).len() && (done + more)[k] == x;
                        if k < done.len() {
                            assert(done[k] == x);
                        } else {
                            assert(more[k - done.len()] == x);
                        }
                    }
                    if done.contains(x) {
                        let k = choose|k: int| 0 <= k < done.len() && done[k] == x;
                        assert((done + more)[k] == x);
                    }
                    if more.contains(x) {
                        let k = choose|k: int| 0 <= k < more.len() && more[k] == x;
                        assert((done + more)[done.len() + k] == x);
                    }
                }
            }
            assert(registry.registered().to_set() =~= start + (done + more).to_set());
        }
        i = i + 1;
    }
    assert(items@.subrange(0, items@.len() as int) =~= items@);
}

/// Registers every class one item exports under `scope`; see
/// [`item_paths`]. The module path is as it was afterwards.
pub fn collect_item(registry: &mut ExportedClassRegistry, scope: &mut Vec<String>, item: &SourceItem)
    requires
        old(registry).wf(),
    ensures
        final(registry).wf(),
        final(registry).registered().to_set() == old(registry).registered().to_set() + item_paths(
            seg_views(old(scope)@),
            *item,
        ).to_set(),
        final(registry).unique_entries() == old(registry).unique_entries(),
        final(scope)@ == old(scope)@,
    decreases *item, 0nat,
{
    let ghost prefix = seg_views(scope@);
    match item {
        SourceItem::Impl { exported, self_type } => {
            if *exported {
                if let Some(type_ident) = self_type {
                    let mut qualified = clone_path(scope);
                    qualified.push(type_ident.clone());
                    proof {
                        assert(seg_views(qualified@) =~= prefix.push(type_ident@));
                    }
                    registry.register(qualified);
                    let ghost x = prefix.push(type_ident@);
                    assert forall|y: Seq<Seq<char>>| seq![x].to_set().contains(y) <==> Set::empty().insert(x).contains(y) by {
                        if y == x {
                            assert(seq![x][0] == x);
                        }
                    }
                    assert(seq![x].to_set() =~= Set::empty().insert(x));
                    assert(old(registry).registered().to_set().insert(prefix.push(type_ident@)) =~= old(registry).registered().to_set()
                        + seq![prefix.push(type_ident@)].to_set());
                    return;
                }
            }
            assert(Seq::<Seq<Seq<char>>>::empty().to_set() =~= Set::empty());
            assert(registry.registered().to_set() + Set::empty() =~= registry.registered().to_set());
        },
        SourceItem::Module { name, items } => {
            match items {
                Some(nested) => {
                    let ghost old_path = scope@;
                    scope.push(name.clone());
                    proof {
                        assert(seg_views(scope@) =~= prefix.push(name@));
                        assert(decreases_to!(*item => nested@));
                    }
                    collect_items(registry, scope, nested);
                    scope.pop();
                    assert(scope@ =~= old_path);
                },
                None => {
                    assert(Seq::<Seq<Seq<char>>>::empty().to_set() =~= Set::empty());
                    assert(registry.registered().to_set() + Set::empty() =~= registry.registered().to_set());
                },
            }
        },
        SourceItem::Other => {
            assert(Seq::<Seq<Seq<char>>>::empty().to_set() =~= Set::empty());
            assert(registry.registered().to_set() + Set::empty() =~= registry.registered().to_set());
        },
    }
}

fn clone_path(path: &Vec<String>) -> (res: Vec<String>)
    ensures
        res@ == path@,
{
    let mut res: Vec<String> = Vec::new();
    let mut i: usize = 0;
    while i < path.len()
        invariant
            i <= path@.len(),
            res@ == path@.take(i as int),
        decreases path.len() - i,
    {
        res.push(path[i].clone());
        assert(res@ =~= path@.take(i + 1));
        i = i + 1;
    }
    assert(path@.take(path@.len() as int) =~= path@);
    res
}

/// The qualified paths the scanned files export: for each file, what its
/// items export under the file's module path.
pub open spec fn modules_paths(modules: Seq<(Vec<String>, Vec<SourceItem>)>) -> Seq<Seq<Seq<char>>>
    decreases modules.len(),
{
    if modules.len() == 0 {
        Seq::empty()
    } else {
        modules_paths(modules.drop_last()) + items_paths(seg_views(modules.last().0@), modules.last().1@)
    }
}

/// The registry of the scanned files, each given by its module path and
/// its items: every exported class registered, and the unique bare names
/// recorded.
pub fn build_exported_class_registry(modules: &Vec<(Vec<String>, Vec<SourceItem>)>) -> (res: ExportedClassRegistry)
    ensures
        res.wf(),
        res.finalized(),
        res.registered().to_set() == modules_paths(modules@).to_set(),
{
    let mut registry = ExportedClassRegistry::new();
    let mut i: usize = 0;
    assert(modules@.take(0) =~= Seq::<(Vec<String>, Vec<SourceItem>)>::empty());
    assert(Seq::<Seq<Seq<char>>>::empty().to_set() =~= Set::empty());
    assert(registry.registered().to_set() =~= Set::empty());
    while i < modules.len()
        invariant
            i <= modules@.len(),
            registry.wf(),
            registry.registered().to_set() == modules_paths(modules@.take(i as int)).to_set(),
        decreases modules.len() - i,
    {
        let mut path = clone_path(&modules[i].0);
        let ghost before = registry.registered().to_set();
        collect_items(&mut registry, &mut path, &modules[i].1);
        proof {
            let done = modules_paths(modules@.take(i as int));
            let more = items_paths(seg_views(modules@[i as int].0@), modules@[i as int].1@);
            assert(modules@.take(i + 1).drop_last() =~= modules@.take(i as int));
            assert(modules_paths(modules@.take(i + 1)) == done + more);
            assert((done + more).to_set() =~= done.to_set() + more.to_set()) by {
                assert forall|x: Seq<Seq<char>>| (done + more).to_set().contains(x) <==> done.to_set().contains(x) || more.to_set().contains(x) by {
                    if (done + more).contains(x) {
                        let k = choose|k: int| 0 <= k < (done + more).len() && (done + more)[k] == x;
                        if k < done.len() {
                            assert(done[k] == x);
                        } else {
                            assert(more[k - done.len()] == x);
                        }
                    }
                    if done.contains(x) {
                        let k = choose|k: int| 0 <= k < done.len() && done[k] == x;
                        assert((done + more)[k] == x);
                    }
                    if more.contains(x) {
                        let k = choose|k: int| 0 <= k < more.len() && more[k] == x;
                        assert((done + more)[done.len() + k] == x);
                    }
                }
            }
        }
        i = i + 1;
    }
    assert(modules@.take(modules@.len() as int) =~= modules@);
    registry.finalize_unique_names();
    registry
}

/// A type as written in a scanned signature, as far as the registry reads
/// it.
pub enum SourceType {
    /// `&T` or `&mut T`.
    Reference(Box<SourceType>),
    /// A type in invisible delimiters.
    Group(Box<SourceType>),
    /// A type in parentheses.
    Paren(Box<SourceType>),
    /// A path type: whether it has a qualified self (`<T as Trait>::X`), and
    /// its segments.
    Path { qualified_self: bool, segments: Vec<String> },
    /// Any other type.
    Other,
}

/// The type behind any references.
pub open spec fn peeled(t: SourceType) -> SourceType
    decreases t,
{
    match t {
        SourceType::Reference(inner) => peeled(*inner),
        _ => t,
    }
}

/// The segments of a path type without a qualified self, through groups
/// and parentheses; `None` for any other type.
pub open spec fn path_segments_of(t: SourceType) -> Option<Seq<Seq<char>>>
    decreases t,
{
    match t {
        SourceType::Path { qualified_self, segments } => if qualified_self {
            None
        } else {
            Some(seg_views(segments@))
        },
        SourceType::Group(inner) => path_segments_of(*inner),
        SourceType::Paren(inner) => path_segments_of(*inner),
        _ => None,
    }
}

impl ExportedClassRegistry {
    /// Whether `segments` names an exported class: a single segment
    /// through the recorded unique names, a longer path when a registered
    /// path is a final run of it.
    pub open spec fn names_exported_class(&self, segments: Seq<Seq<char>>) -> bool {
        if segments.len() == 1 {
            exists|a: int|
                0 <= a < self.unique_entries().len() && self.unique_entries()[a].0 == segments[0] && self.registered().contains(
                    self.unique_entries()[a].1,
                )
        } else {
            exists|k: int| 0 <= k < self.registered().len() && ends_with_path(segments, #[trigger] self.registered()[k])
        }
    }

    /// Whether a type, behind any references, is a path that names an
    /// exported class.
    pub fn is_exported_class_type(&self, ty: &SourceType) -> (res: bool)
        requires
            self.wf(),
        ensures
            res == (path_segments_of(peeled(*ty)) matches Some(segments) && self.names_exported_class(segments)),
    {
        match type_path_segments(peel_reference(ty)) {
            Some(segments) => self.lookup_qualified(&segments),
            None => false,
        }
    }
}

/// The type behind any references; see [`peeled`].
pub fn peel_reference(ty: &SourceType) -> (res: &SourceType)
    ensures
        *res == peeled(*ty),
    decreases ty,
{
    match ty {
        SourceType::Reference(inner) => peel_reference(inner),
        _ => ty,
    }
}

/// The segments of a path type; see [`path_segments_of`].
pub fn type_path_segments(ty: &SourceType) -> (res: Option<Vec<String>>)
    ensures
        res matches Some(v) ==> path_segments_of(*ty) == Some(seg_views(v@)),
        res is None <==> path_segments_of(*ty) is None,
    decreases ty,
{
    match ty {
        SourceType::Path { qualified_self, segments } => if *qualified_self {
            None
        } else {
            Some(clone_path(segments))
        },
        SourceType::Group(inner) => type_path_segments(inner),
        SourceType::Paren(inner) => type_path_segments(inner),
        _ => None,
    }
}

} // verus!
