//! The record store: an insertion-ordered table `pool id -> field map`
//! with unique pool ids, and the field map of a single pool.
//!
//! The store is the only persistent state of the system. Reads are direct;
//! the one mutation point is [`PoolDetails::apply_write`] (reached through
//! the write gate) and [`PoolDetails::put`] (reached through migration).

use vstd::math::min;
use vstd::prelude::*;

verus! {

/// One stored field of a pool: a name/value pair.
#[derive(Debug)]
pub struct FieldEntry {
    pub name: String,
    pub value: String,
}

/// The field map of one pool: `field name -> field value`. Names are
/// unique; a later write to the same name wins. Insertion order carries
/// no meaning.
#[derive(Debug)]
pub struct FieldMap {
    entries: Vec<FieldEntry>,
}

/// The mathematical content of a field map.
pub type FieldsView = Map<Seq<char>, Seq<char>>;

/// The mathematical content of the whole store: the records in insertion
/// order, pool ids unique.
pub type StoreView = Seq<(Seq<char>, FieldsView)>;

/// The map described by a sequence of field entries, later entries winning.
pub open spec fn fields_map_of(s: Seq<FieldEntry>) -> FieldsView
    decreases s.len(),
{
    if s.len() == 0 {
        Map::empty()
    } else {
        fields_map_of(s.drop_last()).insert(s.last().name@, s.last().value@)
    }
}

/// Field names are pairwise distinct.
pub open spec fn unique_field_names(s: Seq<FieldEntry>) -> bool {
    forall|i: int, j: int| 0 <= i < j < s.len() ==> s[i].name@ != s[j].name@
}

proof fn lemma_fields_map_props(s: Seq<FieldEntry>)
    requires
        unique_field_names(s),
    ensures
        fields_map_of(s).dom().finite(),
        fields_map_of(s).dom().len() == s.len(),
        forall|k: Seq<char>|
            #[trigger] fields_map_of(s).contains_key(k) <==> (exists|i: int|
                0 <= i < s.len() && s[i].name@ == k),
        forall|i: int| 0 <= i < s.len() ==> fields_map_of(s)[#[trigger] s[i].name@] == s[i].value@,
    decreases s.len(),
{
    broadcast use vstd::set::group_set_axioms;

    if s.len() == 0 {
    } else {
        let t = s.drop_last();
        assert(unique_field_names(t)) by {
            assert(forall|i: int| 0 <= i < t.len() ==> t[i] == s[i]);
        }
        lemma_fields_map_props(t);
        let last = s.last();
        assert(!fields_map_of(t).contains_key(last.name@)) by {
            if fields_map_of(t).contains_key(last.name@) {
                let i = choose|i: int| 0 <= i < t.len() && t[i].name@ == last.name@;
                assert(s[i].name@ == s[s.len() - 1].name@);
            }
        }
        assert forall|k: Seq<char>| #[trigger]
            fields_map_of(s).contains_key(k) implies (exists|i: int|
            0 <= i < s.len() && s[i].name@ == k) by {
            if k == last.name@ {
                assert(s[s.len() - 1].name@ == k);
            } else {
                let i = choose|i: int| 0 <= i < t.len() && t[i].name@ == k;
                assert(s[i].name@ == k);
            }
        }
        assert forall|k: Seq<char>| (exists|i: int|
            0 <= i < s.len() && s[i].name@ == k) implies #[trigger] fields_map_of(s).contains_key(
            k,
        ) by {
            let i = choose|i: int| 0 <= i < s.len() && s[i].name@ == k;
            if i < s.len() - 1 {
                assert(t[i].name@ == k);
            }
        }
        assert forall|i: int| 0 <= i < s.len() implies fields_map_of(s)[#[trigger] s[i].name@]
            == s[i].value@ by {
            if i < s.len() - 1 {
                assert(t[i].name@ == s[i].name@ && t[i].value@ == s[i].value@);
                assert(s[i].name@ != last.name@);
            }
        }
    }
}

proof fn lemma_fields_map_update(s: Seq<FieldEntry>, i: int, e: FieldEntry)
    requires
        unique_field_names(s),
        0 <= i < s.len(),
        s[i].name@ == e.name@,
    ensures
        unique_field_names(s.update(i, e)),
        fields_map_of(s.update(i, e)) == fields_map_of(s).insert(e.name@, e.value@),
    decreases s.len(),
{
    let t = s.drop_last();
    assert(unique_field_names(t)) by {
        assert(forall|j: int| 0 <= j < t.len() ==> t[j] == s[j]);
    }
    if i == s.len() - 1 {
        assert(s.update(i, e).drop_last() =~= t);
        assert(fields_map_of(s.update(i, e)) == fields_map_of(t).insert(e.name@, e.value@));
        assert(fields_map_of(t).insert(s[i].name@, s[i].value@).insert(e.name@, e.value@)
            =~= fields_map_of(t).insert(e.name@, e.value@));
    } else {
        assert(s.update(i, e).drop_last() =~= t.update(i, e));
        assert(t[i] == s[i]);
        lemma_fields_map_update(t, i, e);
        let last = s.last();
        assert(s.update(i, e).last() == last);
        assert(fields_map_of(s.update(i, e)) == fields_map_of(t).insert(e.name@, e.value@).insert(
            last.name@,
            last.value@,
        ));
        assert(last.name@ != e.name@) by {
            assert(s[i].name@ != s[s.len() - 1].name@);
        }
        assert(fields_map_of(t).insert(e.name@, e.value@).insert(last.name@, last.value@)
            =~= fields_map_of(t).insert(last.name@, last.value@).insert(e.name@, e.value@));
    }
}

proof fn lemma_fields_map_push(s: Seq<FieldEntry>, e: FieldEntry)
    requires
        unique_field_names(s),
        forall|i: int| 0 <= i < s.len() ==> s[i].name@ != e.name@,
    ensures
        unique_field_names(s.push(e)),
        fields_map_of(s.push(e)) == fields_map_of(s).insert(e.name@, e.value@),
{
    assert(s.push(e).drop_last() =~= s);
    assert(s.push(e).last() == e);
    assert(forall|i: int| 0 <= i < s.len() ==> s.push(e)[i] == s[i]);
}

impl View for FieldMap {
    type V = FieldsView;

    closed spec fn view(&self) -> FieldsView {
        fields_map_of(self.entries@)
    }
}

impl FieldMap {
    /// Field names inside are pairwise distinct.
    pub closed spec fn wf(&self) -> bool {
        unique_field_names(self.entries@)
    }

    /// An empty field map.
    pub fn new() -> (r: FieldMap)
        ensures
            r@ == Map::<Seq<char>, Seq<char>>::empty(),
            r.wf(),
    {
        FieldMap { entries: Vec::new() }
    }

    /// How many fields are stored.
    pub fn len(&self) -> (n: usize)
        requires
            self.wf(),
        ensures
            n == self@.dom().len(),
    {
        proof {
            lemma_fields_map_props(self.entries@);
        }
        self.entries.len()
    }

    fn find(&self, name: &String) -> (r: Option<usize>)
        ensures
            match r {
                Some(i) => i < self.entries@.len() && self.entries@[i as int].name@ == name@,
                None => forall|j: int| 0 <= j < self.entries@.len() ==> self.entries@[j].name@ != name@,
            },
    {
        let mut i: usize = 0;
        while i < self.entries.len()
            invariant
                i <= self.entries@.len(),
                forall|j: int| 0 <= j < i ==> self.entries@[j].name@ != name@,
            decreases self.entries@.len() - i,
        {
            if self.entries[i].name == *name {
                return Some(i);
            }
            i = i + 1;
        }
        None
    }

    /// The value stored under `name`, if any.
    pub fn get(&self, name: &String) -> (r: Option<&String>)
        requires
            self.wf(),
        ensures
            match r {
                Some(v) => self@.contains_key(name@) && v@ == self@[name@],
                None => !self@.contains_key(name@),
            },
    {
        proof {
            lemma_fields_map_props(self.entries@);
        }
        match self.find(name) {
            Some(i) => Some(&self.entries[i].value),
            None => {
                proof {
                    if self@.contains_key(name@) {
                        let j = choose|j: int|
                            0 <= j < self.entries@.len() && self.entries@[j].name@ == name@;
                    }
                }
                None
            },
        }
    }

    /// Insert or overwrite: the last write to a name wins.
    pub fn insert_field(&mut self, name: String, value: String)
        requires
            old(self).wf(),
        ensures
            final(self).wf(),
            final(self)@ == old(self)@.insert(name@, value@),
    {
        let found = self.find(&name);
        let ghost n = name@;
        let ghost v = value@;
        match found {
            Some(i) => {
                proof {
                    lemma_fields_map_update(
                        self.entries@,
                        i as int,
                        FieldEntry { name, value },
                    );
                }
                self.entries.set(i, FieldEntry { name, value });
            },
            None => {
                proof {
                    lemma_fields_map_push(self.entries@, FieldEntry { name, value });
                }
                self.entries.push(FieldEntry { name, value });
            },
        }
    }

    /// All stored fields as name/value pairs: each name exactly once, each
    /// paired with its stored value, and every stored name present.
    pub fn to_pairs(&self) -> (r: Vec<(String, String)>)
        requires
            self.wf(),
        ensures
            r@.len() == self@.dom().len(),
            forall|i: int|
                0 <= i < r@.len() ==> #[trigger] self@.contains_key(r@[i].0@) && self@[r@[i].0@]
                    == r@[i].1@,
            forall|i: int, j: int| 0 <= i < j < r@.len() ==> r@[i].0@ != r@[j].0@,
            forall|k: Seq<char>| #[trigger]
                self@.contains_key(k) ==> exists|i: int| 0 <= i < r@.len() && r@[i].0@ == k,
    {
        let mut r: Vec<(String, String)> = Vec::new();
        let mut i: usize = 0;
        while i < self.entries.len()
            invariant
                i <= self.entries@.len(),
                r@.len() == i,
                forall|j: int|
                    0 <= j < i ==> r@[j].0@ == self.entries@[j].name@ && r@[j].1@
                        == self.entries@[j].value@,
            decreases self.entries@.len() - i,
        {
            let e = &self.entries[i];
            r.push((e.name.clone(), e.value.clone()));
            i = i + 1;
        }
        proof {
            lemma_fields_map_props(self.entries@);
            assert forall|k: Seq<char>| #[trigger] self@.contains_key(k) implies exists|i: int|
                0 <= i < r@.len() && r@[i].0@ == k by {
                let j = choose|j: int|
                    0 <= j < self.entries@.len() && self.entries@[j].name@ == k;
                assert(r@[j].0@ == k);
            }
        }
        r
    }

    /// An independent copy with the same content.
    pub fn duplicate(&self) -> (r: FieldMap)
        ensures
            r@ == self@,
            r.wf() == self.wf(),
    {
        let mut v: Vec<FieldEntry> = Vec::new();
        let mut i: usize = 0;
        while i < self.entries.len()
            invariant
                i <= self.entries@.len(),
                v@.len() == i,
                forall|j: int| 0 <= j < i ==> v@[j] == self.entries@[j],
            decreases self.entries@.len() - i,
        {
            let e = &self.entries[i];
            v.push(FieldEntry { name: e.name.clone(), value: e.value.clone() });
            i = i + 1;
        }
        let r = FieldMap { entries: v };
        proof {
            assert(r.entries@ =~= self.entries@);
        }
        r
    }
}

/// One record of the store.
pub struct StoreEntry {
    pub pool_id: String,
    pub fields: FieldMap,
}

/// The record store and the decision core of the system. Its view is the
/// ordered sequence of `(pool id, field map)` pairs.
pub struct PoolDetails {
    entries: Vec<StoreEntry>,
}

/// Pool ids are pairwise distinct.
pub open spec fn store_wf(s: StoreView) -> bool {
    forall|i: int, j: int| 0 <= i < j < s.len() ==> s[i].0 != s[j].0
}

/// Some record holds `pool_id`.
pub open spec fn store_has(s: StoreView, pool_id: Seq<char>) -> bool {
    exists|i: int| 0 <= i < s.len() && s[i].0 == pool_id
}

/// The position of the record of `pool_id` (meaningful under `store_has`).
pub open spec fn store_index(s: StoreView, pool_id: Seq<char>) -> int {
    choose|i: int| 0 <= i < s.len() && s[i].0 == pool_id
}

/// The field map of `pool_id` (meaningful under `store_has`).
pub open spec fn store_get(s: StoreView, pool_id: Seq<char>) -> FieldsView {
    s[store_index(s, pool_id)].1
}

/// The field map of `pool_id`, or the empty map for an absent pool.
pub open spec fn store_fields_or_empty(s: StoreView, pool_id: Seq<char>) -> FieldsView {
    if store_has(s, pool_id) {
        store_get(s, pool_id)
    } else {
        Map::empty()
    }
}

/// A full-map replace for `pool_id`: in place for a present pool, appended
/// for an absent one.
pub open spec fn store_put(s: StoreView, pool_id: Seq<char>, fields: FieldsView) -> StoreView {
    if store_has(s, pool_id) {
        s.update(store_index(s, pool_id), (pool_id, fields))
    } else {
        s.push((pool_id, fields))
    }
}

/// One authorized write: upsert `name -> value` into the fields of
/// `pool_id`, starting from the empty map for an absent pool.
pub open spec fn store_write(
    s: StoreView,
    pool_id: Seq<char>,
    name: Seq<char>,
    value: Seq<char>,
) -> StoreView {
    store_put(s, pool_id, store_fields_or_empty(s, pool_id).insert(name, value))
}

/// The page of records beginning at `from`, at most `limit` long; a start
/// beyond the end yields the empty page.
pub open spec fn page_of(s: StoreView, from: int, limit: int) -> StoreView
    recommends
        0 <= from,
        0 <= limit,
{
    s.subrange(min(from, s.len() as int), min(from + limit, s.len() as int))
}

/// Under unique pool ids, the position of a present pool is unique.
pub proof fn lemma_store_index(s: StoreView, pool_id: Seq<char>)
    requires
        store_wf(s),
        store_has(s, pool_id),
    ensures
        0 <= store_index(s, pool_id) < s.len(),
        s[store_index(s, pool_id)].0 == pool_id,
        forall|i: int| 0 <= i < s.len() && s[i].0 == pool_id ==> i == store_index(s, pool_id),
{
    let i0 = store_index(s, pool_id);
    assert(0 <= i0 < s.len() && s[i0].0 == pool_id);
    assert forall|i: int| 0 <= i < s.len() && s[i].0 == pool_id implies i == i0 by {
        if i < i0 {
            assert(s[i].0 != s[i0].0);
        } else if i > i0 {
            assert(s[i0].0 != s[i].0);
        }
    }
}

/// What a full-map replace does: the written pool holds exactly `fields`,
/// every other record is untouched and keeps its position.
pub proof fn lemma_store_put_props(s: StoreView, pool_id: Seq<char>, fields: FieldsView)
    requires
        store_wf(s),
    ensures
        store_wf(store_put(s, pool_id, fields)),
        store_has(store_put(s, pool_id, fields), pool_id),
        store_index(store_put(s, pool_id, fields), pool_id) == (if store_has(s, pool_id) {
            store_index(s, pool_id)
        } else {
            s.len() as int
        }),
        store_get(store_put(s, pool_id, fields), pool_id) == fields,
        store_put(s, pool_id, fields).len() == (if store_has(s, pool_id) {
            s.len() as int
        } else {
            s.len() + 1 as int
        }),
        forall|i: int| 0 <= i < s.len() && s[i].0 != pool_id ==> store_put(s, pool_id, fields)[i]
            == s[i],
        forall|q: Seq<char>| q != pool_id ==> store_has(store_put(s, pool_id, fields), q)
            == store_has(s, q),
        forall|q: Seq<char>| q != pool_id && store_has(s, q) ==> store_get(
            store_put(s, pool_id, fields),
            q,
        ) == store_get(s, q),
{
    let p = store_put(s, pool_id, fields);
    if store_has(s, pool_id) {
        lemma_store_index(s, pool_id);
        let i0 = store_index(s, pool_id);
        assert(p[i0] == (pool_id, fields));
        assert(store_wf(p)) by {
            assert(forall|i: int| 0 <= i < p.len() && i != i0 ==> p[i] == s[i]);
            assert(forall|i: int| 0 <= i < p.len() ==> p[i].0 == s[i].0);
        }
        assert(store_has(p, pool_id));
        lemma_store_index(p, pool_id);
        assert(store_index(p, pool_id) == i0);
        assert forall|q: Seq<char>| q != pool_id implies store_has(p, q) == store_has(s, q) by {
            assert(forall|i: int| 0 <= i < p.len() ==> p[i].0 == s[i].0);
            if store_has(p, q) {
                let i = choose|i: int| 0 <= i < p.len() && p[i].0 == q;
                assert(s[i].0 == q);
            }
            if store_has(s, q) {
                let i = choose|i: int| 0 <= i < s.len() && s[i].0 == q;
                assert(p[i].0 == q);
            }
        }
        assert forall|q: Seq<char>| q != pool_id && store_has(s, q) implies store_get(p, q)
            == store_get(s, q) by {
            lemma_store_index(s, q);
            lemma_store_index(p, q);
            let j = store_index(s, q);
            assert(p[j].0 == q);
            assert(store_index(p, q) == j);
            assert(j != i0);
            assert(p[j] == s[j]);
        }
    } else {
        assert(p == s.push((pool_id, fields)));
        assert(p[s.len() as int] == (pool_id, fields));
        assert(forall|i: int| 0 <= i < s.len() ==> p[i] == s[i]);
        assert(store_wf(p)) by {
            assert(forall|i: int| 0 <= i < s.len() ==> s[i].0 != pool_id);
        }
        assert(store_has(p, pool_id));
        lemma_store_index(p, pool_id);
        assert(store_index(p, pool_id) == s.len() as int);
        assert forall|q: Seq<char>| q != pool_id implies store_has(p, q) == store_has(s, q) by {
            if store_has(p, q) {
                let i = choose|i: int| 0 <= i < p.len() && p[i].0 == q;
                assert(i < s.len());
                assert(s[i].0 == q);
            }
            if store_has(s, q) {
                let i = choose|i: int| 0 <= i < s.len() && s[i].0 == q;
                assert(p[i].0 == q);
            }
        }
        assert forall|q: Seq<char>| q != pool_id && store_has(s, q) implies store_get(p, q)
            == store_get(s, q) by {
            lemma_store_index(s, q);
            lemma_store_index(p, q);
            let j = store_index(s, q);
            assert(p[j].0 == q);
            assert(store_index(p, q) == j);
            assert(p[j] == s[j]);
        }
    }
}

impl View for PoolDetails {
    type V = StoreView;

    closed spec fn view(&self) -> StoreView {
        Seq::new(
            self.entries@.len(),
            |i: int| (self.entries@[i].pool_id@, self.entries@[i].fields@),
        )
    }
}

impl PoolDetails {
    /// Pool ids are pairwise distinct and every field map is well formed.
    pub closed spec fn wf(&self) -> bool {
        &&& forall|i: int, j: int|
            0 <= i < j < self.entries@.len() ==> self.entries@[i].pool_id@
                != self.entries@[j].pool_id@
        &&& forall|i: int| 0 <= i < self.entries@.len() ==> self.entries@[i].fields.wf()
    }

    /// A well-formed store has unique pool ids in its view.
    pub proof fn lemma_wf_view(&self)
        requires
            self.wf(),
        ensures
            store_wf(self@),
    {
        assert forall|i: int, j: int| 0 <= i < j < self@.len() implies self@[i].0 != self@[j].0 by {
            assert(self.entries@[i].pool_id@ != self.entries@[j].pool_id@);
        }
    }

    /// An empty store.
    pub fn new() -> (r: PoolDetails)
        ensures
            r@ == Seq::<(Seq<char>, FieldsView)>::empty(),
            r.wf(),
    {
        let r = PoolDetails { entries: Vec::new() };
        proof {
            assert(r@ =~= Seq::<(Seq<char>, FieldsView)>::empty());
        }
        r
    }

    fn find_pool(&self, pool_id: &String) -> (r: Option<usize>)
        ensures
            match r {
                Some(i) => i < self@.len() && self@[i as int].0 == pool_id@,
                None => !store_has(self@, pool_id@),
            },
    {
        let mut i: usize = 0;
        while i < self.entries.len()
            invariant
                i <= self.entries@.len(),
                forall|j: int| 0 <= j < i ==> self.entries@[j].pool_id@ != pool_id@,
            decreases self.entries@.len() - i,
        {
            if self.entries[i].pool_id == *pool_id {
                return Some(i);
            }
            i = i + 1;
        }
        proof {
            if store_has(self@, pool_id@) {
                let j = choose|j: int| 0 <= j < self@.len() && self@[j].0 == pool_id@;
                assert(self.entries@[j].pool_id@ == pool_id@);
            }
        }
        None
    }

    /// How many pools have a record.
    pub fn get_num_pools(&self) -> (n: u64)
        ensures
            n == self@.len(),
    {
        self.entries.len() as u64
    }

    /// The stored field map of one pool; `None` is the only "not found"
    /// signal.
    pub fn get_fields_by_pool(&self, pool_id: String) -> (r: Option<FieldMap>)
        requires
            self.wf(),
        ensures
            match r {
                Some(m) => store_has(self@, pool_id@) && m@ == store_get(self@, pool_id@)
                    && m.wf(),
                None => !store_has(self@, pool_id@),
            },
    {
        proof {
            self.lemma_wf_view();
        }
        match self.find_pool(&pool_id) {
            Some(i) => {
                proof {
                    lemma_store_index(self@, pool_id@);
                }
                Some(self.entries[i].fields.duplicate())
            },
            None => None,
        }
    }

    /// The stored field map of each named pool, in the order given.
    pub fn get_fields_by_pools(&self, pool_ids: Vec<String>) -> (r: Vec<
        (String, Option<FieldMap>),
    >)
        requires
            self.wf(),
        ensures
            r@.len() == pool_ids@.len(),
            forall|i: int|
                0 <= i < r@.len() ==> r@[i].0@ == pool_ids@[i]@ && lookup_result_ok(
                    self@,
                    pool_ids@[i]@,
                    r@[i].1,
                ),
    {
        let mut r: Vec<(String, Option<FieldMap>)> = Vec::new();
        let mut i: usize = 0;
        while i < pool_ids.len()
            invariant
                self.wf(),
                i <= pool_ids@.len(),
                r@.len() == i,
                forall|j: int|
                    0 <= j < i ==> r@[j].0@ == pool_ids@[j]@ && lookup_result_ok(
                        self@,
                        pool_ids@[j]@,
                        r@[j].1,
                    ),
            decreases pool_ids@.len() - i,
        {
            let pool_id = pool_ids[i].clone();
            let data = self.get_fields_by_pool(pool_id.clone());
            r.push((pool_id, data));
            i = i + 1;
        }
        r
    }

    /// A full-map replace for `pool_id`.
    pub fn put(&mut self, pool_id: String, fields: FieldMap)
        requires
            old(self).wf(),
            fields.wf(),
        ensures
            final(self).wf(),
            final(self)@ == store_put(old(self)@, pool_id@, fields@),
    {
        proof {
            self.lemma_wf_view();
        }
        let ghost s0 = self@;
        match self.find_pool(&pool_id) {
            Some(i) => {
                proof {
                    lemma_store_index(s0, pool_id@);
                    lemma_store_put_props(s0, pool_id@, fields@);
                }
                self.entries.set(i, StoreEntry { pool_id, fields });
                proof {
                    assert(self@ =~= store_put(s0, pool_id@, fields@));
                }
            },
            None => {
                proof {
                    lemma_store_put_props(s0, pool_id@, fields@);
                }
                self.entries.push(StoreEntry { pool_id, fields });
                proof {
                    assert(self@ =~= store_put(s0, pool_id@, fields@));
                }
            },
        }
        proof {
            assert forall|i: int, j: int|
                0 <= i < j < self.entries@.len() implies self.entries@[i].pool_id@
                != self.entries@[j].pool_id@ by {
                assert(self@[i].0 == self.entries@[i].pool_id@);
                assert(self@[j].0 == self.entries@[j].pool_id@);
                assert(store_wf(self@));
            }
        }
    }

    /// The single field-level mutation of the store: upsert one field of
    /// one pool, creating the record from the empty map if absent.
    pub fn apply_write(&mut self, pool_id: String, name: String, value: String)
        requires
            old(self).wf(),
        ensures
            final(self).wf(),
            final(self)@ == store_write(old(self)@, pool_id@, name@, value@),
    {
        proof {
            self.lemma_wf_view();
        }
        let ghost s0 = self@;
        let mut fields = match self.find_pool(&pool_id) {
            Some(i) => {
                proof {
                    lemma_store_index(s0, pool_id@);
                }
                self.entries[i].fields.duplicate()
            },
            None => FieldMap::new(),
        };
        proof {
            assert(fields@ == store_fields_or_empty(s0, pool_id@));
        }
        fields.insert_field(name, value);
        self.put(pool_id, fields);
    }

    /// The page of records beginning at `from_index`, at most `limit` long,
    /// in stable insertion order; a start beyond the end yields the empty
    /// page, not an error.
    pub fn get_all_fields(&self, from_index: u64, limit: u64) -> (r: Vec<(String, FieldMap)>)
        requires
            self.wf(),
        ensures
            page_matches(r@, page_of(self@, from_index as int, limit as int)),
    {
        let n = self.entries.len();
        let start: usize = if from_index >= n as u64 {
            n
        } else {
            from_index as usize
        };
        let take: usize = if limit >= (n - start) as u64 {
            n - start
        } else {
            limit as usize
        };
        let ghost page = page_of(self@, from_index as int, limit as int);
        proof {
            assert(page.len() == take);
        }
        let mut r: Vec<(String, FieldMap)> = Vec::new();
        let mut i: usize = 0;
        while i < take
            invariant
                self.wf(),
                start + take <= self.entries@.len() <= usize::MAX,
                page == page_of(self@, from_index as int, limit as int),
                page.len() == take,
                forall|j: int| 0 <= j < page.len() ==> page[j] == self@[start + j],
                i <= take,
                r@.len() == i,
                forall|j: int|
                    0 <= j < i ==> r@[j].0@ == page[j].0 && r@[j].1@ == page[j].1 && r@[j].1.wf(),
            decreases take - i,
        {
            let e = &self.entries[start + i];
            r.push((e.pool_id.clone(), e.fields.duplicate()));
            i = i + 1;
        }
        proof {
            assert(page_matches(r@, page)) by {
                assert forall|k: int| 0 <= k < r@.len() implies r@[k].0@ == page[k].0 && r@[k].1@
                    == page[k].1 && r@[k].1.wf() by {
                    assert(r@[k].0@ == page[k].0 && r@[k].1@ == page[k].1 && r@[k].1.wf());
                }
            }
        }
        r
    }
}

/// The returned page holds exactly the records of `page`, in order, each
/// field map well formed.
pub open spec fn page_matches(r: Seq<(String, FieldMap)>, page: StoreView) -> bool {
    &&& r.len() == page.len()
    &&& forall|i: int|
        0 <= i < r.len() ==> r[i].0@ == page[i].0 && r[i].1@ == page[i].1 && r[i].1.wf()
}

/// What a successful or failed lookup of one pool means.
pub open spec fn lookup_result_ok(s: StoreView, pool_id: Seq<char>, r: Option<FieldMap>) -> bool {
    match r {
        Some(m) => store_has(s, pool_id) && m@ == store_get(s, pool_id) && m.wf(),
        None => !store_has(s, pool_id),
    }
}

} // verus!
