//! Store-level laws of the write and read paths, stated over the store's
//! mathematical view and proved once for all stores with unique pool ids.

use crate::store::{
    page_of, store_fields_or_empty, store_get, store_has, store_index, store_put, store_wf,
    store_write, StoreView,
};
use vstd::prelude::*;

verus! {

/// An authorized write merges `{name: value}` into the pool's prior fields
/// (the empty map for a previously absent pool) and touches no other pool.
pub proof fn lemma_write_merges(s: StoreView, pool_id: Seq<char>, name: Seq<char>, value: Seq<char>)
    requires
        store_wf(s),
    ensures
        store_wf(store_write(s, pool_id, name, value)),
        store_has(store_write(s, pool_id, name, value), pool_id),
        store_get(store_write(s, pool_id, name, value), pool_id) == store_fields_or_empty(
            s,
            pool_id,
        ).insert(name, value),
        forall|q: Seq<char>| q != pool_id ==> store_fields_or_empty(
            store_write(s, pool_id, name, value),
            q,
        ) == store_fields_or_empty(s, q),
{
    let m = store_fields_or_empty(s, pool_id).insert(name, value);
    crate::store::lemma_store_put_props(s, pool_id, m);
    assert forall|q: Seq<char>| q != pool_id implies store_fields_or_empty(
        store_write(s, pool_id, name, value),
        q,
    ) == store_fields_or_empty(s, q) by {
        assert(store_has(store_put(s, pool_id, m), q) == store_has(s, q));
    }
}

/// Issuing the same authorized write twice in sequence yields the same
/// final store as issuing it once.
pub proof fn lemma_write_idempotent(
    s: StoreView,
    pool_id: Seq<char>,
    name: Seq<char>,
    value: Seq<char>,
)
    requires
        store_wf(s),
    ensures
        store_write(store_write(s, pool_id, name, value), pool_id, name, value) == store_write(
            s,
            pool_id,
            name,
            value,
        ),
{
    let m = store_fields_or_empty(s, pool_id).insert(name, value);
    let w1 = store_write(s, pool_id, name, value);
    crate::store::lemma_store_put_props(s, pool_id, m);
    assert(store_get(w1, pool_id) == m);
    assert(m.insert(name, value) =~= m);
    crate::store::lemma_store_put_props(w1, pool_id, m);
    let i1 = store_index(w1, pool_id);
    assert(w1[i1] == (pool_id, m));
    assert(store_write(w1, pool_id, name, value) == w1.update(i1, (pool_id, m)));
    assert(w1.update(i1, (pool_id, m)) =~= w1);
}

/// Writing `name = a` then `name = b` to the same pool leaves exactly the
/// store of writing `name = b` alone: one entry for `name`, holding the
/// latest value.
pub proof fn lemma_write_overwrite(
    s: StoreView,
    pool_id: Seq<char>,
    name: Seq<char>,
    a: Seq<char>,
    b: Seq<char>,
)
    requires
        store_wf(s),
    ensures
        store_write(store_write(s, pool_id, name, a), pool_id, name, b) == store_write(
            s,
            pool_id,
            name,
            b,
        ),
{
    let f = store_fields_or_empty(s, pool_id);
    let ma = f.insert(name, a);
    let mb = f.insert(name, b);
    let w1 = store_write(s, pool_id, name, a);
    crate::store::lemma_store_put_props(s, pool_id, ma);
    crate::store::lemma_store_put_props(s, pool_id, mb);
    assert(store_get(w1, pool_id) == ma);
    assert(ma.insert(name, b) =~= mb);
    crate::store::lemma_store_put_props(w1, pool_id, mb);
    let i1 = store_index(w1, pool_id);
    assert(store_write(w1, pool_id, name, b) == w1.update(i1, (pool_id, mb)));
    if store_has(s, pool_id) {
        let i0 = store_index(s, pool_id);
        assert(w1 == s.update(i0, (pool_id, ma)));
        assert(w1[i0] == (pool_id, ma));
        crate::store::lemma_store_index(w1, pool_id);
        assert(i1 == i0);
        assert(w1.update(i1, (pool_id, mb)) =~= s.update(i0, (pool_id, mb)));
    } else {
        assert(w1 == s.push((pool_id, ma)));
        assert(w1[s.len() as int] == (pool_id, ma));
        crate::store::lemma_store_index(w1, pool_id);
        assert(i1 == s.len() as int);
        assert(w1.update(i1, (pool_id, mb)) =~= s.push((pool_id, mb)));
    }
}

/// Two consecutive pages partition the combined page: the page of the
/// first `n` records followed by the page of the next `m` records is the
/// page of the first `n + m` records, with no overlap and no gap.
pub proof fn lemma_pagination_partition(s: StoreView, n: int, m: int)
    requires
        0 <= n,
        0 <= m,
    ensures
        page_of(s, 0, n) + page_of(s, n, m) == page_of(s, 0, n + m),
{
    assert(page_of(s, 0, n) + page_of(s, n, m) =~= page_of(s, 0, n + m));
}

} // verus!
