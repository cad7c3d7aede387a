use vstd::prelude::*;
use crate::clone_behavior::{ComponentTraits, RelationshipRole};
use crate::clone_ctx::reparents;
use crate::entity::Entity;
use crate::world::{
    apply_deferred_spec, drain_clones_spec, finish_duplicate_spec, replace, start_duplicate_spec,
    without, WorldView,
};

verus! {

/// A back-reference type that can be duplicated: the children type, or one
/// with value or introspective duplication.
pub open spec fn duplicable_target(t: ComponentTraits) -> bool {
    &&& t.wf()
    &&& t.role == RelationshipRole::Target
    &&& (t.is_children || t.cloneable || t.reflectable)
}

/// Deferred reparentings to one target set the forward component of each
/// live entity listed, and change nothing else.
pub proof fn lemma_apply_reparents(w: WorldView, s: Seq<Entity>, t: Entity)
    requires
        w.wf(),
    ensures
        apply_deferred_spec(w, reparents(s, t)).wf(),
        apply_deferred_spec(w, reparents(s, t)).alive == w.alive,
        apply_deferred_spec(w, reparents(s, t)).children == w.children,
        apply_deferred_spec(w, reparents(s, t)).parent.len() == w.parent.len(),
        forall|e: Entity|
            s.contains(e) && w.is_alive(e) ==> apply_deferred_spec(w, reparents(s, t)).parent[e.index()]
                == Some(t),
        forall|i: int|
            0 <= i < w.len() && (forall|k: int| 0 <= k < s.len() ==> s[k].index() != i)
                ==> apply_deferred_spec(w, reparents(s, t)).parent[i] == w.parent[i],
    decreases s.len(),
{
    if s.len() > 0 {
        let prev = s.drop_last();
        lemma_apply_reparents(w, prev, t);
        assert(reparents(s, t).drop_last() =~= reparents(prev, t));
        let before = apply_deferred_spec(w, reparents(prev, t));
        assert forall|e: Entity| s.contains(e) && w.is_alive(e) implies apply_deferred_spec(
            w,
            reparents(s, t),
        ).parent[e.index()] == Some(t) by {
            if e != s.last() {
                let k = choose|k: int| 0 <= k < s.len() && s[k] == e;
                assert(prev[k] == e);
            }
        }
        assert forall|i: int|
            0 <= i < w.len() && (forall|k: int| 0 <= k < s.len() ==> s[k].index() != i) implies
                apply_deferred_spec(w, reparents(s, t)).parent[i] == w.parent[i] by {
            assert(s[s.len() - 1].index() != i);
            assert forall|k: int| 0 <= k < prev.len() implies prev[k].index() != i by {
                assert(prev[k] == s[k]);
            }
        }
    }
}

/// Duplicating an entity with neither linked nor move mode gives the
/// duplicate an empty back-reference collection and leaves every forward
/// component, and the source's collection, as they were.
pub proof fn lemma_default_mode_keeps_references(
    w: WorldView,
    source: Entity,
    t: ComponentTraits,
)
    requires
        w.wf(),
        w.len() < usize::MAX,
        source.index() < w.len(),
        t.wf(),
        t.role == RelationshipRole::Target,
    ensures
        ({
            let (mid, ctx) = start_duplicate_spec(w, source, t, false, false);
            let after = finish_duplicate_spec(mid, ctx);
            &&& after.children[w.len()] == Seq::<Entity>::empty()
            &&& after.children[source.index()] == w.children[source.index()]
            &&& after.parent == w.parent.push(None)
        }),
{
    let (mid, ctx) = start_duplicate_spec(w, source, t, false, false);
    assert(ctx.clone_queue.len() == 0);
    assert(ctx.deferred.len() == 0);
    assert(drain_clones_spec(mid, ctx.clone_queue, ctx.target) == mid);
    assert(finish_duplicate_spec(mid, ctx) == mid);
    assert(mid.parent =~= w.parent.push(None));
    assert(mid.children[w.len()] =~= Seq::<Entity>::empty());
}

/// Duplicating an entity in move mode, where linked mode does not win (it
/// wins for a type flagged for recursive duplication), gives the duplicate
/// the source's back-reference collection; after the batch every live entity
/// of it points at the duplicate, any other forward component is unchanged,
/// and the source's collection is empty.
pub proof fn lemma_move_mode_reparents(
    w: WorldView,
    source: Entity,
    t: ComponentTraits,
    linked: bool,
)
    requires
        w.wf(),
        w.len() < usize::MAX,
        source.index() < w.len(),
        duplicable_target(t),
        !(linked && t.linked_spawn),
    ensures
        ({
            let (mid, ctx) = start_duplicate_spec(w, source, t, linked, true);
            let after = finish_duplicate_spec(mid, ctx);
            let s = w.children[source.index()];
            let target = Entity(w.len() as usize);
            &&& after.children[target.index()] == s
            &&& after.children[source.index()] == Seq::<Entity>::empty()
            &&& forall|e: Entity| s.contains(e) && w.is_alive(e) ==> after.parent[e.index()]
                == Some(target)
            &&& forall|i: int|
                0 <= i < w.len() && (forall|k: int| 0 <= k < s.len() ==> s[k].index() != i)
                    ==> after.parent[i] == w.parent[i]
        }),
{
    let (mid, ctx) = start_duplicate_spec(w, source, t, linked, true);
    let s = w.children[source.index()];
    let target = Entity(w.len() as usize);
    assert(ctx.clone_queue.len() == 0);
    assert(ctx.deferred =~= reparents(s, target));
    assert(drain_clones_spec(mid, ctx.clone_queue, ctx.target) == mid);
    lemma_apply_reparents(mid, s, target);
    assert(mid.children[target.index()] == s);
    assert(mid.parent =~= w.parent.push(None));
    assert(mid.alive =~= w.alive.push(true));
    assert forall|e: Entity| w.is_alive(e) implies mid.is_alive(e) by {
        assert(mid.alive[e.index()] == w.alive[e.index()]);
    }
    let after = finish_duplicate_spec(mid, ctx);
    assert(after == apply_deferred_spec(mid, reparents(s, target)));
    assert(after.children[target.index()] == s);
    assert(after.children[source.index()] == Seq::<Entity>::empty());
    assert forall|i: int|
        0 <= i < w.len() && (forall|k: int| 0 <= k < s.len() ==> s[k].index() != i) implies after.parent[i]
            == w.parent[i] by {
        assert(mid.parent[i] == w.parent[i]);
    }
}

/// If an entity of the source's collection is despawned after a move-mode
/// duplication (where linked mode does not win) starts and before its batch
/// ends, the batch still ends: the duplicate's collection holds exactly the
/// other entities, and each of them that is alive points at the duplicate;
/// in a consistent world, each of them points at the duplicate.
pub proof fn lemma_move_tolerates_despawn(
    w: WorldView,
    source: Entity,
    t: ComponentTraits,
    gone: Entity,
    linked: bool,
)
    requires
        w.wf(),
        w.len() < usize::MAX,
        source.index() < w.len(),
        gone.index() < w.len(),
        duplicable_target(t),
        !(linked && t.linked_spawn),
    ensures
        ({
            let (mid, ctx) = start_duplicate_spec(w, source, t, linked, true);
            let after = finish_duplicate_spec(mid.despawn(gone), ctx);
            let s = w.children[source.index()];
            let target = Entity(w.len() as usize);
            &&& after.children[target.index()] == without(s, gone)
            &&& !after.is_alive(gone)
            &&& forall|e: Entity|
                without(s, gone).contains(e) && w.is_alive(e) ==> after.parent[e.index()]
                    == Some(target)
            &&& consistent(w) ==> forall|e: Entity|
                without(s, gone).contains(e) ==> after.parent[e.index()] == Some(target)
        }),
{
    let (mid, ctx) = start_duplicate_spec(w, source, t, linked, true);
    let s = w.children[source.index()];
    let target = Entity(w.len() as usize);
    let cut = mid.despawn(gone);
    assert(ctx.clone_queue.len() == 0);
    assert(ctx.deferred =~= reparents(s, target));
    assert(drain_clones_spec(cut, ctx.clone_queue, ctx.target) == cut);
    lemma_apply_reparents(cut, s, target);
    assert(mid.children[target.index()] == s);
    assert(cut.children[target.index()] == without(s, gone));
    assert forall|e: Entity| without(s, gone).contains(e) && w.is_alive(e) implies cut.is_alive(
        e,
    ) && s.contains(e) by {
        lemma_without_contains(s, gone, e);
    }
    let after = finish_duplicate_spec(cut, ctx);
    assert(after == apply_deferred_spec(cut, reparents(s, target)));
    if consistent(w) {
        assert forall|e: Entity| without(s, gone).contains(e) implies after.parent[e.index()]
            == Some(target) by {
            lemma_without_contains(s, gone, e);
            let k = choose|k: int| 0 <= k < s.len() && s[k] == e;
            assert(w.children[source.index()][k] == e);
            assert(w.is_alive(e));
            assert(cut.is_alive(e));
        }
    }
}

/// `without(s, e)` holds `x` exactly when `s` does and `x` is not `e`.
pub proof fn lemma_without_contains(s: Seq<Entity>, e: Entity, x: Entity)
    ensures
        without(s, e).contains(x) <==> (s.contains(x) && x != e),
    decreases s.len(),
{
    if s.len() > 0 {
        let prev = s.drop_last();
        lemma_without_contains(prev, e, x);
        assert(s =~= prev.push(s.last()));
        assert(s.contains(x) <==> (prev.contains(x) || x == s.last())) by {
            if s.contains(x) {
                let k = choose|k: int| 0 <= k < s.len() && s[k] == x;
                if k < s.len() - 1 {
                    assert(prev[k] == x);
                }
            }
            if prev.contains(x) {
                let k = choose|k: int| 0 <= k < prev.len() && prev[k] == x;
                assert(s[k] == x);
            }
            assert(s[s.len() - 1] == s.last());
        }
        if s.last() != e {
            let r = without(prev, e);
            assert(without(s, e) == r.push(s.last()));
            assert(r.push(s.last()).contains(x) <==> (r.contains(x) || x == s.last())) by {
                if r.push(s.last()).contains(x) {
                    let k = choose|k: int| 0 <= k < r.len() + 1 && r.push(s.last())[k] == x;
                    if k < r.len() {
                        assert(r[k] == x);
                    }
                }
                if r.contains(x) {
                    let k = choose|k: int| 0 <= k < r.len() && r[k] == x;
                    assert(r.push(s.last())[k] == x);
                }
                assert(r.push(s.last())[r.len() as int] == s.last());
            }
        }
    }
}

/// The `k` entities in consecutive slots from `base` on.
pub open spec fn fresh_entities(base: int, k: int) -> Seq<Entity> {
    Seq::new(k as nat, |j: int| Entity((base + j) as usize))
}

/// The first `k` nested duplications of a collection `s` of distinct live
/// entities, held by `target`, replace its first `k` entries by new entities
/// in the next slots, each pointing at `target`, and touch nothing older.
pub proof fn lemma_drain_replaces_prefix(m: WorldView, s: Seq<Entity>, target: Entity, k: int)
    requires
        m.wf(),
        0 <= k <= s.len(),
        target.index() < m.len(),
        m.children[target.index()] == s,
        s.no_duplicates(),
        forall|j: int| 0 <= j < s.len() ==> m.is_alive(#[trigger] s[j]),
        m.len() + s.len() <= usize::MAX,
    ensures
        ({
            let d = drain_clones_spec(m, s.take(k), target);
            &&& d.wf()
            &&& d.len() == m.len() + k
            &&& forall|i: int| 0 <= i < m.len() ==> d.alive[i] == m.alive[i]
            &&& forall|i: int| 0 <= i < m.len() ==> d.parent[i] == m.parent[i]
            &&& forall|i: int|
                0 <= i < m.len() && i != target.index() ==> d.children[i] == m.children[i]
            &&& forall|i: int| m.len() <= i < m.len() + k ==> d.parent[i] == Some(target)
            &&& forall|i: int| m.len() <= i < m.len() + k ==> d.alive[i]
            &&& forall|i: int| m.len() <= i < m.len() + k ==> d.children[i].len() == 0
            &&& d.children[target.index()] == fresh_entities(m.len() as int, k) + s.skip(k)
        }),
    decreases k,
{
    if k == 0 {
        assert(s.take(0) =~= Seq::<Entity>::empty());
        assert(fresh_entities(m.len() as int, 0) + s.skip(0) =~= s);
    } else {
        lemma_drain_replaces_prefix(m, s, target, k - 1);
        assert(s.take(k).drop_last() =~= s.take(k - 1));
        let d = drain_clones_spec(m, s.take(k - 1), target);
        let e = s[k - 1];
        let n = Entity((m.len() + k - 1) as usize);
        assert(d.is_alive(e));
        let old_c = d.children[target.index()];
        let new_c = replace(old_c, e, n);
        assert(new_c =~= fresh_entities(m.len() as int, k) + s.skip(k)) by {
            assert forall|j: int| 0 <= j < new_c.len() implies new_c[j] == (fresh_entities(
                m.len() as int,
                k,
            ) + s.skip(k))[j] by {
                if j < k - 1 {
                    assert(old_c[j] == Entity((m.len() + j) as usize));
                    assert(old_c[j] != e);
                } else if j == k - 1 {
                    assert(old_c[j] == s[k - 1]);
                } else {
                    assert(old_c[j] == s[j]);
                    assert(s[j] != s[k - 1]);
                }
            }
        }
    }
}

/// Duplicating an entity in linked mode, for a back-reference type flagged
/// for recursive duplication, gives the duplicate a collection of new
/// entities, one per entity of the source's collection and in its order,
/// each pointing at the duplicate; the original entities keep pointing at
/// the source, which keeps its collection.
pub proof fn lemma_linked_mode_spawns_new_sources(
    w: WorldView,
    source: Entity,
    t: ComponentTraits,
)
    requires
        w.wf(),
        source.index() < w.len(),
        duplicable_target(t),
        t.linked_spawn,
        w.children[source.index()].no_duplicates(),
        forall|j: int|
            0 <= j < w.children[source.index()].len() ==> w.is_alive(
                #[trigger] w.children[source.index()][j],
            ),
        w.len() + 1 + w.children[source.index()].len() <= usize::MAX,
    ensures
        ({
            let (mid, ctx) = start_duplicate_spec(w, source, t, true, false);
            let after = finish_duplicate_spec(mid, ctx);
            let s = w.children[source.index()];
            let target = Entity(w.len() as usize);
            &&& after.children[target.index()] == fresh_entities(w.len() + 1, s.len() as int)
            &&& forall|i: int|
                w.len() < i <= w.len() + s.len() ==> after.parent[i] == Some(target)
                    && after.alive[i]
            &&& forall|i: int| 0 <= i < w.len() ==> after.parent[i] == w.parent[i]
            &&& after.children[source.index()] == s
        }),
{
    let (mid, ctx) = start_duplicate_spec(w, source, t, true, false);
    let s = w.children[source.index()];
    let target = Entity(w.len() as usize);
    assert(ctx.clone_queue =~= s);
    assert(ctx.deferred.len() == 0);
    assert(mid.children[target.index()] == s);
    assert(mid.alive =~= w.alive.push(true));
    assert(mid.parent =~= w.parent.push(None));
    assert forall|j: int| 0 <= j < s.len() implies mid.is_alive(#[trigger] s[j]) by {
        assert(w.is_alive(s[j]));
        assert(mid.alive[s[j].index()] == w.alive[s[j].index()]);
    }
    lemma_drain_replaces_prefix(mid, s, target, s.len() as int);
    assert(s.take(s.len() as int) =~= s);
    assert(s.skip(s.len() as int) =~= Seq::<Entity>::empty());
    let d = drain_clones_spec(mid, s, target);
    assert(finish_duplicate_spec(mid, ctx) == d);
    assert(d.children[target.index()] =~= fresh_entities(w.len() + 1, s.len() as int));
    assert forall|i: int| 0 <= i < w.len() implies d.parent[i] == w.parent[i] by {
        assert(mid.parent[i] == w.parent[i]);
    }
    assert(d.children[source.index()] == mid.children[source.index()]);
}

/// The relationship invariant: every collection lists distinct live entities
/// whose forward component points at the collection's owner; every live
/// entity with a forward component is listed by its target; a dead entity
/// has neither component.
pub open spec fn consistent(w: WorldView) -> bool {
    &&& w.wf()
    &&& forall|i: int| 0 <= i < w.len() ==> (#[trigger] w.children[i]).no_duplicates()
    &&& forall|i: int, j: int|
        0 <= i < w.len() && 0 <= j < w.children[i].len() ==> {
            let x = #[trigger] w.children[i][j];
            &&& w.is_alive(x)
            &&& w.parent[x.index()] is Some
            &&& w.parent[x.index()]->Some_0.index() == i
        }
    &&& forall|e: int|
        0 <= e < w.len() && (#[trigger] w.parent[e]) is Some ==> {
            let p = w.parent[e]->Some_0;
            &&& w.alive[e]
            &&& 0 <= p.index() < w.len()
            &&& w.children[p.index()].contains(Entity(e as usize))
        }
    &&& forall|e: int| 0 <= e < w.len() && !w.alive[e] ==> (#[trigger] w.children[e]).len() == 0
}

/// Duplicating an entity with neither linked nor move mode keeps the
/// relationship invariant.
pub proof fn lemma_default_mode_consistent(w: WorldView, source: Entity, t: ComponentTraits)
    requires
        consistent(w),
        w.len() < usize::MAX,
        source.index() < w.len(),
        t.wf(),
        t.role == RelationshipRole::Target,
    ensures
        ({
            let (mid, ctx) = start_duplicate_spec(w, source, t, false, false);
            consistent(finish_duplicate_spec(mid, ctx))
        }),
{
    let (mid, ctx) = start_duplicate_spec(w, source, t, false, false);
    lemma_default_mode_keeps_references(w, source, t);
    let after = finish_duplicate_spec(mid, ctx);
    assert(after == mid);
    assert(mid.alive =~= w.alive.push(true));
    assert(mid.children =~= w.children.push(Seq::empty()));
    assert forall|i: int, j: int|
        0 <= i < after.len() && 0 <= j < after.children[i].len() implies {
            let x = #[trigger] after.children[i][j];
            &&& after.is_alive(x)
            &&& after.parent[x.index()] is Some
            &&& after.parent[x.index()]->Some_0.index() == i
        } by {
        let x = w.children[i][j];
        assert(w.is_alive(x));
        assert(after.parent[x.index()] == w.parent[x.index()]);
    }
    assert forall|e: int| 0 <= e < after.len() && (#[trigger] after.parent[e]) is Some implies {
        let p = after.parent[e]->Some_0;
        &&& after.alive[e]
        &&& 0 <= p.index() < after.len()
        &&& after.children[p.index()].contains(Entity(e as usize))
    } by {
        assert(after.parent[e] == w.parent[e]);
        let p = w.parent[e]->Some_0;
        assert(after.children[p.index()] == w.children[p.index()]);
    }
    assert forall|i: int| 0 <= i < after.len() implies (#[trigger] after.children[i]).no_duplicates() by {
        if i < w.len() {
            assert(after.children[i] == w.children[i]);
        }
    }
}

/// Duplicating an entity in move mode, where linked mode does not win, keeps
/// the relationship invariant: the source's entities move to the duplicate,
/// in its collection and in their forward components alike.
pub proof fn lemma_move_mode_consistent(
    w: WorldView,
    source: Entity,
    t: ComponentTraits,
    linked: bool,
)
    requires
        consistent(w),
        w.len() < usize::MAX,
        source.index() < w.len(),
        duplicable_target(t),
        !(linked && t.linked_spawn),
    ensures
        ({
            let (mid, ctx) = start_duplicate_spec(w, source, t, linked, true);
            consistent(finish_duplicate_spec(mid, ctx))
        }),
{
    let (mid, ctx) = start_duplicate_spec(w, source, t, linked, true);
    let s = w.children[source.index()];
    let n = w.len();
    let target = Entity(n as usize);
    lemma_move_mode_reparents(w, source, t, linked);
    assert(ctx.deferred =~= reparents(s, target));
    assert(drain_clones_spec(mid, ctx.clone_queue, ctx.target) == mid);
    lemma_apply_reparents(mid, s, target);
    let after = finish_duplicate_spec(mid, ctx);
    assert(mid.alive =~= w.alive.push(true));
    assert(mid.parent =~= w.parent.push(None));
    assert(after.alive == mid.alive);
    assert(after.children == mid.children);
    // An entity is listed by the source exactly when its forward component
    // points at the source.
    assert forall|x: Entity| #[trigger] s.contains(x) implies w.is_alive(x) && w.parent[x.index()]
        == Some(source) by {
        let k = choose|k: int| 0 <= k < s.len() && s[k] == x;
        assert(w.children[source.index()][k] == x);
    }
    assert forall|i: int, j: int|
        0 <= i < after.len() && 0 <= j < after.children[i].len() implies {
            let x = #[trigger] after.children[i][j];
            &&& after.is_alive(x)
            &&& after.parent[x.index()] is Some
            &&& after.parent[x.index()]->Some_0.index() == i
        } by {
        let x = after.children[i][j];
        if i == n {
            assert(s[j] == x);
            assert(s.contains(x));
            assert(w.is_alive(x));
        } else {
            assert(i != source.index());
            assert(x == w.children[i][j]);
            assert(w.is_alive(x));
            assert forall|k: int| 0 <= k < s.len() implies s[k].index() != x.index() by {
                assert(s.contains(s[k]));
                if s[k].index() == x.index() {
                    assert(s[k] == x);
                }
            }
            assert(after.parent[x.index()] == w.parent[x.index()]);
        }
    }
    assert forall|e: int| 0 <= e < after.len() && (#[trigger] after.parent[e]) is Some implies {
        let p = after.parent[e]->Some_0;
        &&& after.alive[e]
        &&& 0 <= p.index() < after.len()
        &&& after.children[p.index()].contains(Entity(e as usize))
    } by {
        let x = Entity(e as usize);
        if s.contains(x) {
            assert(after.parent[e] == Some(target));
            assert(after.children[n] == s);
        } else {
            assert forall|k: int| 0 <= k < s.len() implies s[k].index() != e by {
                assert(s.contains(s[k]));
                if s[k].index() == e {
                    assert(s[k] == x);
                }
            }
            assert(after.parent[e] == mid.parent[e]);
            assert(e < n);
            assert(after.parent[e] == w.parent[e]);
            let p = w.parent[e]->Some_0;
            assert(w.children[p.index()].contains(x));
            assert(p != source);
            assert(after.children[p.index()] == w.children[p.index()]);
        }
    }
    assert forall|i: int| 0 <= i < after.len() implies (#[trigger] after.children[i]).no_duplicates() by {
        if i < n && i != source.index() {
            assert(after.children[i] == w.children[i]);
        }
    }
    assert forall|e: int| 0 <= e < after.len() && !after.alive[e] implies (
    #[trigger] after.children[e]).len() == 0 by {
        assert(e != n);
        assert(e < n);
        if e != source.index() {
            assert(after.children[e] == w.children[e]);
        }
    }
}

/// Duplicating an entity in linked mode, for a back-reference type flagged
/// for recursive duplication, keeps the relationship invariant: the new
/// entities and the duplicate list each other, and nothing older changes.
pub proof fn lemma_linked_mode_consistent(w: WorldView, source: Entity, t: ComponentTraits)
    requires
        consistent(w),
        source.index() < w.len(),
        duplicable_target(t),
        t.linked_spawn,
        w.len() + 1 + w.children[source.index()].len() <= usize::MAX,
    ensures
        ({
            let (mid, ctx) = start_duplicate_spec(w, source, t, true, false);
            consistent(finish_duplicate_spec(mid, ctx))
        }),
{
    let (mid, ctx) = start_duplicate_spec(w, source, t, true, false);
    let s = w.children[source.index()];
    let n = w.len();
    let target = Entity(n as usize);
    let k = s.len() as int;
    assert(s.no_duplicates());
    assert forall|j: int| 0 <= j < s.len() implies w.is_alive(#[trigger] s[j]) by {
        assert(w.children[source.index()][j] == s[j]);
    }
    lemma_linked_mode_spawns_new_sources(w, source, t);
    assert(ctx.clone_queue =~= s);
    assert(mid.children[target.index()] == s);
    assert(mid.alive =~= w.alive.push(true));
    assert(mid.parent =~= w.parent.push(None));
    assert(mid.children =~= w.children.push(s));
    assert forall|j: int| 0 <= j < s.len() implies mid.is_alive(#[trigger] s[j]) by {
        assert(mid.alive[s[j].index()] == w.alive[s[j].index()]);
    }
    lemma_drain_replaces_prefix(mid, s, target, k);
    assert(s.take(k) =~= s);
    assert(s.skip(k) =~= Seq::<Entity>::empty());
    let after = drain_clones_spec(mid, s, target);
    assert(finish_duplicate_spec(mid, ctx) == after);
    let f = fresh_entities(n + 1, k);
    assert(after.children[n] =~= f);
    assert(after.len() == n + 1 + k);
    assert forall|i: int| 0 <= i < after.len() implies (#[trigger] after.children[i]).no_duplicates() by {
        if i < n {
            assert(after.children[i] == w.children[i]);
        } else if i == n {
            assert forall|a: int, b: int| 0 <= a < f.len() && 0 <= b < f.len() && a != b implies f[a]
                != f[b] by {
                assert(f[a].index() == n + 1 + a);
                assert(f[b].index() == n + 1 + b);
            }
        } else {
            assert(after.children[i].len() == 0);
        }
    }
    assert forall|i: int, j: int|
        0 <= i < after.len() && 0 <= j < after.children[i].len() implies {
            let x = #[trigger] after.children[i][j];
            &&& after.is_alive(x)
            &&& after.parent[x.index()] is Some
            &&& after.parent[x.index()]->Some_0.index() == i
        } by {
        let x = after.children[i][j];
        if i < n {
            assert(after.children[i] == w.children[i]);
            assert(w.is_alive(x));
            assert(after.alive[x.index()] == mid.alive[x.index()]);
            assert(after.parent[x.index()] == mid.parent[x.index()]);
        } else if i == n {
            assert(x == f[j]);
            assert(x.index() == n + 1 + j);
        } else {
            assert(after.children[i].len() == 0);
        }
    }
    assert forall|e: int| 0 <= e < after.len() && (#[trigger] after.parent[e]) is Some implies {
        let p = after.parent[e]->Some_0;
        &&& after.alive[e]
        &&& 0 <= p.index() < after.len()
        &&& after.children[p.index()].contains(Entity(e as usize))
    } by {
        if e < n {
            assert(after.parent[e] == mid.parent[e]);
            assert(after.alive[e] == mid.alive[e]);
            let p = w.parent[e]->Some_0;
            assert(after.children[p.index()] == w.children[p.index()]);
        } else if e == n {
            assert(after.parent[e] == mid.parent[e]);
        } else {
            let j = e - n - 1;
            assert(f[j] == Entity(e as usize));
        }
    }
    assert forall|e: int| 0 <= e < after.len() && !after.alive[e] implies (
    #[trigger] after.children[e]).len() == 0 by {
        if e < n {
            assert(after.alive[e] == mid.alive[e]);
            assert(after.children[e] == w.children[e]);
        } else if e == n {
            assert(after.alive[e] == mid.alive[e]);
        }
    }
}

/// With linked and move mode both on, for a back-reference type flagged for
/// recursive duplication, linked duplication wins: no reparenting is queued,
/// the batch ends as a linked-only duplication does, the source keeps its
/// collection and its entities keep pointing at it, and the relationship
/// invariant holds after.
pub proof fn lemma_linked_wins_over_move(w: WorldView, source: Entity, t: ComponentTraits)
    requires
        consistent(w),
        source.index() < w.len(),
        duplicable_target(t),
        t.linked_spawn,
        w.len() + 1 + w.children[source.index()].len() <= usize::MAX,
    ensures
        ({
            let (mid, ctx) = start_duplicate_spec(w, source, t, true, true);
            let after = finish_duplicate_spec(mid, ctx);
            let (lmid, lctx) = start_duplicate_spec(w, source, t, true, false);
            let s = w.children[source.index()];
            &&& ctx.deferred.len() == 0
            &&& after == finish_duplicate_spec(lmid, lctx)
            &&& after.children[source.index()] == s
            &&& forall|i: int| 0 <= i < w.len() ==> after.parent[i] == w.parent[i]
            &&& after.children[w.len()] == fresh_entities(w.len() + 1, s.len() as int)
            &&& consistent(after)
        }),
{
    let (mid, ctx) = start_duplicate_spec(w, source, t, true, true);
    let (lmid, lctx) = start_duplicate_spec(w, source, t, true, false);
    let s = w.children[source.index()];
    assert(ctx.clone_queue =~= s);
    assert(lctx.clone_queue =~= s);
    assert(ctx.deferred.len() == 0);
    assert(lctx.deferred.len() == 0);
    assert(mid == lmid);
    assert forall|j: int| 0 <= j < s.len() implies w.is_alive(#[trigger] s[j]) by {
        assert(w.children[source.index()][j] == s[j]);
    }
    lemma_linked_mode_spawns_new_sources(w, source, t);
    lemma_linked_mode_consistent(w, source, t);
}

} // verus!
