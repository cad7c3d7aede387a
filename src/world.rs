use vstd::prelude::*;
use crate::clone_behavior::{resolve_spec, ComponentTraits, RelationshipRole};
use crate::clone_ctx::{
    CloneCtxView, ComponentCloneCtx, ComponentValue, ComponentValueView, DeferredReparent,
    copy_entities,
};
use crate::entity::Entity;
use crate::registry::resolve_clone_behavior;
use crate::relationship::{run_clone_behavior, run_clone_behavior_spec};

verus! {

/// `s` with every occurrence of `e` taken out, order kept.
pub open spec fn without(s: Seq<Entity>, e: Entity) -> Seq<Entity>
    decreases s.len(),
{
    if s.len() == 0 {
        s
    } else if s.last() == e {
        without(s.drop_last(), e)
    } else {
        without(s.drop_last(), e).push(s.last())
    }
}

/// `s` with every occurrence of `a` replaced by `b`.
pub open spec fn replace(s: Seq<Entity>, a: Entity, b: Entity) -> Seq<Entity> {
    s.map_values(|x: Entity| if x == a { b } else { x })
}

/// The model of a [`RelationWorld`]: for each entity slot, whether the entity
/// is alive, its forward component, and its back-reference collection.
#[verifier::ext_equal]
pub struct WorldView {
    pub alive: Seq<bool>,
    pub parent: Seq<Option<Entity>>,
    pub children: Seq<Seq<Entity>>,
}

impl WorldView {
    pub open spec fn wf(self) -> bool {
        &&& self.alive.len() == self.parent.len()
        &&& self.parent.len() == self.children.len()
    }

    pub open spec fn len(self) -> int {
        self.alive.len() as int
    }

    pub open spec fn is_alive(self, e: Entity) -> bool {
        0 <= e.index() < self.len() && self.alive[e.index()]
    }

    /// A new live entity in the next slot, with no relationship components.
    pub open spec fn spawn(self) -> WorldView {
        WorldView {
            alive: self.alive.push(true),
            parent: self.parent.push(None),
            children: self.children.push(Seq::empty()),
        }
    }

    pub open spec fn set_parent(self, e: Entity, p: Option<Entity>) -> WorldView {
        WorldView { parent: self.parent.update(e.index(), p), ..self }
    }

    pub open spec fn set_children(self, e: Entity, c: Seq<Entity>) -> WorldView {
        WorldView { children: self.children.update(e.index(), c), ..self }
    }

    /// Inserting a forward component on `child` that points at `parent`; the
    /// hook appends `child` to the collection of `parent`.
    pub open spec fn link(self, child: Entity, parent: Entity) -> WorldView {
        self.set_parent(child, Some(parent)).set_children(
            parent,
            self.children[parent.index()].push(child),
        )
    }

    /// Despawning `e`: its slot dies and loses its components, forward
    /// components that pointed at it are removed, and it leaves every collection.
    pub open spec fn despawn(self, e: Entity) -> WorldView {
        WorldView {
            alive: self.alive.update(e.index(), false),
            parent: Seq::new(
                self.parent.len(),
                |i: int|
                    if i == e.index() || self.parent[i] == Some(e) {
                        None
                    } else {
                        self.parent[i]
                    },
            ),
            children: Seq::new(
                self.children.len(),
                |i: int|
                    if i == e.index() {
                        Seq::empty()
                    } else {
                        without(self.children[i], e)
                    },
            ),
        }
    }

    /// A deferred reparenting: the forward component of a live entity is
    /// set without touching any collection; a dead entity is skipped.
    pub open spec fn reparent(self, op: DeferredReparent) -> WorldView {
        if self.is_alive(op.entity) {
            self.set_parent(op.entity, Some(op.target))
        } else {
            self
        }
    }

    /// A nested duplication of a live `e` for `target`: a new entity whose
    /// forward component points at `target` takes the place of `e` in the
    /// collection of `target`. A dead `e` is skipped.
    pub open spec fn nested_clone(self, e: Entity, target: Entity) -> WorldView {
        if self.is_alive(e) {
            let n = Entity(self.len() as usize);
            self.spawn().set_parent(n, Some(target)).set_children(
                target,
                replace(self.children[target.index()], e, n),
            )
        } else {
            self
        }
    }
}

/// The deferred mutations `ops` applied in order.
pub open spec fn apply_deferred_spec(w: WorldView, ops: Seq<DeferredReparent>) -> WorldView
    decreases ops.len(),
{
    if ops.len() == 0 {
        w
    } else {
        apply_deferred_spec(w, ops.drop_last()).reparent(ops.last())
    }
}

/// The nested duplications of `queue` for `target`, in order.
pub open spec fn drain_clones_spec(w: WorldView, queue: Seq<Entity>, target: Entity) -> WorldView
    decreases queue.len(),
{
    if queue.len() == 0 {
        w
    } else {
        drain_clones_spec(w, queue.drop_last(), target).nested_clone(queue.last(), target)
    }
}

/// The context in which a duplication into `target` starts.
pub open spec fn fresh_ctx(target: Entity, linked: bool, moving: bool) -> CloneCtxView {
    CloneCtxView {
        linked_cloning: linked,
        moving,
        target,
        clone_queue: Seq::empty(),
        deferred: Seq::empty(),
        output: None,
    }
}

/// Whether a duplication in these modes, for a back-reference type with
/// capabilities `t`, moves the source's entities rather than cloning them.
pub open spec fn moves_sources(t: ComponentTraits, linked: bool, moving: bool) -> bool {
    moving && !(linked && t.linked_spawn)
}

/// The first half of duplicating `source` for a back-reference type with
/// capabilities `t`: a new entity is spawned, the type's resolved behavior
/// runs on the collection of `source`, and the collection it produces becomes
/// the new entity's. When the move branch of the relationship algorithm runs
/// (move mode, and not linked mode for a type flagged for recursive
/// duplication), the source gives its component up.
/// Returns the world and the context, whose queues are still to be run.
pub open spec fn start_duplicate_spec(
    w: WorldView,
    source: Entity,
    t: ComponentTraits,
    linked: bool,
    moving: bool,
) -> (WorldView, CloneCtxView) {
    let target = Entity(w.len() as usize);
    let ctx = run_clone_behavior_spec(
        resolve_spec(t),
        Some(ComponentValueView::RelationshipTarget(w.children[source.index()])),
        fresh_ctx(target, linked, moving),
    );
    match ctx.output {
        Some(ComponentValueView::RelationshipTarget(c)) => {
            let filled = w.spawn().set_children(target, c);
            if moves_sources(t, linked, moving) {
                (filled.set_children(source, Seq::empty()), ctx)
            } else {
                (filled, ctx)
            }
        },
        _ => (w.spawn(), ctx),
    }
}

/// The end of a duplication batch: the nested duplications first, then the
/// deferred mutations.
pub open spec fn finish_duplicate_spec(w: WorldView, ctx: CloneCtxView) -> WorldView {
    apply_deferred_spec(drain_clones_spec(w, ctx.clone_queue, ctx.target), ctx.deferred)
}

/// A collection of entities with one relationship: each entity may hold a
/// forward component (its parent) and holds a back-reference collection.
pub struct RelationWorld {
    alive: Vec<bool>,
    parent: Vec<Option<Entity>>,
    children: Vec<Vec<Entity>>,
}

impl View for RelationWorld {
    type V = WorldView;

    closed spec fn view(&self) -> WorldView {
        WorldView {
            alive: self.alive@,
            parent: self.parent@,
            children: self.children@.map_values(|c: Vec<Entity>| c@),
        }
    }
}

/// A copy of `s` without the occurrences of `e`.
fn entities_without(s: &Vec<Entity>, e: Entity) -> (r: Vec<Entity>)
    ensures
        r@ == without(s@, e),
{
    let mut r: Vec<Entity> = Vec::new();
    let mut i: usize = 0;
    while i < s.len()
        invariant
            i <= s.len(),
            r@ == without(s@.take(i as int), e),
        decreases s.len() - i,
    {
        assert(s@.take(i + 1).drop_last() =~= s@.take(i as int));
        if s[i] != e {
            r.push(s[i]);
        }
        i = i + 1;
    }
    assert(s@.take(s.len() as int) =~= s@);
    r
}

/// A copy of `s` with every `a` replaced by `b`.
fn entities_replaced(s: &Vec<Entity>, a: Entity, b: Entity) -> (r: Vec<Entity>)
    ensures
        r@ == replace(s@, a, b),
{
    let mut r: Vec<Entity> = Vec::new();
    let mut i: usize = 0;
    while i < s.len()
        invariant
            i <= s.len(),
            r@ == replace(s@.take(i as int), a, b),
        decreases s.len() - i,
    {
        if s[i] == a {
            r.push(b);
        } else {
            r.push(s[i]);
        }
        i = i + 1;
        assert(r@ =~= replace(s@.take(i as int), a, b));
    }
    assert(s@.take(s.len() as int) =~= s@);
    r
}

impl RelationWorld {
    pub open spec fn wf(&self) -> bool {
        self@.wf()
    }

    /// An empty world.
    pub fn new() -> (r: Self)
        ensures
            r.wf(),
            r@.len() == 0,
    {
        let r = RelationWorld { alive: Vec::new(), parent: Vec::new(), children: Vec::new() };
        assert(r@.children =~= Seq::<Seq<Entity>>::empty());
        r
    }

    /// The number of entity slots.
    pub fn len(&self) -> (r: usize)
        requires
            self.wf(),
        ensures
            r == self@.len(),
    {
        self.alive.len()
    }

    pub fn is_alive(&self, e: Entity) -> (r: bool)
        requires
            self.wf(),
        ensures
            r == self@.is_alive(e),
    {
        e.0 < self.alive.len() && self.alive[e.0]
    }

    /// The forward component of `e`.
    pub fn parent(&self, e: Entity) -> (r: Option<Entity>)
        requires
            self.wf(),
            e.index() < self@.len(),
        ensures
            r == self@.parent[e.index()],
    {
        self.parent[e.0]
    }

    /// The back-reference collection of `e`.
    pub fn children(&self, e: Entity) -> (r: &Vec<Entity>)
        requires
            self.wf(),
            e.index() < self@.len(),
        ensures
            r@ == self@.children[e.index()],
    {
        &self.children[e.0]
    }

    /// Spawns a live entity in the next slot.
    pub fn spawn(&mut self) -> (r: Entity)
        requires
            old(self).wf(),
            old(self)@.len() < usize::MAX,
        ensures
            final(self).wf(),
            r == Entity(old(self)@.len() as usize),
            final(self)@ == old(self)@.spawn(),
    {
        let r = Entity(self.alive.len());
        self.alive.push(true);
        self.parent.push(None);
        self.children.push(Vec::new());
        assert(self@ =~= old(self)@.spawn());
        r
    }

    fn set_parent(&mut self, e: Entity, p: Option<Entity>)
        requires
            old(self).wf(),
            e.index() < old(self)@.len(),
        ensures
            final(self).wf(),
            final(self)@ == old(self)@.set_parent(e, p),
    {
        self.parent[e.0] = p;
        assert(self@ =~= old(self)@.set_parent(e, p));
    }

    fn set_children(&mut self, e: Entity, c: Vec<Entity>)
        requires
            old(self).wf(),
            e.index() < old(self)@.len(),
        ensures
            final(self).wf(),
            final(self)@ == old(self)@.set_children(e, c@),
    {
        self.children[e.0] = c;
        assert(self@ =~= old(self)@.set_children(e, c@));
    }

    /// Gives the live entity `child`, which has no forward component, one
    /// pointing at the live entity `parent`, and adds `child` to the
    /// collection of `parent`.
    pub fn link(&mut self, child: Entity, parent: Entity)
        requires
            old(self).wf(),
            old(self)@.is_alive(child),
            old(self)@.is_alive(parent),
            old(self)@.parent[child.index()] is None,
        ensures
            final(self).wf(),
            final(self)@ == old(self)@.link(child, parent),
    {
        let mut c = copy_entities(&self.children[parent.0]);
        c.push(child);
        self.set_parent(child, Some(parent));
        self.set_children(parent, c);
    }

    /// Despawns `e` and removes every reference to it.
    pub fn despawn(&mut self, e: Entity)
        requires
            old(self).wf(),
            e.index() < old(self)@.len(),
        ensures
            final(self).wf(),
            final(self)@ == old(self)@.despawn(e),
    {
        let ghost w = self@;
        let n = self.alive.len();
        let mut parent: Vec<Option<Entity>> = Vec::new();
        let mut children: Vec<Vec<Entity>> = Vec::new();
        let mut i: usize = 0;
        while i < n
            invariant
                self@ == w,
                w.wf(),
                n == w.len(),
                i <= n,
                parent@.len() == i,
                children@.len() == i,
                forall|j: int|
                    0 <= j < i ==> #[trigger] parent@[j] == w.despawn(e).parent[j],
                forall|j: int|
                    0 <= j < i ==> #[trigger] children@[j]@ == w.despawn(e).children[j],
            decreases n - i,
        {
            if i == e.0 || self.parent[i] == Some(e) {
                parent.push(None);
            } else {
                parent.push(self.parent[i]);
            }
            if i == e.0 {
                children.push(Vec::new());
            } else {
                children.push(entities_without(&self.children[i], e));
            }
            i = i + 1;
        }
        self.alive.set(e.0, false);
        self.parent = parent;
        self.children = children;
        assert(self@ =~= w.despawn(e));
    }

    /// Runs one deferred mutation: points the forward component of a live
    /// entity at the target, leaving every collection as it is.
    pub fn reparent(&mut self, op: DeferredReparent)
        requires
            old(self).wf(),
        ensures
            final(self).wf(),
            final(self)@ == old(self)@.reparent(op),
    {
        if self.is_alive(op.entity) {
            self.set_parent(op.entity, Some(op.target));
        }
    }

    /// Runs the deferred mutations in order.
    pub fn apply_deferred(&mut self, ops: &Vec<DeferredReparent>)
        requires
            old(self).wf(),
        ensures
            final(self).wf(),
            final(self)@ == apply_deferred_spec(old(self)@, ops@),
    {
        let ghost w = self@;
        let mut i: usize = 0;
        while i < ops.len()
            invariant
                self.wf(),
                i <= ops.len(),
                self@ == apply_deferred_spec(w, ops@.take(i as int)),
            decreases ops.len() - i,
        {
            assert(ops@.take(i + 1).drop_last() =~= ops@.take(i as int));
            self.reparent(ops[i]);
            i = i + 1;
        }
        assert(ops@.take(ops.len() as int) =~= ops@);
    }

    /// Runs one nested duplication of `e` for `target`.
    pub fn nested_clone(&mut self, e: Entity, target: Entity)
        requires
            old(self).wf(),
            old(self)@.len() < usize::MAX,
            target.index() < old(self)@.len(),
        ensures
            final(self).wf(),
            final(self)@ == old(self)@.nested_clone(e, target),
    {
        if self.is_alive(e) {
            let c = entities_replaced(&self.children[target.0], e, Entity(self.alive.len()));
            let n = self.spawn();
            self.set_parent(n, Some(target));
            self.set_children(target, c);
        }
    }

    /// Runs the nested duplications of `queue` for `target`, in order.
    pub fn drain_clones(&mut self, queue: &Vec<Entity>, target: Entity)
        requires
            old(self).wf(),
            old(self)@.len() + queue@.len() < usize::MAX,
            target.index() < old(self)@.len(),
        ensures
            final(self).wf(),
            final(self)@ == drain_clones_spec(old(self)@, queue@, target),
    {
        let ghost w = self@;
        let mut i: usize = 0;
        while i < queue.len()
            invariant
                self.wf(),
                i <= queue.len(),
                w.len() + queue@.len() < usize::MAX,
                target.index() < w.len(),
                w.len() <= self@.len() <= w.len() + i,
                self@ == drain_clones_spec(w, queue@.take(i as int), target),
            decreases queue.len() - i,
        {
            assert(queue@.take(i + 1).drop_last() =~= queue@.take(i as int));
            self.nested_clone(queue[i], target);
            i = i + 1;
        }
        assert(queue@.take(queue.len() as int) =~= queue@);
    }

    /// Starts duplicating `source` for a back-reference type with
    /// capabilities `traits`, in linked and/or move mode. Returns the context,
    /// whose target is the new entity and whose queues are still to be run.
    pub fn start_duplicate(
        &mut self,
        source: Entity,
        traits: ComponentTraits,
        linked: bool,
        moving: bool,
    ) -> (r: ComponentCloneCtx)
        requires
            old(self).wf(),
            source.index() < old(self)@.len(),
            old(self)@.len() < usize::MAX,
            traits.wf(),
            traits.role == RelationshipRole::Target,
        ensures
            final(self).wf(),
            (final(self)@, r@) == start_duplicate_spec(old(self)@, source, traits, linked, moving),
    {
        let target = Entity(self.alive.len());
        let mut ctx = ComponentCloneCtx::new(target, linked, moving);
        let value = ComponentValue::RelationshipTarget(copy_entities(&self.children[source.0]));
        let behavior = resolve_clone_behavior(traits);
        run_clone_behavior(behavior, Some(&value), &mut ctx);
        self.spawn();
        if let Some(ComponentValue::RelationshipTarget(c)) = ctx.output() {
            self.set_children(target, copy_entities(c));
            if moving && !(linked && traits.linked_spawn) {
                self.set_children(source, Vec::new());
            }
        }
        ctx
    }

    /// Ends a duplication batch: runs the nested duplications, then the
    /// deferred mutations.
    pub fn finish_duplicate(&mut self, ctx: &ComponentCloneCtx)
        requires
            old(self).wf(),
            old(self)@.len() + ctx@.clone_queue.len() < usize::MAX,
            ctx@.target.index() < old(self)@.len(),
        ensures
            final(self).wf(),
            final(self)@ == finish_duplicate_spec(old(self)@, ctx@),
    {
        self.drain_clones(ctx.clone_queue(), ctx.target());
        self.apply_deferred(ctx.deferred());
    }

    /// Duplicates `source` for a back-reference type with capabilities
    /// `traits` as one batch, and returns the new entity.
    pub fn duplicate(
        &mut self,
        source: Entity,
        traits: ComponentTraits,
        linked: bool,
        moving: bool,
    ) -> (r: Entity)
        requires
            old(self).wf(),
            source.index() < old(self)@.len(),
            old(self)@.len() + old(self)@.children[source.index()].len() + 1 < usize::MAX,
            traits.wf(),
            traits.role == RelationshipRole::Target,
        ensures
            final(self).wf(),
            r == Entity(old(self)@.len() as usize),
            final(self)@ == finish_duplicate_spec(
                start_duplicate_spec(old(self)@, source, traits, linked, moving).0,
                start_duplicate_spec(old(self)@, source, traits, linked, moving).1,
            ),
    {
        let ctx = self.start_duplicate(source, traits, linked, moving);
        self.finish_duplicate(&ctx);
        ctx.target()
    }
}

} // verus!
