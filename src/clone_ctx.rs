use vstd::prelude::*;
use crate::entity::Entity;

verus! {

/// A mutation to run once the duplication batch is complete: point the
/// forward component of `entity` at `target`, without running the hooks
/// that maintain back-references.
#[derive(Clone, Copy, Debug, PartialEq, Eq, Structural)]
pub struct DeferredReparent {
    pub entity: Entity,
    pub target: Entity,
}

/// A component value as the duplication handlers see it.
#[derive(Debug)]
pub enum ComponentValue {
    /// A forward component: its target entity.
    Relationship(Entity),
    /// A back-reference component: its collection.
    RelationshipTarget(Vec<Entity>),
}

/// The mathematical model of a [`ComponentValue`].
pub enum ComponentValueView {
    Relationship(Entity),
    RelationshipTarget(Seq<Entity>),
}

impl View for ComponentValue {
    type V = ComponentValueView;

    open spec fn view(&self) -> ComponentValueView {
        match self {
            ComponentValue::Relationship(e) => ComponentValueView::Relationship(*e),
            ComponentValue::RelationshipTarget(c) => ComponentValueView::RelationshipTarget(c@),
        }
    }
}

impl ComponentValue {
    /// A copy of this value.
    pub fn duplicate(&self) -> (r: ComponentValue)
        ensures
            r@ == self@,
    {
        match self {
            ComponentValue::Relationship(e) => ComponentValue::Relationship(*e),
            ComponentValue::RelationshipTarget(c) => ComponentValue::RelationshipTarget(
                copy_entities(c),
            ),
        }
    }
}

/// A copy of a collection of entities.
pub fn copy_entities(c: &Vec<Entity>) -> (r: Vec<Entity>)
    ensures
        r@ == c@,
{
    let mut r: Vec<Entity> = Vec::with_capacity(c.len());
    let mut i: usize = 0;
    while i < c.len()
        invariant
            i <= c.len(),
            r@ == c@.take(i as int),
        decreases c.len() - i,
    {
        r.push(c[i]);
        i = i + 1;
        assert(r@ =~= c@.take(i as int));
    }
    assert(c@.take(c.len() as int) =~= c@);
    r
}

/// The model of a [`ComponentCloneCtx`].
#[verifier::ext_equal]
pub struct CloneCtxView {
    pub linked_cloning: bool,
    pub moving: bool,
    pub target: Entity,
    pub clone_queue: Seq<Entity>,
    pub deferred: Seq<DeferredReparent>,
    pub output: Option<ComponentValueView>,
}

impl CloneCtxView {
    /// This context with `s` appended to the queue of entities to clone.
    pub open spec fn with_clones(self, s: Seq<Entity>) -> CloneCtxView {
        CloneCtxView { clone_queue: self.clone_queue + s, ..self }
    }

    /// This context with a reparenting of each entity of `s` to the target
    /// appended to the deferred queue.
    pub open spec fn with_reparents(self, s: Seq<Entity>) -> CloneCtxView {
        CloneCtxView { deferred: self.deferred + reparents(s, self.target), ..self }
    }

    /// This context with `v` in its output slot.
    pub open spec fn with_output(self, v: ComponentValueView) -> CloneCtxView {
        CloneCtxView { output: Some(v), ..self }
    }
}

/// The deferred mutations that point each entity of `s` at `target`, in order.
pub open spec fn reparents(s: Seq<Entity>, target: Entity) -> Seq<DeferredReparent> {
    s.map_values(|e: Entity| DeferredReparent { entity: e, target })
}

/// The state of one duplication operation: its mode, the new entity, the
/// queues of follow-up work and the value produced for the current component.
pub struct ComponentCloneCtx {
    linked_cloning: bool,
    moving: bool,
    target: Entity,
    clone_queue: Vec<Entity>,
    deferred: Vec<DeferredReparent>,
    output: Option<ComponentValue>,
}

impl View for ComponentCloneCtx {
    type V = CloneCtxView;

    closed spec fn view(&self) -> CloneCtxView {
        CloneCtxView {
            linked_cloning: self.linked_cloning,
            moving: self.moving,
            target: self.target,
            clone_queue: self.clone_queue@,
            deferred: self.deferred@,
            output: match self.output {
                Some(v) => Some(v@),
                None => None,
            },
        }
    }
}

impl ComponentCloneCtx {
    /// A context for duplicating into `target`, with empty queues and output.
    pub fn new(target: Entity, linked_cloning: bool, moving: bool) -> (r: Self)
        ensures
            r@ == (CloneCtxView {
                linked_cloning,
                moving,
                target,
                clone_queue: Seq::empty(),
                deferred: Seq::empty(),
                output: None,
            }),
    {
        ComponentCloneCtx {
            linked_cloning,
            moving,
            target,
            clone_queue: Vec::new(),
            deferred: Vec::new(),
            output: None,
        }
    }

    /// Whether related entities are duplicated along with this one.
    pub fn linked_cloning(&self) -> (r: bool)
        ensures
            r == self@.linked_cloning,
    {
        self.linked_cloning
    }

    /// Whether related entities are moved over to the new entity.
    pub fn moving(&self) -> (r: bool)
        ensures
            r == self@.moving,
    {
        self.moving
    }

    /// The entity being filled.
    pub fn target(&self) -> (r: Entity)
        ensures
            r == self@.target,
    {
        self.target
    }

    /// The entities queued for a nested duplication, in order.
    pub fn clone_queue(&self) -> (r: &Vec<Entity>)
        ensures
            r@ == self@.clone_queue,
    {
        &self.clone_queue
    }

    /// The mutations queued to run after the batch, in order.
    pub fn deferred(&self) -> (r: &Vec<DeferredReparent>)
        ensures
            r@ == self@.deferred,
    {
        &self.deferred
    }

    /// The value produced for the current component, if any.
    pub fn output(&self) -> (r: &Option<ComponentValue>)
        ensures
            self@.output == match r {
                Some(v) => Some(v@),
                None => None,
            },
    {
        &self.output
    }

    /// Queues a nested duplication of `entity`.
    pub fn queue_entity_clone(&mut self, entity: Entity)
        ensures
            final(self)@ == old(self)@.with_clones(seq![entity]),
    {
        let ghost q = self.clone_queue@;
        self.clone_queue.push(entity);
        assert(self.clone_queue@ =~= q + seq![entity]);
    }

    /// Queues a mutation to run after the batch.
    pub fn queue_deferred(&mut self, op: DeferredReparent)
        ensures
            final(self)@ == (CloneCtxView { deferred: old(self)@.deferred.push(op), ..old(self)@ }),
    {
        self.deferred.push(op);
    }

    /// Puts `value` in the output slot.
    pub fn write_target_component(&mut self, value: ComponentValue)
        ensures
            final(self)@ == old(self)@.with_output(value@),
    {
        self.output = Some(value);
    }
}

} // verus!
