use vstd::prelude::*;
use crate::clone_behavior::{
    resolve_spec, CloneHandler, ComponentCloneBehavior, ComponentCloneSpecialization,
    ComponentTraits, RelationshipRole, TypeLevelCloneBehaviorVariant, component_behavior_spec,
};
use crate::clone_ctx::{CloneCtxView, ComponentValueView};
use crate::relationship::{run_clone_behavior_spec, RelationshipCloneSpecialization};

verus! {

/// Resolves the clone behavior of a component type from its capabilities:
/// relationship types go through the relationship ranks, other types through
/// the generic ones.
pub fn resolve_clone_behavior(traits: ComponentTraits) -> (r: ComponentCloneBehavior)
    ensures
        r == resolve_spec(traits),
{
    if traits.role == RelationshipRole::Plain && !traits.is_children {
        let resolved = ComponentCloneSpecialization::new(traits).check();
        resolved.clone_behavior()
    } else {
        let resolved = RelationshipCloneSpecialization::new(traits).check();
        resolved.clone_behavior()
    }
}

/// Per-type table of clone behaviors: each type's behavior is resolved once,
/// when the type is registered, and looked up afterwards.
pub struct CloneBehaviorRegistry {
    types: Vec<ComponentTraits>,
    behaviors: Vec<ComponentCloneBehavior>,
}

impl CloneBehaviorRegistry {
    /// The capabilities of the registered types, by type id.
    pub closed spec fn types(&self) -> Seq<ComponentTraits> {
        self.types@
    }

    /// Every cached behavior is the resolution of its type.
    pub closed spec fn wf(&self) -> bool {
        &&& self.types@.len() == self.behaviors@.len()
        &&& forall|i: int|
            0 <= i < self.types@.len() ==> #[trigger] self.behaviors@[i] == resolve_spec(
                self.types@[i],
            )
    }

    /// An empty table.
    pub fn new() -> (r: Self)
        ensures
            r.wf(),
            r.types() == Seq::<ComponentTraits>::empty(),
    {
        CloneBehaviorRegistry { types: Vec::new(), behaviors: Vec::new() }
    }

    /// The number of registered types.
    pub fn len(&self) -> (r: usize)
        requires
            self.wf(),
        ensures
            r == self.types().len(),
    {
        self.types.len()
    }

    /// Registers a type, resolves its behavior, and returns the type's id.
    pub fn register(&mut self, traits: ComponentTraits) -> (id: usize)
        requires
            old(self).wf(),
        ensures
            final(self).wf(),
            id == old(self).types().len(),
            final(self).types() == old(self).types().push(traits),
    {
        let behavior = resolve_clone_behavior(traits);
        let id = self.types.len();
        self.types.push(traits);
        self.behaviors.push(behavior);
        assert(forall|i: int|
            0 <= i < self.types@.len() ==> #[trigger] self.behaviors@[i] == resolve_spec(
                self.types@[i],
            )) by {
            assert(self.behaviors@[id as int] == resolve_spec(self.types@[id as int]));
        }
        id
    }

    /// The cached behavior of the type with the given id.
    pub fn behavior(&self, id: usize) -> (r: ComponentCloneBehavior)
        requires
            self.wf(),
            id < self.types().len(),
        ensures
            r == resolve_spec(self.types()[id as int]),
    {
        self.behaviors[id]
    }
}

/// Resolution is a function of a type's capabilities alone: two resolutions
/// of the same capabilities give the same behavior.
pub proof fn lemma_resolution_deterministic(a: ComponentTraits, b: ComponentTraits)
    requires
        a == b,
    ensures
        resolve_spec(a) == resolve_spec(b),
{
}

/// A back-reference type that supports value duplication (and is not the
/// children type) resolves to the back-reference handler, not to the generic
/// value copy that its value duplication alone would give.
pub proof fn lemma_target_clone_outranks_value_copy(t: ComponentTraits)
    requires
        t.wf(),
        t.role == RelationshipRole::Target,
        t.cloneable,
        !t.is_children,
    ensures
        resolve_spec(t) == ComponentCloneBehavior::Custom(CloneHandler::CloneTarget(t.linked_spawn)),
        resolve_spec(t) != component_behavior_spec(t),
{
}

/// A forward or back-reference type with neither value nor introspective
/// duplication is ignored: running its behavior leaves the context, and so
/// the duplicate's slot, untouched.
pub proof fn lemma_incapable_relationship_ignored(
    t: ComponentTraits,
    source: Option<ComponentValueView>,
    ctx: CloneCtxView,
)
    requires
        t.wf(),
        t.role != RelationshipRole::Plain,
        !t.cloneable,
        !t.reflectable,
        !t.is_children,
    ensures
        resolve_spec(t) == ComponentCloneBehavior::Ignore,
        run_clone_behavior_spec(resolve_spec(t), source, ctx) == ctx,
{
}

} // verus!
