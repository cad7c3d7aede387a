use vstd::prelude::*;
use crate::clone_ctx::{ComponentCloneCtx, ComponentValue, ComponentValueView, CloneCtxView, DeferredReparent, copy_entities, reparents};
use crate::entity::Entity;
use crate::clone_behavior::{
    relationship_behavior_spec, CloneHandler, ComponentCloneBehavior, ComponentTraits,
    RelationshipRole, TypeLevelCloneBehaviorVariant,
};

verus! {

/// First stage of resolution for a forward or back-reference type. The
/// stages are tried in order:
/// the children type; a cloneable back-reference type; an introspectable
/// back-reference type; a cloneable forward type; an introspectable forward
/// type; anything else.
pub struct RelationshipCloneSpecialization {
    pub traits: ComponentTraits,
}

/// Stage for the children type: its collection is rebuilt without copying it first.
pub struct RelationshipCloneSpecializationTargetChildren {
    pub traits: ComponentTraits,
}

/// Stage for a back-reference type that supports value duplication.
pub struct RelationshipCloneSpecializationTargetClone {
    pub traits: ComponentTraits,
}

/// Stage for a back-reference type that supports introspective duplication.
pub struct RelationshipCloneSpecializationTargetReflect {
    pub traits: ComponentTraits,
}

/// Stage for a forward type that supports value duplication.
pub struct RelationshipCloneSpecializationClone {
    pub traits: ComponentTraits,
}

/// Stage for a forward type that supports introspective duplication.
pub struct RelationshipCloneSpecializationReflect {
    pub traits: ComponentTraits,
}

/// Last stage: the type has no way to be duplicated consistently.
pub struct RelationshipCloneSpecializationBase;

/// Resolved: rebuild the children collection.
#[derive(Clone, Copy, Debug, PartialEq, Eq, Structural)]
pub struct RelationshipCloneBehaviorTargetChildren;

/// Resolved: copy a back-reference component by value and refill its collection.
#[derive(Clone, Copy, Debug, PartialEq, Eq, Structural)]
pub struct RelationshipCloneBehaviorTargetClone {
    pub linked_spawn: bool,
}

/// Resolved: copy a back-reference component by introspection and refill its collection.
#[derive(Clone, Copy, Debug, PartialEq, Eq, Structural)]
pub struct RelationshipCloneBehaviorTargetReflect {
    pub linked_spawn: bool,
}

/// Resolved: copy a forward component by value.
#[derive(Clone, Copy, Debug, PartialEq, Eq, Structural)]
pub struct RelationshipCloneBehaviorClone;

/// Resolved: copy a forward component by introspection.
#[derive(Clone, Copy, Debug, PartialEq, Eq, Structural)]
pub struct RelationshipCloneBehaviorReflect;

/// Resolved: the component is left out of the duplicate.
#[derive(Clone, Copy, Debug, PartialEq, Eq, Structural)]
pub struct RelationshipCloneBehaviorBase;

/// The outcome of resolution for a forward or back-reference type.
#[derive(Clone, Copy, Debug, PartialEq, Eq, Structural)]
pub enum RelationshipCloneResolution {
    TargetChildren(RelationshipCloneBehaviorTargetChildren),
    TargetClone(RelationshipCloneBehaviorTargetClone),
    TargetReflect(RelationshipCloneBehaviorTargetReflect),
    Clone(RelationshipCloneBehaviorClone),
    Reflect(RelationshipCloneBehaviorReflect),
    Base(RelationshipCloneBehaviorBase),
}

impl TypeLevelCloneBehaviorVariant for RelationshipCloneBehaviorTargetChildren {
    open spec fn behavior_spec(&self) -> ComponentCloneBehavior {
        ComponentCloneBehavior::Custom(CloneHandler::ChildrenTarget)
    }

    fn clone_behavior(&self) -> (r: ComponentCloneBehavior) {
        ComponentCloneBehavior::Custom(CloneHandler::ChildrenTarget)
    }
}

impl TypeLevelCloneBehaviorVariant for RelationshipCloneBehaviorTargetClone {
    open spec fn behavior_spec(&self) -> ComponentCloneBehavior {
        ComponentCloneBehavior::Custom(CloneHandler::CloneTarget(self.linked_spawn))
    }

    fn clone_behavior(&self) -> (r: ComponentCloneBehavior) {
        ComponentCloneBehavior::Custom(CloneHandler::CloneTarget(self.linked_spawn))
    }
}

impl TypeLevelCloneBehaviorVariant for RelationshipCloneBehaviorTargetReflect {
    open spec fn behavior_spec(&self) -> ComponentCloneBehavior {
        ComponentCloneBehavior::Custom(CloneHandler::ReflectTarget(self.linked_spawn))
    }

    fn clone_behavior(&self) -> (r: ComponentCloneBehavior) {
        ComponentCloneBehavior::Custom(CloneHandler::ReflectTarget(self.linked_spawn))
    }
}

impl TypeLevelCloneBehaviorVariant for RelationshipCloneBehaviorClone {
    open spec fn behavior_spec(&self) -> ComponentCloneBehavior {
        ComponentCloneBehavior::Custom(CloneHandler::ValueCopy)
    }

    fn clone_behavior(&self) -> (r: ComponentCloneBehavior) {
        ComponentCloneBehavior::clone()
    }
}

impl TypeLevelCloneBehaviorVariant for RelationshipCloneBehaviorReflect {
    open spec fn behavior_spec(&self) -> ComponentCloneBehavior {
        ComponentCloneBehavior::Custom(CloneHandler::Reflect)
    }

    fn clone_behavior(&self) -> (r: ComponentCloneBehavior) {
        ComponentCloneBehavior::reflect()
    }
}

impl TypeLevelCloneBehaviorVariant for RelationshipCloneBehaviorBase {
    open spec fn behavior_spec(&self) -> ComponentCloneBehavior {
        ComponentCloneBehavior::Ignore
    }

    fn clone_behavior(&self) -> (r: ComponentCloneBehavior) {
        ComponentCloneBehavior::Ignore
    }
}

impl TypeLevelCloneBehaviorVariant for RelationshipCloneResolution {
    open spec fn behavior_spec(&self) -> ComponentCloneBehavior {
        match self {
            RelationshipCloneResolution::TargetChildren(b) => b.behavior_spec(),
            RelationshipCloneResolution::TargetClone(b) => b.behavior_spec(),
            RelationshipCloneResolution::TargetReflect(b) => b.behavior_spec(),
            RelationshipCloneResolution::Clone(b) => b.behavior_spec(),
            RelationshipCloneResolution::Reflect(b) => b.behavior_spec(),
            RelationshipCloneResolution::Base(b) => b.behavior_spec(),
        }
    }

    fn clone_behavior(&self) -> (r: ComponentCloneBehavior) {
        match self {
            RelationshipCloneResolution::TargetChildren(b) => b.clone_behavior(),
            RelationshipCloneResolution::TargetClone(b) => b.clone_behavior(),
            RelationshipCloneResolution::TargetReflect(b) => b.clone_behavior(),
            RelationshipCloneResolution::Clone(b) => b.clone_behavior(),
            RelationshipCloneResolution::Reflect(b) => b.clone_behavior(),
            RelationshipCloneResolution::Base(b) => b.clone_behavior(),
        }
    }
}

impl RelationshipCloneSpecialization {
    pub fn new(traits: ComponentTraits) -> (r: Self)
        ensures
            r.traits == traits,
    {
        RelationshipCloneSpecialization { traits }
    }

    /// Resolves the behavior: the first stage whose predicate holds.
    pub fn check(&self) -> (r: RelationshipCloneResolution)
        ensures
            r.behavior_spec() == relationship_behavior_spec(self.traits),
    {
        let t = self.traits;
        if t.is_children {
            RelationshipCloneResolution::TargetChildren(
                RelationshipCloneSpecializationTargetChildren { traits: t }.check(),
            )
        } else if t.role == RelationshipRole::Target && t.cloneable {
            RelationshipCloneResolution::TargetClone(
                RelationshipCloneSpecializationTargetClone { traits: t }.check(),
            )
        } else if t.role == RelationshipRole::Target && t.reflectable {
            RelationshipCloneResolution::TargetReflect(
                RelationshipCloneSpecializationTargetReflect { traits: t }.check(),
            )
        } else if t.role == RelationshipRole::Relationship && t.cloneable {
            RelationshipCloneResolution::Clone(
                RelationshipCloneSpecializationClone { traits: t }.check(),
            )
        } else if t.role == RelationshipRole::Relationship && t.reflectable {
            RelationshipCloneResolution::Reflect(
                RelationshipCloneSpecializationReflect { traits: t }.check(),
            )
        } else {
            RelationshipCloneResolution::Base(RelationshipCloneSpecializationBase.check())
        }
    }
}

impl RelationshipCloneSpecializationTargetChildren {
    pub fn check(&self) -> (r: RelationshipCloneBehaviorTargetChildren)
        requires
            self.traits.is_children,
        ensures
            r.behavior_spec() == ComponentCloneBehavior::Custom(CloneHandler::ChildrenTarget),
    {
        RelationshipCloneBehaviorTargetChildren
    }
}

impl RelationshipCloneSpecializationTargetClone {
    pub fn check(&self) -> (r: RelationshipCloneBehaviorTargetClone)
        requires
            self.traits.role == RelationshipRole::Target,
            self.traits.cloneable,
        ensures
            r.linked_spawn == self.traits.linked_spawn,
            r.behavior_spec() == ComponentCloneBehavior::Custom(
                CloneHandler::CloneTarget(self.traits.linked_spawn),
            ),
    {
        RelationshipCloneBehaviorTargetClone { linked_spawn: self.traits.linked_spawn }
    }
}

impl RelationshipCloneSpecializationTargetReflect {
    pub fn check(&self) -> (r: RelationshipCloneBehaviorTargetReflect)
        requires
            self.traits.role == RelationshipRole::Target,
            self.traits.reflectable,
        ensures
            r.linked_spawn == self.traits.linked_spawn,
            r.behavior_spec() == ComponentCloneBehavior::Custom(
                CloneHandler::ReflectTarget(self.traits.linked_spawn),
            ),
    {
        RelationshipCloneBehaviorTargetReflect { linked_spawn: self.traits.linked_spawn }
    }
}

impl RelationshipCloneSpecializationClone {
    pub fn check(&self) -> (r: RelationshipCloneBehaviorClone)
        requires
            self.traits.role == RelationshipRole::Relationship,
            self.traits.cloneable,
        ensures
            r.behavior_spec() == ComponentCloneBehavior::Custom(CloneHandler::ValueCopy),
    {
        RelationshipCloneBehaviorClone
    }
}

impl RelationshipCloneSpecializationReflect {
    pub fn check(&self) -> (r: RelationshipCloneBehaviorReflect)
        requires
            self.traits.role == RelationshipRole::Relationship,
            self.traits.reflectable,
        ensures
            r.behavior_spec() == ComponentCloneBehavior::Custom(CloneHandler::Reflect),
    {
        RelationshipCloneBehaviorReflect
    }
}

impl RelationshipCloneSpecializationBase {
    pub fn check(&self) -> (r: RelationshipCloneBehaviorBase)
        ensures
            r.behavior_spec() == ComponentCloneBehavior::Ignore,
    {
        RelationshipCloneBehaviorBase
    }
}

/// What duplicating a back-reference collection `component` adds: the
/// entries appended to the duplicate's collection, and the context after.
/// In linked mode, for a type flagged for recursive duplication, each entity
/// is added as a placeholder and queued for a nested duplication; otherwise in
/// move mode each entity is added and queued to be pointed at the target
/// after the batch; otherwise nothing happens.
pub open spec fn clone_relationship_target_spec(
    component: Seq<Entity>,
    linked_spawn: bool,
    ctx: CloneCtxView,
) -> (Seq<Entity>, CloneCtxView) {
    if ctx.linked_cloning && linked_spawn {
        (component, ctx.with_clones(component))
    } else if ctx.moving {
        (component, ctx.with_reparents(component))
    } else {
        (Seq::empty(), ctx)
    }
}

/// Fills the back-reference collection `cloned` of a duplicate from the
/// original's collection `component`, queueing on the context the work that
/// keeps every back-reference consistent with the forward components.
/// `linked_spawn` is the recursive-duplication flag of the component's type.
pub fn clone_relationship_target(
    component: &Vec<Entity>,
    cloned: &mut Vec<Entity>,
    linked_spawn: bool,
    context: &mut ComponentCloneCtx,
)
    ensures
        final(cloned)@ == old(cloned)@ + clone_relationship_target_spec(
            component@,
            linked_spawn,
            old(context)@,
        ).0,
        final(context)@ == clone_relationship_target_spec(component@, linked_spawn, old(context)@).1,
{
    let ghost cloned0 = cloned@;
    let ghost ctx0 = context@;
    if context.linked_cloning() && linked_spawn {
        let mut i: usize = 0;
        while i < component.len()
            invariant
                i <= component.len(),
                cloned@ == cloned0 + component@.take(i as int),
                context@ == ctx0.with_clones(component@.take(i as int)),
            decreases component.len() - i,
        {
            let entity = component[i];
            cloned.push(entity);
            context.queue_entity_clone(entity);
            i = i + 1;
            assert(component@.take(i as int) =~= component@.take(i - 1).push(entity));
            assert(cloned@ =~= cloned0 + component@.take(i as int));
            assert(context@ =~= ctx0.with_clones(component@.take(i as int)));
        }
        assert(component@.take(i as int) =~= component@);
    } else if context.moving() {
        let target = context.target();
        let mut i: usize = 0;
        while i < component.len()
            invariant
                i <= component.len(),
                target == ctx0.target,
                cloned@ == cloned0 + component@.take(i as int),
                context@ == ctx0.with_reparents(component@.take(i as int)),
            decreases component.len() - i,
        {
            let entity = component[i];
            cloned.push(entity);
            context.queue_deferred(DeferredReparent { entity, target });
            i = i + 1;
            assert(component@.take(i as int) =~= component@.take(i - 1).push(entity));
            assert(reparents(component@.take(i as int), target) =~= reparents(
                component@.take(i - 1),
                target,
            ).push(DeferredReparent { entity, target }));
            assert(cloned@ =~= cloned0 + component@.take(i as int));
            assert(context@ =~= ctx0.with_reparents(component@.take(i as int)));
        }
        assert(component@.take(i as int) =~= component@);
    } else {
        assert(cloned@ =~= cloned0 + Seq::empty());
    }
}

/// What a back-reference handler does: if the source holds a back-reference
/// collection, it fills an empty collection by the relationship algorithm and
/// writes it to the output; else the context is unchanged.
pub open spec fn target_handler_spec(
    source: Option<ComponentValueView>,
    linked_spawn: bool,
    ctx: CloneCtxView,
) -> CloneCtxView {
    match source {
        Some(ComponentValueView::RelationshipTarget(c)) => {
            let (added, after) = clone_relationship_target_spec(c, linked_spawn, ctx);
            after.with_output(ComponentValueView::RelationshipTarget(added))
        },
        _ => ctx,
    }
}

/// What running `behavior` on `source` does to the context. Value and
/// introspective copies write the source value; back-reference handlers run
/// the relationship algorithm; `Default` and `Ignore` write nothing.
pub open spec fn run_clone_behavior_spec(
    behavior: ComponentCloneBehavior,
    source: Option<ComponentValueView>,
    ctx: CloneCtxView,
) -> CloneCtxView {
    match behavior {
        ComponentCloneBehavior::Custom(h) => match h {
            CloneHandler::ValueCopy | CloneHandler::Reflect => match source {
                Some(v) => ctx.with_output(v),
                None => ctx,
            },
            CloneHandler::ChildrenTarget => target_handler_spec(source, true, ctx),
            CloneHandler::CloneTarget(ls) => target_handler_spec(source, ls, ctx),
            CloneHandler::ReflectTarget(ls) => target_handler_spec(source, ls, ctx),
        },
        _ => ctx,
    }
}

/// Runs a back-reference handler on `source`.
fn run_target_handler(
    source: Option<&ComponentValue>,
    linked_spawn: bool,
    children: bool,
    context: &mut ComponentCloneCtx,
)
    ensures
        final(context)@ == target_handler_spec(
            match source {
                Some(v) => Some(v@),
                None => None,
            },
            linked_spawn,
            old(context)@,
        ),
{
    match source {
        Some(ComponentValue::RelationshipTarget(component)) => {
            let mut cloned: Vec<Entity> = if children {
                Vec::with_capacity(component.len())
            } else {
                Vec::new()
            };
            clone_relationship_target(component, &mut cloned, linked_spawn, context);
            assert(cloned@ =~= Seq::<Entity>::empty() + cloned@);
            context.write_target_component(ComponentValue::RelationshipTarget(cloned));
        },
        _ => {},
    }
}

/// Runs `behavior` on the source component, leaving in the context's output
/// slot the value for the duplicate, or nothing when the duplicate gets none.
pub fn run_clone_behavior(
    behavior: ComponentCloneBehavior,
    source: Option<&ComponentValue>,
    context: &mut ComponentCloneCtx,
)
    ensures
        final(context)@ == run_clone_behavior_spec(
            behavior,
            match source {
                Some(v) => Some(v@),
                None => None,
            },
            old(context)@,
        ),
{
    match behavior {
        ComponentCloneBehavior::Custom(h) => match h {
            CloneHandler::ValueCopy | CloneHandler::Reflect => {
                if let Some(v) = source {
                    context.write_target_component(v.duplicate());
                }
            },
            CloneHandler::ChildrenTarget => run_target_handler(source, true, true, context),
            CloneHandler::CloneTarget(ls) => run_target_handler(source, ls, false, context),
            CloneHandler::ReflectTarget(ls) => run_target_handler(source, ls, false, context),
        },
        _ => {},
    }
}

} // verus!
