use vstd::prelude::*;

verus! {

/// The procedure that a custom clone behavior runs on a source component.
#[derive(Clone, Copy, Debug, PartialEq, Eq, Structural)]
pub enum CloneHandler {
    /// Copy the component by value.
    ValueCopy,
    /// Copy the component through runtime type introspection.
    Reflect,
    /// Rebuild the ordered children collection without copying it first.
    ChildrenTarget,
    /// Copy a back-reference component by value, clear its collection and
    /// refill it; the flag is the type's recursive-duplication flag.
    CloneTarget(bool),
    /// Copy a back-reference component through introspection, clear its
    /// collection and refill it; the flag is the type's recursive-duplication flag.
    ReflectTarget(bool),
}

/// How a duplicate's slot for one component type is filled.
#[derive(Clone, Copy, Debug, PartialEq, Eq, Structural)]
pub enum ComponentCloneBehavior {
    /// Use the component type's generic default behavior.
    Default,
    /// The duplicate receives no component of this type.
    Ignore,
    /// Run the given handler on the source component.
    Custom(CloneHandler),
}

impl ComponentCloneBehavior {
    /// The behavior that copies a component by value.
    pub fn clone() -> (r: Self)
        ensures
            r == ComponentCloneBehavior::Custom(CloneHandler::ValueCopy),
    {
        ComponentCloneBehavior::Custom(CloneHandler::ValueCopy)
    }

    /// The behavior that copies a component through runtime introspection.
    pub fn reflect() -> (r: Self)
        ensures
            r == ComponentCloneBehavior::Custom(CloneHandler::Reflect),
    {
        ComponentCloneBehavior::Custom(CloneHandler::Reflect)
    }
}

/// The part a component type plays in a relationship.
#[derive(Clone, Copy, Debug, PartialEq, Eq, Structural)]
pub enum RelationshipRole {
    /// The type is not part of a relationship.
    Plain,
    /// A forward component: it holds one target entity.
    Relationship,
    /// A back-reference component: it holds the entities that point at its owner.
    Target,
}

/// The static capabilities of a component type, as the type registry reports them.
#[derive(Clone, Copy, Debug, PartialEq, Eq, Structural)]
pub struct ComponentTraits {
    /// The type supports value duplication.
    pub cloneable: bool,
    /// The type supports introspective duplication. The introspective copy
    /// itself is taken to succeed: its failure path is not modelled here.
    pub reflectable: bool,
    /// The part the type plays in a relationship.
    pub role: RelationshipRole,
    /// The type is the ordered-children back-reference type.
    pub is_children: bool,
    /// For a back-reference type: duplicating its owner in linked mode also
    /// duplicates the entities in its collection.
    pub linked_spawn: bool,
}

impl ComponentTraits {
    /// The children type is a back-reference type flagged for recursive
    /// duplication.
    pub open spec fn wf(self) -> bool {
        self.is_children ==> (self.role == RelationshipRole::Target && self.linked_spawn)
    }

    /// A type outside relationships with neither duplication capability.
    pub fn plain() -> (r: Self)
        ensures
            r.wf(),
            r == (ComponentTraits {
                cloneable: false,
                reflectable: false,
                role: RelationshipRole::Plain,
                is_children: false,
                linked_spawn: false,
            }),
    {
        ComponentTraits {
            cloneable: false,
            reflectable: false,
            role: RelationshipRole::Plain,
            is_children: false,
            linked_spawn: false,
        }
    }

    /// A forward relationship type with neither duplication capability.
    pub fn relationship() -> (r: Self)
        ensures
            r.wf(),
            r == (ComponentTraits {
                cloneable: false,
                reflectable: false,
                role: RelationshipRole::Relationship,
                is_children: false,
                linked_spawn: false,
            }),
    {
        ComponentTraits { role: RelationshipRole::Relationship, ..ComponentTraits::plain() }
    }

    /// A back-reference type with neither duplication capability and the
    /// given recursive-duplication flag.
    pub fn target(linked_spawn: bool) -> (r: Self)
        ensures
            r.wf(),
            r == (ComponentTraits {
                cloneable: false,
                reflectable: false,
                role: RelationshipRole::Target,
                is_children: false,
                linked_spawn: linked_spawn,
            }),
    {
        ComponentTraits { role: RelationshipRole::Target, linked_spawn, ..ComponentTraits::plain() }
    }

    /// The ordered-children back-reference type, flagged for recursive duplication.
    pub fn children() -> (r: Self)
        ensures
            r.wf(),
            r == (ComponentTraits {
                cloneable: false,
                reflectable: false,
                role: RelationshipRole::Target,
                is_children: true,
                linked_spawn: true,
            }),
    {
        ComponentTraits { is_children: true, ..ComponentTraits::target(true) }
    }

    /// These capabilities with value duplication added.
    pub fn with_clone(self) -> (r: Self)
        ensures
            r == (ComponentTraits { cloneable: true, ..self }),
    {
        ComponentTraits { cloneable: true, ..self }
    }

    /// These capabilities with introspective duplication added.
    pub fn with_reflect(self) -> (r: Self)
        ensures
            r == (ComponentTraits { reflectable: true, ..self }),
    {
        ComponentTraits { reflectable: true, ..self }
    }
}

/// Resolution for a type that is not part of a relationship.
pub open spec fn component_behavior_spec(t: ComponentTraits) -> ComponentCloneBehavior {
    if t.cloneable {
        ComponentCloneBehavior::Custom(CloneHandler::ValueCopy)
    } else {
        ComponentCloneBehavior::Default
    }
}

/// Resolution for a forward or back-reference type, rank by rank.
pub open spec fn relationship_behavior_spec(t: ComponentTraits) -> ComponentCloneBehavior {
    if t.is_children {
        ComponentCloneBehavior::Custom(CloneHandler::ChildrenTarget)
    } else if t.role == RelationshipRole::Target && t.cloneable {
        ComponentCloneBehavior::Custom(CloneHandler::CloneTarget(t.linked_spawn))
    } else if t.role == RelationshipRole::Target && t.reflectable {
        ComponentCloneBehavior::Custom(CloneHandler::ReflectTarget(t.linked_spawn))
    } else if t.role == RelationshipRole::Relationship && t.cloneable {
        ComponentCloneBehavior::Custom(CloneHandler::ValueCopy)
    } else if t.role == RelationshipRole::Relationship && t.reflectable {
        ComponentCloneBehavior::Custom(CloneHandler::Reflect)
    } else {
        ComponentCloneBehavior::Ignore
    }
}

/// The clone behavior bound to a component type: the first rank whose
/// predicate holds, relationship ranks before the generic ones.
pub open spec fn resolve_spec(t: ComponentTraits) -> ComponentCloneBehavior {
    if t.role == RelationshipRole::Plain && !t.is_children {
        component_behavior_spec(t)
    } else {
        relationship_behavior_spec(t)
    }
}

/// A type whose value is one clone behavior.
pub trait TypeLevelCloneBehaviorVariant {
    /// The behavior this value stands for.
    spec fn behavior_spec(&self) -> ComponentCloneBehavior;

    /// The behavior this value stands for.
    fn clone_behavior(&self) -> (r: ComponentCloneBehavior)
        ensures
            r == self.behavior_spec(),
    ;
}

/// Reads the clone behavior that a resolved variant stands for.
pub fn extract_clone_behavior_value<B: TypeLevelCloneBehaviorVariant>(b: &B) -> (r:
    ComponentCloneBehavior)
    ensures
        r == b.behavior_spec(),
{
    b.clone_behavior()
}

/// First stage of resolution for a type outside relationships.
pub struct ComponentCloneSpecialization {
    pub traits: ComponentTraits,
}

/// Stage that applies when the type supports value duplication.
pub struct ComponentCloneSpecializationClone {
    pub traits: ComponentTraits,
}

/// Last stage: nothing more specific applies.
pub struct ComponentCloneSpecializationBase;

/// Resolved: copy by value.
#[derive(Clone, Copy, Debug, PartialEq, Eq, Structural)]
pub struct ComponentCloneBehaviorClone;

/// Resolved: the type's default behavior.
#[derive(Clone, Copy, Debug, PartialEq, Eq, Structural)]
pub struct ComponentCloneBehaviorDefault;

/// The outcome of resolution for a type outside relationships.
#[derive(Clone, Copy, Debug, PartialEq, Eq, Structural)]
pub enum ComponentCloneResolution {
    Clone(ComponentCloneBehaviorClone),
    Default(ComponentCloneBehaviorDefault),
}

impl TypeLevelCloneBehaviorVariant for ComponentCloneBehaviorClone {
    open spec fn behavior_spec(&self) -> ComponentCloneBehavior {
        ComponentCloneBehavior::Custom(CloneHandler::ValueCopy)
    }

    fn clone_behavior(&self) -> (r: ComponentCloneBehavior) {
        ComponentCloneBehavior::clone()
    }
}

impl TypeLevelCloneBehaviorVariant for ComponentCloneBehaviorDefault {
    open spec fn behavior_spec(&self) -> ComponentCloneBehavior {
        ComponentCloneBehavior::Default
    }

    fn clone_behavior(&self) -> (r: ComponentCloneBehavior) {
        ComponentCloneBehavior::Default
    }
}

impl TypeLevelCloneBehaviorVariant for ComponentCloneResolution {
    open spec fn behavior_spec(&self) -> ComponentCloneBehavior {
        match self {
            ComponentCloneResolution::Clone(b) => b.behavior_spec(),
            ComponentCloneResolution::Default(b) => b.behavior_spec(),
        }
    }

    fn clone_behavior(&self) -> (r: ComponentCloneBehavior) {
        match self {
            ComponentCloneResolution::Clone(b) => b.clone_behavior(),
            ComponentCloneResolution::Default(b) => b.clone_behavior(),
        }
    }
}

impl ComponentCloneSpecialization {
    pub fn new(traits: ComponentTraits) -> (r: Self)
        ensures
            r.traits == traits,
    {
        ComponentCloneSpecialization { traits }
    }

    /// Resolves the behavior: the value-duplication stage if the type allows
    /// it, else the base stage.
    pub fn check(&self) -> (r: ComponentCloneResolution)
        ensures
            r.behavior_spec() == component_behavior_spec(self.traits),
            self.traits.cloneable <==> r is Clone,
    {
        if self.traits.cloneable {
            let stage = ComponentCloneSpecializationClone { traits: self.traits };
            ComponentCloneResolution::Clone(stage.check())
        } else {
            ComponentCloneResolution::Default(ComponentCloneSpecializationBase.check())
        }
    }
}

impl ComponentCloneSpecializationClone {
    pub fn check(&self) -> (r: ComponentCloneBehaviorClone)
        requires
            self.traits.cloneable,
        ensures
            r.behavior_spec() == ComponentCloneBehavior::Custom(CloneHandler::ValueCopy),
    {
        ComponentCloneBehaviorClone
    }
}

impl ComponentCloneSpecializationBase {
    pub fn check(&self) -> (r: ComponentCloneBehaviorDefault)
        ensures
            r.behavior_spec() == ComponentCloneBehavior::Default,
    {
        ComponentCloneBehaviorDefault
    }
}

} // verus!
