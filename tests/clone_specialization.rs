use ecs_cloning::clone_behavior::{
    extract_clone_behavior_value, ComponentCloneBehavior, ComponentCloneBehaviorClone,
    ComponentCloneBehaviorDefault, ComponentCloneResolution, ComponentCloneSpecialization,
    ComponentTraits,
};
use ecs_cloning::relationship::{
    RelationshipCloneBehaviorBase, RelationshipCloneBehaviorClone, RelationshipCloneBehaviorReflect,
    RelationshipCloneBehaviorTargetChildren, RelationshipCloneBehaviorTargetClone,
    RelationshipCloneBehaviorTargetReflect, RelationshipCloneResolution,
    RelationshipCloneSpecialization,
};

#[test]
fn component_clone_specialization() {
    // `A` has no value duplication, `B` derives `Clone`.
    let a = ComponentTraits::plain();
    let b = ComponentTraits::plain().with_clone();

    let component_behavior_a = ComponentCloneSpecialization::new(a).check();
    let component_behavior_b = ComponentCloneSpecialization::new(b).check();

    assert_eq!(
        ComponentCloneResolution::Default(ComponentCloneBehaviorDefault),
        component_behavior_a
    );
    assert_eq!(
        ComponentCloneResolution::Clone(ComponentCloneBehaviorClone),
        component_behavior_b
    );

    match extract_clone_behavior_value(&component_behavior_a) {
        ComponentCloneBehavior::Default => (),
        _ => {
            panic!("`component_behavior_a` should result in `ComponentCloneBehavior::Default`")
        }
    }

    match extract_clone_behavior_value(&component_behavior_b) {
        ComponentCloneBehavior::Custom(_) => (),
        _ => panic!("`component_behavior_b` should result in `ComponentCloneBehavior::Custom`"),
    }
}

#[test]
fn relationship_clone_specialization() {
    // `A` / `ATarget`: a relationship pair with no duplication capability.
    // `B` / `BTarget`: the same pair, both deriving `Clone`.
    let children = ComponentTraits::children();
    let a = ComponentTraits::relationship();
    let a_target = ComponentTraits::target(false);
    let b = ComponentTraits::relationship().with_clone();
    let b_target = ComponentTraits::target(false).with_clone();

    let relationship_behavior_children = RelationshipCloneSpecialization::new(children).check();
    let relationship_behavior_a = RelationshipCloneSpecialization::new(a).check();
    let relationship_behavior_a_target = RelationshipCloneSpecialization::new(a_target).check();
    let relationship_behavior_b = RelationshipCloneSpecialization::new(b).check();
    let relationship_behavior_b_target = RelationshipCloneSpecialization::new(b_target).check();

    assert_eq!(
        RelationshipCloneResolution::TargetChildren(RelationshipCloneBehaviorTargetChildren),
        relationship_behavior_children
    );
    assert_eq!(
        RelationshipCloneResolution::Base(RelationshipCloneBehaviorBase),
        relationship_behavior_a
    );
    assert_eq!(
        RelationshipCloneResolution::Base(RelationshipCloneBehaviorBase),
        relationship_behavior_a_target
    );
    assert_eq!(
        RelationshipCloneResolution::Clone(RelationshipCloneBehaviorClone),
        relationship_behavior_b
    );
    assert_eq!(
        RelationshipCloneResolution::TargetClone(RelationshipCloneBehaviorTargetClone {
            linked_spawn: false
        }),
        relationship_behavior_b_target
    );

    match extract_clone_behavior_value(&relationship_behavior_children) {
        ComponentCloneBehavior::Custom(_) => (),
        _ => panic!("`relationship_behavior_children` should result in `ComponentCloneBehavior::Custom`"),
    }

    match extract_clone_behavior_value(&relationship_behavior_a) {
        ComponentCloneBehavior::Ignore => (),
        _ => panic!("`relationship_behavior_a` should result in `ComponentCloneBehavior::Ignore`"),
    }

    match extract_clone_behavior_value(&relationship_behavior_a_target) {
        ComponentCloneBehavior::Ignore => (),
        _ => panic!("`relationship_behavior_a_target` should result in `ComponentCloneBehavior::Ignore`"),
    }

    match extract_clone_behavior_value(&relationship_behavior_b) {
        ComponentCloneBehavior::Custom(_) => (),
        _ => panic!("`relationship_behavior_b` should result in `ComponentCloneBehavior::Custom`"),
    }

    match extract_clone_behavior_value(&relationship_behavior_b_target) {
        ComponentCloneBehavior::Custom(_) => (),
        _ => panic!("`relationship_behavior_b_target` should result in `ComponentCloneBehavior::Custom`"),
    }
}

#[test]
fn relationship_clone_specialization_reflect() {
    // `C` / `CTarget`: a relationship pair that derives `Reflect` only.
    let c = ComponentTraits::relationship().with_reflect();
    let c_target = ComponentTraits::target(false).with_reflect();

    let relationship_behavior_c = RelationshipCloneSpecialization::new(c).check();
    let relationship_behavior_c_target = RelationshipCloneSpecialization::new(c_target).check();

    assert_eq!(
        RelationshipCloneResolution::Reflect(RelationshipCloneBehaviorReflect),
        relationship_behavior_c
    );
    assert_eq!(
        RelationshipCloneResolution::TargetReflect(RelationshipCloneBehaviorTargetReflect {
            linked_spawn: false
        }),
        relationship_behavior_c_target
    );

    match extract_clone_behavior_value(&relationship_behavior_c) {
        ComponentCloneBehavior::Custom(_) => (),
        _ => panic!("`relationship_behavior_c` should result in `ComponentCloneBehavior::Custom`"),
    }

    match extract_clone_behavior_value(&relationship_behavior_c_target) {
        ComponentCloneBehavior::Custom(_) => (),
        _ => panic!("`relationship_behavior_c_target` should result in `ComponentCloneBehavior::Custom`"),
    }
}
