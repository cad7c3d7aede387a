use ecs_cloning::clone_behavior::{
    CloneHandler, ComponentCloneBehavior, ComponentTraits,
};
use ecs_cloning::clone_ctx::{ComponentCloneCtx, ComponentValue, DeferredReparent};
use ecs_cloning::entity::Entity;
use ecs_cloning::registry::{resolve_clone_behavior, CloneBehaviorRegistry};
use ecs_cloning::relationship::{clone_relationship_target, run_clone_behavior};
use ecs_cloning::world::RelationWorld;

/// A world with a parent `p` whose collection is `[a, b]`, plus one
/// unrelated entity.
fn family() -> (RelationWorld, Entity, Entity, Entity) {
    let mut world = RelationWorld::new();
    let p = world.spawn();
    let a = world.spawn();
    let b = world.spawn();
    world.spawn();
    world.link(a, p);
    world.link(b, p);
    (world, p, a, b)
}

fn output_collection(ctx: &ComponentCloneCtx) -> Option<Vec<Entity>> {
    match ctx.output() {
        Some(ComponentValue::RelationshipTarget(c)) => Some(c.clone()),
        _ => None,
    }
}

#[test]
fn move_mode_reparents_a_and_b() {
    let (mut world, p, a, b) = family();
    let p2 = world.duplicate(p, ComponentTraits::children(), false, true);
    assert_eq!(p2, Entity(4));
    assert_eq!(world.children(p2), &vec![a, b]);
    assert_eq!(world.parent(a), Some(p2));
    assert_eq!(world.parent(b), Some(p2));
    assert!(world.children(p).is_empty());
}

#[test]
fn default_mode_leaves_references() {
    let (mut world, p, a, b) = family();
    let p2 = world.duplicate(p, ComponentTraits::target(true).with_clone(), false, false);
    assert!(world.children(p2).is_empty());
    assert_eq!(world.parent(a), Some(p));
    assert_eq!(world.parent(b), Some(p));
    assert_eq!(world.children(p), &vec![a, b]);
    assert_eq!(world.len(), 5);
}

#[test]
fn linked_mode_spawns_new_sources() {
    let (mut world, p, a, b) = family();
    let p2 = world.duplicate(p, ComponentTraits::children(), true, false);
    assert_eq!(p2, Entity(4));
    assert_eq!(world.children(p2), &vec![Entity(5), Entity(6)]);
    assert_eq!(world.parent(Entity(5)), Some(p2));
    assert_eq!(world.parent(Entity(6)), Some(p2));
    assert!(world.is_alive(Entity(5)));
    assert_eq!(world.parent(a), Some(p));
    assert_eq!(world.parent(b), Some(p));
    assert_eq!(world.children(p), &vec![a, b]);
}

#[test]
fn linked_mode_without_recursive_flag_moves_or_does_nothing() {
    let (mut world, p, a, b) = family();
    let traits = ComponentTraits::target(false).with_clone();
    let p2 = world.duplicate(p, traits, true, false);
    assert!(world.children(p2).is_empty());
    assert_eq!(world.parent(a), Some(p));
    let p3 = world.duplicate(p, traits, true, true);
    assert_eq!(world.children(p3), &vec![a, b]);
    assert_eq!(world.parent(a), Some(p3));
    assert_eq!(world.parent(b), Some(p3));
}

#[test]
fn despawned_source_is_skipped_on_move() {
    let (mut world, p, a, b) = family();
    let ctx = world.start_duplicate(p, ComponentTraits::children(), false, true);
    let p2 = ctx.target();
    assert_eq!(ctx.deferred(), &vec![
        DeferredReparent { entity: a, target: p2 },
        DeferredReparent { entity: b, target: p2 },
    ]);
    world.despawn(b);
    world.finish_duplicate(&ctx);
    assert_eq!(world.children(p2), &vec![a]);
    assert_eq!(world.parent(a), Some(p2));
    assert!(!world.is_alive(b));
    assert_eq!(world.parent(b), None);
}

#[test]
fn despawned_source_is_skipped_on_linked_clone() {
    let (mut world, p, a, b) = family();
    let ctx = world.start_duplicate(p, ComponentTraits::children(), true, false);
    assert_eq!(ctx.clone_queue(), &vec![a, b]);
    world.despawn(a);
    world.finish_duplicate(&ctx);
    let p2 = ctx.target();
    assert_eq!(world.children(p2), &vec![Entity(5)]);
    assert_eq!(world.parent(Entity(5)), Some(p2));
    assert_eq!(world.children(p), &vec![b]);
    assert_eq!(world.len(), 6);
}

#[test]
fn no_capability_relationship_is_ignored() {
    let forward = ComponentTraits::relationship();
    let back = ComponentTraits::target(true);
    assert_eq!(resolve_clone_behavior(forward), ComponentCloneBehavior::Ignore);
    assert_eq!(resolve_clone_behavior(back), ComponentCloneBehavior::Ignore);

    let mut ctx = ComponentCloneCtx::new(Entity(9), true, true);
    let source = ComponentValue::Relationship(Entity(1));
    run_clone_behavior(resolve_clone_behavior(forward), Some(&source), &mut ctx);
    assert!(ctx.output().is_none());

    let (mut world, p, a, b) = family();
    let p2 = world.duplicate(p, back, true, true);
    assert!(world.children(p2).is_empty());
    assert_eq!(world.children(p), &vec![a, b]);
    assert_eq!(world.parent(a), Some(p));
}

#[test]
fn target_clone_outranks_value_copy() {
    let t = ComponentTraits::target(true).with_clone();
    assert_eq!(
        resolve_clone_behavior(t),
        ComponentCloneBehavior::Custom(CloneHandler::CloneTarget(true))
    );
    let both = ComponentTraits::target(false).with_clone().with_reflect();
    assert_eq!(
        resolve_clone_behavior(both),
        ComponentCloneBehavior::Custom(CloneHandler::CloneTarget(false))
    );
    let plain = ComponentTraits::plain().with_clone();
    assert_eq!(resolve_clone_behavior(plain), ComponentCloneBehavior::clone());
}

#[test]
fn resolution_table_ranks() {
    let children = ComponentTraits::children().with_clone().with_reflect();
    assert_eq!(
        resolve_clone_behavior(children),
        ComponentCloneBehavior::Custom(CloneHandler::ChildrenTarget)
    );
    assert_eq!(
        resolve_clone_behavior(ComponentTraits::target(true).with_reflect()),
        ComponentCloneBehavior::Custom(CloneHandler::ReflectTarget(true))
    );
    assert_eq!(
        resolve_clone_behavior(ComponentTraits::relationship().with_clone().with_reflect()),
        ComponentCloneBehavior::Custom(CloneHandler::ValueCopy)
    );
    assert_eq!(
        resolve_clone_behavior(ComponentTraits::relationship().with_reflect()),
        ComponentCloneBehavior::reflect()
    );
    assert_eq!(
        resolve_clone_behavior(ComponentTraits::plain().with_reflect()),
        ComponentCloneBehavior::Default
    );
}

#[test]
fn resolution_is_deterministic() {
    let mut registry = CloneBehaviorRegistry::new();
    let t = ComponentTraits::target(true).with_reflect();
    let first = registry.register(t);
    let second = registry.register(t);
    let other = registry.register(ComponentTraits::plain());
    assert_eq!((first, second, other), (0, 1, 2));
    assert_eq!(registry.len(), 3);
    assert_eq!(registry.behavior(first), registry.behavior(second));
    assert_eq!(registry.behavior(first), resolve_clone_behavior(t));
    assert_eq!(registry.behavior(other), ComponentCloneBehavior::Default);
}

#[test]
fn algorithm_linked_mode_queues_clones() {
    let mut ctx = ComponentCloneCtx::new(Entity(7), true, false);
    let mut cloned = vec![Entity(3)];
    clone_relationship_target(&vec![Entity(1), Entity(2)], &mut cloned, true, &mut ctx);
    assert_eq!(cloned, vec![Entity(3), Entity(1), Entity(2)]);
    assert_eq!(ctx.clone_queue(), &vec![Entity(1), Entity(2)]);
    assert!(ctx.deferred().is_empty());
}

#[test]
fn algorithm_move_mode_queues_reparents() {
    let mut ctx = ComponentCloneCtx::new(Entity(7), false, true);
    let mut cloned = Vec::new();
    clone_relationship_target(&vec![Entity(1), Entity(2)], &mut cloned, true, &mut ctx);
    assert_eq!(cloned, vec![Entity(1), Entity(2)]);
    assert!(ctx.clone_queue().is_empty());
    assert_eq!(ctx.deferred(), &vec![
        DeferredReparent { entity: Entity(1), target: Entity(7) },
        DeferredReparent { entity: Entity(2), target: Entity(7) },
    ]);
}

#[test]
fn algorithm_default_mode_does_nothing() {
    let mut ctx = ComponentCloneCtx::new(Entity(7), false, false);
    let mut cloned = Vec::new();
    clone_relationship_target(&vec![Entity(1), Entity(2)], &mut cloned, true, &mut ctx);
    assert!(cloned.is_empty());
    assert!(ctx.clone_queue().is_empty());
    assert!(ctx.deferred().is_empty());
    assert!(!ctx.linked_cloning());
    assert!(!ctx.moving());
}

#[test]
fn algorithm_empty_collection() {
    let mut ctx = ComponentCloneCtx::new(Entity(7), true, true);
    let mut cloned = Vec::new();
    clone_relationship_target(&Vec::new(), &mut cloned, true, &mut ctx);
    assert!(cloned.is_empty());
    assert!(ctx.clone_queue().is_empty());
    assert!(ctx.deferred().is_empty());
}

#[test]
fn handlers_write_output() {
    let mut ctx = ComponentCloneCtx::new(Entity(7), false, true);
    let source = ComponentValue::RelationshipTarget(vec![Entity(1), Entity(2)]);
    run_clone_behavior(
        ComponentCloneBehavior::Custom(CloneHandler::ReflectTarget(false)),
        Some(&source),
        &mut ctx,
    );
    assert_eq!(output_collection(&ctx), Some(vec![Entity(1), Entity(2)]));
    assert_eq!(ctx.deferred().len(), 2);

    let mut copy_ctx = ComponentCloneCtx::new(Entity(7), false, false);
    let forward = ComponentValue::Relationship(Entity(3));
    run_clone_behavior(ComponentCloneBehavior::clone(), Some(&forward), &mut copy_ctx);
    match copy_ctx.output() {
        Some(ComponentValue::Relationship(e)) => assert_eq!(*e, Entity(3)),
        _ => panic!("a value copy should write the forward component"),
    }

    let mut plain_ctx = ComponentCloneCtx::new(Entity(7), false, false);
    run_clone_behavior(ComponentCloneBehavior::Default, Some(&source), &mut plain_ctx);
    assert!(plain_ctx.output().is_none());

    let mut missing_ctx = ComponentCloneCtx::new(Entity(7), true, false);
    run_clone_behavior(
        ComponentCloneBehavior::Custom(CloneHandler::ChildrenTarget),
        None,
        &mut missing_ctx,
    );
    assert!(missing_ctx.output().is_none());
    assert!(missing_ctx.clone_queue().is_empty());
}

#[test]
fn despawn_removes_every_reference() {
    let (mut world, p, a, b) = family();
    world.despawn(p);
    assert!(!world.is_alive(p));
    assert_eq!(world.parent(a), None);
    assert_eq!(world.parent(b), None);
    assert!(world.children(p).is_empty());
    world.despawn(a);
    assert_eq!(world.len(), 4);
}

#[test]
fn deferred_reparent_skips_dead_entities() {
    let (mut world, p, a, _b) = family();
    world.despawn(a);
    world.reparent(DeferredReparent { entity: a, target: p });
    assert_eq!(world.parent(a), None);
    world.reparent(DeferredReparent { entity: Entity(40), target: p });
    assert_eq!(world.len(), 4);
}

#[test]
fn linked_mode_wins_over_move() {
    let (mut world, p, a, b) = family();
    let ctx = world.start_duplicate(p, ComponentTraits::children(), true, true);
    assert!(ctx.deferred().is_empty());
    assert_eq!(ctx.clone_queue(), &vec![a, b]);
    world.finish_duplicate(&ctx);
    let p2 = ctx.target();
    assert_eq!(world.children(p2), &vec![Entity(5), Entity(6)]);
    assert_eq!(world.parent(Entity(5)), Some(p2));
    assert_eq!(world.parent(Entity(6)), Some(p2));
    assert_eq!(world.children(p), &vec![a, b]);
    assert_eq!(world.parent(a), Some(p));
    assert_eq!(world.parent(b), Some(p));
}
