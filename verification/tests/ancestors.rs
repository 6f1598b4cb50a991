use auravibe::ancestors::TextureCaches;

#[test]
fn propagation_happens_once_per_invalidation() {
    let mut caches = TextureCaches::new();
    let outer = caches.create();
    let inner = caches.create();
    let _ = caches.take_invalidated(outer);
    let mut slot = 0;

    // A fresh cache counts as invalidated once.
    caches.enter_ancestor(outer);
    assert!(caches.propagate(inner, &mut slot));
    caches.leave_ancestor();
    assert!(caches.take_invalidated(outer));

    // Nothing changed: the still-set flag of `inner` is not propagated again.
    assert!(caches.is_invalidated(inner));
    caches.enter_ancestor(outer);
    assert!(!caches.propagate(inner, &mut slot));
    caches.leave_ancestor();
    assert!(!caches.is_invalidated(outer));

    // An explicit invalidation reaches the outer exactly once more.
    caches.invalidate(inner);
    caches.enter_ancestor(outer);
    assert!(caches.propagate(inner, &mut slot));
    caches.leave_ancestor();
    assert!(caches.take_invalidated(outer));
    caches.enter_ancestor(outer);
    assert!(!caches.propagate(inner, &mut slot));
    caches.leave_ancestor();
    assert!(!caches.is_invalidated(outer));
}

#[test]
fn every_ancestor_on_the_stack_is_invalidated() {
    let mut caches = TextureCaches::new();
    let grand = caches.create();
    let parent = caches.create();
    let child = caches.create();
    let _ = (caches.take_invalidated(grand), caches.take_invalidated(parent));
    let mut slot = 0;

    caches.enter_ancestor(grand);
    caches.enter_ancestor(parent);
    assert!(caches.propagate(child, &mut slot));
    caches.leave_ancestor();
    caches.leave_ancestor();
    assert!(caches.is_invalidated(grand) && caches.is_invalidated(parent));
}

#[test]
fn invalidate_ancestors_reaches_every_registered_cache() {
    let mut caches = TextureCaches::new();
    let outer = caches.create();
    let _ = caches.take_invalidated(outer);
    caches.enter_ancestor(outer);
    caches.invalidate_ancestors();
    caches.leave_ancestor();
    assert!(caches.is_invalidated(outer));
}

#[test]
fn the_stack_is_empty_outside_with_ancestor() {
    let mut caches = TextureCaches::new();
    let outer = caches.create();
    let _ = caches.take_invalidated(outer);
    caches.enter_ancestor(outer);
    caches.leave_ancestor();
    let mut slot = 0;
    let fresh = caches.create();
    assert!(caches.propagate(fresh, &mut slot));
    assert!(
        !caches.is_invalidated(outer),
        "nothing registered after the scope ended"
    );
}

#[test]
fn invalidation_moves_the_generation_and_take_clears_the_flag() {
    let mut caches = TextureCaches::new();
    let c = caches.create();
    assert_eq!(caches.generation(c), 1);
    assert!(caches.take_invalidated(c));
    assert!(!caches.take_invalidated(c));
    caches.invalidate(c);
    assert_eq!(caches.generation(c), 2);
    assert!(caches.is_invalidated(c));
}

#[test]
fn caches_off_the_stack_are_left_alone() {
    let mut caches = TextureCaches::new();
    let on = caches.create();
    let off = caches.create();
    let _ = (caches.take_invalidated(on), caches.take_invalidated(off));
    caches.enter_ancestor(on);
    caches.invalidate_ancestors();
    assert!(caches.is_invalidated(on));
    assert!(!caches.is_invalidated(off));
    assert_eq!(caches.generation(off), 1);
    assert_eq!(caches.generation(on), 2);
}
