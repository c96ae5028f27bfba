use contact_hooks::physics_hooks::PairFilterContext;
use contact_hooks::physics_hooks::RawPhysicsHooks;
use contact_hooks::physics_hooks::SolverFlags;
use contact_hooks::physics_hooks::SOLVER_FLAG_COMPUTE_IMPULSES;
use contact_hooks::utils::flat_handle;
use contact_hooks::utils::handle;
use contact_hooks::utils::HandleParts;

#[test]
fn flat_handle_packs_index_and_generation() {
    let h = flat_handle(HandleParts { index: 7, generation: 3 });
    assert_eq!(h, 7 + 3 * 0x1_0000_0000);
}

#[test]
fn flat_handle_round_trips() {
    let parts = HandleParts { index: 123_456, generation: 987_654 };
    let decoded = handle(flat_handle(parts));
    assert_eq!(decoded, parts);

    let extremes = HandleParts { index: u32::MAX, generation: u32::MAX };
    assert_eq!(handle(flat_handle(extremes)), extremes);

    let zero = HandleParts { index: 0, generation: 0 };
    assert_eq!(flat_handle(zero), 0);
    assert_eq!(handle(0), zero);
}

#[test]
fn recycled_slot_encodes_differently() {
    // The same dense slot, reused under a bumped generation, must be
    // distinguishable from the outside.
    let before = flat_handle(HandleParts { index: 5, generation: 1 });
    let after = flat_handle(HandleParts { index: 5, generation: 2 });
    assert_ne!(before, after);
}

#[test]
fn contact_filter_fails_closed() {
    let hooks = RawPhysicsHooks::new();
    // A failed host call, or one that returned nothing numeric, rejects the
    // pair: no solver constraints are generated.
    assert_eq!(hooks.filter_contact_pair(None), None);
}

#[test]
fn contact_filter_parses_flag_bits() {
    let hooks = RawPhysicsHooks::new();
    assert_eq!(
        hooks.filter_contact_pair(Some(1)),
        Some(SolverFlags { bits: SOLVER_FLAG_COMPUTE_IMPULSES })
    );
    assert_eq!(hooks.filter_contact_pair(Some(0)), Some(SolverFlags { bits: 0 }));
}

#[test]
fn contact_filter_rejects_meaningless_bits() {
    let hooks = RawPhysicsHooks::new();
    assert_eq!(hooks.filter_contact_pair(Some(2)), None);
    assert_eq!(hooks.filter_contact_pair(Some(3)), None);
    assert_eq!(hooks.filter_contact_pair(Some(u32::MAX)), None);
}

#[test]
fn solver_flags_from_bits() {
    assert_eq!(SolverFlags::from_bits(0), Some(SolverFlags { bits: 0 }));
    assert_eq!(SolverFlags::from_bits(1), Some(SolverFlags { bits: 1 }));
    assert_eq!(SolverFlags::from_bits(2), None);
    assert!(SolverFlags { bits: 1 }.compute_impulses());
    assert!(!SolverFlags { bits: 0 }.compute_impulses());
}

#[test]
fn intersection_filter_fails_closed() {
    let hooks = RawPhysicsHooks::new();
    // Only an explicit `true` from the host reports the intersection.
    assert!(!hooks.filter_intersection_pair(None));
    assert!(!hooks.filter_intersection_pair(Some(false)));
    assert!(hooks.filter_intersection_pair(Some(true)));
}

#[test]
fn pair_context_encodes_handles_for_the_host() {
    let ctx = PairFilterContext {
        collider1: HandleParts { index: 1, generation: 0 },
        collider2: HandleParts { index: 2, generation: 4 },
        rigid_body1: Some(HandleParts { index: 9, generation: 1 }),
        rigid_body2: None,
    };
    let (c1, c2, rb1, rb2) = ctx.encoded_handles();
    assert_eq!(c1, 1);
    assert_eq!(c2, 2 + 4 * 0x1_0000_0000);
    assert_eq!(rb1, Some(9 + 0x1_0000_0000));
    assert_eq!(rb2, None);
}
