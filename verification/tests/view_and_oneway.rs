use contact_hooks::geometry::RawContactManifold;
use contact_hooks::geometry::SolverContact;
use contact_hooks::math::RawVector;
use contact_hooks::math::FIXED_POINT_SCALE;
use contact_hooks::oneway::oneway_step;
use contact_hooks::oneway::state_word;
use contact_hooks::oneway::word_state;
use contact_hooks::oneway::OneWayState;
use contact_hooks::oneway::OneWayState::{Allowed, Forbidden, Unknown};
use contact_hooks::oneway::StepObservation;
use contact_hooks::physics_hooks::RawContactModificationContext;

/// Cosine of a 30-degree half-angle tolerance, in fixed-point units.
const COS_30_DEG: i64 = 866_025;

fn vector(x: i64, y: i64, z: i64) -> RawVector {
    RawVector { x, y, z }
}

fn contact(dist: i64) -> SolverContact {
    SolverContact {
        point: vector(0, 0, 0),
        dist,
        friction: 500_000,
        restitution: 0,
        tangent_velocity: vector(0, 0, 0),
        warmstart_impulse: 0,
        warmstart_tangent_impulse: 0,
        warmstart_twist_impulse: 0,
        is_new: true,
    }
}

fn context(local_n1: RawVector, user_data: u32, dists: &[i64]) -> RawContactModificationContext {
    RawContactModificationContext {
        collider1: 10,
        collider2: 11,
        rigid_body1: Some(20),
        rigid_body2: None,
        manifold: RawContactManifold { local_n1 },
        solver_contacts: dists.iter().map(|d| contact(*d)).collect(),
        normal: local_n1,
        user_data,
    }
}

fn up() -> RawVector {
    vector(0, 0, FIXED_POINT_SCALE)
}

fn down() -> RawVector {
    vector(0, 0, -FIXED_POINT_SCALE)
}

#[test]
fn vector_dot_and_norm() {
    let a = vector(1, 2, 3);
    let b = vector(4, 5, 6);
    assert_eq!(a.dot(&b), 32);
    assert_eq!(vector(3, 4, 0).norm_squared(), 25);
}

#[test]
fn getters_return_the_pair_data() {
    let ctx = context(up(), 0, &[100]);
    assert_eq!(ctx.collider1(), 10);
    assert_eq!(ctx.collider2(), 11);
    assert_eq!(ctx.rigid_body1(), Some(20));
    assert_eq!(ctx.rigid_body2(), None);
    assert_eq!(ctx.contact_manifold().local_n1(), up());
    assert_eq!(ctx.normal(), up());
    assert_eq!(ctx.user_data(), 0);
    assert_eq!(ctx.num_solver_contacts(), 1);
}

#[test]
fn out_of_range_reads_are_absent_or_default() {
    let ctx = context(up(), 0, &[100, 200]);
    assert_eq!(ctx.solver_contact_point(2), None);
    assert_eq!(ctx.solver_contact_dist(2), 0);
    assert_eq!(ctx.solver_contact_friction(2), None);
    assert_eq!(ctx.solver_contact_restitution(2), None);
    assert_eq!(ctx.solver_contact_tangent_velocity(2), None);
    assert_eq!(ctx.solver_contact_warmstart_impulse(2), None);
    assert_eq!(ctx.solver_contact_warmstart_tangent_impulse(2), None);
    assert_eq!(ctx.solver_contact_warmstart_twist_impulse(2), None);
    assert_eq!(ctx.solver_contact_is_new(2), None);
}

#[test]
fn out_of_range_writes_are_no_ops() {
    let mut ctx = context(up(), 0, &[100, 200]);
    ctx.set_solver_contact_point(2, &vector(1, 1, 1));
    ctx.set_solver_contact_dist(2, 7);
    ctx.set_solver_contact_friction(2, 7);
    ctx.set_solver_contact_restitution(2, 7);
    ctx.set_solver_contact_tangent_velocity(2, &vector(1, 1, 1));
    ctx.set_solver_contact_warmstart_impulse(2, 7);
    ctx.set_solver_contact_warmstart_tangent_impulse(2, 7);
    ctx.set_solver_contact_warmstart_twist_impulse(2, 7);
    ctx.set_solver_contact_is_new(2, false);
    ctx.remove_solver_contact(2);
    assert_eq!(ctx.num_solver_contacts(), 2);
    assert_eq!(ctx.solver_contact_dist(0), 100);
    assert_eq!(ctx.solver_contact_dist(1), 200);
    assert_eq!(ctx.solver_contact_friction(1), Some(500_000));
}

#[test]
fn in_range_writes_hit_exactly_one_field() {
    let mut ctx = context(up(), 0, &[100, 200]);

    ctx.set_solver_contact_point(1, &vector(5, 6, 7));
    assert_eq!(ctx.solver_contact_point(1), Some(vector(5, 6, 7)));
    assert_eq!(ctx.solver_contact_point(0), Some(vector(0, 0, 0)));

    ctx.set_solver_contact_dist(1, -42);
    assert_eq!(ctx.solver_contact_dist(1), -42);
    assert_eq!(ctx.solver_contact_dist(0), 100);

    ctx.set_solver_contact_friction(0, 250_000);
    assert_eq!(ctx.solver_contact_friction(0), Some(250_000));
    assert_eq!(ctx.solver_contact_friction(1), Some(500_000));

    ctx.set_solver_contact_restitution(0, 900_000);
    assert_eq!(ctx.solver_contact_restitution(0), Some(900_000));

    ctx.set_solver_contact_tangent_velocity(0, &vector(1, 2, 3));
    assert_eq!(ctx.solver_contact_tangent_velocity(0), Some(vector(1, 2, 3)));

    ctx.set_solver_contact_warmstart_impulse(0, 11);
    assert_eq!(ctx.solver_contact_warmstart_impulse(0), Some(11));

    ctx.set_solver_contact_warmstart_tangent_impulse(0, 12);
    assert_eq!(ctx.solver_contact_warmstart_tangent_impulse(0), Some(12));

    ctx.set_solver_contact_warmstart_twist_impulse(0, 13);
    assert_eq!(ctx.solver_contact_warmstart_twist_impulse(0), Some(13));

    ctx.set_solver_contact_is_new(0, false);
    assert_eq!(ctx.solver_contact_is_new(0), Some(false));
    assert_eq!(ctx.solver_contact_is_new(1), Some(true));

    // None of the writes touched the sequence length.
    assert_eq!(ctx.num_solver_contacts(), 2);
}

#[test]
fn shared_normal_and_user_data_writes() {
    let mut ctx = context(up(), 0, &[100]);
    ctx.set_normal(&vector(9, 9, 9));
    assert_eq!(ctx.normal(), vector(9, 9, 9));
    ctx.set_user_data(77);
    assert_eq!(ctx.user_data(), 77);
    assert_eq!(ctx.num_solver_contacts(), 1);
}

#[test]
fn remove_is_swap_remove() {
    // Contacts [a, b, c, d], told apart by their distances.
    let mut ctx = context(up(), 0, &[1, 2, 3, 4]);
    ctx.remove_solver_contact(1);
    // The last contact is swapped into the hole: [a, d, c], not [a, c, d].
    assert_eq!(ctx.num_solver_contacts(), 3);
    assert_eq!(ctx.solver_contact_dist(0), 1);
    assert_eq!(ctx.solver_contact_dist(1), 4);
    assert_eq!(ctx.solver_contact_dist(2), 3);
}

#[test]
fn clear_empties_the_sequence() {
    let mut ctx = context(up(), 0, &[1, 2, 3]);
    ctx.clear_solver_contacts();
    assert_eq!(ctx.num_solver_contacts(), 0);
    assert_eq!(ctx.solver_contact_point(0), None);
    ctx.set_solver_contact_dist(0, 9);
    assert_eq!(ctx.num_solver_contacts(), 0);
}

#[test]
fn oneway_step_follows_the_transition_table() {
    let obs = |ok: bool, degenerate: bool, separated: bool, empty: bool| StepObservation {
        contact_is_ok: ok,
        normal_is_degenerate: degenerate,
        all_contacts_separated: separated,
        contacts_empty: empty,
    };
    assert_eq!(oneway_step(Unknown, obs(true, false, true, false)), (Allowed, true));
    assert_eq!(oneway_step(Unknown, obs(false, false, true, false)), (Forbidden, false));
    assert_eq!(oneway_step(Unknown, obs(false, true, true, false)), (Unknown, false));
    assert_eq!(oneway_step(Forbidden, obs(true, false, true, false)), (Allowed, true));
    assert_eq!(oneway_step(Forbidden, obs(true, false, false, false)), (Forbidden, false));
    assert_eq!(oneway_step(Forbidden, obs(false, false, true, false)), (Forbidden, false));
    assert_eq!(oneway_step(Allowed, obs(false, false, true, true)), (Unknown, true));
    assert_eq!(oneway_step(Allowed, obs(false, true, false, false)), (Allowed, true));
}

#[test]
fn state_words_round_trip() {
    assert_eq!(state_word(OneWayState::Unknown), 0);
    assert_eq!(state_word(OneWayState::Allowed), 1);
    assert_eq!(state_word(OneWayState::Forbidden), 2);
    assert_eq!(word_state(0), Some(OneWayState::Unknown));
    assert_eq!(word_state(1), Some(OneWayState::Allowed));
    assert_eq!(word_state(2), Some(OneWayState::Forbidden));
    assert_eq!(word_state(3), None);
}

#[test]
fn allowed_state_is_idempotent_over_repeated_steps() {
    // Allowed, non-empty contacts, normal staying within the cone: repeated
    // steps keep the contacts intact and the state Allowed.
    let mut ctx = context(up(), 1, &[50_000, 60_000]);
    for _ in 0..3 {
        ctx.update_as_oneway_platform(&up(), COS_30_DEG);
        assert_eq!(ctx.user_data(), 1);
        assert_eq!(ctx.num_solver_contacts(), 2);
        assert_eq!(ctx.solver_contact_dist(0), 50_000);
        assert_eq!(ctx.solver_contact_dist(1), 60_000);
    }
}

#[test]
fn degenerate_normal_stays_unknown() {
    // Squared norm 0.05 in real units (below the 0.1 threshold): the frame
    // cannot be trusted, so the contacts are cleared but the pair is not
    // committed to Forbidden.
    let near_zero = vector(223_606, 0, 0);
    assert!(near_zero.norm_squared() < 100_000_000_000);
    let mut ctx = context(near_zero, 0, &[-10_000]);
    ctx.update_as_oneway_platform(&up(), COS_30_DEG);
    assert_eq!(ctx.num_solver_contacts(), 0);
    assert_eq!(ctx.user_data(), 0);
}

#[test]
fn forbidden_recovers_once_separated() {
    // Forbidden, normal back within the cone, every contact separated by
    // 0.02: the pair recovers to Allowed with its contacts retained.
    let mut ctx = context(up(), 2, &[20_000, 20_000]);
    ctx.update_as_oneway_platform(&up(), COS_30_DEG);
    assert_eq!(ctx.user_data(), 1);
    assert_eq!(ctx.num_solver_contacts(), 2);
}

#[test]
fn forbidden_stays_while_penetrating() {
    // Same geometry, but one contact still penetrates by 0.01: the contacts
    // are cleared and the pair stays Forbidden.
    let mut ctx = context(up(), 2, &[20_000, -10_000]);
    ctx.update_as_oneway_platform(&up(), COS_30_DEG);
    assert_eq!(ctx.user_data(), 2);
    assert_eq!(ctx.num_solver_contacts(), 0);
}

#[test]
fn colliders_pass_through_from_below_and_land_from_above() {
    // Two colliders approach a one-way platform from below; the platform's
    // allowed normal is its up vector, with a 30-degree tolerance.
    for collider in 0..2 {
        // First touch from below: the contact normal points away from the
        // allowed direction. A fresh pair starts with a zeroed user-data
        // word, reads as Unknown, gets its contacts cleared, and is marked
        // Forbidden.
        let mut ctx = context(down(), 0, &[-5_000]);
        ctx.collider1 = collider;
        assert_eq!(word_state(ctx.user_data()), Some(OneWayState::Unknown));
        ctx.update_as_oneway_platform(&up(), COS_30_DEG);
        assert_eq!(ctx.num_solver_contacts(), 0);
        assert_eq!(word_state(ctx.user_data()), Some(OneWayState::Forbidden));

        // The pair separates, so the engine drops its manifold; on the next
        // touch, now from above, the pair starts over with a fresh zeroed
        // word: Unknown goes straight to Allowed and the contacts survive.
        let mut ctx = context(up(), 0, &[1_000]);
        ctx.collider1 = collider;
        ctx.update_as_oneway_platform(&up(), COS_30_DEG);
        assert_eq!(word_state(ctx.user_data()), Some(OneWayState::Allowed));
        assert_eq!(ctx.num_solver_contacts(), 1);
        assert_eq!(ctx.solver_contact_dist(0), 1_000);
    }
}
