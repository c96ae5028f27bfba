//! The hook dispatch surface: fail-closed interpretation of the host-side
//! pair filters, and the mutable per-pair view over the solver-contact buffer
//! that the contact-modification hook works through.
//!
//! The host callbacks themselves (whatever runtime hosts them) live outside
//! this crate. The caller encodes the pair's handles with
//! [`PairFilterContext::encoded_handles`], invokes its callback, reduces the
//! raw outcome to a plain value (`None` for a call that failed or returned
//! nothing usable), and hands that value to the filter entry points here,
//! which pin down the fail-closed defaulting.
use crate::geometry::RawContactManifold;
use crate::geometry::SolverContact;
use crate::math::FIXED_POINT_SCALE;
use crate::math::RawVector;
use crate::oneway::NORMAL_DEGENERACY_THRESHOLD;
use crate::oneway::OneWayState;
use crate::oneway::StepObservation;
use crate::oneway::spec_oneway_step;
use crate::oneway::spec_state_word;
use crate::oneway::spec_word_state;
use crate::oneway::state_word;
use crate::oneway::word_state;
use crate::utils::FlatHandle;
use crate::utils::HandleParts;
use crate::utils::flat_handle;
use crate::utils::spec_flat_handle;
use vstd::prelude::*;

verus! {

/// Bit a contact filter sets so that the solver computes impulses for the
/// pair; without it an approved pair produces no physical response.
pub const SOLVER_FLAG_COMPUTE_IMPULSES: u32 = 1;

/// Mask of all solver-flag bits that carry a meaning.
pub const SOLVER_FLAGS_ALL: u32 = 1;

/// Flags a contact filter returns to the solver for an approved pair.
#[derive(Clone, Copy, PartialEq, Eq, Structural, Debug)]
pub struct SolverFlags {
    pub bits: u32,
}

impl SolverFlags {
    /// The flags encoded by a word, or `None` when the word sets a bit that
    /// carries no meaning. The meaningful bits form the contiguous low mask
    /// `SOLVER_FLAGS_ALL`, so a word is valid exactly when it does not exceed
    /// the mask.
    pub open spec fn spec_from_bits(bits: u32) -> Option<SolverFlags> {
        if bits <= SOLVER_FLAGS_ALL {
            Some(SolverFlags { bits })
        } else {
            None
        }
    }

    /// Parses a word of flag bits; a word with unknown bits set is rejected.
    pub fn from_bits(bits: u32) -> (r: Option<SolverFlags>)
        ensures
            r == Self::spec_from_bits(bits),
    {
        proof {
            assert((bits & 1u32 == bits) <==> (bits <= 1u32)) by (bit_vector);
        }
        if bits & SOLVER_FLAGS_ALL == bits {
            Some(SolverFlags { bits })
        } else {
            None
        }
    }

    /// Whether the solver will compute impulses for the pair.
    pub fn compute_impulses(&self) -> (r: bool)
        ensures
            r == (self.bits & SOLVER_FLAG_COMPUTE_IMPULSES != 0),
    {
        self.bits & SOLVER_FLAG_COMPUTE_IMPULSES != 0
    }
}

/// Read-only per-pair snapshot handed to the pair filters: the two collider
/// handles, and the body handles where a collider is attached to a body.
/// Built fresh per candidate pair and discarded after the filter call.
#[derive(Clone, Copy, Debug)]
pub struct PairFilterContext {
    pub collider1: HandleParts,
    pub collider2: HandleParts,
    pub rigid_body1: Option<HandleParts>,
    pub rigid_body2: Option<HandleParts>,
}

/// The flat encoding of an optional internal handle.
pub open spec fn spec_flat_handle_opt(id: Option<HandleParts>) -> Option<FlatHandle> {
    match id {
        Some(parts) => Some(spec_flat_handle(parts)),
        None => None,
    }
}

impl PairFilterContext {
    /// The four flat-handle arguments a host-side filter callback is invoked
    /// with: both collider handles, and each body handle where the collider
    /// is attached to one.
    pub fn encoded_handles(&self) -> (r: (
        FlatHandle,
        FlatHandle,
        Option<FlatHandle>,
        Option<FlatHandle>,
    ))
        ensures
            r.0 == spec_flat_handle(self.collider1),
            r.1 == spec_flat_handle(self.collider2),
            r.2 == spec_flat_handle_opt(self.rigid_body1),
            r.3 == spec_flat_handle_opt(self.rigid_body2),
    {
        let rb1 = match self.rigid_body1 {
            Some(parts) => Some(flat_handle(parts)),
            None => None,
        };
        let rb2 = match self.rigid_body2 {
            Some(parts) => Some(flat_handle(parts)),
            None => None,
        };
        (flat_handle(self.collider1), flat_handle(self.collider2), rb1, rb2)
    }
}

/// The solver flags a contact-pair filter reply yields: rejection (`None`)
/// when the host call failed or returned no number, and a parse of the bits
/// otherwise, rejecting words with meaningless bits.
pub open spec fn spec_filter_contact_pair(reply: Option<u32>) -> Option<SolverFlags> {
    match reply {
        Some(bits) => SolverFlags::spec_from_bits(bits),
        None => None,
    }
}

/// Dispatcher for the three hook entry points. It holds the verified half of
/// each dispatch; the host-side callbacks live outside the crate and their
/// raw outcomes are handed in as plain values.
pub struct RawPhysicsHooks {}

impl RawPhysicsHooks {
    pub fn new() -> RawPhysicsHooks {
        RawPhysicsHooks {  }
    }

    /// Decides whether a touching pair produces solver constraints, from the
    /// host filter's reply. Fail-safe-closed: a failed call or an unusable
    /// answer (`None`), like a word with meaningless bits, rejects the pair,
    /// and a rejected pair generates no constraints this step.
    pub fn filter_contact_pair(&self, reply: Option<u32>) -> (r: Option<SolverFlags>)
        ensures
            r == spec_filter_contact_pair(reply),
            reply is None ==> r is None,
    {
        match reply {
            Some(bits) => SolverFlags::from_bits(bits),
            None => None,
        }
    }

    /// Decides whether an overlapping pair is reported as an intersection,
    /// from the host filter's reply. Fail-safe-closed: only an explicit
    /// `true` from the host reports the intersection; a failed call or a
    /// non-boolean answer (`None`) does not.
    pub fn filter_intersection_pair(&self, reply: Option<bool>) -> (r: bool)
        ensures
            r == (reply == Some(true)),
    {
        match reply {
            Some(answer) => answer,
            None => false,
        }
    }
}

/// The per-pair view the contact-modification hook works through: the pair's
/// identity, the read-only manifold summary, and the mutable solver-contact
/// sequence, shared normal and user-data word. The underlying buffers belong
/// to the surrounding pipeline; a value of this type stands in for them for
/// the duration of one hook call and must not be retained past it.
///
/// Index-based accessors are total: an out-of-range read returns "absent" (or
/// the documented default), an out-of-range write is a no-op. This leniency
/// is deliberate, favoring robustness of external hook code over strictness.
pub struct RawContactModificationContext {
    pub collider1: FlatHandle,
    pub collider2: FlatHandle,
    pub rigid_body1: Option<FlatHandle>,
    pub rigid_body2: Option<FlatHandle>,
    pub manifold: RawContactManifold,
    pub solver_contacts: Vec<SolverContact>,
    pub normal: RawVector,
    pub user_data: u32,
}

impl RawContactModificationContext {
    /// The solver-contact sequence as specifications see it.
    pub open spec fn contacts(&self) -> Seq<SolverContact> {
        self.solver_contacts@
    }

    /// The pair's identity and manifold are unchanged.
    pub open spec fn same_pair_data(pre: Self, post: Self) -> bool {
        &&& post.collider1 == pre.collider1
        &&& post.collider2 == pre.collider2
        &&& post.rigid_body1 == pre.rigid_body1
        &&& post.rigid_body2 == pre.rigid_body2
        &&& post.manifold == pre.manifold
    }

    /// Everything except the solver-contact sequence is unchanged.
    pub open spec fn same_except_contacts(pre: Self, post: Self) -> bool {
        &&& Self::same_pair_data(pre, post)
        &&& post.normal == pre.normal
        &&& post.user_data == pre.user_data
    }

    /// Everything except the shared normal is unchanged.
    pub open spec fn same_except_normal(pre: Self, post: Self) -> bool {
        &&& Self::same_pair_data(pre, post)
        &&& post.solver_contacts@ == pre.solver_contacts@
        &&& post.user_data == pre.user_data
    }

    /// Everything except the user-data word is unchanged.
    pub open spec fn same_except_user_data(pre: Self, post: Self) -> bool {
        &&& Self::same_pair_data(pre, post)
        &&& post.solver_contacts@ == pre.solver_contacts@
        &&& post.normal == pre.normal
    }

    /// Everything except the solver-contact sequence and the user-data word
    /// is unchanged.
    pub open spec fn same_except_contacts_and_user_data(pre: Self, post: Self) -> bool {
        &&& Self::same_pair_data(pre, post)
        &&& post.normal == pre.normal
    }

    /// Flat handle of the pair's first collider.
    pub fn collider1(&self) -> (r: FlatHandle)
        ensures
            r == self.collider1,
    {
        self.collider1
    }

    /// Flat handle of the pair's second collider.
    pub fn collider2(&self) -> (r: FlatHandle)
        ensures
            r == self.collider2,
    {
        self.collider2
    }

    /// Flat handle of the body the first collider is attached to, if any.
    pub fn rigid_body1(&self) -> (r: Option<FlatHandle>)
        ensures
            r == self.rigid_body1,
    {
        self.rigid_body1
    }

    /// Flat handle of the body the second collider is attached to, if any.
    pub fn rigid_body2(&self) -> (r: Option<FlatHandle>)
        ensures
            r == self.rigid_body2,
    {
        self.rigid_body2
    }

    /// The contact normal shared by the whole pair this step.
    pub fn normal(&self) -> (r: RawVector)
        ensures
            r == self.normal,
    {
        self.normal
    }

    /// Replaces the pair's shared contact normal.
    pub fn set_normal(&mut self, normal: &RawVector)
        ensures
            Self::same_except_normal(*old(self), *final(self)),
            final(self).normal == *normal,
    {
        self.normal = *normal;
    }

    /// The pair's user-data word, persisted across steps by the engine and
    /// free for hook logic to repurpose; this layer gives it no meaning.
    pub fn user_data(&self) -> (r: u32)
        ensures
            r == self.user_data,
    {
        self.user_data
    }

    /// Replaces the pair's user-data word.
    pub fn set_user_data(&mut self, user_data: u32)
        ensures
            Self::same_except_user_data(*old(self), *final(self)),
            final(self).user_data == user_data,
    {
        self.user_data = user_data;
    }

    /// Number of solver contacts the pair currently has.
    pub fn num_solver_contacts(&self) -> (r: usize)
        ensures
            r == self.contacts().len(),
    {
        self.solver_contacts.len()
    }

    /// Empties the solver-contact sequence: the pair produces no contact
    /// constraints this step.
    pub fn clear_solver_contacts(&mut self)
        ensures
            Self::same_except_contacts(*old(self), *final(self)),
            final(self).contacts() == Seq::<SolverContact>::empty(),
    {
        self.solver_contacts.clear();
    }

    /// Removes contact `i` by swapping the last contact into its place. This
    /// reorders the sequence, so the displaced contact loses its warm-start
    /// correspondence across steps — an accepted tradeoff, and the reason the
    /// one-way-platform filter only ever clears the whole sequence.
    /// Out-of-range `i` is a no-op.
    pub fn remove_solver_contact(&mut self, i: usize)
        ensures
            Self::same_except_contacts(*old(self), *final(self)),
            i < old(self).contacts().len() ==> final(self).contacts() == old(
                self,
            ).contacts().update(i as int, old(self).contacts().last()).drop_last(),
            i >= old(self).contacts().len() ==> *final(self) == *old(self),
    {
        if i < self.solver_contacts.len() {
            self.solver_contacts.swap_remove(i);
        }
    }

    /// World point of contact `i`, or `None` out of range.
    pub fn solver_contact_point(&self, i: usize) -> (r: Option<RawVector>)
        ensures
            i < self.contacts().len() ==> r == Some(self.contacts()[i as int].point),
            i >= self.contacts().len() ==> r is None,
    {
        if i < self.solver_contacts.len() {
            Some(self.solver_contacts[i].point)
        } else {
            None
        }
    }

    /// Replaces the world point of contact `i`; out of range, a no-op.
    pub fn set_solver_contact_point(&mut self, i: usize, pt: &RawVector)
        ensures
            Self::same_except_contacts(*old(self), *final(self)),
            i < old(self).contacts().len() ==> final(self).contacts() == old(
                self,
            ).contacts().update(
                i as int,
                (SolverContact { point: *pt, ..old(self).contacts()[i as int] }),
            ),
            i >= old(self).contacts().len() ==> *final(self) == *old(self),
    {
        if i < self.solver_contacts.len() {
            let mut c = self.solver_contacts[i];
            c.point = *pt;
            self.solver_contacts[i] = c;
        }
    }

    /// Separation distance of contact `i` (negative when penetrating), or
    /// zero out of range.
    pub fn solver_contact_dist(&self, i: usize) -> (r: i64)
        ensures
            i < self.contacts().len() ==> r == self.contacts()[i as int].dist,
            i >= self.contacts().len() ==> r == 0,
    {
        if i < self.solver_contacts.len() {
            self.solver_contacts[i].dist
        } else {
            0
        }
    }

    /// Replaces the separation distance of contact `i`; out of range, a
    /// no-op.
    pub fn set_solver_contact_dist(&mut self, i: usize, dist: i64)
        ensures
            Self::same_except_contacts(*old(self), *final(self)),
            i < old(self).contacts().len() ==> final(self).contacts() == old(
                self,
            ).contacts().update(
                i as int,
                (SolverContact { dist, ..old(self).contacts()[i as int] }),
            ),
            i >= old(self).contacts().len() ==> *final(self) == *old(self),
    {
        if i < self.solver_contacts.len() {
            let mut c = self.solver_contacts[i];
            c.dist = dist;
            self.solver_contacts[i] = c;
        }
    }

    /// Friction coefficient of contact `i`, or `None` out of range.
    pub fn solver_contact_friction(&self, i: usize) -> (r: Option<i64>)
        ensures
            i < self.contacts().len() ==> r == Some(self.contacts()[i as int].friction),
            i >= self.contacts().len() ==> r is None,
    {
        if i < self.solver_contacts.len() {
            Some(self.solver_contacts[i].friction)
        } else {
            None
        }
    }

    /// Replaces the friction coefficient of contact `i`; out of range, a
    /// no-op.
    pub fn set_solver_contact_friction(&mut self, i: usize, friction: i64)
        ensures
            Self::same_except_contacts(*old(self), *final(self)),
            i < old(self).contacts().len() ==> final(self).contacts() == old(
                self,
            ).contacts().update(
                i as int,
                (SolverContact { friction, ..old(self).contacts()[i as int] }),
            ),
            i >= old(self).contacts().len() ==> *final(self) == *old(self),
    {
        if i < self.solver_contacts.len() {
            let mut c = self.solver_contacts[i];
            c.friction = friction;
            self.solver_contacts[i] = c;
        }
    }

    /// Restitution coefficient of contact `i`, or `None` out of range.
    pub fn solver_contact_restitution(&self, i: usize) -> (r: Option<i64>)
        ensures
            i < self.contacts().len() ==> r == Some(self.contacts()[i as int].restitution),
            i >= self.contacts().len() ==> r is None,
    {
        if i < self.solver_contacts.len() {
            Some(self.solver_contacts[i].restitution)
        } else {
            None
        }
    }

    /// Replaces the restitution coefficient of contact `i`; out of range, a
    /// no-op.
    pub fn set_solver_contact_restitution(&mut self, i: usize, restitution: i64)
        ensures
            Self::same_except_contacts(*old(self), *final(self)),
            i < old(self).contacts().len() ==> final(self).contacts() == old(
                self,
            ).contacts().update(
                i as int,
                (SolverContact { restitution, ..old(self).contacts()[i as int] }),
            ),
            i >= old(self).contacts().len() ==> *final(self) == *old(self),
    {
        if i < self.solver_contacts.len() {
            let mut c = self.solver_contacts[i];
            c.restitution = restitution;
            self.solver_contacts[i] = c;
        }
    }

    /// Target tangential velocity of contact `i`, or `None` out of range.
    pub fn solver_contact_tangent_velocity(&self, i: usize) -> (r: Option<RawVector>)
        ensures
            i < self.contacts().len() ==> r == Some(self.contacts()[i as int].tangent_velocity),
            i >= self.contacts().len() ==> r is None,
    {
        if i < self.solver_contacts.len() {
            Some(self.solver_contacts[i].tangent_velocity)
        } else {
            None
        }
    }

    /// Replaces the target tangential velocity of contact `i`; out of range,
    /// a no-op.
    pub fn set_solver_contact_tangent_velocity(&mut self, i: usize, vel: &RawVector)
        ensures
            Self::same_except_contacts(*old(self), *final(self)),
            i < old(self).contacts().len() ==> final(self).contacts() == old(
                self,
            ).contacts().update(
                i as int,
                (SolverContact { tangent_velocity: *vel, ..old(self).contacts()[i as int] }),
            ),
            i >= old(self).contacts().len() ==> *final(self) == *old(self),
    {
        if i < self.solver_contacts.len() {
            let mut c = self.solver_contacts[i];
            c.tangent_velocity = *vel;
            self.solver_contacts[i] = c;
        }
    }

    /// Normal warm-start impulse of contact `i`, or `None` out of range.
    pub fn solver_contact_warmstart_impulse(&self, i: usize) -> (r: Option<i64>)
        ensures
            i < self.contacts().len() ==> r == Some(self.contacts()[i as int].warmstart_impulse),
            i >= self.contacts().len() ==> r is None,
    {
        if i < self.solver_contacts.len() {
            Some(self.solver_contacts[i].warmstart_impulse)
        } else {
            None
        }
    }

    /// Replaces the normal warm-start impulse of contact `i`; out of range, a
    /// no-op.
    pub fn set_solver_contact_warmstart_impulse(&mut self, i: usize, impulse: i64)
        ensures
            Self::same_except_contacts(*old(self), *final(self)),
            i < old(self).contacts().len() ==> final(self).contacts() == old(
                self,
            ).contacts().update(
                i as int,
                (SolverContact { warmstart_impulse: impulse, ..old(self).contacts()[i as int] }),
            ),
            i >= old(self).contacts().len() ==> *final(self) == *old(self),
    {
        if i < self.solver_contacts.len() {
            let mut c = self.solver_contacts[i];
            c.warmstart_impulse = impulse;
            self.solver_contacts[i] = c;
        }
    }

    /// Tangential warm-start impulse of contact `i`, or `None` out of range.
    pub fn solver_contact_warmstart_tangent_impulse(&self, i: usize) -> (r: Option<i64>)
        ensures
            i < self.contacts().len() ==> r == Some(
                self.contacts()[i as int].warmstart_tangent_impulse,
            ),
            i >= self.contacts().len() ==> r is None,
    {
        if i < self.solver_contacts.len() {
            Some(self.solver_contacts[i].warmstart_tangent_impulse)
        } else {
            None
        }
    }

    /// Replaces the tangential warm-start impulse of contact `i`; out of
    /// range, a no-op.
    pub fn set_solver_contact_warmstart_tangent_impulse(&mut self, i: usize, impulse: i64)
        ensures
            Self::same_except_contacts(*old(self), *final(self)),
            i < old(self).contacts().len() ==> final(self).contacts() == old(
                self,
            ).contacts().update(
                i as int,
                (SolverContact {
                    warmstart_tangent_impulse: impulse,
                    ..old(self).contacts()[i as int]
                }),
            ),
            i >= old(self).contacts().len() ==> *final(self) == *old(self),
    {
        if i < self.solver_contacts.len() {
            let mut c = self.solver_contacts[i];
            c.warmstart_tangent_impulse = impulse;
            self.solver_contacts[i] = c;
        }
    }

    /// Twist warm-start impulse of contact `i`, or `None` out of range.
    pub fn solver_contact_warmstart_twist_impulse(&self, i: usize) -> (r: Option<i64>)
        ensures
            i < self.contacts().len() ==> r == Some(
                self.contacts()[i as int].warmstart_twist_impulse,
            ),
            i >= self.contacts().len() ==> r is None,
    {
        if i < self.solver_contacts.len() {
            Some(self.solver_contacts[i].warmstart_twist_impulse)
        } else {
            None
        }
    }

    /// Replaces the twist warm-start impulse of contact `i`; out of range, a
    /// no-op.
    pub fn set_solver_contact_warmstart_twist_impulse(&mut self, i: usize, impulse: i64)
        ensures
            Self::same_except_contacts(*old(self), *final(self)),
            i < old(self).contacts().len() ==> final(self).contacts() == old(
                self,
            ).contacts().update(
                i as int,
                (SolverContact {
                    warmstart_twist_impulse: impulse,
                    ..old(self).contacts()[i as int]
                }),
            ),
            i >= old(self).contacts().len() ==> *final(self) == *old(self),
    {
        if i < self.solver_contacts.len() {
            let mut c = self.solver_contacts[i];
            c.warmstart_twist_impulse = impulse;
            self.solver_contacts[i] = c;
        }
    }

    /// Whether contact `i` first appeared this step, or `None` out of range.
    pub fn solver_contact_is_new(&self, i: usize) -> (r: Option<bool>)
        ensures
            i < self.contacts().len() ==> r == Some(self.contacts()[i as int].is_new),
            i >= self.contacts().len() ==> r is None,
    {
        if i < self.solver_contacts.len() {
            Some(self.solver_contacts[i].is_new)
        } else {
            None
        }
    }

    /// Replaces the "new this step" flag of contact `i`; out of range, a
    /// no-op.
    pub fn set_solver_contact_is_new(&mut self, i: usize, is_new: bool)
        ensures
            Self::same_except_contacts(*old(self), *final(self)),
            i < old(self).contacts().len() ==> final(self).contacts() == old(
                self,
            ).contacts().update(
                i as int,
                (SolverContact { is_new, ..old(self).contacts()[i as int] }),
            ),
            i >= old(self).contacts().len() ==> *final(self) == *old(self),
    {
        if i < self.solver_contacts.len() {
            let mut c = self.solver_contacts[i];
            c.is_new = is_new;
            self.solver_contacts[i] = c;
        }
    }

    /// Read-only view of the pair's geometric manifold.
    pub fn contact_manifold(&self) -> (r: RawContactManifold)
        ensures
            r == self.manifold,
    {
        self.manifold
    }

    /// Every solver contact of the pair has strictly positive separation;
    /// vacuously true without contacts.
    pub open spec fn spec_all_contacts_separated(&self) -> bool {
        forall|j: int| 0 <= j < self.contacts().len() ==> self.contacts()[j].dist > 0
    }

    /// What this step's geometry tells the one-way-platform state machine,
    /// given the platform's allowed normal and the cosine of its tolerance
    /// half-angle (both in fixed-point units).
    pub open spec fn spec_step_observation(
        &self,
        allowed_local_n1: RawVector,
        allowed_angle_cos: i64,
    ) -> StepObservation {
        StepObservation {
            contact_is_ok: self.manifold.local_n1.spec_dot(allowed_local_n1)
                >= allowed_angle_cos * FIXED_POINT_SCALE,
            normal_is_degenerate: self.manifold.local_n1.spec_norm_squared()
                <= NORMAL_DEGENERACY_THRESHOLD,
            all_contacts_separated: self.spec_all_contacts_separated(),
            contacts_empty: self.contacts().len() == 0,
        }
    }

    fn all_solver_contacts_separated(&self) -> (r: bool)
        ensures
            r == self.spec_all_contacts_separated(),
    {
        let mut j: usize = 0;
        while j < self.solver_contacts.len()
            invariant
                j <= self.solver_contacts.len(),
                forall|k: int| 0 <= k < j ==> self.solver_contacts@[k].dist > 0,
            decreases self.solver_contacts.len() - j,
        {
            if self.solver_contacts[j].dist <= 0 {
                assert(self.contacts()[j as int].dist <= 0);
                return false;
            }
            j += 1;
        }
        true
    }

    /// Makes the pair behave as a one-way platform: contacts are solid only
    /// when they approach from within the allowed cone around
    /// `allowed_local_n1` (the platform's outward normal in the local space
    /// of the pair's first collider). `allowed_angle_cos` is the cosine of
    /// the cone's half-angle, in fixed-point units, so it lies within
    /// `FIXED_POINT_SCALE` of zero.
    ///
    /// One step of the state machine of [`crate::oneway`] runs on the pair:
    /// the classification is read from the pair's user-data word, the step's
    /// geometry is observed, the surviving contacts are kept or the whole
    /// sequence cleared, and the next classification is written back. A word
    /// this filter never writes is left out by the precondition, as the
    /// classification is the word's only meaning while this filter owns it.
    pub fn update_as_oneway_platform(&mut self, allowed_local_n1: &RawVector, allowed_angle_cos: i64)
        requires
            old(self).manifold.local_n1.bounded(),
            allowed_local_n1.bounded(),
            -FIXED_POINT_SCALE <= allowed_angle_cos <= FIXED_POINT_SCALE,
            spec_word_state(old(self).user_data) is Some,
        ensures
            Self::same_except_contacts_and_user_data(*old(self), *final(self)),
            ({
                let obs = old(self).spec_step_observation(*allowed_local_n1, allowed_angle_cos);
                let step = spec_oneway_step(spec_word_state(old(self).user_data).unwrap(), obs);
                &&& final(self).user_data == spec_state_word(step.0)
                &&& step.1 ==> final(self).contacts() == old(self).contacts()
                &&& !step.1 ==> final(self).contacts() == Seq::<SolverContact>::empty()
            }),
    {
        let contact_is_ok = self.manifold.local_n1.dot(allowed_local_n1) >= allowed_angle_cos
            * FIXED_POINT_SCALE;
        let state = word_state(self.user_data).unwrap();
        match state {
            OneWayState::Unknown => {
                if contact_is_ok {
                    // The contact normal is close enough to the allowed one.
                    self.user_data = state_word(OneWayState::Allowed);
                } else {
                    // Wrong side: discard the contacts and forbid further
                    // ones — unless the normal is so short that the solids
                    // are exactly touching at one point and its direction
                    // means nothing; then stay undecided until a
                    // less-degenerate frame.
                    self.solver_contacts.clear();
                    if self.manifold.local_n1.norm_squared() > NORMAL_DEGENERACY_THRESHOLD {
                        self.user_data = state_word(OneWayState::Forbidden);
                    }
                }
            },
            OneWayState::Forbidden => {
                // Keep forbidding contacts until all of them are
                // non-penetrating again; only then may a well-aligned normal
                // turn them back on, so that a solid embedded from the wrong
                // side is not popped through the platform.
                if contact_is_ok && self.all_solver_contacts_separated() {
                    self.user_data = state_word(OneWayState::Allowed);
                } else {
                    self.solver_contacts.clear();
                }
            },
            OneWayState::Allowed => {
                // All contacts stay on; the classification becomes uncertain
                // again once the pair no longer has any contact.
                if self.num_solver_contacts() == 0 {
                    self.user_data = state_word(OneWayState::Unknown);
                }
            },
        }
    }
}

} // verus!
