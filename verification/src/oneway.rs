//! The one-way-platform state machine: a Mealy-style, per-pair classification
//! persisted across simulation steps in the pair's user-data word. The
//! transition logic is pure and independent of the word encoding; the
//! contact-modification view applies it each step.
use vstd::prelude::*;

verus! {

/// Classification of a pair by the one-way-platform filter.
#[derive(Clone, Copy, PartialEq, Eq, Structural, Debug)]
pub enum OneWayState {
    /// Nothing decided yet. A freshly-touching pair starts here: the engine
    /// hands a fresh, zeroed user-data word to a pair that first reports
    /// contacts.
    Unknown,
    /// Contacts approach from the allowed side; they are kept.
    Allowed,
    /// Contacts approach from the wrong side; they are discarded until the
    /// pair fully separates again.
    Forbidden,
}

/// The word stored in the pair's user data for each state. `Unknown` is zero
/// so that a fresh pair reads back as `Unknown`.
pub open spec fn spec_state_word(state: OneWayState) -> u32 {
    match state {
        OneWayState::Unknown => 0,
        OneWayState::Allowed => 1,
        OneWayState::Forbidden => 2,
    }
}

/// The state a user-data word decodes to; `None` for a word this filter never
/// writes.
pub open spec fn spec_word_state(word: u32) -> Option<OneWayState> {
    if word == 0 {
        Some(OneWayState::Unknown)
    } else if word == 1 {
        Some(OneWayState::Allowed)
    } else if word == 2 {
        Some(OneWayState::Forbidden)
    } else {
        None
    }
}

/// Encodes a state as its user-data word.
pub fn state_word(state: OneWayState) -> (r: u32)
    ensures
        r == spec_state_word(state),
{
    match state {
        OneWayState::Unknown => 0,
        OneWayState::Allowed => 1,
        OneWayState::Forbidden => 2,
    }
}

/// Decodes a user-data word back into a state.
pub fn word_state(word: u32) -> (r: Option<OneWayState>)
    ensures
        r == spec_word_state(word),
{
    if word == 0 {
        Some(OneWayState::Unknown)
    } else if word == 1 {
        Some(OneWayState::Allowed)
    } else if word == 2 {
        Some(OneWayState::Forbidden)
    } else {
        None
    }
}

/// Largest squared norm (in squared fixed-point units, so 0.1) at which the
/// contact normal counts as degenerate: the solids are exactly touching at
/// one point and the normal's direction cannot be trusted.
pub const NORMAL_DEGENERACY_THRESHOLD: i64 = 100_000_000_000;

/// The geometric observations one step feeds to the state machine.
#[derive(Clone, Copy, PartialEq, Eq, Structural, Debug)]
pub struct StepObservation {
    /// The manifold's contact normal lies within the allowed cone: its dot
    /// product with the allowed direction reaches the cosine of the
    /// tolerance half-angle.
    pub contact_is_ok: bool,
    /// The contact normal is near zero (solids exactly touching at one
    /// point), so its direction cannot be trusted this step.
    pub normal_is_degenerate: bool,
    /// Every solver contact of the pair has a strictly positive separation
    /// distance (no penetration). Vacuously true without contacts.
    pub all_contacts_separated: bool,
    /// The pair has no solver contacts this step.
    pub contacts_empty: bool,
}

/// One step of the one-way-platform state machine: the next state, and
/// whether this step's solver contacts are kept (`false`: cleared).
///
/// A degenerate rejected normal deliberately leaves the state `Unknown`
/// rather than committing to `Forbidden`, and leaving `Forbidden` requires
/// every remaining contact to be non-penetrating, so that a solid embedded in
/// the platform from the wrong side is not popped out.
pub open spec fn spec_oneway_step(state: OneWayState, obs: StepObservation) -> (OneWayState, bool) {
    match state {
        OneWayState::Unknown => {
            if obs.contact_is_ok {
                (OneWayState::Allowed, true)
            } else if obs.normal_is_degenerate {
                (OneWayState::Unknown, false)
            } else {
                (OneWayState::Forbidden, false)
            }
        },
        OneWayState::Forbidden => {
            if obs.contact_is_ok && obs.all_contacts_separated {
                (OneWayState::Allowed, true)
            } else {
                (OneWayState::Forbidden, false)
            }
        },
        OneWayState::Allowed => {
            if obs.contacts_empty {
                (OneWayState::Unknown, true)
            } else {
                (OneWayState::Allowed, true)
            }
        },
    }
}

/// Executable form of one state-machine step.
pub fn oneway_step(state: OneWayState, obs: StepObservation) -> (r: (OneWayState, bool))
    ensures
        r == spec_oneway_step(state, obs),
{
    match state {
        OneWayState::Unknown => {
            if obs.contact_is_ok {
                (OneWayState::Allowed, true)
            } else if obs.normal_is_degenerate {
                (OneWayState::Unknown, false)
            } else {
                (OneWayState::Forbidden, false)
            }
        },
        OneWayState::Forbidden => {
            if obs.contact_is_ok && obs.all_contacts_separated {
                (OneWayState::Allowed, true)
            } else {
                (OneWayState::Forbidden, false)
            }
        },
        OneWayState::Allowed => {
            if obs.contacts_empty {
                (OneWayState::Unknown, true)
            } else {
                (OneWayState::Allowed, true)
            }
        },
    }
}

/// The state reached after feeding a sequence of step observations to the
/// machine, in order.
pub open spec fn spec_run(state: OneWayState, steps: Seq<StepObservation>) -> OneWayState
    decreases steps.len(),
{
    if steps.len() == 0 {
        state
    } else {
        spec_run(spec_oneway_step(state, steps[0]).0, steps.drop_first())
    }
}

/// Law: a single step from `Allowed` with contacts still present keeps the
/// contacts and stays `Allowed`, whatever the step's geometry says.
pub proof fn lemma_allowed_state_stable(obs: StepObservation)
    requires
        !obs.contacts_empty,
    ensures
        spec_oneway_step(OneWayState::Allowed, obs) == (OneWayState::Allowed, true),
{
}

/// Law: once `Allowed`, any run of steps in which the pair keeps reporting
/// contacts leaves the state `Allowed`; no step of such a run clears the
/// contacts.
pub proof fn lemma_allowed_run_stable(steps: Seq<StepObservation>)
    requires
        forall|i: int| 0 <= i < steps.len() ==> !steps[i].contacts_empty,
    ensures
        spec_run(OneWayState::Allowed, steps) == OneWayState::Allowed,
        forall|i: int| 0 <= i < steps.len() ==> (#[trigger] spec_oneway_step(
            OneWayState::Allowed,
            steps[i],
        )).1,
    decreases steps.len(),
{
    if steps.len() > 0 {
        lemma_allowed_state_stable(steps[0]);
        lemma_allowed_run_stable(steps.drop_first());
        assert forall|i: int| 0 <= i < steps.len() implies (#[trigger] spec_oneway_step(
            OneWayState::Allowed,
            steps[i],
        )).1 by {
            lemma_allowed_state_stable(steps[i]);
        }
    }
}

/// Law: a degenerate rejected normal never commits the pair: in `Unknown`
/// with `contact_is_ok` false and a near-zero normal, the contacts are
/// cleared but the state stays `Unknown` rather than turning `Forbidden`.
pub proof fn lemma_degenerate_normal_stays_unknown(obs: StepObservation)
    requires
        !obs.contact_is_ok,
        obs.normal_is_degenerate,
    ensures
        spec_oneway_step(OneWayState::Unknown, obs) == (OneWayState::Unknown, false),
{
}

/// Law: from `Forbidden`, an accepted normal together with every remaining
/// contact strictly separated recovers `Allowed` and keeps the contacts; on
/// any other observation the contacts are cleared and the state stays
/// `Forbidden`.
pub proof fn lemma_forbidden_recovery(obs: StepObservation)
    ensures
        obs.contact_is_ok && obs.all_contacts_separated ==> spec_oneway_step(
            OneWayState::Forbidden,
            obs,
        ) == (OneWayState::Allowed, true),
        !(obs.contact_is_ok && obs.all_contacts_separated) ==> spec_oneway_step(
            OneWayState::Forbidden,
            obs,
        ) == (OneWayState::Forbidden, false),
{
}

/// The word codec round-trips on every state, so the classification persisted
/// in the user-data word is read back unchanged next step.
pub proof fn lemma_state_word_round_trip(state: OneWayState)
    ensures
        spec_word_state(spec_state_word(state)) == Some(state),
{
}

} // verus!
