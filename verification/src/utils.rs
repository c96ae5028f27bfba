//! Handle codec: a pure, total, bidirectional mapping between an internal
//! (dense index, generation) pair and a single externally-stable integer.
use vstd::prelude::*;

verus! {

/// An externally-visible identifier for a body or collider: the dense arena
/// index in the low 32 bits, the generation counter in the high 32 bits.
/// Folding the generation in makes slot reuse observable from outside: the
/// recycled slot's occupant encodes to a different flat handle.
pub type FlatHandle = u64;

/// The internal identifier of a body or collider: a dense arena slot index
/// plus a generation counter that the store bumps each time a slot is reused.
#[derive(Clone, Copy, PartialEq, Eq, Structural, Debug)]
pub struct HandleParts {
    pub index: u32,
    pub generation: u32,
}

/// The flat-handle encoding: `index + generation * 2^32`.
pub open spec fn spec_flat_handle(id: HandleParts) -> u64 {
    (id.index + id.generation * 0x1_0000_0000) as u64
}

/// The flat-handle decoding: low 32 bits are the index, high 32 bits the
/// generation.
pub open spec fn spec_handle_parts(id: u64) -> HandleParts {
    HandleParts { index: (id % 0x1_0000_0000) as u32, generation: (id / 0x1_0000_0000) as u32 }
}

/// Encodes an internal handle as its flat form.
pub fn flat_handle(id: HandleParts) -> (r: FlatHandle)
    ensures
        r == spec_flat_handle(id),
{
    (id.index as u64) + (id.generation as u64) * 0x1_0000_0000
}

/// Decodes a flat handle back into its internal (index, generation) form.
pub fn handle(id: FlatHandle) -> (r: HandleParts)
    ensures
        r == spec_handle_parts(id),
{
    HandleParts { index: (id % 0x1_0000_0000) as u32, generation: (id / 0x1_0000_0000) as u32 }
}

/// Decoding inverts encoding: every internal handle survives the round trip
/// through its flat form unchanged.
pub proof fn lemma_flat_handle_round_trip(id: HandleParts)
    ensures
        spec_handle_parts(spec_flat_handle(id)) == id,
{
    let flat = spec_flat_handle(id);
    vstd::arithmetic::div_mod::lemma_fundamental_div_mod_converse(
        flat as int,
        0x1_0000_0000,
        id.generation as int,
        id.index as int,
    );
}

/// The encoding is injective: two internal handles with the same flat form
/// are the same handle. In particular, after a slot is reused under a new
/// generation, the new occupant's flat handle differs from the old one's.
pub proof fn lemma_flat_handle_injective(a: HandleParts, b: HandleParts)
    requires
        spec_flat_handle(a) == spec_flat_handle(b),
    ensures
        a == b,
{
    lemma_flat_handle_round_trip(a);
    lemma_flat_handle_round_trip(b);
}

} // verus!
