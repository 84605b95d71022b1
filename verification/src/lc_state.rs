//! Lifecycle states and their redundant on-wire register encoding.

use vstd::prelude::*;

verus! {

/// The redundant register encoding replicates a state's 5-bit canonical
/// value six times across the low 30 bits of the 32-bit state register, so
/// that single-bit corruption of the register word is detectable.
pub const LC_STATE_REPLICATION: u32 = 0x0210_8421;

/// A device lifecycle state, as reported by the lifecycle controller's
/// state register.
#[derive(Clone, Copy, Debug, PartialEq, Eq, Structural)]
pub enum LcState {
    Raw,
    TestUnlocked0,
    TestLocked0,
    TestUnlocked1,
    Dev,
    Prod,
    ProdEnd,
    Rma,
    Scrap,
}

impl LcState {
    /// The canonical 5-bit value of the state.
    pub open spec fn spec_canonical_value(self) -> u32 {
        match self {
            LcState::Raw => 0,
            LcState::TestUnlocked0 => 1,
            LcState::TestLocked0 => 2,
            LcState::TestUnlocked1 => 3,
            LcState::Dev => 16,
            LcState::Prod => 17,
            LcState::ProdEnd => 18,
            LcState::Rma => 19,
            LcState::Scrap => 20,
        }
    }

    pub fn canonical_value(self) -> (r: u32)
        ensures
            r == self.spec_canonical_value(),
    {
        match self {
            LcState::Raw => 0,
            LcState::TestUnlocked0 => 1,
            LcState::TestLocked0 => 2,
            LcState::TestUnlocked1 => 3,
            LcState::Dev => 16,
            LcState::Prod => 17,
            LcState::ProdEnd => 18,
            LcState::Rma => 19,
            LcState::Scrap => 20,
        }
    }

    /// The error-detecting value the state register holds for this state.
    pub open spec fn spec_redundant_encoding(self) -> u32 {
        (self.spec_canonical_value() * LC_STATE_REPLICATION) as u32
    }

    pub fn redundant_encoding(self) -> (r: u32)
        ensures
            r == self.spec_redundant_encoding(),
    {
        let v = self.canonical_value();
        assert(v <= 20);
        v * LC_STATE_REPLICATION
    }

    /// Decode a state-register word; `None` when the word is the redundant
    /// encoding of no supported state.
    pub fn decode_redundant(word: u32) -> (r: Option<LcState>)
        ensures
            (match r {
                Some(s) => word == s.spec_redundant_encoding(),
                None => forall|s: LcState| word != s.spec_redundant_encoding(),
            }),
    {
        if word == LcState::Raw.redundant_encoding() {
            Some(LcState::Raw)
        } else if word == LcState::TestUnlocked0.redundant_encoding() {
            Some(LcState::TestUnlocked0)
        } else if word == LcState::TestLocked0.redundant_encoding() {
            Some(LcState::TestLocked0)
        } else if word == LcState::TestUnlocked1.redundant_encoding() {
            Some(LcState::TestUnlocked1)
        } else if word == LcState::Dev.redundant_encoding() {
            Some(LcState::Dev)
        } else if word == LcState::Prod.redundant_encoding() {
            Some(LcState::Prod)
        } else if word == LcState::ProdEnd.redundant_encoding() {
            Some(LcState::ProdEnd)
        } else if word == LcState::Rma.redundant_encoding() {
            Some(LcState::Rma)
        } else if word == LcState::Scrap.redundant_encoding() {
            Some(LcState::Scrap)
        } else {
            None
        }
    }
}

/// The redundant encoding tells every pair of supported states apart.
pub proof fn lemma_redundant_encoding_injective(a: LcState, b: LcState)
    ensures
        a.spec_redundant_encoding() == b.spec_redundant_encoding() ==> a == b,
{
}

} // verus!
