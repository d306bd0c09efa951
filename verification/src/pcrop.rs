//! Setting `PCROP_RDP`, so that the flash is mass erased when the protection
//! level goes from 1 to 0.

use vstd::prelude::*;
use crate::access::{Action, Event, Flow};
use crate::registers::{has_bits, set_bits, Register, PCROP_RDP_MASK};

verus! {

/// Setting `PCROP_RDP`, by the access that is pending.
#[derive(Clone, Copy, Debug, PartialEq, Eq, Structural)]
pub enum SetPcropRdp {
    /// `FLASH_PCROP1AER` is to be read.
    Read,
    /// The bit was found clear, and this word is to be written to
    /// `FLASH_PCROP1AER`.
    Write(u32),
}

impl SetPcropRdp {
    /// What holds of every state that the part reaches: a word that is to
    /// be written has `PCROP_RDP` set.
    pub open spec fn well_formed(self) -> bool {
        self matches SetPcropRdp::Write(word) ==> has_bits(word, PCROP_RDP_MASK)
    }

    /// The pending access.
    pub open spec fn spec_action(self) -> Action {
        match self {
            SetPcropRdp::Read => Action::Read(Register::Pcrop1aer),
            SetPcropRdp::Write(word) => Action::Write(Register::Pcrop1aer, word),
        }
    }

    /// Where the part stands after `event`. A word read with the bit set
    /// completes it at once; one with the bit clear is to be written back
    /// with the bit set and nothing else changed. The write completes it. A
    /// failure ends it. An event that cannot answer the pending access
    /// changes nothing.
    pub open spec fn spec_advance(self, event: Event) -> Flow<SetPcropRdp> {
        match (self, event) {
            (_, Event::Failed) => Flow::Abort,
            (SetPcropRdp::Read, Event::Value(pcrop1aer)) => if has_bits(pcrop1aer, PCROP_RDP_MASK) {
                Flow::Complete
            } else {
                Flow::Continue(SetPcropRdp::Write(set_bits(pcrop1aer, PCROP_RDP_MASK)))
            },
            (SetPcropRdp::Write(_), Event::Done) => Flow::Complete,
            _ => Flow::Continue(self),
        }
    }

    /// What `FLASH_PCROP1AER` holds once the part has run to completion on a
    /// register that held `before`: the word that the part writes, or
    /// `before` where it writes nothing.
    pub open spec fn settled(before: u32) -> u32 {
        match SetPcropRdp::Read.spec_advance(Event::Value(before)) {
            Flow::Continue(SetPcropRdp::Write(word)) => word,
            _ => before,
        }
    }

    /// What to say when the pending access has failed.
    pub open spec fn spec_failure(self) -> Seq<char> {
        match self {
            SetPcropRdp::Read => "failed to read FLASH_PCROP1AER"@,
            SetPcropRdp::Write(_) => "failed to write FLASH_PCROP1AER"@,
        }
    }

    /// The state in which the part begins.
    pub fn start() -> (state: SetPcropRdp)
        ensures
            state == SetPcropRdp::Read,
            state.well_formed(),
    {
        SetPcropRdp::Read
    }

    /// The access to make next.
    #[verifier::when_used_as_spec(spec_action)]
    pub fn action(self) -> (action: Action)
        ensures
            action == self.spec_action(),
    {
        match self {
            SetPcropRdp::Read => Action::Read(Register::Pcrop1aer),
            SetPcropRdp::Write(word) => Action::Write(Register::Pcrop1aer, word),
        }
    }

    /// Takes in how the pending access went.
    #[verifier::when_used_as_spec(spec_advance)]
    pub fn advance(self, event: Event) -> (flow: Flow<SetPcropRdp>)
        ensures
            flow == self.spec_advance(event),
            self.well_formed() ==> (flow matches Flow::Continue(next) ==> next.well_formed()),
    {
        match event {
            Event::Failed => Flow::Abort,
            Event::Value(pcrop1aer) => match self {
                SetPcropRdp::Read => if has_bits(pcrop1aer, PCROP_RDP_MASK) {
                    Flow::Complete
                } else {
                    Flow::Continue(SetPcropRdp::Write(set_bits(pcrop1aer, PCROP_RDP_MASK)))
                },
                SetPcropRdp::Write(_) => Flow::Continue(self),
            },
            Event::Done => match self {
                SetPcropRdp::Read => Flow::Continue(self),
                SetPcropRdp::Write(_) => Flow::Complete,
            },
            Event::Elapsed(_) => Flow::Continue(self),
        }
    }

    /// What to say when the pending access has failed.
    pub fn failure(self) -> (text: &'static str)
        ensures
            text@ == self.spec_failure(),
    {
        match self {
            SetPcropRdp::Read => "failed to read FLASH_PCROP1AER",
            SetPcropRdp::Write(_) => "failed to write FLASH_PCROP1AER",
        }
    }
}

/// Setting `PCROP_RDP` is idempotent. Once the part has run on a register
/// that held `before`, the register holds `before` with the bit set. Run
/// again on what the register then holds, the part reads, finds the bit set
/// and completes without a write, so that the register holds the same word
/// after the second run as after the first.
pub proof fn lemma_set_pcrop_rdp_idempotent(before: u32)
    ensures
        SetPcropRdp::settled(before) == set_bits(before, PCROP_RDP_MASK),
        SetPcropRdp::Read.spec_action() == Action::Read(Register::Pcrop1aer),
        SetPcropRdp::Read.spec_advance(Event::Value(SetPcropRdp::settled(before)))
            == Flow::<SetPcropRdp>::Complete,
        SetPcropRdp::settled(SetPcropRdp::settled(before)) == SetPcropRdp::settled(before),
{
    assert((before | 0x8000_0000u32) & 0x8000_0000u32 == 0x8000_0000u32) by (bit_vector);
    assert(before & 0x8000_0000u32 == 0x8000_0000u32 ==> before | 0x8000_0000u32 == before)
        by (bit_vector);
}

/// The one write that the part can make changes `PCROP_RDP` and no other
/// bit of the word that was read.
pub proof fn lemma_set_pcrop_rdp_keeps_other_bits(pcrop1aer: u32)
    ensures
        SetPcropRdp::settled(pcrop1aer) & PCROP_RDP_MASK == PCROP_RDP_MASK,
        SetPcropRdp::settled(pcrop1aer) & !PCROP_RDP_MASK == pcrop1aer & !PCROP_RDP_MASK,
{
    lemma_set_pcrop_rdp_idempotent(pcrop1aer);
    crate::registers::lemma_set_bits_keeps_other_bits(pcrop1aer, PCROP_RDP_MASK);
}

} // verus!
