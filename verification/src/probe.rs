//! Which debug probe to use when the user has named none.

use vstd::prelude::*;

verus! {

/// Why no probe could be picked.
#[derive(Clone, Copy, Debug, PartialEq, Eq, Structural)]
pub enum ProbeError {
    /// No probe is attached.
    NoneFound,
    /// Several probes are attached, and nothing says which one is meant.
    MoreThanOne,
}

impl ProbeError {
    /// What went wrong, in words.
    pub open spec fn spec_message(self) -> Seq<char> {
        match self {
            ProbeError::NoneFound => "no probes found"@,
            ProbeError::MoreThanOne =>
                "more than one probe found; use --probe to specify which one to use"@,
        }
    }

    /// What went wrong, in words.
    pub fn message(self) -> (text: &'static str)
        ensures
            text@ == self.spec_message(),
    {
        match self {
            ProbeError::NoneFound => "no probes found",
            ProbeError::MoreThanOne =>
                "more than one probe found; use --probe to specify which one to use",
        }
    }
}

/// The probe to use out of `found` attached probes: the only one, or none.
pub open spec fn spec_pick_probe(found: usize) -> Result<usize, ProbeError> {
    if found == 0 {
        Err(ProbeError::NoneFound)
    } else if found == 1 {
        Ok(0)
    } else {
        Err(ProbeError::MoreThanOne)
    }
}

/// Picks the probe to use when `found` probes are attached and the user has
/// named none. A single probe is used, and the result is its index in the
/// list, which is 0. With no probe, or with more than one, none is picked.
#[verifier::when_used_as_spec(spec_pick_probe)]
pub fn pick_probe(found: usize) -> (picked: Result<usize, ProbeError>)
    ensures
        picked == spec_pick_probe(found),
        picked matches Ok(index) ==> index < found,
{
    match found {
        0 => Err(ProbeError::NoneFound),
        1 => Ok(0),
        _ => Err(ProbeError::MoreThanOne),
    }
}

} // verus!
