use vstd::prelude::*;

verus! {

pub type InstructionData = [u8; 64];

pub type InstructionDataOffset = [u8; 2];

pub type AccountIndices = [u8; 8];

pub type SignerBumps = [u8; 4];

} // verus!
