//! Table translation through BX.
use vstd::prelude::*;

use crate::cpu::{Cpu, MEMORY_SIZE};
use crate::decoder::{decode_single, decoded, single, DecodeError};
use crate::instruction::{FillerInstruction, Instruction};

verus! {

/// Decodes XLAT (0xD7) at physical address `addr`.
pub fn decode_xlat(cpu: &mut Cpu, addr: &u32) -> (r: Result<Instruction, DecodeError>)
    requires
        old(cpu).wf(),
        *addr < MEMORY_SIZE,
    ensures
        r == single(old(cpu).memory@, *addr, 0xD7, Instruction::Xlat((FillerInstruction { length: 1 }))),
        decoded(*old(cpu), *final(cpu), r),
{
    decode_single(cpu, addr, 0xD7, Instruction::Xlat(FillerInstruction { length: 1 }))
}

} // verus!
