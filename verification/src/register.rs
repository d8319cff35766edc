//! Register file: eight general-purpose 32-bit unsigned slots, addressed
//! 0-7, all zero at machine start.

use vstd::prelude::*;
use vstd::pervasive::VecAdditionalExecFns;

verus! {

/// The register file of the machine: a fixed block of eight 32-bit words.
#[derive(Clone, Debug)]
pub struct Register {
    vec_registers: Vec<u32>,
}

impl Register {
    /// The registers' contents, by index.
    pub closed spec fn regs(&self) -> Seq<u32> {
        self.vec_registers@
    }

    /// Well-formedness: the register file always holds exactly eight slots.
    pub open spec fn wf(&self) -> bool {
        self.regs().len() == 8
    }

    /// A fresh register file with every slot zero.
    pub fn new() -> (r: Register)
        ensures
            r.wf(),
            r.regs() == Seq::new(8, |i: int| 0u32),
    {
        let mut vec_registers: Vec<u32> = Vec::new();
        let mut i: usize = 0;
        while i < 8
            invariant
                i <= 8,
                vec_registers@.len() == i,
                forall|j: int| 0 <= j < i ==> vec_registers@[j] == 0u32,
            decreases 8 - i,
        {
            vec_registers.push(0);
            i += 1;
        }
        let r = Register { vec_registers };
        proof {
            assert(r.regs() =~= Seq::new(8, |i: int| 0u32));
        }
        r
    }

    /// The value held by the register at index `register`.
    pub fn get_register_value(&self, register: usize) -> (r: u32)
        requires
            self.wf(),
            register < 8,
        ensures
            r == self.regs()[register as int],
    {
        self.vec_registers[register]
    }

    /// Store `value` into the register at index `register`.
    pub fn set_register_value(&mut self, register: usize, value: u32)
        requires
            old(self).wf(),
            register < 8,
        ensures
            final(self).wf(),
            final(self).regs() == old(self).regs().update(register as int, value),
    {
        self.vec_registers.set(register, value);
    }
}

} // verus!
