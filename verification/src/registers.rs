//! The register file: sixteen general 8-bit data registers (`V0`..`VF`,
//! where `VF` doubles as the carry/borrow/collision flag), the 16-bit `I`
//! address register, and the two 8-bit timer registers.

use vstd::prelude::*;

use crate::VmError;

verus! {

pub struct Registers {
    pub data: Vec<u8>,
    pub i_register: u16,
    pub delay_timer: u8,
    pub sound_timer: u8,
}

impl Registers {
    /// The sixteen general registers, `V0` first.
    pub open spec fn regs(&self) -> Seq<u8> {
        self.data@
    }

    /// Well-formedness: exactly sixteen general registers.
    pub open spec fn wf(&self) -> bool {
        self.data@.len() == 16
    }

    /// A fresh register file, fully zeroed.
    pub fn new() -> (r: Registers)
        ensures
            r.wf(),
            r.regs() =~= Seq::new(16, |i: int| 0u8),
            r.i_register == 0,
            r.delay_timer == 0,
            r.sound_timer == 0,
    {
        let mut data: Vec<u8> = Vec::new();
        let mut k: usize = 0;
        while k < 16
            invariant
                k <= 16,
                data@.len() == k,
                forall|i: int| 0 <= i < k ==> data@[i] == 0u8,
            decreases 16 - k,
        {
            data.push(0u8);
            k = k + 1;
        }
        Registers { data, i_register: 0, delay_timer: 0, sound_timer: 0 }
    }

    /// Read general register `register`.
    pub fn read_data_register(&self, register: u8) -> (r: u8)
        requires
            self.wf(),
            register < 16,
        ensures
            r == self.regs()[register as int],
    {
        self.data[register as usize]
    }

    /// Write `data` into general register `register`; no other state changes.
    pub fn write_data_register(&mut self, register: u8, data: u8)
        requires
            old(self).wf(),
            register < 16,
        ensures
            final(self).wf(),
            final(self).regs() == old(self).regs().update(register as int, data),
            final(self).i_register == old(self).i_register,
            final(self).delay_timer == old(self).delay_timer,
            final(self).sound_timer == old(self).sound_timer,
    {
        self.data.set(register as usize, data);
    }

    /// A register index is valid exactly when it lies in `[0, 15]`.
    pub fn validate_data_register(register: u8) -> (r: Result<(), VmError>)
        ensures
            r is Ok <==> register < 16,
            r is Err ==> r == Result::<(), VmError>::Err(VmError::InvalidRegisterIndex),
    {
        if register < 16 {
            Ok(())
        } else {
            Err(VmError::InvalidRegisterIndex)
        }
    }
}

} // verus!
