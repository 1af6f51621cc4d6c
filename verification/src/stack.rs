//! The call stack: a fixed-capacity LIFO store of sixteen 16-bit return
//! addresses.

use vstd::prelude::*;

use crate::VmError;

verus! {

pub struct Stack {
    data: Vec<u16>,
    pointer: usize,
}

impl Stack {
    /// The return addresses currently on the stack, oldest first.
    pub closed spec fn frames(&self) -> Seq<u16> {
        self.data@.take(self.pointer as int)
    }

    /// Well-formedness: sixteen slots, with the pointer inside `[0, 16]`.
    pub closed spec fn wf(&self) -> bool {
        self.data@.len() == 16 && self.pointer <= 16
    }

    /// A fresh, empty stack.
    pub fn new() -> (r: Stack)
        ensures
            r.wf(),
            r.frames() =~= Seq::<u16>::empty(),
    {
        let mut data: Vec<u16> = Vec::new();
        let mut k: usize = 0;
        while k < 16
            invariant
                k <= 16,
                data@.len() == k,
            decreases 16 - k,
        {
            data.push(0u16);
            k = k + 1;
        }
        Stack { data, pointer: 0 }
    }

    /// Push a return address. Succeeds exactly when fewer than sixteen frames
    /// are held; a seventeenth push without an intervening pop overflows.
    pub fn push(&mut self, data: u16) -> (r: Result<(), VmError>)
        requires
            old(self).wf(),
        ensures
            final(self).wf(),
            r is Ok <==> old(self).frames().len() < 16,
            r is Ok ==> final(self).frames() =~= old(self).frames().push(data),
            r is Err ==> r == Result::<(), VmError>::Err(VmError::StackOverflow)
                && final(self).frames() == old(self).frames(),
    {
        if self.pointer >= 16 {
            return Err(VmError::StackOverflow);
        }
        self.data.set(self.pointer, data);
        self.pointer = self.pointer + 1;
        Ok(())
    }

    /// Pop the most recently pushed return address. Succeeds exactly when the
    /// stack is nonempty.
    pub fn pop(&mut self) -> (r: Result<u16, VmError>)
        requires
            old(self).wf(),
        ensures
            final(self).wf(),
            r is Ok <==> old(self).frames().len() > 0,
            r is Ok ==> r == Result::<u16, VmError>::Ok(old(self).frames().last())
                && final(self).frames() =~= old(self).frames().drop_last(),
            r is Err ==> r == Result::<u16, VmError>::Err(VmError::StackUnderflow)
                && final(self).frames() == old(self).frames(),
    {
        if self.pointer == 0 {
            return Err(VmError::StackUnderflow);
        }
        let val = self.data[self.pointer - 1];
        self.pointer = self.pointer - 1;
        Ok(val)
    }
}

/// What well-formedness guarantees of the visible stack contents: never
/// more than sixteen frames.
pub proof fn lemma_stack_wf_bounds(s: &Stack)
    requires
        s.wf(),
    ensures
        s.frames().len() <= 16,
{
}

/// Stack round trip: pushing a frame onto any stack contents and popping
/// immediately yields that frame back and restores the contents.
pub proof fn lemma_stack_round_trip(frames: Seq<u16>, data: u16)
    ensures
        frames.push(data).last() == data,
        frames.push(data).drop_last() =~= frames,
{
}

} // verus!
