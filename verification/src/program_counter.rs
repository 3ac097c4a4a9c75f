use vstd::prelude::*;
use crate::memory::PROGRAM_START;

verus! {

/// The address of the currently executing instruction.  It starts at the
/// program start address and never drops below it; instructions are two
/// bytes, so it moves in steps of two.
pub struct ProgramCounter {
    ptr: u16,
}

impl View for ProgramCounter {
    type V = u16;

    closed spec fn view(&self) -> u16 {
        self.ptr
    }
}

impl ProgramCounter {
    pub open spec fn wf(&self) -> bool {
        self@ >= PROGRAM_START
    }

    pub fn new() -> (r: Self)
        ensures
            r@ == PROGRAM_START,
            r.wf(),
    {
        Self { ptr: PROGRAM_START }
    }

    pub fn address(&self) -> (r: u16)
        ensures
            r == self@,
    {
        self.ptr
    }

    /// The address of the next instruction, without moving there.
    pub fn peek(&self) -> (r: u16)
        requires
            self@ + 2 <= u16::MAX,
        ensures
            r == self@ + 2,
    {
        self.ptr + 2
    }

    /// Steps over the instruction just executed.
    pub fn increment(&mut self)
        requires
            old(self)@ + 2 <= u16::MAX,
        ensures
            final(self)@ == old(self)@ + 2,
    {
        self.ptr += 2;
    }

    /// Steps over the instruction just executed and the one after it, for a
    /// taken conditional skip.
    pub fn skip_instruction(&mut self)
        requires
            old(self)@ + 4 <= u16::MAX,
        ensures
            final(self)@ == old(self)@ + 4,
    {
        self.ptr += 4;
    }

    /// Jumps to `address`, which must not lie below the program start.
    pub fn set_to_address(&mut self, address: u16)
        requires
            address >= PROGRAM_START,
        ensures
            final(self)@ == address,
            final(self).wf(),
    {
        self.ptr = address;
    }
}

} // verus!
