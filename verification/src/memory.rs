use vstd::prelude::*;
use vstd::slice::slice_subrange;

verus! {

/// The machine owns a flat store of exactly 4096 bytes; every read and
/// write must stay inside it.
pub const MEMORY_SIZE: usize = 4096;

/// Programs are loaded, and start executing, at this address.
pub const PROGRAM_START: u16 = 0x200;

/// The built-in hexadecimal font: 16 glyphs of 5 bytes each, preloaded at
/// address 0x0, so that the glyph for digit `d` starts at address `d * 5`.
pub open spec fn font() -> Seq<u8> {
    seq![
        0xF0u8, 0x90, 0x90, 0x90, 0xF0, // 0
        0x20, 0x60, 0x20, 0x20, 0x70, // 1
        0xF0, 0x10, 0xF0, 0x80, 0xF0, // 2
        0xF0, 0x10, 0xF0, 0x10, 0xF0, // 3
        0x90, 0x90, 0xF0, 0x10, 0x10, // 4
        0xF0, 0x80, 0xF0, 0x10, 0xF0, // 5
        0xF0, 0x80, 0xF0, 0x90, 0xF0, // 6
        0xF0, 0x10, 0x20, 0x40, 0x40, // 7
        0xF0, 0x90, 0xF0, 0x90, 0xF0, // 8
        0xF0, 0x90, 0xF0, 0x10, 0xF0, // 9
        0xF0, 0x90, 0xF0, 0x90, 0x90, // A
        0xE0, 0x90, 0xE0, 0x90, 0xE0, // B
        0xF0, 0x80, 0x80, 0x80, 0xF0, // C
        0xE0, 0x90, 0x90, 0x90, 0xE0, // D
        0xF0, 0x80, 0xF0, 0x80, 0xF0, // E
        0xF0, 0x80, 0xF0, 0x80, 0x80, // F
    ]
}

/// The flat addressable byte store: the font at 0x0, the loaded program
/// from 0x200 on, and whatever the program stores afterwards.
pub struct Memory {
    data: Vec<u8>,
}

impl View for Memory {
    type V = Seq<u8>;

    closed spec fn view(&self) -> Seq<u8> {
        self.data@
    }
}

impl Memory {
    pub open spec fn wf(&self) -> bool {
        self@.len() == MEMORY_SIZE
    }

    /// A fresh memory image: the font in its place, every other byte zero.
    pub fn new() -> (r: Self)
        ensures
            r.wf(),
            forall|i: int| 0 <= i < font().len() ==> r@[i] == font()[i],
            forall|i: int| font().len() <= i < MEMORY_SIZE ==> r@[i] == 0,
    {
        let mut data: Vec<u8> = Vec::new();
        let mut i: usize = 0;
        while i < MEMORY_SIZE
            invariant
                i == data@.len(),
                i <= MEMORY_SIZE,
                forall|j: int| 0 <= j < i ==> data@[j] == 0,
            decreases MEMORY_SIZE - i,
        {
            data.push(0);
            i = i + 1;
        }
        let mut new_memory = Self { data };
        new_memory.initialize_sprites();
        new_memory
    }

    /// The `count` bytes starting at `start`; the range must lie inside the
    /// store.
    pub fn read_bytes(&self, start: u16, count: u16) -> (r: &[u8])
        requires
            self.wf(),
            start as int + count as int <= MEMORY_SIZE,
        ensures
            r@ == self@.subrange(start as int, start as int + count as int),
    {
        let start_address = start as usize;
        let end_address = start_address + count as usize;
        slice_subrange(self.data.as_slice(), start_address, end_address)
    }

    /// Overwrites the bytes starting at `start` with `replacement`, leaving
    /// every other byte as it was; the range must lie inside the store.
    pub fn write_bytes(&mut self, start: u16, replacement: &[u8])
        requires
            old(self).wf(),
            start as int + replacement@.len() <= MEMORY_SIZE,
        ensures
            final(self).wf(),
            forall|i: int|
                start <= i < start as int + replacement@.len()
                    ==> final(self)@[i] == replacement@[i - start],
            forall|i: int|
                0 <= i < MEMORY_SIZE && !(start <= i < start as int + replacement@.len())
                    ==> final(self)@[i] == old(self)@[i],
    {
        let start_address = start as usize;
        let mut idx: usize = 0;
        while idx < replacement.len()
            invariant
                self.wf(),
                start_address == start as int,
                start_address + replacement@.len() <= MEMORY_SIZE,
                idx <= replacement@.len(),
                forall|i: int|
                    start_address <= i < start_address + idx
                        ==> self@[i] == replacement@[i - start_address],
                forall|i: int|
                    0 <= i < MEMORY_SIZE && !(start_address <= i < start_address + idx)
                        ==> self@[i] == old(self)@[i],
            decreases replacement@.len() - idx,
        {
            self.data[start_address + idx] = replacement[idx];
            idx = idx + 1;
        }
    }

    /// Writes the font at address 0x0.
    fn initialize_sprites(&mut self)
        requires
            old(self).wf(),
        ensures
            final(self).wf(),
            forall|i: int| 0 <= i < font().len() ==> final(self)@[i] == font()[i],
            forall|i: int| font().len() <= i < MEMORY_SIZE ==> final(self)@[i] == old(self)@[i],
    {
        let sprites: [u8; 80] = [
            0xF0, 0x90, 0x90, 0x90, 0xF0, // 0
            0x20, 0x60, 0x20, 0x20, 0x70, // 1
            0xF0, 0x10, 0xF0, 0x80, 0xF0, // 2
            0xF0, 0x10, 0xF0, 0x10, 0xF0, // 3
            0x90, 0x90, 0xF0, 0x10, 0x10, // 4
            0xF0, 0x80, 0xF0, 0x10, 0xF0, // 5
            0xF0, 0x80, 0xF0, 0x90, 0xF0, // 6
            0xF0, 0x10, 0x20, 0x40, 0x40, // 7
            0xF0, 0x90, 0xF0, 0x90, 0xF0, // 8
            0xF0, 0x90, 0xF0, 0x10, 0xF0, // 9
            0xF0, 0x90, 0xF0, 0x90, 0x90, // A
            0xE0, 0x90, 0xE0, 0x90, 0xE0, // B
            0xF0, 0x80, 0x80, 0x80, 0xF0, // C
            0xE0, 0x90, 0x90, 0x90, 0xE0, // D
            0xF0, 0x80, 0xF0, 0x80, 0xF0, // E
            0xF0, 0x80, 0xF0, 0x80, 0x80, // F
        ];
        proof {
            assert(sprites@ =~= font());
        }
        self.write_bytes(0x0, sprites.as_slice());
    }

    /// Loads a program image verbatim at the program start address.
    pub fn load_program(&mut self, program: &[u8])
        requires
            old(self).wf(),
            PROGRAM_START as int + program@.len() <= MEMORY_SIZE,
        ensures
            final(self).wf(),
            forall|i: int|
                PROGRAM_START <= i < PROGRAM_START as int + program@.len() ==> final(self)@[i]
                    == program@[i - PROGRAM_START],
            forall|i: int|
                0 <= i < MEMORY_SIZE && !(PROGRAM_START <= i < PROGRAM_START as int
                    + program@.len()) ==> final(self)@[i] == old(self)@[i],
    {
        self.write_bytes(PROGRAM_START, program);
    }
}

} // verus!
