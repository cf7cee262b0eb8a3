use vstd::prelude::*;

verus! {

/// Size of the address space; every address is taken modulo this.
pub const MEMORY_SIZE: usize = 0x1000;

/// Address at which a program is loaded.
pub const PROGRAM_START: usize = 0x200;

/// Where the 10-row font starts; the 5-row font starts at 0.
pub const BIG_FONT_START: usize = 0x050;

/// Hexadecimal digits 0 to F, five rows of one byte each.
pub const FONT_5_5: [u8; 0x50] = [
    0xf0, 0x90, 0x90, 0x90, 0xf0, // 0
    0x20, 0x60, 0x20, 0x20, 0x70, // 1
    0xf0, 0x10, 0xf0, 0x80, 0xf0, // 2
    0xf0, 0x10, 0xf0, 0x10, 0xf0, // 3
    0x90, 0x90, 0xf0, 0x10, 0x10, // 4
    0xf0, 0x80, 0xf0, 0x10, 0xf0, // 5
    0xf0, 0x80, 0xf0, 0x90, 0xf0, // 6
    0xf0, 0x10, 0x20, 0x40, 0x40, // 7
    0xf0, 0x90, 0xf0, 0x90, 0xf0, // 8
    0xf0, 0x90, 0xf0, 0x10, 0xf0, // 9
    0xf0, 0x90, 0xf0, 0x90, 0x90, // A
    0xe0, 0x90, 0xe0, 0x90, 0xe0, // B
    0xf0, 0x80, 0x80, 0x80, 0xf0, // C
    0xe0, 0x90, 0x90, 0x90, 0xe0, // D
    0xf0, 0x80, 0xf0, 0x80, 0xf0, // E
    0xf0, 0x80, 0xf0, 0x80, 0x80, // F
];

/// Hexadecimal digits 0 to F, ten rows of one byte each.
pub const FONT_10_10: [u8; 0xA0] = [
    0x3C, 0x7E, 0xE7, 0xC3, 0xC3, 0xC3, 0xC3, 0xE7, 0x7E, 0x3C, // 0
    0x18, 0x38, 0x58, 0x18, 0x18, 0x18, 0x18, 0x18, 0x18, 0x3C, // 1
    0x3E, 0x7F, 0xC3, 0x06, 0x0C, 0x18, 0x30, 0x60, 0xFF, 0xFF, // 2
    0x3C, 0x7E, 0xC3, 0x03, 0x0E, 0x0E, 0x03, 0xC3, 0x7E, 0x3C, // 3
    0x06, 0x0E, 0x1E, 0x36, 0x66, 0xC6, 0xFF, 0xFF, 0x06, 0x06, // 4
    0xFF, 0xFF, 0xC0, 0xC0, 0xFC, 0xFE, 0x03, 0xC3, 0x7E, 0x3C, // 5
    0x3E, 0x7C, 0xE0, 0xC0, 0xFC, 0xFE, 0xC3, 0xC3, 0x7E, 0x3C, // 6
    0xFF, 0xFF, 0x03, 0x06, 0x0C, 0x18, 0x30, 0x60, 0x60, 0x60, // 7
    0x3C, 0x7E, 0xC3, 0xC3, 0x7E, 0x7E, 0xC3, 0xC3, 0x7E, 0x3C, // 8
    0x3C, 0x7E, 0xC3, 0xC3, 0x7F, 0x3F, 0x03, 0x03, 0x3E, 0x7C, // 9
    0x7E, 0xFF, 0xC3, 0xC3, 0xC3, 0xFF, 0xFF, 0xC3, 0xC3, 0xC3, // A
    0xFC, 0xFC, 0xC3, 0xC3, 0xFC, 0xFC, 0xC3, 0xC3, 0xFC, 0xFC, // B
    0x3C, 0xFF, 0xC3, 0xC0, 0xC0, 0xC0, 0xC0, 0xC3, 0xFF, 0x3C, // C
    0xFC, 0xFE, 0xC3, 0xC3, 0xC3, 0xC3, 0xC3, 0xC3, 0xFE, 0xFC, // D
    0xFF, 0xFF, 0xC0, 0xC0, 0xFF, 0xFF, 0xC0, 0xC0, 0xFF, 0xFF, // E
    0xFF, 0xFF, 0xC0, 0xC0, 0xFF, 0xFF, 0xC0, 0xC0, 0xC0, 0xC0, // F
];

/// What memory holds after a reset: both fonts at the bottom, zeros elsewhere.
pub open spec fn initial_memory() -> Seq<u8> {
    Seq::new(
        MEMORY_SIZE as nat,
        |a: int|
            if a < BIG_FONT_START {
                FONT_5_5@[a]
            } else if a < BIG_FONT_START + 0xA0 {
                FONT_10_10@[a - BIG_FONT_START]
            } else {
                0u8
            },
    )
}

/// The 4 KiB address space.
#[derive(Debug)]
pub struct Memory {
    pub memory: [u8; 0x1000],
}

impl View for Memory {
    type V = Seq<u8>;

    open spec fn view(&self) -> Seq<u8> {
        self.memory@
    }
}

impl Memory {
    /// A memory that holds the two fonts and zeros elsewhere.
    pub fn new() -> (m: Memory)
        ensures
            m@ == initial_memory(),
    {
        let mut m = Memory { memory: [0;0x1000] };
        m.reset();
        m
    }

    /// Zeroes memory and copies both fonts back in.
    pub fn reset(&mut self)
        ensures
            final(self)@ == initial_memory(),
    {
        let mut a: usize = 0;
        while a < MEMORY_SIZE
            invariant
                a <= MEMORY_SIZE,
                self@.len() == MEMORY_SIZE,
                forall|j: int| 0 <= j < a ==> #[trigger] self@[j] == initial_memory()[j],
            decreases MEMORY_SIZE - a,
        {
            let byte: u8 = if a < BIG_FONT_START {
                FONT_5_5[a]
            } else if a < BIG_FONT_START + 0xA0 {
                FONT_10_10[a - BIG_FONT_START]
            } else {
                0
            };
            self.memory[a] = byte;
            a = a + 1;
        }
        assert(self@ =~= initial_memory());
    }

    /// Copies a program to memory from the program start address on.
    pub fn load_program(&mut self, program: &[u8])
        requires
            program@.len() <= MEMORY_SIZE - PROGRAM_START,
        ensures
            final(self)@ == old(self)@.subrange(0, PROGRAM_START as int) + program@
                + old(self)@.subrange(PROGRAM_START + program@.len(), MEMORY_SIZE as int),
    {
        let mut k: usize = 0;
        while k < program.len()
            invariant
                k <= program@.len() <= MEMORY_SIZE - PROGRAM_START,
                self@.len() == MEMORY_SIZE,
                forall|j: int|
                    0 <= j < MEMORY_SIZE ==> #[trigger] self@[j] == if PROGRAM_START <= j
                        < PROGRAM_START + k {
                        program@[j - PROGRAM_START]
                    } else {
                        old(self)@[j]
                    },
            decreases program@.len() - k,
        {
            self.memory[PROGRAM_START + k] = program[k];
            k = k + 1;
        }
        assert(self@ =~= old(self)@.subrange(0, PROGRAM_START as int) + program@
            + old(self)@.subrange(PROGRAM_START + program@.len(), MEMORY_SIZE as int));
    }

    /// The byte at `addr` modulo the memory size.
    pub fn read(&self, addr: u16) -> (b: u8)
        ensures
            b == self@[addr as int % 0x1000],
    {
        self.memory[(addr % 0x1000) as usize]
    }

    /// Stores `byte` at `addr` modulo the memory size.
    pub fn write(&mut self, addr: u16, byte: u8)
        ensures
            final(self)@ == old(self)@.update(addr as int % 0x1000, byte),
    {
        self.memory[(addr % 0x1000) as usize] = byte;
    }
}

impl Default for Memory {
    fn default() -> (m: Memory)
        ensures
            m@ == initial_memory(),
    {
        Memory::new()
    }
}

} // verus!
