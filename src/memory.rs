use vstd::prelude::*;

verus! {

/// Number of addressable bytes.
pub const MEMORY_SIZE: usize = 0x10000;

/// Address at which a program image is placed by the loader.
pub const PROGRAM_START: u16 = 0x8000;

/// Largest program image that fits between `PROGRAM_START` and the top of memory.
pub const MAX_PROGRAM_LEN: usize = 0x8000;

/// Little-endian word made of a low and a high byte.
pub open spec fn word(lo: u8, hi: u8) -> u16 {
    (hi as int * 256 + lo as int) as u16
}

/// Low byte of a word.
pub open spec fn low_byte(w: u16) -> u8 {
    (w as int % 256) as u8
}

/// High byte of a word.
pub open spec fn high_byte(w: u16) -> u8 {
    (w as int / 256) as u8
}

/// Abstract contents of a [`Memory`]: the bytes, whether reads are logged,
/// and the log of every byte read while logging was on.
pub struct MemoryState {
    pub bytes: Seq<u8>,
    pub tracing: bool,
    pub trace: Seq<u8>,
}

impl MemoryState {
    pub open spec fn wf(self) -> bool {
        self.bytes.len() == MEMORY_SIZE
    }

    pub open spec fn byte(self, addr: u16) -> u8 {
        self.bytes[addr as int]
    }

    /// The word at `addr`, its high byte taken from `addr + 1` modulo 2^16.
    pub open spec fn word_at(self, addr: u16) -> u16 {
        word(self.byte(addr), self.byte(addr.wrapping_add(1)))
    }

    /// The state after `value` was handed out by a read.
    pub open spec fn record(self, value: u8) -> MemoryState {
        if self.tracing {
            MemoryState { trace: self.trace.push(value), ..self }
        } else {
            self
        }
    }

    /// The state after the byte at `addr` was read.
    pub open spec fn after_read(self, addr: u16) -> MemoryState {
        self.record(self.byte(addr))
    }

    /// The state after the word at `addr` was read, low byte first.
    pub open spec fn after_read_word(self, addr: u16) -> MemoryState {
        self.after_read(addr).after_read(addr.wrapping_add(1))
    }

    pub open spec fn store(self, addr: u16, value: u8) -> MemoryState {
        MemoryState { bytes: self.bytes.update(addr as int, value), ..self }
    }

    pub open spec fn store_word(self, addr: u16, value: u16) -> MemoryState {
        self.store(addr, low_byte(value)).store(addr.wrapping_add(1), high_byte(value))
    }

    /// The state after `program` was copied to `PROGRAM_START` onwards.
    pub open spec fn with_program(self, program: Seq<u8>) -> MemoryState {
        MemoryState {
            bytes: Seq::new(
                MEMORY_SIZE as nat,
                |i: int|
                    if PROGRAM_START <= i < PROGRAM_START + program.len() {
                        program[i - PROGRAM_START]
                    } else {
                        self.bytes[i]
                    },
            ),
            ..self
        }
    }
}

/// Why a program image was not loaded.
#[derive(Debug, Clone, Copy, PartialEq, Eq, Structural)]
pub enum LoadError {
    /// The image of `length` bytes does not fit below the top of memory.
    OutOfRange { length: usize },
}

/// A flat 64 KiB byte store with an optional log of the bytes read.
pub struct Memory {
    pub memory: [u8; 0x10000],
    debug: bool,
    hex_dump: Vec<u8>,
}

impl View for Memory {
    type V = MemoryState;

    closed spec fn view(&self) -> MemoryState {
        MemoryState { bytes: self.memory@, tracing: self.debug, trace: self.hex_dump@ }
    }
}

impl Memory {
    pub fn new() -> (r: Self)
        ensures
            r@.wf(),
            forall|i: int| 0 <= i < MEMORY_SIZE ==> r@.bytes[i] == 0,
            !r@.tracing,
            r@.trace == Seq::<u8>::empty(),
    {
        Memory { memory: [0u8; 0x10000], debug: false, hex_dump: Vec::new() }
    }

    /// Turns on the log of read bytes.
    pub fn set_debug(&mut self)
        ensures
            final(self)@ == (MemoryState { tracing: true, ..old(self)@ }),
    {
        self.debug = true;
    }

    /// Copies `data` to `PROGRAM_START` onwards; fails when it does not fit.
    pub fn load_program(&mut self, data: Vec<u8>) -> (r: Result<(), LoadError>)
        ensures
            data.len() > MAX_PROGRAM_LEN <==> r is Err,
            r is Err ==> r == Err::<(), LoadError>(LoadError::OutOfRange { length: data.len() }),
            r is Err ==> final(self)@ == old(self)@,
            r is Ok ==> final(self)@ == old(self)@.with_program(data@),
    {
        if data.len() > MAX_PROGRAM_LEN {
            return Err(LoadError::OutOfRange { length: data.len() });
        }
        let mut i: usize = 0;
        while i < data.len()
            invariant
                i <= data.len() <= MAX_PROGRAM_LEN,
                self.debug == old(self).debug,
                self.hex_dump == old(self).hex_dump,
                forall|j: int|
                    0 <= j < MEMORY_SIZE ==> #[trigger] self.memory@[j] == if PROGRAM_START <= j
                        < PROGRAM_START + i {
                        data@[j - PROGRAM_START]
                    } else {
                        old(self).memory@[j]
                    },
            decreases data.len() - i,
        {
            self.memory[0x8000 + i] = data[i];
            i = i + 1;
        }
        assert(self@.bytes =~= old(self)@.with_program(data@).bytes);
        Ok(())
    }

    pub fn read_u16(&mut self, addr: u16) -> (r: u16)
        ensures
            r == old(self)@.word_at(addr),
            final(self)@ == old(self)@.after_read_word(addr),
    {
        let lo = self.read(addr) as u16;
        let hi = self.read(addr.wrapping_add(1)) as u16;
        hi * 256 + lo
    }

    pub fn write_u16(&mut self, addr: u16, data: u16)
        ensures
            final(self)@ == old(self)@.store_word(addr, data),
    {
        let hi = (data / 256) as u8;
        let lo = (data % 256) as u8;
        self.write(addr, lo);
        self.write(addr.wrapping_add(1), hi);
    }

    pub fn write(&mut self, addr: u16, data: u8)
        ensures
            final(self)@ == old(self)@.store(addr, data),
    {
        self.memory[addr as usize] = data;
        assert(self@.bytes =~= old(self)@.store(addr, data).bytes);
    }

    /// Reads the byte at `addr`, logging it when the log is on.
    pub fn read(&mut self, addr: u16) -> (r: u8)
        ensures
            r == old(self)@.byte(addr),
            final(self)@ == old(self)@.record(r),
    {
        let value = self.memory[addr as usize];
        if self.debug {
            self.hex_dump.push(value);
        }
        value
    }

    /// The bytes read since the log was turned on, oldest first.
    pub fn dump(&self) -> (r: &Vec<u8>)
        ensures
            r@ == self@.trace,
    {
        &self.hex_dump
    }
}

} // verus!
