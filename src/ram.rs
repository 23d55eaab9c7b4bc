use vstd::prelude::*;

use crate::errors::{out_of_bounds, EmulError, ErrorTopic};

verus! {

/// The value of a big-endian 16-bit word made of a high and a low byte.
pub open spec fn word_of(hi: u8, lo: u8) -> u16 {
    (hi as int * 256 + lo as int) as u16
}

/// The result of reading the byte at `addr`.
pub open spec fn read_byte_spec(mem: Seq<u8>, addr: usize) -> Result<u8, EmulError> {
    if addr < mem.len() {
        Ok(mem[addr as int])
    } else {
        Err(out_of_bounds(ErrorTopic::RamRead, addr, mem.len() as usize, 1))
    }
}

/// The result of reading the big-endian word at `addr`, `addr + 1`.
pub open spec fn read_word_spec(mem: Seq<u8>, addr: usize) -> Result<u16, EmulError> {
    if addr + 1 < mem.len() {
        Ok(word_of(mem[addr as int], mem[addr + 1]))
    } else {
        Err(out_of_bounds(ErrorTopic::RamRead, addr, mem.len() as usize, 2))
    }
}

/// The contents after writing `value` at `addr`, or the error.
pub open spec fn write_byte_spec(mem: Seq<u8>, addr: usize, value: u8) -> Result<Seq<u8>, EmulError> {
    if addr < mem.len() {
        Ok(mem.update(addr as int, value))
    } else {
        Err(out_of_bounds(ErrorTopic::RamWrite, addr, mem.len() as usize, 1))
    }
}

/// The contents after writing the big-endian word `value` at `addr`, `addr + 1`, or the error.
pub open spec fn write_word_spec(mem: Seq<u8>, addr: usize, value: u16) -> Result<Seq<u8>, EmulError> {
    if addr + 1 < mem.len() {
        Ok(mem.update(addr as int, (value / 256) as u8).update(addr + 1, (value % 256) as u8))
    } else {
        Err(out_of_bounds(ErrorTopic::RamWrite, addr, mem.len() as usize, 2))
    }
}

/// `mem` with `data` laid over it from `start` on (the caller keeps the run in range).
pub open spec fn overlay(mem: Seq<u8>, start: int, data: Seq<u8>) -> Seq<u8> {
    Seq::new(
        mem.len(),
        |j: int|
            if start <= j < start + data.len() {
                data[j - start]
            } else {
                mem[j]
            },
    )
}

/// The contents after writing the run `data` from `start` on, or the error; nothing is
/// written unless the whole run fits.
pub open spec fn write_block_spec(mem: Seq<u8>, start: usize, data: Seq<u8>) -> Result<Seq<u8>, EmulError> {
    if start + data.len() <= mem.len() {
        Ok(overlay(mem, start as int, data))
    } else {
        Err(out_of_bounds(ErrorTopic::RamWrite, start, mem.len() as usize, data.len() as usize))
    }
}

/// A byte-addressable store of fixed size; every access is bounds-checked.
pub struct Ram {
    memory: Vec<u8>,
}

/// The byte store under the name that the device bus uses for it.
pub type Memory = Ram;

impl View for Ram {
    type V = Seq<u8>;

    closed spec fn view(&self) -> Seq<u8> {
        self.memory@
    }
}

impl Ram {
    /// A store of `size` bytes, all zero.
    pub fn new(size: usize) -> (r: Self)
        ensures
            r@ == Seq::new(size as nat, |_i: int| 0u8),
    {
        let mut memory: Vec<u8> = Vec::with_capacity(size);
        let mut i: usize = 0;
        while i < size
            invariant
                i <= size,
                memory@ == Seq::new(i as nat, |_i: int| 0u8),
            decreases size - i,
        {
            memory.push(0u8);
            i += 1;
            assert(memory@ =~= Seq::new(i as nat, |_i: int| 0u8));
        }
        Ram { memory }
    }

    /// The number of bytes the store holds.
    pub fn size(&self) -> (r: usize)
        ensures
            r == self@.len(),
    {
        self.memory.len()
    }

    pub fn read_byte(&self, addr: usize) -> (r: Result<u8, EmulError>)
        ensures
            r == read_byte_spec(self@, addr),
    {
        if addr < self.memory.len() {
            Ok(self.memory[addr])
        } else {
            Err(EmulError::new(crate::errors::ErrorKind::OutOfBounds { addr, max: self.memory.len(), size: 1 }, ErrorTopic::RamRead))
        }
    }

    pub fn read_word(&self, addr: usize) -> (r: Result<u16, EmulError>)
        ensures
            r == read_word_spec(self@, addr),
    {
        let len = self.memory.len();
        if addr < len && addr + 1 < len {
            let hi = self.memory[addr] as u16;
            let lo = self.memory[addr + 1] as u16;
            Ok(hi * 256 + lo)
        } else {
            Err(EmulError::new(crate::errors::ErrorKind::OutOfBounds { addr, max: len, size: 2 }, ErrorTopic::RamRead))
        }
    }

    pub fn write_byte(&mut self, addr: usize, value: u8) -> (r: Result<(), EmulError>)
        ensures
            match write_byte_spec(old(self)@, addr, value) {
                Ok(m) => r == Ok::<(), EmulError>(()) && final(self)@ == m,
                Err(e) => r == Err::<(), EmulError>(e) && final(self)@ == old(self)@,
            },
    {
        if addr < self.memory.len() {
            self.memory.set(addr, value);
            Ok(())
        } else {
            Err(EmulError::new(crate::errors::ErrorKind::OutOfBounds { addr, max: self.memory.len(), size: 1 }, ErrorTopic::RamWrite))
        }
    }

    pub fn write_word(&mut self, addr: usize, value: u16) -> (r: Result<(), EmulError>)
        ensures
            match write_word_spec(old(self)@, addr, value) {
                Ok(m) => r == Ok::<(), EmulError>(()) && final(self)@ == m,
                Err(e) => r == Err::<(), EmulError>(e) && final(self)@ == old(self)@,
            },
    {
        let len = self.memory.len();
        if addr < len && addr + 1 < len {
            self.memory.set(addr, (value / 256) as u8);
            self.memory.set(addr + 1, (value % 256) as u8);
            Ok(())
        } else {
            Err(EmulError::new(crate::errors::ErrorKind::OutOfBounds { addr, max: len, size: 2 }, ErrorTopic::RamWrite))
        }
    }

    /// Writes `data` from `start_addr` on; nothing is written unless the whole run fits.
    pub fn write_block(&mut self, start_addr: usize, data: &Vec<u8>) -> (r: Result<(), EmulError>)
        ensures
            match write_block_spec(old(self)@, start_addr, data@) {
                Ok(m) => r == Ok::<(), EmulError>(()) && final(self)@ == m,
                Err(e) => r == Err::<(), EmulError>(e) && final(self)@ == old(self)@,
            },
    {
        let len = self.memory.len();
        let n = data.len();
        if start_addr > len || n > len - start_addr {
            return Err(EmulError::new(crate::errors::ErrorKind::OutOfBounds { addr: start_addr, max: len, size: n }, ErrorTopic::RamWrite));
        }
        let ghost before = self.memory@;
        let mut i: usize = 0;
        while i < n
            invariant
                i <= n,
                start_addr + n <= len,
                len == self.memory@.len(),
                n == data@.len(),
                self.memory@ == overlay(before, start_addr as int, data@.take(i as int)),
            decreases n - i,
        {
            self.memory.set(start_addr + i, data[i]);
            i += 1;
            assert(self.memory@ =~= overlay(before, start_addr as int, data@.take(i as int)));
        }
        assert(data@.take(n as int) =~= data@);
        Ok(())
    }
}

} // verus!

verus! {

/// Writing a byte and reading it back yields the byte; at an address past the end both
/// accesses fail with that address and the store's size.
pub proof fn lemma_write_then_read(mem: Seq<u8>, addr: usize, value: u8)
    requires
        mem.len() <= usize::MAX,
    ensures
        addr < mem.len() ==> (write_byte_spec(mem, addr, value) matches Ok(m) && read_byte_spec(m, addr) == Ok::<u8, EmulError>(value)),
        addr >= mem.len() ==> write_byte_spec(mem, addr, value) == Err::<Seq<u8>, EmulError>(out_of_bounds(ErrorTopic::RamWrite, addr, mem.len() as usize, 1))
            && read_byte_spec(mem, addr) == Err::<u8, EmulError>(out_of_bounds(ErrorTopic::RamRead, addr, mem.len() as usize, 1)),
{
}

/// A word is its first byte shifted left by eight, or-ed with the byte that follows.
pub proof fn lemma_word_from_bytes(mem: Seq<u8>, addr: usize)
    requires
        mem.len() <= usize::MAX,
        addr + 1 < mem.len(),
    ensures
        read_byte_spec(mem, addr) matches Ok(hi) && read_byte_spec(mem, (addr + 1) as usize) matches Ok(lo)
            && read_word_spec(mem, addr) == Ok::<u16, EmulError>(((hi as u16) << 8u16) | (lo as u16)),
{
    let hi = mem[addr as int];
    let lo = mem[addr + 1];
    assert((((hi as u16) << 8u16) | (lo as u16)) == (hi as u16) * 256u16 + (lo as u16)) by (bit_vector);
    assert(word_of(hi, lo) == ((hi as u16) << 8u16) | (lo as u16));
}

} // verus!
