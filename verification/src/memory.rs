//! The memory map: a flat 64 KiB byte array with bounds-checked byte and
//! word access and bulk transfer. Words are stored little-endian: the low
//! byte at the address, the high byte right above it.

use vstd::prelude::*;

use crate::executor::ExecutionError;
use crate::utils::{spec_high_byte, spec_low_byte, spec_word_of};

verus! {

/// The number of addressable bytes.
pub const MEMORY_SIZE: usize = 65536;

/// A flat byte array covering the whole 16-bit address space.
pub struct MemoryMap {
    data: Vec<u8>,
}

impl View for MemoryMap {
    type V = Seq<u8>;

    closed spec fn view(&self) -> Seq<u8> {
        self.data@
    }
}

/// The 16-bit word stored little-endian at address `a` of `m`.
pub open spec fn spec_word_at(m: Seq<u8>, a: int) -> u16
    recommends
        0 <= a,
        a + 1 < m.len(),
{
    spec_word_of(m[a + 1], m[a])
}

/// `m` with the run `bytes` laid over it from address `a` on, clipped at
/// the end of `m`.
pub open spec fn spec_overlay(m: Seq<u8>, a: int, bytes: Seq<u8>) -> Seq<u8> {
    Seq::new(
        m.len(),
        |j: int|
            if a <= j < a + bytes.len() {
                bytes[j - a]
            } else {
                m[j]
            },
    )
}

/// `m` with the 16-bit word `w` stored little-endian at address `a`.
pub open spec fn spec_write_word_at(m: Seq<u8>, a: int, w: u16) -> Seq<u8>
    recommends
        0 <= a,
        a + 1 < m.len(),
{
    m.update(a, spec_low_byte(w)).update(a + 1, spec_high_byte(w))
}

impl MemoryMap {
    /// The full address space is always backed.
    pub open spec fn wf(&self) -> bool {
        self@.len() == MEMORY_SIZE
    }

    /// A fresh memory map, all bytes zero.
    pub fn new() -> (r: MemoryMap)
        ensures
            r.wf(),
            r@ == Seq::<u8>::new(MEMORY_SIZE as nat, |i: int| 0u8),
    {
        let mut data: Vec<u8> = Vec::new();
        let mut i: usize = 0;
        while i < MEMORY_SIZE
            invariant
                i <= MEMORY_SIZE,
                data@.len() == i,
                forall|j: int| 0 <= j < i ==> data@[j] == 0u8,
            decreases MEMORY_SIZE - i,
        {
            data.push(0);
            i += 1;
        }
        let r = MemoryMap { data };
        proof {
            assert(r@ =~= Seq::<u8>::new(MEMORY_SIZE as nat, |i: int| 0u8));
        }
        r
    }

    /// The number of addressable bytes.
    pub fn size(&self) -> (r: usize)
        ensures
            r == self@.len(),
    {
        self.data.len()
    }

    /// The byte at `address`, or an out-of-bounds error.
    pub fn read_byte(&self, address: usize) -> (r: Result<u8, ExecutionError>)
        ensures
            address < self@.len() ==> r == Ok::<u8, ExecutionError>(self@[address as int]),
            address >= self@.len() ==> r == Err::<u8, ExecutionError>(
                ExecutionError::MemoryOutOfBoundsError(address),
            ),
    {
        if !self.is_inbound_byte(address) {
            return Err(ExecutionError::MemoryOutOfBoundsError(address));
        }
        Ok(self.data[address])
    }

    /// The `n` bytes starting at `address`, or an out-of-bounds error naming
    /// the first address past the end.
    pub fn read_bytes(&self, address: usize, n: usize) -> (r: Result<Vec<u8>, ExecutionError>)
        requires
            address + n <= usize::MAX,
        ensures
            address + n <= self@.len() ==> (r matches Ok(v) && v@ == self@.subrange(
                address as int,
                address + n,
            )),
            n == 0 ==> (r matches Ok(v) && v@ == Seq::<u8>::empty()),
            n > 0 && address + n > self@.len() ==> r == Err::<Vec<u8>, ExecutionError>(
                ExecutionError::MemoryOutOfBoundsError(
                    if address >= self@.len() {
                        address
                    } else {
                        self@.len() as usize
                    },
                ),
            ),
    {
        let mut out: Vec<u8> = Vec::new();
        let mut offset: usize = 0;
        while offset < n
            invariant
                offset <= n,
                address + n <= usize::MAX,
                out@.len() == offset,
                offset > 0 ==> address + offset <= self@.len(),
                forall|j: int| 0 <= j < offset ==> out@[j] == self@[address + j],
            decreases n - offset,
        {
            match self.read_byte(address + offset) {
                Ok(b) => out.push(b),
                Err(e) => {
                    return Err(e);
                },
            }
            offset += 1;
        }
        proof {
            if n == 0 {
                assert(out@ =~= Seq::<u8>::empty());
            } else {
                assert(out@ =~= self@.subrange(address as int, address + n));
            }
        }
        Ok(out)
    }

    /// The 16-bit word stored little-endian at `address`, or an
    /// out-of-bounds error if its high byte would lie past the end.
    pub fn read_word(&self, address: usize) -> (r: Result<u16, ExecutionError>)
        requires
            address < usize::MAX,
        ensures
            address + 1 < self@.len() ==> r == Ok::<u16, ExecutionError>(
                spec_word_at(self@, address as int),
            ),
            address + 1 >= self@.len() ==> r == Err::<u16, ExecutionError>(
                ExecutionError::MemoryOutOfBoundsError(address),
            ),
    {
        if !self.is_inbound_word(address) {
            return Err(ExecutionError::MemoryOutOfBoundsError(address));
        }
        Ok(crate::utils::bytes_to_word_little_endian(self.data[address], self.data[address + 1]))
    }

    /// Stores a byte at `address`.
    pub fn write_byte(&mut self, address: usize, byte: u8) -> (r: Result<(), ExecutionError>)
        ensures
            address < old(self)@.len() ==> (r matches Ok(()) && final(self)@ == old(self)@.update(
                address as int,
                byte,
            )),
            address >= old(self)@.len() ==> (r == Err::<(), ExecutionError>(
                ExecutionError::MemoryOutOfBoundsError(address),
            ) && final(self)@ == old(self)@),
    {
        if !self.is_inbound_byte(address) {
            return Err(ExecutionError::MemoryOutOfBoundsError(address));
        }
        self.data[address] = byte;
        Ok(())
    }

    /// Stores a 16-bit word little-endian at `address`.
    pub fn write_word(&mut self, address: usize, word: u16) -> (r: Result<(), ExecutionError>)
        requires
            address < usize::MAX,
        ensures
            address + 1 < old(self)@.len() ==> (r matches Ok(()) && final(self)@
                == spec_write_word_at(old(self)@, address as int, word)),
            address + 1 >= old(self)@.len() ==> (r == Err::<(), ExecutionError>(
                ExecutionError::MemoryOutOfBoundsError(address),
            ) && final(self)@ == old(self)@),
    {
        if !self.is_inbound_word(address) {
            return Err(ExecutionError::MemoryOutOfBoundsError(address));
        }
        let (fst, snd) = crate::utils::word_to_bytes_little_endian(word);
        self.data[address] = fst;
        self.data[address + 1] = snd;
        Ok(())
    }

    /// Stores a run of bytes starting at `address`; on an out-of-bounds
    /// error the bytes before the offending address are already written.
    pub fn write_bytes(&mut self, address: usize, bytes: Vec<u8>) -> (r: Result<
        (),
        ExecutionError,
    >)
        requires
            address + bytes@.len() <= usize::MAX,
        ensures
            address + bytes@.len() <= old(self)@.len() ==> (r matches Ok(()) && final(self)@
                == spec_overlay(old(self)@, address as int, bytes@)),
            bytes@.len() == 0 ==> (r matches Ok(()) && final(self)@ == old(self)@),
            bytes@.len() > 0 && address + bytes@.len() > old(self)@.len() ==> (final(self)@
                == spec_overlay(old(self)@, address as int, bytes@) && r == Err::<
                (),
                ExecutionError,
            >(
                ExecutionError::MemoryOutOfBoundsError(
                    if address >= old(self)@.len() {
                        address
                    } else {
                        old(self)@.len() as usize
                    },
                ),
            )),
            final(self)@.len() == old(self)@.len(),
    {
        let ghost full = old(self)@;
        let mut offset: usize = 0;
        while offset < bytes.len()
            invariant
                offset <= bytes@.len(),
                address + bytes@.len() <= usize::MAX,
                full == old(self)@,
                self@.len() == full.len(),
                offset > 0 ==> address + offset <= full.len(),
                forall|j: int|
                    0 <= j < full.len() && !(address <= j < address + offset) ==> self@[j]
                        == full[j],
                forall|j: int|
                    address <= j < address + offset && j < full.len() ==> self@[j] == bytes@[j
                        - address],
            decreases bytes@.len() - offset,
        {
            match self.write_byte(address + offset, bytes[offset]) {
                Ok(()) => {},
                Err(e) => {
                    proof {
                        assert(self@ =~= spec_overlay(full, address as int, bytes@));
                    }
                    return Err(e);
                },
            }
            offset += 1;
        }
        proof {
            assert(self@ =~= spec_overlay(full, address as int, bytes@));
        }
        Ok(())
    }

    /// Wrapping addition on the byte at `address`.
    pub fn incr_byte(&mut self, address: usize, n: u8) -> (r: Result<(), ExecutionError>)
        ensures
            address < old(self)@.len() ==> (r matches Ok(()) && final(self)@ == old(self)@.update(
                address as int,
                ((old(self)@[address as int] + n) % 256) as u8,
            )),
            address >= old(self)@.len() ==> (r == Err::<(), ExecutionError>(
                ExecutionError::MemoryOutOfBoundsError(address),
            ) && final(self)@ == old(self)@),
    {
        let v = match self.read_byte(address) {
            Ok(v) => v,
            Err(e) => {
                return Err(e);
            },
        };
        self.write_byte(address, v.wrapping_add(n))
    }

    /// Wrapping subtraction on the byte at `address`.
    pub fn decr_byte(&mut self, address: usize, n: u8) -> (r: Result<(), ExecutionError>)
        ensures
            address < old(self)@.len() ==> (r matches Ok(()) && final(self)@ == old(self)@.update(
                address as int,
                ((old(self)@[address as int] + 256 - n) % 256) as u8,
            )),
            address >= old(self)@.len() ==> (r == Err::<(), ExecutionError>(
                ExecutionError::MemoryOutOfBoundsError(address),
            ) && final(self)@ == old(self)@),
    {
        let v = match self.read_byte(address) {
            Ok(v) => v,
            Err(e) => {
                return Err(e);
            },
        };
        self.write_byte(address, v.wrapping_sub(n))
    }

    fn is_inbound_byte(&self, address: usize) -> (r: bool)
        ensures
            r == (address < self@.len()),
    {
        self.data.len() > address
    }

    fn is_inbound_word(&self, address: usize) -> (r: bool)
        requires
            address < usize::MAX,
        ensures
            r == (address + 1 < self@.len()),
    {
        self.data.len() > address + 1
    }
}

} // verus!
