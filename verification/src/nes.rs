//! The machine's state in executable form: the registers and the 64 KiB of
//! memory, with byte and word access, the stack, reset and the loaders.

use crate::cpu::{Cpu, PROGRAM_START};
use crate::error::CpuError;
use crate::machine::{
    add16, add8, high_byte, low_byte, stack_address, word, Machine, MEMORY_SIZE, RESET_VECTOR,
    STACK_START,
};
use vstd::prelude::*;

verus! {

/// Size of the region that a raw program is loaded into.
pub const PROGRAM_CAPACITY: usize = 0xFA00;

/// Where a cartridge ROM is placed.
pub const ROM_START: u16 = 0x8000;

/// Size of the region that a cartridge ROM is loaded into.
pub const ROM_CAPACITY: usize = 0x8000;

/// The processor together with its 64 KiB of memory.
pub struct Nes {
    pub cpu: Cpu,
    pub memory: [u8; MEMORY_SIZE],
}

impl View for Nes {
    type V = Machine;

    open spec fn view(&self) -> Machine {
        Machine { cpu: self.cpu, mem: self.memory@ }
    }
}

/// A memory image that holds zero everywhere.
pub open spec fn blank_memory() -> Seq<u8> {
    Seq::new(MEMORY_SIZE as nat, |i: int| 0u8)
}

/// The word with the given low and high bytes.
pub(crate) fn make_word(low: u8, high: u8) -> (value: u16)
    ensures
        value == word(low, high),
{
    let value = ((high as u16) << 8) | (low as u16);
    proof {
        assert((((high as u16) << 8) | (low as u16)) == (high as u16) * 0x100 + (low as u16))
            by (bit_vector);
    }
    value
}

/// The low byte of `value`.
pub(crate) fn low_of(value: u16) -> (byte: u8)
    ensures
        byte == low_byte(value),
{
    let byte = (value & 0xFF) as u8;
    proof {
        assert(value & 0xFF == value % 0x100) by (bit_vector);
    }
    byte
}

/// The high byte of `value`.
pub(crate) fn high_of(value: u16) -> (byte: u8)
    ensures
        byte == high_byte(value),
{
    let byte = (value >> 8) as u8;
    proof {
        assert(value >> 8 == value / 0x100) by (bit_vector);
    }
    byte
}

/// `value + delta`, wrapped to eight bits.
pub(crate) fn forward8(value: u8, delta: u8) -> (sum: u8)
    ensures
        sum == add8(value, delta as int),
{
    value.wrapping_add(delta)
}

/// `value - delta`, wrapped to eight bits.
pub(crate) fn back8(value: u8, delta: u8) -> (difference: u8)
    ensures
        difference == add8(value, -(delta as int)),
{
    value.wrapping_sub(delta)
}

/// `address + delta`, wrapped to sixteen bits.
pub(crate) fn forward16(address: u16, delta: u16) -> (sum: u16)
    ensures
        sum == add16(address, delta as int),
{
    address.wrapping_add(delta)
}

/// `address - delta`, wrapped to sixteen bits.
pub(crate) fn back16(address: u16, delta: u16) -> (difference: u16)
    ensures
        difference == add16(address, -(delta as int)),
{
    address.wrapping_sub(delta)
}

/// A byte as a word.
pub(crate) fn widen(value: u8) -> (wide: u16)
    ensures
        wide == value,
{
    value as u16
}

/// The address of the stack slot that the stack pointer `sp` designates.
pub(crate) fn stack_slot(sp: u8) -> (address: u16)
    ensures
        address == stack_address(sp),
{
    STACK_START + sp as u16
}

impl Default for Nes {
    /// A machine with blank memory and the registers at their power-up values.
    fn default() -> (nes: Self)
        ensures
            nes.cpu == (Cpu {
                accumulator: 0,
                register_x: 0,
                register_y: 0,
                program_counter: PROGRAM_START,
                status: crate::cpu::RESET_STATUS,
                stack_pointer: crate::cpu::RESET_STACK_POINTER,
            }),
            nes.memory@ == blank_memory(),
    {
        let nes = Nes { cpu: Cpu::default(), memory: [0u8; MEMORY_SIZE] };
        proof {
            assert(nes.memory@ =~= blank_memory());
        }
        nes
    }
}

impl Nes {
    /// A machine with blank memory around the given registers.
    pub fn new(cpu: Cpu) -> (nes: Self)
        ensures
            nes@ == (Machine { cpu, mem: blank_memory() }),
    {
        let nes = Nes { cpu, memory: [0u8; MEMORY_SIZE] };
        proof {
            assert(nes.memory@ =~= blank_memory());
        }
        nes
    }

    /// Clears A, X and Y, installs the reset values of the status byte and
    /// the stack pointer, and loads the program counter from the reset vector.
    pub fn reset(&mut self)
        ensures
            final(self)@ == old(self)@.reset(),
    {
        self.cpu.reset();
        self.cpu.program_counter = self.mem_read_16(RESET_VECTOR);
    }

    /// Moves the program counter to `address`.
    pub fn set_program_counter(&mut self, address: u16)
        ensures
            final(self)@ == old(self)@.at(address),
    {
        self.cpu.program_counter = address;
    }

    /// Replaces the whole memory image.
    pub fn load(&mut self, data: [u8; MEMORY_SIZE])
        ensures
            final(self).cpu == old(self).cpu,
            final(self).memory == data,
    {
        self.memory = data;
    }

    /// Copies `data` into memory from `start` on.
    fn copy_into(&mut self, start: usize, data: &[u8])
        requires
            start + data.len() <= MEMORY_SIZE,
        ensures
            final(self)@ == old(self)@.load_at(start as int, data@),
    {
        let mut index: usize = 0;
        while index < data.len()
            invariant
                index <= data.len(),
                start + data.len() <= MEMORY_SIZE,
                self.cpu == old(self).cpu,
                self@.mem =~= old(self)@.load_at(start as int, data@.take(index as int)).mem,
            decreases data.len() - index,
        {
            self.memory[start + index] = data[index];
            index += 1;
        }
        proof {
            assert(data@.take(index as int) =~= data@);
        }
    }

    /// Copies a raw program into memory from `$0600` on.
    ///
    /// Fails, and changes nothing, where the program is longer than the
    /// region from `$0600` to the end of memory.
    pub fn load_instructions(&mut self, program_mem: Vec<u8>) -> (result: Result<(), CpuError>)
        ensures
            program_mem.len() <= PROGRAM_CAPACITY ==> result == Ok::<(), CpuError>(())
                && final(self)@ == old(self)@.load_at(PROGRAM_START as int, program_mem@),
            program_mem.len() > PROGRAM_CAPACITY ==> result == Err::<(), CpuError>(
                CpuError::LoadTooLarge { length: program_mem.len(), capacity: PROGRAM_CAPACITY },
            ) && *final(self) == *old(self),
    {
        if program_mem.len() > PROGRAM_CAPACITY {
            return Err(
                CpuError::LoadTooLarge { length: program_mem.len(), capacity: PROGRAM_CAPACITY },
            );
        }
        self.copy_into(PROGRAM_START as usize, program_mem.as_slice());
        Ok(())
    }

    /// Copies a cartridge ROM into memory from `$8000` on.
    ///
    /// Fails, and changes nothing, where the ROM is longer than 32 KiB.
    pub fn load_rom_from_bytes(&mut self, data: &[u8]) -> (result: Result<(), CpuError>)
        ensures
            data.len() <= ROM_CAPACITY ==> result == Ok::<(), CpuError>(()) && final(self)@ == old(
                self,
            )@.load_at(ROM_START as int, data@),
            data.len() > ROM_CAPACITY ==> result == Err::<(), CpuError>(
                CpuError::LoadTooLarge { length: data.len(), capacity: ROM_CAPACITY },
            ) && *final(self) == *old(self),
    {
        if data.len() > ROM_CAPACITY {
            return Err(CpuError::LoadTooLarge { length: data.len(), capacity: ROM_CAPACITY });
        }
        self.copy_into(ROM_START as usize, data);
        Ok(())
    }

    /// The byte at `address`.
    pub fn mem_read_8(&self, address: u16) -> (data: u8)
        ensures
            data == self@.read8(address),
    {
        self.memory[address as usize]
    }

    /// Stores `data` at `address`.
    pub fn mem_write_8(&mut self, address: u16, data: u8)
        ensures
            final(self)@ == old(self)@.write8(address, data),
    {
        self.memory[address as usize] = data;
    }

    /// The little-endian word at `address`; the address of its high byte
    /// wraps around the end of memory.
    pub fn mem_read_16(&self, address: u16) -> (data: u16)
        ensures
            data == self@.read16(address),
    {
        let low = self.mem_read_8(address);
        let high = self.mem_read_8(forward16(address, 1));
        make_word(low, high)
    }

    /// Stores the word `data` at `address`, low byte first; the address of
    /// its high byte wraps around the end of memory.
    pub fn mem_write_16(&mut self, address: u16, data: u16)
        ensures
            final(self)@ == old(self)@.write16(address, data),
    {
        self.mem_write_8(address, low_of(data));
        self.mem_write_8(forward16(address, 1), high_of(data));
    }

    /// Pulls a byte: moves the stack pointer up by one, wrapping, and reads
    /// the stack slot it then designates.
    pub fn pop_stack(&mut self) -> (data: u8)
        ensures
            final(self)@ == old(self)@.pull(),
            data == old(self)@.pull().top(),
    {
        self.cpu.stack_pointer = forward8(self.cpu.stack_pointer, 1);
        self.mem_read_8(stack_slot(self.cpu.stack_pointer))
    }

    /// Pushes a byte: stores it at the stack slot and moves the stack
    /// pointer down by one, wrapping.
    pub fn push_stack(&mut self, data: u8)
        ensures
            final(self)@ == old(self)@.push(data),
    {
        self.mem_write_8(stack_slot(self.cpu.stack_pointer), data);
        self.cpu.stack_pointer = back8(self.cpu.stack_pointer, 1);
    }
}

} // verus!
