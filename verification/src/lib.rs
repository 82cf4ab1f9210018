//! Verified core of an 8-bit CPU emulator in the Sharp LR35902 / Z80 family:
//! a register file with paired 16-bit views and a packed flags byte, a
//! byte-addressable memory bus, an opcode decoder (base and extended-prefix
//! tables), and an executor whose arithmetic, logic, rotate and bit
//! instructions reproduce the hardware's flag semantics bit for bit.

pub mod cpu;
pub mod instructions;
pub mod memorybus;
pub mod registers;
