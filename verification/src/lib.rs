//! Core of a cycle-accurate emulator for the Sharp SM83 processor: the
//! arithmetic/logic unit with exact flag semantics, the 16-bit
//! increment/decrement unit, the register file with its aliased 8/16-bit
//! views, the opcode decoders for the base and CB-prefixed instruction sets,
//! the byte-addressable memory with its mapped registers, and the CPU whose
//! `next` operation executes exactly one instruction while counting M-cycles.

pub mod alu;
pub mod bits;
pub mod cpu;
pub mod idu;
pub mod lcd;
pub mod lcd_registers;
pub mod mapping_chip;
pub mod opcodes;
pub mod ram;
pub mod registers;
pub mod snapshot;
pub mod sound;
pub mod sound_registers;
pub mod system;
