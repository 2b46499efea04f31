pub mod alu;
pub mod cartridge;
pub mod cpu;
pub mod error;
pub mod mmu;
pub mod names;
pub mod opcode;
pub mod registers;
pub mod step;
