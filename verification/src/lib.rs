//! A simulated CPU core: instruction decoding, architectural registers, a
//! byte-addressed memory, a minimal operating-system layer and an ELF loader.

pub mod instr;
pub mod laws;
pub mod memory;
pub mod os;
pub mod pipeline;
pub mod reg;
pub mod ui;
