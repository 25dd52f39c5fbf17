//! A Zilog Z80 instruction execution core. `CPU::step` runs one instruction,
//! or accepts one interrupt, and its contract gives the whole next state:
//! registers, memory, control signals, clock. Beneath it stand the register
//! file (`registers`), the flag engine (`flags`), the decoder (`decode`) and
//! one module of handlers per instruction group; `laws` holds properties
//! that hold of every state.

pub mod alu;
pub mod bits;
pub mod block;
pub mod cpu;
pub mod decode;
pub mod flags;
pub mod flow;
pub mod laws;
pub mod load;
pub mod machine;
pub mod registers;
pub mod wide;
