//! Opcode-level circuit configuration for a stack-machine virtual machine.
//!
//! Each opcode module translates the semantics of one instruction class into
//! polynomial identities (gates) over row cells and into lookup rows emitted
//! into shared tables (memory consistency, value ranges). The relational
//! operator (equal / not-equal) module is the representative instance: its
//! gates are proved sound and complete for the intended comparison
//! semantics, its memory wiring is proved to emit exactly the two pops and
//! one push of the instruction, and the packed opcode encoding is proved
//! injective.

pub mod builder;
pub mod etable;
pub mod expr;
pub mod field;
pub mod itable;
pub mod mtable;
pub mod op_rel;
pub mod tvalue;
