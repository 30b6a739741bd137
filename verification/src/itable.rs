//! Opcode classes and the packed opcode encoding.
//!
//! One field element per row encodes the executed instruction as
//! `class << CLASS_SHIFT | arg0 << ARG0_SHIFT | arg1 << ARG1_SHIFT`: `class`
//! names the opcode family, `arg0` the sub-operation inside the family and
//! `arg1` a secondary discriminant such as the operand width. Each
//! constituent is below 2^16 and the shifts are 16 bits apart, so the
//! encoding is injective and fits well inside any proving field.

use vstd::prelude::*;
use vstd::arithmetic::div_mod::lemma_fundamental_div_mod_converse;

verus! {

/// Weight of the opcode-class discriminant: 2^48, i.e. `class << 48`.
pub const OPCODE_CLASS_BASE: u64 = 0x1000000000000;

/// Weight of the sub-operation discriminant: 2^32, i.e. `arg0 << 32`.
pub const OPCODE_ARG0_BASE: u64 = 0x100000000;

/// Weight of the secondary discriminant: 2^16, i.e. `arg1 << 16`.
pub const OPCODE_ARG1_BASE: u64 = 0x10000;

/// Exclusive upper bound of every constituent of the encoding.
pub const OPCODE_PART_BOUND: u64 = 0x10000;

/// Exclusive upper bound of every packed encoding: 2^50 covers
/// `class * 2^48` for every class tag in use, plus both lower parts. Any
/// proving field's prime exceeds this, so the encoding is one canonical
/// field element.
pub const OPCODE_ENCODING_BOUND: u64 = 0x4000000000000;

/// The opcode family an instruction belongs to; the dispatch identity every
/// opcode module declares.
#[derive(Clone, Copy, PartialEq, Eq, Structural, Debug)]
pub enum OpcodeClass {
    /// Pushes a constant onto the stack.
    Const,
    /// Relational operators: equality and inequality comparison.
    Rel,
}

/// Sub-operations of the relational family.
#[derive(Clone, Copy, PartialEq, Eq, Structural, Debug)]
pub enum RelOp {
    Eq,
    Ne,
}

/// The numeric tag an opcode class contributes to the encoding.
pub open spec fn opcode_class_tag(c: OpcodeClass) -> int {
    match c {
        OpcodeClass::Const => 1,
        OpcodeClass::Rel => 2,
    }
}

/// The numeric tag a relational sub-operation contributes to the encoding.
pub open spec fn rel_op_tag(op: RelOp) -> int {
    match op {
        RelOp::Eq => 1,
        RelOp::Ne => 2,
    }
}

/// Executable form of `opcode_class_tag`.
pub fn opcode_class_tag_value(c: OpcodeClass) -> (r: u64)
    ensures
        r as int == opcode_class_tag(c),
{
    match c {
        OpcodeClass::Const => 1,
        OpcodeClass::Rel => 2,
    }
}

/// Executable form of `rel_op_tag`.
pub fn rel_op_tag_value(op: RelOp) -> (r: u64)
    ensures
        r as int == rel_op_tag(op),
{
    match op {
        RelOp::Eq => 1,
        RelOp::Ne => 2,
    }
}

/// The packed opcode encoding of a `(class, arg0, arg1)` triple.
pub open spec fn opcode_encoding(class: int, arg0: int, arg1: int) -> int {
    class * (OPCODE_CLASS_BASE as int) + arg0 * (OPCODE_ARG0_BASE as int) + arg1 * (
    OPCODE_ARG1_BASE as int)
}

/// Packs an opcode class with its two discriminants into one field element.
pub fn encode_opcode(class: OpcodeClass, arg0: u64, arg1: u64) -> (r: u64)
    requires
        arg0 < OPCODE_PART_BOUND,
        arg1 < OPCODE_PART_BOUND,
    ensures
        r as int == opcode_encoding(opcode_class_tag(class), arg0 as int, arg1 as int),
        r < OPCODE_ENCODING_BOUND,
{
    let tag = opcode_class_tag_value(class);
    tag * OPCODE_CLASS_BASE + arg0 * OPCODE_ARG0_BASE + arg1 * OPCODE_ARG1_BASE
}

/// The packed encoding is injective over the domain of valid triples: no two
/// distinct opcodes collide under the shift scheme.
pub proof fn lemma_opcode_encoding_injective(
    c1: int,
    a1: int,
    b1: int,
    c2: int,
    a2: int,
    b2: int,
)
    requires
        0 <= c1 < OPCODE_PART_BOUND as int,
        0 <= a1 < OPCODE_PART_BOUND as int,
        0 <= b1 < OPCODE_PART_BOUND as int,
        0 <= c2 < OPCODE_PART_BOUND as int,
        0 <= a2 < OPCODE_PART_BOUND as int,
        0 <= b2 < OPCODE_PART_BOUND as int,
        opcode_encoding(c1, a1, b1) == opcode_encoding(c2, a2, b2),
    ensures
        c1 == c2,
        a1 == a2,
        b1 == b2,
{
    let e = opcode_encoding(c1, a1, b1);
    // Strip the common 2^16 factor, then read the two base-2^16 digits above
    // it off with the uniqueness of quotient and remainder.
    let v1 = c1 * 0x100000000 + a1 * 0x10000 + b1;
    let v2 = c2 * 0x100000000 + a2 * 0x10000 + b2;
    lemma_fundamental_div_mod_converse(e, 0x10000, v1, 0);
    lemma_fundamental_div_mod_converse(e, 0x10000, v2, 0);
    assert(v1 == v2);
    lemma_fundamental_div_mod_converse(v1, 0x10000, c1 * 0x10000 + a1, b1);
    lemma_fundamental_div_mod_converse(v2, 0x10000, c2 * 0x10000 + a2, b2);
    assert(c1 * 0x10000 + a1 == c2 * 0x10000 + a2);
    lemma_fundamental_div_mod_converse(c1 * 0x10000 + a1, 0x10000, c1, a1);
    lemma_fundamental_div_mod_converse(c2 * 0x10000 + a2, 0x10000, c2, a2);
}

} // verus!
