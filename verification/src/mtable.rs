//! The memory-table lookup contract.
//!
//! The shared memory table owns the global read-after-write consistency
//! proof; opcode modules only contribute rows to its relation. A contributed
//! row is the tuple `(enable, eid, access_index, address, vtype, value)`,
//! each component a symbolic expression over the module's columns;
//! `access_index` orders the accesses made within one execution step.

use vstd::prelude::*;
use crate::expr::{eval, Expr};

verus! {

/// The enumerated tag of a typed value; a value's bit pattern must lie below
/// the bound its tag declares.
#[derive(Clone, Copy, PartialEq, Eq, Structural, Debug)]
pub enum VarType {
    I32,
    I64,
    Bool,
}

/// The numeric encoding of a type tag.
pub open spec fn var_type_tag(t: VarType) -> int {
    match t {
        VarType::I32 => 1,
        VarType::I64 => 2,
        VarType::Bool => 3,
    }
}

/// Exclusive upper bound on the bit patterns a type admits.
pub open spec fn var_type_bound(t: VarType) -> int {
    match t {
        VarType::I32 => 0x100000000,
        VarType::I64 => 0x10000000000000000,
        VarType::Bool => 2,
    }
}

/// Executable form of `var_type_tag`.
pub fn var_type_tag_value(t: VarType) -> (r: u64)
    ensures
        r as int == var_type_tag(t),
{
    match t {
        VarType::I32 => 1,
        VarType::I64 => 2,
        VarType::Bool => 3,
    }
}

/// Whether a bit pattern lies in the range its type tag declares.
pub fn value_fits_type(t: VarType, value: u64) -> (r: bool)
    ensures
        r == ((value as int) < var_type_bound(t)),
{
    match t {
        VarType::I32 => value < 0x100000000,
        VarType::I64 => true,
        VarType::Bool => value < 2,
    }
}

/// Whether a memory access reads an existing slot or writes one.
#[derive(Clone, Copy, PartialEq, Eq, Structural, Debug)]
pub enum MemoryAccessKind {
    Read,
    Write,
}

/// One row an opcode module contributes to the shared memory relation,
/// described symbolically at configuration time.
pub struct MemoryLookup {
    pub kind: MemoryAccessKind,
    /// The contribution is present only on rows where this is nonzero.
    pub enable: Expr,
    /// Execution step the access belongs to.
    pub eid: Expr,
    /// Order of this access within its execution step.
    pub access_index: Expr,
    /// Stack address the access touches.
    pub address: Expr,
    /// Type tag of the accessed value.
    pub vtype: Expr,
    /// The accessed value.
    pub value: Expr,
}

/// The concrete memory-relation row a lookup denotes on one row assignment.
#[derive(Clone, Copy, PartialEq, Eq, Structural, Debug)]
pub struct MemoryRow {
    pub kind: MemoryAccessKind,
    pub enable: u64,
    pub eid: u64,
    pub access_index: u64,
    pub address: u64,
    pub vtype: u64,
    pub value: u64,
}

impl MemoryLookup {
    /// Evaluates every component of the lookup on one row assignment,
    /// yielding the concrete tuple the module feeds into the memory relation.
    pub fn row_on(&self, row: &Vec<u64>, p: u64) -> (r: MemoryRow)
        requires
            p > 0,
        ensures
            r.kind == self.kind,
            r.enable as int == eval(self.enable, row@, p as int),
            r.eid as int == eval(self.eid, row@, p as int),
            r.access_index as int == eval(self.access_index, row@, p as int),
            r.address as int == eval(self.address, row@, p as int),
            r.vtype as int == eval(self.vtype, row@, p as int),
            r.value as int == eval(self.value, row@, p as int),
    {
        MemoryRow {
            kind: self.kind,
            enable: self.enable.evaluate(row, p),
            eid: self.eid.evaluate(row, p),
            access_index: self.access_index.evaluate(row, p),
            address: self.address.evaluate(row, p),
            vtype: self.vtype.evaluate(row, p),
            value: self.value.evaluate(row, p),
        }
    }
}

} // verus!
