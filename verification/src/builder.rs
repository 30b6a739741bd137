//! The owned circuit-description builder and the advice-column arena.
//!
//! During the configuration phase every opcode module appends its gates and
//! its lookup wiring to one exclusively borrowed builder and draws fresh
//! columns from one monotonically advancing arena, so distinct modules never
//! alias columns and never share mutable state. The description is read-only
//! thereafter.

use vstd::prelude::*;
use crate::expr::{eval, Expr};
use crate::mtable::{MemoryAccessKind, MemoryLookup};

verus! {

/// An arena of free advice columns, handed out by monotonically advancing
/// offset. Exhaustion of the arena is a circuit-wiring defect, so every
/// module states up front how many columns it draws.
pub struct ColumnAllocator {
    /// Index of the next free column.
    pub next: usize,
    /// Exclusive upper bound of the arena.
    pub limit: usize,
}

impl ColumnAllocator {
    /// An arena over the columns `0 .. limit`.
    pub fn new(limit: usize) -> (r: ColumnAllocator)
        ensures
            r.next == 0,
            r.limit == limit,
    {
        ColumnAllocator { next: 0, limit }
    }

    /// Draws the next free column.
    pub fn next_column(&mut self) -> (c: usize)
        requires
            old(self).next < old(self).limit,
        ensures
            c == old(self).next,
            final(self).next == old(self).next + 1,
            final(self).limit == old(self).limit,
    {
        let c = self.next;
        self.next = self.next + 1;
        c
    }
}

/// One row contributed to the shared range relation: whenever `enable` is
/// nonzero, `vtype` must evaluate to a valid type tag and `value` must lie
/// below the bound that tag declares.
pub struct RangeCheck {
    pub enable: Expr,
    pub vtype: Expr,
    pub value: Expr,
}

/// Whether every gate in a gate list evaluates to zero on a row assignment.
pub open spec fn gates_zero_on(gates: Seq<Expr>, row: Seq<u64>, p: int) -> bool {
    forall|i: int| 0 <= i < gates.len() ==> eval(#[trigger] gates[i], row, p) == 0
}

/// Holds the registered gates, the rows wired into the shared memory
/// relation and the rows wired into the shared range relation.
pub struct ConstraintBuilder {
    pub gates: Vec<Expr>,
    pub memory_lookups: Vec<MemoryLookup>,
    pub range_checks: Vec<RangeCheck>,
}

impl ConstraintBuilder {
    /// An empty description.
    pub fn new() -> (r: ConstraintBuilder)
        ensures
            r.gates@ =~= Seq::<Expr>::empty(),
            r.memory_lookups@ =~= Seq::<MemoryLookup>::empty(),
            r.range_checks@ =~= Seq::<RangeCheck>::empty(),
    {
        ConstraintBuilder { gates: Vec::new(), memory_lookups: Vec::new(), range_checks: Vec::new() }
    }

    /// Registers one gate: a polynomial that must vanish on every row.
    pub fn create_gate(&mut self, gate: Expr)
        ensures
            final(self).gates@ == old(self).gates@.push(gate),
            final(self).memory_lookups@ == old(self).memory_lookups@,
            final(self).range_checks@ == old(self).range_checks@,
    {
        self.gates.push(gate);
    }

    /// Wires one stack read into the shared memory relation.
    pub fn add_stack_read(
        &mut self,
        enable: Expr,
        eid: Expr,
        access_index: Expr,
        address: Expr,
        vtype: Expr,
        value: Expr,
    )
        ensures
            final(self).memory_lookups@ == old(self).memory_lookups@.push(
                MemoryLookup {
                    kind: MemoryAccessKind::Read,
                    enable,
                    eid,
                    access_index,
                    address,
                    vtype,
                    value,
                },
            ),
            final(self).gates@ == old(self).gates@,
            final(self).range_checks@ == old(self).range_checks@,
    {
        self.memory_lookups.push(
            MemoryLookup {
                kind: MemoryAccessKind::Read,
                enable,
                eid,
                access_index,
                address,
                vtype,
                value,
            },
        );
    }

    /// Wires one stack write into the shared memory relation.
    pub fn add_stack_write(
        &mut self,
        enable: Expr,
        eid: Expr,
        access_index: Expr,
        address: Expr,
        vtype: Expr,
        value: Expr,
    )
        ensures
            final(self).memory_lookups@ == old(self).memory_lookups@.push(
                MemoryLookup {
                    kind: MemoryAccessKind::Write,
                    enable,
                    eid,
                    access_index,
                    address,
                    vtype,
                    value,
                },
            ),
            final(self).gates@ == old(self).gates@,
            final(self).range_checks@ == old(self).range_checks@,
    {
        self.memory_lookups.push(
            MemoryLookup {
                kind: MemoryAccessKind::Write,
                enable,
                eid,
                access_index,
                address,
                vtype,
                value,
            },
        );
    }

    /// Wires one typed value into the shared range relation.
    pub fn add_range_check(&mut self, enable: Expr, vtype: Expr, value: Expr)
        ensures
            final(self).range_checks@ == old(self).range_checks@.push(
                RangeCheck { enable, vtype, value },
            ),
            final(self).gates@ == old(self).gates@,
            final(self).memory_lookups@ == old(self).memory_lookups@,
    {
        self.range_checks.push(RangeCheck { enable, vtype, value });
    }

    /// Whether a row assignment satisfies every registered gate.
    pub fn gates_satisfied(&self, row: &Vec<u64>, p: u64) -> (r: bool)
        requires
            p > 0,
        ensures
            r == gates_zero_on(self.gates@, row@, p as int),
    {
        let mut i: usize = 0;
        while i < self.gates.len()
            invariant
                0 <= i <= self.gates.len(),
                p > 0,
                forall|j: int| 0 <= j < i ==> eval(#[trigger] self.gates@[j], row@, p as int) == 0,
            decreases self.gates.len() - i,
        {
            if self.gates[i].evaluate(row, p) != 0 {
                return false;
            }
            i = i + 1;
        }
        true
    }
}

} // verus!
