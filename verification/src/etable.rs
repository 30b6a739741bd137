//! The event table: execution-trace entries, the per-row witness context and
//! the per-step columns every opcode module shares.

use vstd::prelude::*;
use crate::builder::ColumnAllocator;
use crate::itable::{OpcodeClass, RelOp};

verus! {

/// The opcode-specific payload of one execution step, one tagged variant per
/// instruction semantics. Produced by the external interpreter.
#[derive(Clone, Copy, PartialEq, Eq, Structural, Debug)]
pub enum StepInfo {
    /// An integer comparison: both operands, the sub-operation executed and
    /// the boolean outcome.
    I32Comp { op: RelOp, left: i32, right: i32, value: bool },
    /// A constant pushed onto the stack.
    I32Const { imm: i32 },
}

/// One executed instruction step of the trace handed over by the
/// interpreter: its monotonic step identifier, the stack pointer before the
/// step and the opcode-specific payload.
#[derive(Clone, Copy, PartialEq, Eq, Structural, Debug)]
pub struct EventTableEntry {
    pub eid: u64,
    pub sp: u64,
    pub step_info: StepInfo,
}

/// What went wrong while assigning one row.
#[derive(Clone, Copy, PartialEq, Eq, Structural, Debug)]
pub enum AssignErrorKind {
    /// The trace entry's payload variant does not belong to the dispatched
    /// module: an internal-consistency violation of the dispatcher.
    StepMismatch,
    /// A value does not lie in the range its declared type admits.
    ValueOutOfType,
}

/// An assignment failure, tagged with the execution step and the opcode
/// module it arose in so a defect traces back to one executed instruction.
#[derive(Clone, Copy, PartialEq, Eq, Structural, Debug)]
pub struct AssignError {
    pub eid: u64,
    pub class: OpcodeClass,
    pub kind: AssignErrorKind,
}

/// The witness values of one row, indexed by column.
pub struct Context {
    pub values: Vec<u64>,
}

impl Context {
    /// A fresh row with every one of `ncols` cells zero.
    pub fn new(ncols: usize) -> (r: Context)
        ensures
            r.values@.len() == ncols,
            forall|i: int| 0 <= i < ncols ==> r.values@[i] == 0,
    {
        let mut values: Vec<u64> = Vec::new();
        let mut i: usize = 0;
        while i < ncols
            invariant
                values@.len() == i,
                i <= ncols,
                forall|j: int| 0 <= j < i ==> values@[j] == 0,
            decreases ncols - i,
        {
            values.push(0);
            i = i + 1;
        }
        Context { values }
    }

    /// Writes one cell of the row.
    pub fn set(&mut self, col: usize, value: u64)
        requires
            col < old(self).values@.len(),
        ensures
            final(self).values@ == old(self).values@.update(col as int, value),
    {
        self.values.set(col, value);
    }

    /// Reads one cell of the row.
    pub fn get(&self, col: usize) -> (r: u64)
        requires
            col < self.values@.len(),
        ensures
            r == self.values@[col as int],
    {
        self.values[col]
    }
}

/// The per-step columns shared by all opcode modules: the execution id, the
/// stack pointer before the step and the row-enable predicate.
pub struct EventTableCommonConfig {
    pub eid: usize,
    pub sp: usize,
    pub enable: usize,
}

impl EventTableCommonConfig {
    /// Draws the three shared columns from the arena.
    pub fn configure(cols: &mut ColumnAllocator) -> (r: EventTableCommonConfig)
        requires
            old(cols).next + 3 <= old(cols).limit,
        ensures
            r.eid == old(cols).next,
            r.sp == old(cols).next + 1,
            r.enable == old(cols).next + 2,
            final(cols).next == old(cols).next + 3,
            final(cols).limit == old(cols).limit,
    {
        let eid = cols.next_column();
        let sp = cols.next_column();
        let enable = cols.next_column();
        EventTableCommonConfig { eid, sp, enable }
    }

    /// Writes the shared cells of one active row: its step id, its stack
    /// pointer and the row-enable bit.
    pub fn assign(&self, ctx: &mut Context, eid: u64, sp: u64)
        requires
            self.eid < old(ctx).values@.len(),
            self.sp < old(ctx).values@.len(),
            self.enable < old(ctx).values@.len(),
        ensures
            final(ctx).values@ == old(ctx).values@.update(self.eid as int, eid).update(
                self.sp as int,
                sp,
            ).update(self.enable as int, 1u64),
    {
        ctx.set(self.eid, eid);
        ctx.set(self.sp, sp);
        ctx.set(self.enable, 1);
    }
}

} // verus!
