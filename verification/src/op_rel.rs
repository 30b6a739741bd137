//! The relational-operator opcode module: equality and inequality comparison.
//!
//! An active row pops the right operand, pops the left operand, compares them
//! under the selected sub-operation and pushes the boolean outcome, shrinking
//! the stack by one slot. The module's gates force the two sub-case
//! selectors and the result to be boolean, the selectors to partition the
//! activation, and the two operands to share a type; its lookups wire the
//! two pops and the push into the shared memory relation.

use vstd::prelude::*;
use vstd::arithmetic::div_mod::{lemma_fundamental_div_mod_converse, lemma_small_mod};
use crate::builder::{gates_zero_on, ColumnAllocator, ConstraintBuilder};
use crate::field::{fadd, fmul, fsub, lemma_boolean_gate, lemma_difference_gate, lemma_factor_zero, lemma_mul_zero, lemma_partition_gate, prime_modulus};
use crate::etable::{
    AssignError, AssignErrorKind, Context, EventTableCommonConfig, EventTableEntry, StepInfo,
};
use crate::expr::{eval, lemma_eval_bounded, Expr};
use crate::itable::{
    opcode_class_tag, opcode_class_tag_value, opcode_encoding, rel_op_tag, rel_op_tag_value,
    OpcodeClass, RelOp, OPCODE_ARG0_BASE, OPCODE_ARG1_BASE, OPCODE_CLASS_BASE,
    OPCODE_ENCODING_BOUND, OPCODE_PART_BOUND,
};
use crate::mtable::{var_type_tag, MemoryAccessKind, MemoryLookup};
use crate::tvalue::{tvalue_range_check, TValueConfig};

verus! {

/// The columns of the relational-operator module: the two sub-case
/// selectors, the boolean result, the two operand slots and the module's
/// one-hot opcode-class selector.
pub struct RelOpConfig {
    pub left: TValueConfig,
    pub right: TValueConfig,
    pub res: usize,
    pub enable: usize,
    pub is_eq: usize,
    pub is_ne: usize,
}

/// Constructs the relational-operator configuration.
pub struct RelOpConfigBuilder {}

/// The columns the module draws from the arena.
pub const REL_OP_COLUMNS: usize = 7;

/// The module's activation: its one-hot class selector times the row-enable
/// predicate.
pub open spec fn rel_activation(cfg: RelOpConfig, enable: Expr) -> Expr {
    Expr::Mul(Box::new(Expr::Cell(cfg.enable)), Box::new(enable))
}

/// The polynomial of one boolean gate, before scaling by the row-enable
/// predicate: `x * (x - 1)`.
pub open spec fn boolean_inner(cell: usize) -> Expr {
    Expr::Mul(
        Box::new(Expr::Cell(cell)),
        Box::new(Expr::Sub(Box::new(Expr::Cell(cell)), Box::new(Expr::Const(1)))),
    )
}

/// The boolean gate `x * (x - 1) = 0` on one cell, scaled by the row-enable
/// predicate.
pub open spec fn boolean_gate(cell: usize, enable: Expr) -> Expr {
    Expr::Mul(Box::new(boolean_inner(cell)), Box::new(enable))
}

/// The polynomial of the partition gate, before scaling: `is_eq + is_ne - 1`.
pub open spec fn partition_inner(cfg: RelOpConfig) -> Expr {
    Expr::Sub(
        Box::new(Expr::Add(Box::new(Expr::Cell(cfg.is_eq)), Box::new(Expr::Cell(cfg.is_ne)))),
        Box::new(Expr::Const(1)),
    )
}

/// The partition gate `is_eq + is_ne - 1 = 0`, scaled by the row-enable
/// predicate: the two sub-cases are exhaustive and mutually exclusive.
pub open spec fn partition_gate(cfg: RelOpConfig, enable: Expr) -> Expr {
    Expr::Mul(Box::new(partition_inner(cfg)), Box::new(enable))
}

/// The polynomial of the type-agreement gate, before scaling:
/// `left.vtype - right.vtype`.
pub open spec fn vtype_inner(cfg: RelOpConfig) -> Expr {
    Expr::Sub(Box::new(Expr::Cell(cfg.left.vtype)), Box::new(Expr::Cell(cfg.right.vtype)))
}

/// The type-agreement gate `left.vtype - right.vtype = 0`, scaled by the
/// row-enable predicate.
pub open spec fn vtype_gate(cfg: RelOpConfig, enable: Expr) -> Expr {
    Expr::Mul(Box::new(vtype_inner(cfg)), Box::new(enable))
}

/// The five gate polynomials the module registers, in registration order.
pub open spec fn rel_gate_exprs(cfg: RelOpConfig, enable: Expr) -> Seq<Expr> {
    seq![
        boolean_gate(cfg.is_eq, enable),
        boolean_gate(cfg.is_ne, enable),
        partition_gate(cfg, enable),
        boolean_gate(cfg.res, enable),
        vtype_gate(cfg, enable),
    ]
}

/// The three rows the module wires into the shared memory relation: pop the
/// right operand at `sp - 1`, pop the left operand at `sp - 2`, push the
/// boolean result at `sp - 2`.
pub open spec fn rel_memory_lookups(
    cfg: RelOpConfig,
    common: EventTableCommonConfig,
    enable: Expr,
) -> Seq<MemoryLookup> {
    seq![
        MemoryLookup {
            kind: MemoryAccessKind::Read,
            enable: rel_activation(cfg, enable),
            eid: Expr::Cell(common.eid),
            access_index: Expr::Const(1),
            address: Expr::Sub(Box::new(Expr::Cell(common.sp)), Box::new(Expr::Const(1))),
            vtype: Expr::Cell(cfg.right.vtype),
            value: Expr::Cell(cfg.right.value),
        },
        MemoryLookup {
            kind: MemoryAccessKind::Read,
            enable: rel_activation(cfg, enable),
            eid: Expr::Cell(common.eid),
            access_index: Expr::Const(2),
            address: Expr::Sub(Box::new(Expr::Cell(common.sp)), Box::new(Expr::Const(2))),
            vtype: Expr::Cell(cfg.left.vtype),
            value: Expr::Cell(cfg.left.value),
        },
        MemoryLookup {
            kind: MemoryAccessKind::Write,
            enable: rel_activation(cfg, enable),
            eid: Expr::Cell(common.eid),
            access_index: Expr::Const(3),
            address: Expr::Sub(Box::new(Expr::Cell(common.sp)), Box::new(Expr::Const(2))),
            vtype: Expr::Const(var_type_tag(crate::mtable::VarType::Bool) as u64),
            value: Expr::Cell(cfg.res),
        },
    ]
}

/// The module's contribution to the global fetched-opcode check: the packed
/// encoding of the executed relational instruction, scaled by the module's
/// class selector so inactive rows contribute zero.
pub open spec fn rel_opcode_expr(cfg: RelOpConfig) -> Expr {
    Expr::Mul(
        Box::new(
            Expr::Add(
                Box::new(
                    Expr::Add(
                        Box::new(
                            Expr::Add(
                                Box::new(
                                    Expr::Const(
                                        (opcode_class_tag(OpcodeClass::Rel) * (
                                        OPCODE_CLASS_BASE as int)) as u64,
                                    ),
                                ),
                                Box::new(
                                    Expr::Mul(
                                        Box::new(Expr::Cell(cfg.is_eq)),
                                        Box::new(
                                            Expr::Const(
                                                (rel_op_tag(RelOp::Eq) * (
                                                OPCODE_ARG0_BASE as int)) as u64,
                                            ),
                                        ),
                                    ),
                                ),
                            ),
                        ),
                        Box::new(
                            Expr::Mul(
                                Box::new(Expr::Cell(cfg.is_ne)),
                                Box::new(
                                    Expr::Const(
                                        (rel_op_tag(RelOp::Ne) * (OPCODE_ARG0_BASE as int)) as u64,
                                    ),
                                ),
                            ),
                        ),
                    ),
                ),
                Box::new(
                    Expr::Mul(
                        Box::new(Expr::Cell(cfg.left.vtype)),
                        Box::new(Expr::Const(OPCODE_ARG1_BASE)),
                    ),
                ),
            ),
        ),
        Box::new(Expr::Cell(cfg.enable)),
    )
}

/// The module's contribution to the global stack-pointer transition check:
/// an active row advances `sp` by one slot — the net effect of two pops and
/// one push is a stack one slot shorter.
pub open spec fn rel_sp_diff_expr(cfg: RelOpConfig) -> Expr {
    Expr::Mul(Box::new(Expr::Const(1)), Box::new(Expr::Cell(cfg.enable)))
}

/// The module's columns are the seven drawn consecutively from `base`, plus
/// a class selector allocated earlier.
pub open spec fn rel_cols_layout(cfg: RelOpConfig, base: int) -> bool {
    &&& cfg.is_eq == base
    &&& cfg.is_ne == base + 1
    &&& cfg.res == base + 2
    &&& cfg.left.vtype == base + 3
    &&& cfg.left.value == base + 4
    &&& cfg.right.vtype == base + 5
    &&& cfg.right.value == base + 6
    &&& cfg.enable < base
}

/// All of the module's columns address cells of a row of width `n`.
pub open spec fn rel_cols_within(cfg: RelOpConfig, n: int) -> bool {
    &&& cfg.is_eq < n
    &&& cfg.is_ne < n
    &&& cfg.res < n
    &&& cfg.left.vtype < n
    &&& cfg.left.value < n
    &&& cfg.right.vtype < n
    &&& cfg.right.value < n
    &&& cfg.enable < n
}

/// The row that assigning an integer-comparison step to `row` produces, in
/// write order: the class selector, the two sub-case selectors, the left and
/// right operand slots with their 32-bit type tag, and the boolean result.
pub open spec fn rel_assigned_row(
    cfg: RelOpConfig,
    row: Seq<u64>,
    op: RelOp,
    left: i32,
    right: i32,
    value: bool,
) -> Seq<u64> {
    row.update(cfg.enable as int, 1u64).update(
        cfg.is_eq as int,
        if op == RelOp::Eq {
            1u64
        } else {
            0u64
        },
    ).update(
        cfg.is_ne as int,
        if op == RelOp::Ne {
            1u64
        } else {
            0u64
        },
    ).update(cfg.left.vtype as int, var_type_tag(crate::mtable::VarType::I32) as u64).update(
        cfg.left.value as int,
        left as u32 as u64,
    ).update(cfg.right.vtype as int, var_type_tag(crate::mtable::VarType::I32) as u64).update(
        cfg.right.value as int,
        right as u32 as u64,
    ).update(
        cfg.res as int,
        if value {
            1u64
        } else {
            0u64
        },
    )
}

impl RelOpConfigBuilder {
    /// Draws the module's columns from the arena, registers its five gates,
    /// its two operand range rows and its three memory rows, and returns the
    /// configuration. `opcode_bit` is the module's one-hot class selector,
    /// allocated by the caller before the arena position; `enable` is the
    /// row-enable predicate shared by all gates of the event table.
    pub fn configure(
        meta: &mut ConstraintBuilder,
        common: &EventTableCommonConfig,
        opcode_bit: usize,
        cols: &mut ColumnAllocator,
        enable: &Expr,
    ) -> (r: RelOpConfig)
        requires
            old(cols).next + REL_OP_COLUMNS <= old(cols).limit,
            opcode_bit < old(cols).next,
        ensures
            rel_cols_layout(r, old(cols).next as int),
            r.enable == opcode_bit,
            final(cols).next == old(cols).next + REL_OP_COLUMNS,
            final(cols).limit == old(cols).limit,
            final(meta).gates@ =~= old(meta).gates@ + rel_gate_exprs(r, *enable),
            final(meta).memory_lookups@ =~= old(meta).memory_lookups@ + rel_memory_lookups(
                r,
                *common,
                *enable,
            ),
            final(meta).range_checks@ =~= old(meta).range_checks@ + seq![
                tvalue_range_check(r.left, rel_activation(r, *enable)),
                tvalue_range_check(r.right, rel_activation(r, *enable)),
            ],
    {
        let is_eq = cols.next_column();
        let is_ne = cols.next_column();
        let res = cols.next_column();

        let left_activation = Expr::Mul(
            Box::new(Expr::Cell(opcode_bit)),
            Box::new(enable.dup()),
        );
        let left = TValueConfig::configure(meta, cols, &left_activation);
        let right_activation = Expr::Mul(
            Box::new(Expr::Cell(opcode_bit)),
            Box::new(enable.dup()),
        );
        let right = TValueConfig::configure(meta, cols, &right_activation);

        let r = RelOpConfig { left, right, res, enable: opcode_bit, is_eq, is_ne };

        meta.create_gate(
            Expr::Mul(
                Box::new(
                    Expr::Mul(
                        Box::new(Expr::Cell(is_eq)),
                        Box::new(Expr::Sub(Box::new(Expr::Cell(is_eq)), Box::new(Expr::Const(1)))),
                    ),
                ),
                Box::new(enable.dup()),
            ),
        );
        meta.create_gate(
            Expr::Mul(
                Box::new(
                    Expr::Mul(
                        Box::new(Expr::Cell(is_ne)),
                        Box::new(Expr::Sub(Box::new(Expr::Cell(is_ne)), Box::new(Expr::Const(1)))),
                    ),
                ),
                Box::new(enable.dup()),
            ),
        );
        meta.create_gate(
            Expr::Mul(
                Box::new(
                    Expr::Sub(
                        Box::new(
                            Expr::Add(
                                Box::new(Expr::Cell(is_eq)),
                                Box::new(Expr::Cell(is_ne)),
                            ),
                        ),
                        Box::new(Expr::Const(1)),
                    ),
                ),
                Box::new(enable.dup()),
            ),
        );
        meta.create_gate(
            Expr::Mul(
                Box::new(
                    Expr::Mul(
                        Box::new(Expr::Cell(res)),
                        Box::new(Expr::Sub(Box::new(Expr::Cell(res)), Box::new(Expr::Const(1)))),
                    ),
                ),
                Box::new(enable.dup()),
            ),
        );

        meta.add_stack_read(
            Expr::Mul(Box::new(Expr::Cell(opcode_bit)), Box::new(enable.dup())),
            Expr::Cell(common.eid),
            Expr::Const(1),
            Expr::Sub(Box::new(Expr::Cell(common.sp)), Box::new(Expr::Const(1))),
            Expr::Cell(r.right.vtype),
            Expr::Cell(r.right.value),
        );
        meta.add_stack_read(
            Expr::Mul(Box::new(Expr::Cell(opcode_bit)), Box::new(enable.dup())),
            Expr::Cell(common.eid),
            Expr::Const(2),
            Expr::Sub(Box::new(Expr::Cell(common.sp)), Box::new(Expr::Const(2))),
            Expr::Cell(r.left.vtype),
            Expr::Cell(r.left.value),
        );
        meta.add_stack_write(
            Expr::Mul(Box::new(Expr::Cell(opcode_bit)), Box::new(enable.dup())),
            Expr::Cell(common.eid),
            Expr::Const(3),
            Expr::Sub(Box::new(Expr::Cell(common.sp)), Box::new(Expr::Const(2))),
            Expr::Const(crate::mtable::var_type_tag_value(crate::mtable::VarType::Bool)),
            Expr::Cell(res),
        );

        meta.create_gate(
            Expr::Mul(
                Box::new(
                    Expr::Sub(
                        Box::new(Expr::Cell(r.left.vtype)),
                        Box::new(Expr::Cell(r.right.vtype)),
                    ),
                ),
                Box::new(enable.dup()),
            ),
        );

        r
    }
}

impl RelOpConfig {
    /// The symbolic opcode encoding this row contributes to the global
    /// fetched-opcode consistency check.
    pub fn opcode(&self) -> (e: Expr)
        ensures
            e == rel_opcode_expr(*self),
    {
        let class_part = opcode_class_tag_value(OpcodeClass::Rel) * OPCODE_CLASS_BASE;
        let eq_part = rel_op_tag_value(RelOp::Eq) * OPCODE_ARG0_BASE;
        let ne_part = rel_op_tag_value(RelOp::Ne) * OPCODE_ARG0_BASE;
        Expr::Mul(
            Box::new(
                Expr::Add(
                    Box::new(
                        Expr::Add(
                            Box::new(
                                Expr::Add(
                                    Box::new(Expr::Const(class_part)),
                                    Box::new(
                                        Expr::Mul(
                                            Box::new(Expr::Cell(self.is_eq)),
                                            Box::new(Expr::Const(eq_part)),
                                        ),
                                    ),
                                ),
                            ),
                            Box::new(
                                Expr::Mul(
                                    Box::new(Expr::Cell(self.is_ne)),
                                    Box::new(Expr::Const(ne_part)),
                                ),
                            ),
                        ),
                    ),
                    Box::new(
                        Expr::Mul(
                            Box::new(Expr::Cell(self.left.vtype)),
                            Box::new(Expr::Const(OPCODE_ARG1_BASE)),
                        ),
                    ),
                ),
            ),
            Box::new(Expr::Cell(self.enable)),
        )
    }

    /// The symbolic stack-pointer advance this row contributes to the global
    /// stack-pointer transition check: one slot on active rows, zero
    /// elsewhere.
    pub fn sp_diff(&self) -> (e: Expr)
        ensures
            e == rel_sp_diff_expr(*self),
    {
        Expr::Mul(Box::new(Expr::Const(1)), Box::new(Expr::Cell(self.enable)))
    }

    /// The fixed dispatch identity of this module.
    pub fn opcode_class(&self) -> (c: OpcodeClass)
        ensures
            c == OpcodeClass::Rel,
    {
        OpcodeClass::Rel
    }

    /// Writes the witness cells of one active row from an integer-comparison
    /// trace entry. Any other payload variant reaching this module is an
    /// internal-consistency violation of the dispatcher and is reported,
    /// tagged with the step's `eid`, rather than assumed away.
    pub fn assign(&self, ctx: &mut Context, entry: &EventTableEntry) -> (r: Result<
        (),
        AssignError,
    >)
        requires
            rel_cols_within(*self, old(ctx).values@.len() as int),
        ensures
            match entry.step_info {
                StepInfo::I32Comp { op, left, right, value } => r == Result::<
                    (),
                    AssignError,
                >::Ok(()) && final(ctx).values@ == rel_assigned_row(
                    *self,
                    old(ctx).values@,
                    op,
                    left,
                    right,
                    value,
                ),
                _ => final(ctx).values@ == old(ctx).values@ && r == Result::<
                    (),
                    AssignError,
                >::Err(
                    AssignError {
                        eid: entry.eid,
                        class: OpcodeClass::Rel,
                        kind: AssignErrorKind::StepMismatch,
                    },
                ),
            },
    {
        match entry.step_info {
            StepInfo::I32Comp { op, left, right, value } => {
                ctx.set(self.enable, 1);
                ctx.set(self.is_eq, if matches!(op, RelOp::Eq) { 1 } else { 0 });
                ctx.set(self.is_ne, if matches!(op, RelOp::Ne) { 1 } else { 0 });
                match self.left.assign(ctx, crate::mtable::VarType::I32, left as u32 as u64) {
                    Ok(()) => {}
                    Err(_) => {
                        // A 32-bit pattern always lies in the I32 range, so
                        // the slot write cannot fail.
                        proof {
                            assert(false);
                        }
                    }
                }
                match self.right.assign(ctx, crate::mtable::VarType::I32, right as u32 as u64) {
                    Ok(()) => {}
                    Err(_) => {
                        // As above: the write of a 32-bit pattern cannot fail.
                        proof {
                            assert(false);
                        }
                    }
                }
                ctx.set(self.res, if value { 1 } else { 0 });
                Ok(())
            }
            _ => {
                Err(
                    AssignError {
                        eid: entry.eid,
                        class: OpcodeClass::Rel,
                        kind: AssignErrorKind::StepMismatch,
                    },
                )
            }
        }
    }
}

/// Soundness of the module's gates. On a row where the row-enable predicate
/// is nonzero, the five gates are satisfied only if the two sub-case
/// selectors and the result are each exactly 0 or 1, the selectors partition
/// the activation (`is_eq + is_ne = 1`), and the two operands share a type.
/// No prover-chosen assignment outside these semantics satisfies the gates.
#[verifier::rlimit(60)]
pub proof fn lemma_rel_gates_sound(cfg: RelOpConfig, enable: Expr, row: Seq<u64>, p: int)
    requires
        prime_modulus(p),
        rel_cols_within(cfg, row.len() as int),
        (row[cfg.is_eq as int] as int) < p,
        (row[cfg.is_ne as int] as int) < p,
        (row[cfg.res as int] as int) < p,
        (row[cfg.left.vtype as int] as int) < p,
        (row[cfg.right.vtype as int] as int) < p,
        gates_zero_on(rel_gate_exprs(cfg, enable), row, p),
        eval(enable, row, p) != 0,
    ensures
        row[cfg.is_eq as int] == 0 || row[cfg.is_eq as int] == 1,
        row[cfg.is_ne as int] == 0 || row[cfg.is_ne as int] == 1,
        row[cfg.res as int] == 0 || row[cfg.res as int] == 1,
        row[cfg.is_eq as int] + row[cfg.is_ne as int] == 1,
        row[cfg.left.vtype as int] == row[cfg.right.vtype as int],
{
    reveal_with_fuel(eval, 5);
    lemma_small_mod(1, p as nat);
    let ev_en = eval(enable, row, p);
    lemma_eval_bounded(enable, row, p);
    let gates = rel_gate_exprs(cfg, enable);

    lemma_boolean_cell_sound(cfg.is_eq, enable, row, p, gates[0]);
    lemma_boolean_cell_sound(cfg.is_ne, enable, row, p, gates[1]);
    lemma_boolean_cell_sound(cfg.res, enable, row, p, gates[3]);

    let x = row[cfg.is_eq as int] as int;
    let y = row[cfg.is_ne as int] as int;
    lemma_small_mod(x as nat, p as nat);
    lemma_small_mod(y as nat, p as nat);
    let sum_expr = Expr::Sub(
        Box::new(Expr::Add(Box::new(Expr::Cell(cfg.is_eq)), Box::new(Expr::Cell(cfg.is_ne)))),
        Box::new(Expr::Const(1)),
    );
    assert(eval(gates[2], row, p) == 0);
    assert(eval(gates[2], row, p) == fmul(p, eval(sum_expr, row, p), ev_en));
    lemma_eval_bounded(sum_expr, row, p);
    lemma_factor_zero(p, eval(sum_expr, row, p), ev_en);
    assert(eval(sum_expr, row, p) == fsub(p, fadd(p, x, y), 1));
    lemma_partition_gate(p, x, y);

    let lt = row[cfg.left.vtype as int] as int;
    let rt = row[cfg.right.vtype as int] as int;
    lemma_small_mod(lt as nat, p as nat);
    lemma_small_mod(rt as nat, p as nat);
    let diff_expr = Expr::Sub(
        Box::new(Expr::Cell(cfg.left.vtype)),
        Box::new(Expr::Cell(cfg.right.vtype)),
    );
    assert(eval(gates[4], row, p) == 0);
    assert(eval(gates[4], row, p) == fmul(p, eval(diff_expr, row, p), ev_en));
    lemma_eval_bounded(diff_expr, row, p);
    lemma_factor_zero(p, eval(diff_expr, row, p), ev_en);
    assert(eval(diff_expr, row, p) == fsub(p, lt, rt));
    lemma_difference_gate(p, lt, rt);
}

/// One boolean gate is satisfied on an enabled row only if its cell holds
/// exactly 0 or 1.
proof fn lemma_boolean_cell_sound(cell: usize, enable: Expr, row: Seq<u64>, p: int, gate: Expr)
    requires
        prime_modulus(p),
        cell < row.len(),
        (row[cell as int] as int) < p,
        gate == boolean_gate(cell, enable),
        eval(gate, row, p) == 0,
        eval(enable, row, p) != 0,
    ensures
        row[cell as int] == 0 || row[cell as int] == 1,
{
    reveal_with_fuel(eval, 5);
    lemma_small_mod(1, p as nat);
    let x = row[cell as int] as int;
    lemma_small_mod(x as nat, p as nat);
    let ev_en = eval(enable, row, p);
    lemma_eval_bounded(enable, row, p);
    let inner = Expr::Mul(
        Box::new(Expr::Cell(cell)),
        Box::new(Expr::Sub(Box::new(Expr::Cell(cell)), Box::new(Expr::Const(1)))),
    );
    assert(eval(gate, row, p) == fmul(p, eval(inner, row, p), ev_en));
    lemma_eval_bounded(inner, row, p);
    lemma_factor_zero(p, eval(inner, row, p), ev_en);
    assert(eval(inner, row, p) == fmul(p, x, fsub(p, x, 1)));
    lemma_boolean_gate(p, x);
}

/// A gate of the shape `inner * enable` vanishes when its inner polynomial
/// does, whatever the row-enable predicate evaluates to.
proof fn lemma_scaled_gate_inner_zero(inner: Expr, enable: Expr, row: Seq<u64>, p: int)
    requires
        p > 0,
        eval(inner, row, p) == 0,
    ensures
        eval(Expr::Mul(Box::new(inner), Box::new(enable)), row, p) == 0,
{
    lemma_mul_zero(p, 0, eval(enable, row, p));
}

/// A gate of the shape `inner * enable` vanishes when the row-enable
/// predicate does, whatever the cells hold.
proof fn lemma_scaled_gate_enable_zero(inner: Expr, enable: Expr, row: Seq<u64>, p: int)
    requires
        p > 0,
        eval(enable, row, p) == 0,
    ensures
        eval(Expr::Mul(Box::new(inner), Box::new(enable)), row, p) == 0,
{
    lemma_mul_zero(p, eval(inner, row, p), 0);
}

/// The boolean polynomial vanishes on a cell holding 0 or 1.
proof fn lemma_boolean_inner_zero(cell: usize, row: Seq<u64>, p: int)
    requires
        p > 2,
        cell < row.len(),
        row[cell as int] == 0 || row[cell as int] == 1,
    ensures
        eval(boolean_inner(cell), row, p) == 0,
{
    reveal_with_fuel(eval, 3);
    lemma_small_mod(1, p as nat);
    let x = row[cell as int] as int;
    lemma_small_mod(x as nat, p as nat);
    if x == 0 {
        lemma_mul_zero(p, 0, fsub(p, x, 1));
    } else {
        lemma_fundamental_div_mod_converse(p, p, 1, 0);
        assert(fsub(p, x, 1) == 0);
        lemma_mul_zero(p, x, 0);
    }
}

/// The partition polynomial vanishes exactly when one selector is set.
proof fn lemma_partition_inner_zero(cfg: RelOpConfig, row: Seq<u64>, p: int)
    requires
        p > 2,
        cfg.is_eq < row.len(),
        cfg.is_ne < row.len(),
        row[cfg.is_eq as int] == 0 || row[cfg.is_eq as int] == 1,
        row[cfg.is_ne as int] == 0 || row[cfg.is_ne as int] == 1,
        row[cfg.is_eq as int] + row[cfg.is_ne as int] == 1,
    ensures
        eval(partition_inner(cfg), row, p) == 0,
{
    reveal_with_fuel(eval, 3);
    lemma_small_mod(1, p as nat);
    let x = row[cfg.is_eq as int] as int;
    let y = row[cfg.is_ne as int] as int;
    lemma_small_mod(x as nat, p as nat);
    lemma_small_mod(y as nat, p as nat);
    lemma_partition_gate(p, x, y);
}

/// The type-agreement polynomial vanishes on agreeing canonical type tags.
proof fn lemma_vtype_inner_zero(cfg: RelOpConfig, row: Seq<u64>, p: int)
    requires
        p > 0,
        cfg.left.vtype < row.len(),
        cfg.right.vtype < row.len(),
        row[cfg.left.vtype as int] == row[cfg.right.vtype as int],
        (row[cfg.left.vtype as int] as int) < p,
    ensures
        eval(vtype_inner(cfg), row, p) == 0,
{
    reveal_with_fuel(eval, 2);
    let lt = row[cfg.left.vtype as int] as int;
    lemma_small_mod(lt as nat, p as nat);
    lemma_difference_gate(p, lt, lt);
}

/// Completeness of the module's gates: a row whose selectors and result are
/// boolean, whose selectors partition the activation and whose operand types
/// agree satisfies all five gates, whatever the row-enable predicate
/// evaluates to. Together with `lemma_rel_gates_sound` this makes gate
/// satisfaction on an enabled row hold exactly on the intended semantics.
pub proof fn lemma_rel_gates_complete(cfg: RelOpConfig, enable: Expr, row: Seq<u64>, p: int)
    requires
        p > 2,
        rel_cols_within(cfg, row.len() as int),
        row[cfg.is_eq as int] == 0 || row[cfg.is_eq as int] == 1,
        row[cfg.is_ne as int] == 0 || row[cfg.is_ne as int] == 1,
        row[cfg.res as int] == 0 || row[cfg.res as int] == 1,
        row[cfg.is_eq as int] + row[cfg.is_ne as int] == 1,
        row[cfg.left.vtype as int] == row[cfg.right.vtype as int],
        (row[cfg.left.vtype as int] as int) < p,
    ensures
        gates_zero_on(rel_gate_exprs(cfg, enable), row, p),
{
    let gates = rel_gate_exprs(cfg, enable);
    lemma_boolean_inner_zero(cfg.is_eq, row, p);
    lemma_scaled_gate_inner_zero(boolean_inner(cfg.is_eq), enable, row, p);
    lemma_boolean_inner_zero(cfg.is_ne, row, p);
    lemma_scaled_gate_inner_zero(boolean_inner(cfg.is_ne), enable, row, p);
    lemma_boolean_inner_zero(cfg.res, row, p);
    lemma_scaled_gate_inner_zero(boolean_inner(cfg.res), enable, row, p);
    lemma_partition_inner_zero(cfg, row, p);
    lemma_scaled_gate_inner_zero(partition_inner(cfg), enable, row, p);
    lemma_vtype_inner_zero(cfg, row, p);
    lemma_scaled_gate_inner_zero(vtype_inner(cfg), enable, row, p);
    assert forall|i: int| 0 <= i < gates.len() implies eval(#[trigger] gates[i], row, p) == 0 by {
        if i == 0 {
            assert(eval(gates[0], row, p) == 0);
        } else if i == 1 {
            assert(eval(gates[1], row, p) == 0);
        } else if i == 2 {
            assert(eval(gates[2], row, p) == 0);
        } else if i == 3 {
            assert(eval(gates[3], row, p) == 0);
        } else {
            assert(eval(gates[4], row, p) == 0);
        }
    }
}

/// Rows where the row-enable predicate evaluates to zero are unconstrained:
/// every gate of the module vanishes there, whatever the cells hold.
pub proof fn lemma_rel_gates_inactive(cfg: RelOpConfig, enable: Expr, row: Seq<u64>, p: int)
    requires
        p > 0,
        eval(enable, row, p) == 0,
    ensures
        gates_zero_on(rel_gate_exprs(cfg, enable), row, p),
{
    let gates = rel_gate_exprs(cfg, enable);
    lemma_scaled_gate_enable_zero(boolean_inner(cfg.is_eq), enable, row, p);
    lemma_scaled_gate_enable_zero(boolean_inner(cfg.is_ne), enable, row, p);
    lemma_scaled_gate_enable_zero(boolean_inner(cfg.res), enable, row, p);
    lemma_scaled_gate_enable_zero(partition_inner(cfg), enable, row, p);
    lemma_scaled_gate_enable_zero(vtype_inner(cfg), enable, row, p);
    assert forall|i: int| 0 <= i < gates.len() implies eval(#[trigger] gates[i], row, p) == 0 by {
        if i == 0 {
            assert(eval(gates[0], row, p) == 0);
        } else if i == 1 {
            assert(eval(gates[1], row, p) == 0);
        } else if i == 2 {
            assert(eval(gates[2], row, p) == 0);
        } else if i == 3 {
            assert(eval(gates[3], row, p) == 0);
        } else {
            assert(eval(gates[4], row, p) == 0);
        }
    }
}


/// Stack-pointer conservation: the module's declared pointer advance
/// evaluates to exactly one slot on a row where its class selector is set —
/// the net effect of two pops and one push is a stack one slot shorter — and
/// to zero where it is not.
pub proof fn lemma_rel_sp_diff(cfg: RelOpConfig, row: Seq<u64>, p: int)
    requires
        p > 2,
        cfg.enable < row.len(),
        row[cfg.enable as int] == 0 || row[cfg.enable as int] == 1,
    ensures
        eval(rel_sp_diff_expr(cfg), row, p) == row[cfg.enable as int] as int,
{
    reveal_with_fuel(eval, 5);
    lemma_small_mod(1, p as nat);
    let e = row[cfg.enable as int] as int;
    lemma_small_mod(e as nat, p as nat);
    assert(1 * e == e);
}


/// The activation of the module's lookups — the class selector times the
/// row-enable predicate — is the row-enable value exactly when the one-hot
/// selector is set, and zero when it is not.
pub proof fn lemma_rel_activation_value(cfg: RelOpConfig, enable: Expr, row: Seq<u64>, p: int)
    requires
        p > 1,
        cfg.enable < row.len(),
        row[cfg.enable as int] == 0 || row[cfg.enable as int] == 1,
    ensures
        row[cfg.enable as int] == 0 ==> eval(rel_activation(cfg, enable), row, p) == 0,
        row[cfg.enable as int] == 1 ==> eval(rel_activation(cfg, enable), row, p) == eval(
            enable,
            row,
            p,
        ),
{
    reveal_with_fuel(eval, 2);
    let e = row[cfg.enable as int] as int;
    lemma_small_mod(e as nat, p as nat);
    lemma_eval_bounded(enable, row, p);
    let v = eval(enable, row, p);
    if e == 0 {
        lemma_mul_zero(p, 0, v);
    } else {
        assert(1 * v == v);
        lemma_small_mod(v as nat, p as nat);
    }
}

/// Memory-lookup completeness: the module contributes exactly three rows to
/// the shared memory relation, and on a row carrying step id `eid` and stack
/// pointer `sp` they are the pop of the right operand at `sp - 1` with
/// access index 1, the pop of the left operand at `sp - 2` with access index
/// 2, and the push of the boolean result, tagged as boolean, at `sp - 2`
/// with access index 3 — each gated by the module's activation.
#[verifier::rlimit(60)]
pub proof fn lemma_rel_memory_rows(
    cfg: RelOpConfig,
    common: EventTableCommonConfig,
    enable: Expr,
    row: Seq<u64>,
    p: int,
)
    requires
        p > 3,
        rel_cols_within(cfg, row.len() as int),
        common.eid < row.len(),
        common.sp < row.len(),
        (row[common.eid as int] as int) < p,
        (row[common.sp as int] as int) < p,
        row[common.sp as int] >= 2,
        (row[cfg.left.vtype as int] as int) < p,
        (row[cfg.left.value as int] as int) < p,
        (row[cfg.right.vtype as int] as int) < p,
        (row[cfg.right.value as int] as int) < p,
        (row[cfg.res as int] as int) < p,
    ensures
        rel_memory_lookups(cfg, common, enable).len() == 3,
        ({
            let mls = rel_memory_lookups(cfg, common, enable);
            let eid = row[common.eid as int] as int;
            let sp = row[common.sp as int] as int;
            &&& mls[0].kind == MemoryAccessKind::Read
            &&& mls[1].kind == MemoryAccessKind::Read
            &&& mls[2].kind == MemoryAccessKind::Write
            &&& mls[0].enable == rel_activation(cfg, enable)
            &&& mls[1].enable == rel_activation(cfg, enable)
            &&& mls[2].enable == rel_activation(cfg, enable)
            &&& eval(mls[0].eid, row, p) == eid
            &&& eval(mls[1].eid, row, p) == eid
            &&& eval(mls[2].eid, row, p) == eid
            &&& eval(mls[0].access_index, row, p) == 1
            &&& eval(mls[1].access_index, row, p) == 2
            &&& eval(mls[2].access_index, row, p) == 3
            &&& eval(mls[0].address, row, p) == sp - 1
            &&& eval(mls[1].address, row, p) == sp - 2
            &&& eval(mls[2].address, row, p) == sp - 2
            &&& eval(mls[0].vtype, row, p) == row[cfg.right.vtype as int] as int
            &&& eval(mls[0].value, row, p) == row[cfg.right.value as int] as int
            &&& eval(mls[1].vtype, row, p) == row[cfg.left.vtype as int] as int
            &&& eval(mls[1].value, row, p) == row[cfg.left.value as int] as int
            &&& eval(mls[2].vtype, row, p) == var_type_tag(crate::mtable::VarType::Bool)
            &&& eval(mls[2].value, row, p) == row[cfg.res as int] as int
        }),
{
    reveal_with_fuel(eval, 3);
    lemma_small_mod(1, p as nat);
    lemma_small_mod(2, p as nat);
    lemma_small_mod(3, p as nat);
    let eid = row[common.eid as int] as int;
    let sp = row[common.sp as int] as int;
    lemma_small_mod(eid as nat, p as nat);
    lemma_small_mod(sp as nat, p as nat);
    lemma_small_mod(row[cfg.left.vtype as int] as nat, p as nat);
    lemma_small_mod(row[cfg.left.value as int] as nat, p as nat);
    lemma_small_mod(row[cfg.right.vtype as int] as nat, p as nat);
    lemma_small_mod(row[cfg.right.value as int] as nat, p as nat);
    lemma_small_mod(row[cfg.res as int] as nat, p as nat);
    // sp + p - 1 and sp + p - 2 lie in [p, 2p), so their residues are the
    // stack offsets themselves.
    lemma_fundamental_div_mod_converse(sp + p - 1, p, 1, sp - 1);
    lemma_fundamental_div_mod_converse(sp + p - 2, p, 1, sp - 2);
}

/// On a row whose selectors are boolean and partitioning, the module's
/// opcode expression evaluates to zero when the class selector is clear, and
/// otherwise to exactly the packed encoding of the executed instruction:
/// class `Rel`, the selected sub-operation as `arg0` and the operand type
/// tag as `arg1`. With `lemma_opcode_encoding_injective`, distinct
/// instructions therefore contribute distinct field elements to the global
/// fetched-opcode lookup.
#[verifier::rlimit(100)]
pub proof fn lemma_rel_opcode_value(cfg: RelOpConfig, row: Seq<u64>, p: int)
    requires
        p >= OPCODE_ENCODING_BOUND as int,
        rel_cols_within(cfg, row.len() as int),
        row[cfg.is_eq as int] == 0 || row[cfg.is_eq as int] == 1,
        row[cfg.is_ne as int] == 0 || row[cfg.is_ne as int] == 1,
        row[cfg.is_eq as int] + row[cfg.is_ne as int] == 1,
        (row[cfg.left.vtype as int] as int) < OPCODE_PART_BOUND as int,
        row[cfg.enable as int] == 0 || row[cfg.enable as int] == 1,
    ensures
        row[cfg.enable as int] == 0 ==> eval(rel_opcode_expr(cfg), row, p) == 0,
        row[cfg.enable as int] == 1 ==> eval(rel_opcode_expr(cfg), row, p) == opcode_encoding(
            opcode_class_tag(OpcodeClass::Rel),
            if row[cfg.is_eq as int] == 1 {
                rel_op_tag(RelOp::Eq)
            } else {
                rel_op_tag(RelOp::Ne)
            },
            row[cfg.left.vtype as int] as int,
        ),
{
    reveal_with_fuel(eval, 6);
    let x = row[cfg.is_eq as int] as int;
    let y = row[cfg.is_ne as int] as int;
    let vt = row[cfg.left.vtype as int] as int;
    let e = row[cfg.enable as int] as int;
    let c0 = opcode_class_tag(OpcodeClass::Rel) * (OPCODE_CLASS_BASE as int);
    let c_eq = rel_op_tag(RelOp::Eq) * (OPCODE_ARG0_BASE as int);
    let c_ne = rel_op_tag(RelOp::Ne) * (OPCODE_ARG0_BASE as int);
    lemma_small_mod(x as nat, p as nat);
    lemma_small_mod(y as nat, p as nat);
    lemma_small_mod(vt as nat, p as nat);
    lemma_small_mod(e as nat, p as nat);
    lemma_small_mod(c0 as nat, p as nat);
    lemma_small_mod(c_eq as nat, p as nat);
    lemma_small_mod(c_ne as nat, p as nat);
    lemma_small_mod((OPCODE_ARG1_BASE as int) as nat, p as nat);

    let t_eq = fmul(p, x, c_eq);
    if x == 0 {
        lemma_mul_zero(p, 0, c_eq);
    } else {
        assert(1 * c_eq == c_eq);
    }
    assert(t_eq == x * c_eq);
    let t_ne = fmul(p, y, c_ne);
    if y == 0 {
        lemma_mul_zero(p, 0, c_ne);
    } else {
        assert(1 * c_ne == c_ne);
    }
    assert(t_ne == y * c_ne);
    let t_vt = fmul(p, vt, OPCODE_ARG1_BASE as int);
    lemma_small_mod((vt * (OPCODE_ARG1_BASE as int)) as nat, p as nat);
    assert(t_vt == vt * (OPCODE_ARG1_BASE as int));

    let s1 = fadd(p, c0, t_eq);
    lemma_small_mod((c0 + t_eq) as nat, p as nat);
    let s2 = fadd(p, s1, t_ne);
    lemma_small_mod((s1 + t_ne) as nat, p as nat);
    let s3 = fadd(p, s2, t_vt);
    lemma_small_mod((s2 + t_vt) as nat, p as nat);

    if e == 0 {
        lemma_mul_zero(p, s3, 0);
    } else {
        assert(s3 * 1 == s3) by (nonlinear_arith);
        lemma_small_mod(s3 as nat, p as nat);
    }
}

/// A row written by `assign` from an integer-comparison step satisfies every
/// gate of the module, whatever the row held before: witness generation is
/// complete for the module's semantics.
pub proof fn lemma_rel_assign_satisfies_gates(
    cfg: RelOpConfig,
    enable: Expr,
    row: Seq<u64>,
    op: RelOp,
    left: i32,
    right: i32,
    value: bool,
    p: int,
    base: int,
)
    requires
        p > 2,
        rel_cols_layout(cfg, base),
        rel_cols_within(cfg, row.len() as int),
    ensures
        gates_zero_on(
            rel_gate_exprs(cfg, enable),
            rel_assigned_row(cfg, row, op, left, right, value),
            p,
        ),
{
    let arow = rel_assigned_row(cfg, row, op, left, right, value);
    assert(arow.len() == row.len());
    match op {
        RelOp::Eq => {
            assert(arow[cfg.is_eq as int] == 1);
            assert(arow[cfg.is_ne as int] == 0);
        }
        RelOp::Ne => {
            assert(arow[cfg.is_eq as int] == 0);
            assert(arow[cfg.is_ne as int] == 1);
        }
    }
    assert(arow[cfg.res as int] == 0 || arow[cfg.res as int] == 1);
    assert(arow[cfg.left.vtype as int] == 1);
    assert(arow[cfg.right.vtype as int] == 1);
    lemma_rel_gates_complete(cfg, enable, arow, p);
}

} // verus!
