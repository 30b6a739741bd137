use opcode_circuit::builder::{ColumnAllocator, ConstraintBuilder};
use opcode_circuit::etable::{
    AssignError, AssignErrorKind, Context, EventTableCommonConfig, EventTableEntry, StepInfo,
};
use opcode_circuit::expr::Expr;
use opcode_circuit::itable::{encode_opcode, rel_op_tag_value, OpcodeClass, RelOp};
use opcode_circuit::mtable::{var_type_tag_value, MemoryAccessKind, VarType};
use opcode_circuit::op_rel::{RelOpConfig, RelOpConfigBuilder};

/// The largest prime below 2^64; stands in for a proving field's modulus.
const P: u64 = 18446744073709551557;

const NCOLS: usize = 16;

fn build() -> (ConstraintBuilder, EventTableCommonConfig, RelOpConfig) {
    let mut cols = ColumnAllocator::new(NCOLS);
    let common = EventTableCommonConfig::configure(&mut cols);
    let opcode_bit = cols.next_column();
    let mut meta = ConstraintBuilder::new();
    let enable = Expr::Cell(common.enable);
    let cfg = RelOpConfigBuilder::configure(&mut meta, &common, opcode_bit, &mut cols, &enable);
    (meta, common, cfg)
}

/// The not-equal step of "push 1, push 2, not-equal, drop": reads 1 at the
/// deeper slot, 2 at the shallower one, writes boolean true, with the
/// not-equal selector set; the circuit accepts the witness.
#[test]
fn test_i32_ne() {
    let (meta, common, cfg) = build();
    let entry = EventTableEntry {
        eid: 3,
        sp: 7,
        step_info: StepInfo::I32Comp { op: RelOp::Ne, left: 1, right: 2, value: true },
    };
    let mut ctx = Context::new(NCOLS);
    common.assign(&mut ctx, entry.eid, entry.sp);
    assert!(cfg.assign(&mut ctx, &entry).is_ok());

    assert_eq!(ctx.get(cfg.is_ne), 1);
    assert_eq!(ctx.get(cfg.is_eq), 0);
    assert_eq!(ctx.get(cfg.res), 1);
    assert!(meta.gates_satisfied(&ctx.values, P));

    assert_eq!(meta.memory_lookups.len(), 3);
    let pop_right = meta.memory_lookups[0].row_on(&ctx.values, P);
    assert_eq!(pop_right.kind, MemoryAccessKind::Read);
    assert_eq!(pop_right.enable, 1);
    assert_eq!(pop_right.eid, 3);
    assert_eq!(pop_right.access_index, 1);
    assert_eq!(pop_right.address, 6);
    assert_eq!(pop_right.vtype, var_type_tag_value(VarType::I32));
    assert_eq!(pop_right.value, 2);

    let pop_left = meta.memory_lookups[1].row_on(&ctx.values, P);
    assert_eq!(pop_left.kind, MemoryAccessKind::Read);
    assert_eq!(pop_left.enable, 1);
    assert_eq!(pop_left.eid, 3);
    assert_eq!(pop_left.access_index, 2);
    assert_eq!(pop_left.address, 5);
    assert_eq!(pop_left.vtype, var_type_tag_value(VarType::I32));
    assert_eq!(pop_left.value, 1);

    let push_res = meta.memory_lookups[2].row_on(&ctx.values, P);
    assert_eq!(push_res.kind, MemoryAccessKind::Write);
    assert_eq!(push_res.enable, 1);
    assert_eq!(push_res.eid, 3);
    assert_eq!(push_res.access_index, 3);
    assert_eq!(push_res.address, 5);
    assert_eq!(push_res.vtype, var_type_tag_value(VarType::Bool));
    assert_eq!(push_res.value, 1);
}

/// Equal operands under the equal sub-operation write boolean 1 with
/// `is_eq = 1`, `is_ne = 0`, and the circuit accepts.
#[test]
fn test_i32_eq_equal_operands() {
    let (meta, common, cfg) = build();
    let entry = EventTableEntry {
        eid: 1,
        sp: 4,
        step_info: StepInfo::I32Comp { op: RelOp::Eq, left: 5, right: 5, value: true },
    };
    let mut ctx = Context::new(NCOLS);
    common.assign(&mut ctx, entry.eid, entry.sp);
    assert!(cfg.assign(&mut ctx, &entry).is_ok());
    assert_eq!(ctx.get(cfg.is_eq), 1);
    assert_eq!(ctx.get(cfg.is_ne), 0);
    assert_eq!(ctx.get(cfg.res), 1);
    assert!(meta.gates_satisfied(&ctx.values, P));
}

/// Unequal operands under the equal sub-operation write boolean 0.
#[test]
fn test_i32_eq_unequal_operands() {
    let (meta, common, cfg) = build();
    let entry = EventTableEntry {
        eid: 1,
        sp: 4,
        step_info: StepInfo::I32Comp { op: RelOp::Eq, left: 5, right: 6, value: false },
    };
    let mut ctx = Context::new(NCOLS);
    common.assign(&mut ctx, entry.eid, entry.sp);
    assert!(cfg.assign(&mut ctx, &entry).is_ok());
    assert_eq!(ctx.get(cfg.res), 0);
    assert!(meta.gates_satisfied(&ctx.values, P));
}

/// Forcing both sub-case selectors on an active row makes the circuit
/// reject the assignment.
#[test]
fn test_reject_double_selector() {
    let (meta, common, cfg) = build();
    let entry = EventTableEntry {
        eid: 1,
        sp: 4,
        step_info: StepInfo::I32Comp { op: RelOp::Eq, left: 5, right: 5, value: true },
    };
    let mut ctx = Context::new(NCOLS);
    common.assign(&mut ctx, entry.eid, entry.sp);
    assert!(cfg.assign(&mut ctx, &entry).is_ok());
    ctx.set(cfg.is_ne, 1);
    assert!(!meta.gates_satisfied(&ctx.values, P));
}

/// Clearing both sub-case selectors on an active row is rejected too.
#[test]
fn test_reject_no_selector() {
    let (meta, common, cfg) = build();
    let entry = EventTableEntry {
        eid: 1,
        sp: 4,
        step_info: StepInfo::I32Comp { op: RelOp::Eq, left: 5, right: 5, value: true },
    };
    let mut ctx = Context::new(NCOLS);
    common.assign(&mut ctx, entry.eid, entry.sp);
    assert!(cfg.assign(&mut ctx, &entry).is_ok());
    ctx.set(cfg.is_eq, 0);
    assert!(!meta.gates_satisfied(&ctx.values, P));
}

/// A non-boolean selector value on an active row is rejected.
#[test]
fn test_reject_non_boolean_selector() {
    let (meta, common, cfg) = build();
    let entry = EventTableEntry {
        eid: 1,
        sp: 4,
        step_info: StepInfo::I32Comp { op: RelOp::Ne, left: 5, right: 5, value: false },
    };
    let mut ctx = Context::new(NCOLS);
    common.assign(&mut ctx, entry.eid, entry.sp);
    assert!(cfg.assign(&mut ctx, &entry).is_ok());
    ctx.set(cfg.is_ne, 2);
    ctx.set(cfg.is_eq, P - 1);
    assert!(!meta.gates_satisfied(&ctx.values, P));
}

/// Mismatched operand types on an active row make the circuit reject.
#[test]
fn test_reject_mismatched_vtypes() {
    let (meta, common, cfg) = build();
    let entry = EventTableEntry {
        eid: 1,
        sp: 4,
        step_info: StepInfo::I32Comp { op: RelOp::Eq, left: 5, right: 5, value: true },
    };
    let mut ctx = Context::new(NCOLS);
    common.assign(&mut ctx, entry.eid, entry.sp);
    assert!(cfg.assign(&mut ctx, &entry).is_ok());
    ctx.set(cfg.right.vtype, var_type_tag_value(VarType::I64));
    assert!(!meta.gates_satisfied(&ctx.values, P));
}

/// A row whose row-enable predicate is zero is unconstrained, whatever its
/// cells hold.
#[test]
fn test_inactive_row_unconstrained() {
    let (meta, _common, cfg) = build();
    let mut ctx = Context::new(NCOLS);
    ctx.set(cfg.is_eq, 1);
    ctx.set(cfg.is_ne, 1);
    ctx.set(cfg.res, 17);
    assert!(meta.gates_satisfied(&ctx.values, P));
}

/// A payload variant that does not belong to the module is reported as a
/// step mismatch carrying the step's id and the module's class.
#[test]
fn test_step_mismatch_error() {
    let (_meta, common, cfg) = build();
    let entry = EventTableEntry { eid: 9, sp: 4, step_info: StepInfo::I32Const { imm: 1 } };
    let mut ctx = Context::new(NCOLS);
    common.assign(&mut ctx, entry.eid, entry.sp);
    let r = cfg.assign(&mut ctx, &entry);
    assert_eq!(
        r,
        Err(AssignError {
            eid: 9,
            class: OpcodeClass::Rel,
            kind: AssignErrorKind::StepMismatch,
        })
    );
}

/// A value outside the range its declared type admits fails slot assignment.
#[test]
fn test_value_out_of_type() {
    let (_meta, _common, cfg) = build();
    let mut ctx = Context::new(NCOLS);
    let r = cfg.left.assign(&mut ctx, VarType::Bool, 2);
    assert_eq!(r, Err(AssignErrorKind::ValueOutOfType));
    let r = cfg.left.assign(&mut ctx, VarType::I32, 1 << 32);
    assert_eq!(r, Err(AssignErrorKind::ValueOutOfType));
    assert!(cfg.left.assign(&mut ctx, VarType::I32, (1 << 32) - 1).is_ok());
}

/// On an active row the opcode expression evaluates to the packed encoding
/// of the executed instruction; the two sub-operations give distinct values.
#[test]
fn test_opcode_expression_value() {
    let (_meta, common, cfg) = build();
    let entry = EventTableEntry {
        eid: 1,
        sp: 4,
        step_info: StepInfo::I32Comp { op: RelOp::Eq, left: 5, right: 5, value: true },
    };
    let mut ctx = Context::new(NCOLS);
    common.assign(&mut ctx, entry.eid, entry.sp);
    assert!(cfg.assign(&mut ctx, &entry).is_ok());
    let got = cfg.opcode().evaluate(&ctx.values, P);
    let want = encode_opcode(
        OpcodeClass::Rel,
        rel_op_tag_value(RelOp::Eq),
        var_type_tag_value(VarType::I32),
    );
    assert_eq!(got, want);
    assert_eq!(got, 0x2000100010000);

    let ne_entry = EventTableEntry {
        eid: 1,
        sp: 4,
        step_info: StepInfo::I32Comp { op: RelOp::Ne, left: 5, right: 5, value: false },
    };
    assert!(cfg.assign(&mut ctx, &ne_entry).is_ok());
    let got_ne = cfg.opcode().evaluate(&ctx.values, P);
    assert_eq!(got_ne, 0x2000200010000);
    assert_ne!(got, got_ne);
}

/// The declared stack-pointer advance is one slot on an active row — two
/// pops and one push shrink the stack by one — and zero on an idle one.
#[test]
fn test_sp_diff_value() {
    let (_meta, common, cfg) = build();
    let mut ctx = Context::new(NCOLS);
    assert_eq!(cfg.sp_diff().evaluate(&ctx.values, P), 0);
    let entry = EventTableEntry {
        eid: 1,
        sp: 4,
        step_info: StepInfo::I32Comp { op: RelOp::Eq, left: 0, right: 0, value: true },
    };
    common.assign(&mut ctx, entry.eid, entry.sp);
    assert!(cfg.assign(&mut ctx, &entry).is_ok());
    assert_eq!(cfg.sp_diff().evaluate(&ctx.values, P), 1);
    assert_eq!(cfg.opcode_class(), OpcodeClass::Rel);
}
