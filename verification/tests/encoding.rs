use opcode_circuit::expr::Expr;
use opcode_circuit::field::{add_mod, mul_mod, sub_mod};
use opcode_circuit::itable::{encode_opcode, rel_op_tag_value, OpcodeClass, RelOp};
use opcode_circuit::mtable::{value_fits_type, var_type_tag_value, VarType};

/// The largest prime below 2^64; stands in for a proving field's modulus.
const P: u64 = 18446744073709551557;

/// Every implemented (class, arg0, arg1) triple packs to a distinct field
/// element.
#[test]
fn test_encoding_distinct() {
    let mut seen: Vec<u64> = Vec::new();
    for class in [OpcodeClass::Const, OpcodeClass::Rel] {
        for arg0 in [rel_op_tag_value(RelOp::Eq), rel_op_tag_value(RelOp::Ne)] {
            for arg1 in [
                var_type_tag_value(VarType::I32),
                var_type_tag_value(VarType::I64),
                var_type_tag_value(VarType::Bool),
            ] {
                let e = encode_opcode(class, arg0, arg1);
                assert!(!seen.contains(&e));
                seen.push(e);
            }
        }
    }
}

/// The packed encoding places the class, sub-operation and type tags 16 bits
/// apart, starting at bit 16.
#[test]
fn test_encoding_exact() {
    let e = encode_opcode(
        OpcodeClass::Rel,
        rel_op_tag_value(RelOp::Ne),
        var_type_tag_value(VarType::I32),
    );
    assert_eq!(e, (2 << 48) | (2 << 32) | (1 << 16));
}

/// Canonical modular arithmetic wraps exactly at the field prime.
#[test]
fn test_field_ops() {
    assert_eq!(add_mod(P - 1, 5, P), 4);
    assert_eq!(add_mod(3, 4, P), 7);
    assert_eq!(sub_mod(3, 5, P), P - 2);
    assert_eq!(sub_mod(5, 3, P), 2);
    assert_eq!(mul_mod(P - 1, 2, P), P - 2);
    assert_eq!(mul_mod(3, 5, P), 15);
}

/// Expression evaluation follows the tree, modulo the prime.
#[test]
fn test_expr_evaluate() {
    let e = Expr::Mul(
        Box::new(Expr::Add(Box::new(Expr::Cell(0)), Box::new(Expr::Const(5)))),
        Box::new(Expr::Cell(1)),
    );
    let row: Vec<u64> = vec![7, 2];
    assert_eq!(e.evaluate(&row, P), 24);
    let s = Expr::Sub(Box::new(Expr::Cell(0)), Box::new(Expr::Cell(1)));
    let row2: Vec<u64> = vec![1, 3];
    assert_eq!(s.evaluate(&row2, P), P - 2);
    // A cell beyond the assigned row reads as zero.
    let c = Expr::Cell(9);
    assert_eq!(c.evaluate(&row, P), 0);
}

/// Type tags bound the bit patterns their values may take.
#[test]
fn test_value_fits_type() {
    assert!(value_fits_type(VarType::I32, 0xFFFFFFFF));
    assert!(!value_fits_type(VarType::I32, 0x100000000));
    assert!(value_fits_type(VarType::Bool, 1));
    assert!(!value_fits_type(VarType::Bool, 2));
    assert!(value_fits_type(VarType::I64, u64::MAX));
}
