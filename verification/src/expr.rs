//! Symbolic column expressions.
//!
//! A gate is a polynomial identity over the cells of one row; a lookup wires
//! such expressions into a shared table. Expressions are built at
//! configuration time and evaluated, modulo the field prime, against a
//! concrete row assignment at witness time.

use vstd::prelude::*;
use crate::field::{add_mod, fadd, fmul, fsub, mul_mod, sub_mod};

verus! {

/// A polynomial expression over the cells of the current row.
pub enum Expr {
    /// A field constant, given by its canonical representative.
    Const(u64),
    /// The value of one advice column at the current row.
    Cell(usize),
    /// Field addition.
    Add(Box<Expr>, Box<Expr>),
    /// Field subtraction.
    Sub(Box<Expr>, Box<Expr>),
    /// Field multiplication.
    Mul(Box<Expr>, Box<Expr>),
}

/// The canonical value of an expression on a row assignment, modulo `p`.
/// A cell outside the assigned range reads as zero.
pub open spec fn eval(e: Expr, row: Seq<u64>, p: int) -> int
    decreases e,
{
    match e {
        Expr::Const(c) => (c as int) % p,
        Expr::Cell(i) => if i < row.len() {
            (row[i as int] as int) % p
        } else {
            0
        },
        Expr::Add(a, b) => fadd(p, eval(*a, row, p), eval(*b, row, p)),
        Expr::Sub(a, b) => fsub(p, eval(*a, row, p), eval(*b, row, p)),
        Expr::Mul(a, b) => fmul(p, eval(*a, row, p), eval(*b, row, p)),
    }
}

/// Every canonical evaluation lies in `[0, p)`.
pub proof fn lemma_eval_bounded(e: Expr, row: Seq<u64>, p: int)
    requires
        p > 0,
    ensures
        0 <= eval(e, row, p) < p,
    decreases e,
{
    match e {
        Expr::Const(_) => {}
        Expr::Cell(_) => {}
        Expr::Add(a, b) => {
            lemma_eval_bounded(*a, row, p);
            lemma_eval_bounded(*b, row, p);
        }
        Expr::Sub(a, b) => {
            lemma_eval_bounded(*a, row, p);
            lemma_eval_bounded(*b, row, p);
        }
        Expr::Mul(a, b) => {
            lemma_eval_bounded(*a, row, p);
            lemma_eval_bounded(*b, row, p);
        }
    }
}

impl Expr {
    /// Rebuilds the same expression, so one predicate can stand in several
    /// gates and lookups.
    pub fn dup(&self) -> (r: Expr)
        ensures
            r == *self,
        decreases *self,
    {
        match self {
            Expr::Const(c) => Expr::Const(*c),
            Expr::Cell(i) => Expr::Cell(*i),
            Expr::Add(a, b) => Expr::Add(Box::new(a.dup()), Box::new(b.dup())),
            Expr::Sub(a, b) => Expr::Sub(Box::new(a.dup()), Box::new(b.dup())),
            Expr::Mul(a, b) => Expr::Mul(Box::new(a.dup()), Box::new(b.dup())),
        }
    }

    /// Evaluate the expression on one row assignment, canonically modulo `p`.
    pub fn evaluate(&self, row: &Vec<u64>, p: u64) -> (r: u64)
        requires
            p > 0,
        ensures
            r as int == eval(*self, row@, p as int),
            r < p,
        decreases *self,
    {
        match self {
            Expr::Const(c) => *c % p,
            Expr::Cell(i) => {
                if *i < row.len() {
                    row[*i] % p
                } else {
                    0
                }
            }
            Expr::Add(a, b) => add_mod(a.evaluate(row, p), b.evaluate(row, p), p),
            Expr::Sub(a, b) => sub_mod(a.evaluate(row, p), b.evaluate(row, p), p),
            Expr::Mul(a, b) => mul_mod(a.evaluate(row, p), b.evaluate(row, p), p),
        }
    }
}

} // verus!
