//! The typed-value slot: the column pair holding one stack operand.
//!
//! A slot owns a type-tag column and a value column. Configuring it wires
//! the pair into the shared range relation, so that on every row where the
//! slot's activation predicate is nonzero the tag is a valid type and the
//! value lies in the range that type declares.

use vstd::prelude::*;
use crate::builder::{ColumnAllocator, ConstraintBuilder, RangeCheck};
use crate::etable::{AssignErrorKind, Context};
use crate::expr::Expr;
use crate::mtable::{value_fits_type, var_type_tag_value, VarType};

verus! {

/// The columns of one typed-value slot.
pub struct TValueConfig {
    pub vtype: usize,
    pub value: usize,
}

/// The row the slot wires into the shared range relation.
pub open spec fn tvalue_range_check(cfg: TValueConfig, enable: Expr) -> RangeCheck {
    RangeCheck { enable, vtype: Expr::Cell(cfg.vtype), value: Expr::Cell(cfg.value) }
}

impl TValueConfig {
    /// Draws the slot's two columns from the arena and registers its
    /// range-relation row under the given activation predicate.
    pub fn configure(
        meta: &mut ConstraintBuilder,
        cols: &mut ColumnAllocator,
        enable: &Expr,
    ) -> (r: TValueConfig)
        requires
            old(cols).next + 2 <= old(cols).limit,
        ensures
            r.vtype == old(cols).next,
            r.value == old(cols).next + 1,
            final(cols).next == old(cols).next + 2,
            final(cols).limit == old(cols).limit,
            final(meta).range_checks@ == old(meta).range_checks@.push(
                tvalue_range_check(r, *enable),
            ),
            final(meta).gates@ == old(meta).gates@,
            final(meta).memory_lookups@ == old(meta).memory_lookups@,
    {
        let vtype = cols.next_column();
        let value = cols.next_column();
        let r = TValueConfig { vtype, value };
        meta.add_range_check(enable.dup(), Expr::Cell(vtype), Expr::Cell(value));
        r
    }

    /// Writes one typed operand into the slot's cells. A value outside the
    /// range its type declares is an assignment failure: the range relation
    /// could never cover it.
    pub fn assign(&self, ctx: &mut Context, vtype: VarType, value: u64) -> (r: Result<
        (),
        AssignErrorKind,
    >)
        requires
            self.vtype < old(ctx).values@.len(),
            self.value < old(ctx).values@.len(),
        ensures
            r is Ok <==> (value as int) < crate::mtable::var_type_bound(vtype),
            r is Ok ==> final(ctx).values@ == old(ctx).values@.update(
                self.vtype as int,
                crate::mtable::var_type_tag(vtype) as u64,
            ).update(self.value as int, value),
            r is Err ==> final(ctx).values@ == old(ctx).values@ && r == Result::<
                (),
                AssignErrorKind,
            >::Err(AssignErrorKind::ValueOutOfType),
    {
        if !value_fits_type(vtype, value) {
            return Err(AssignErrorKind::ValueOutOfType);
        }
        ctx.set(self.vtype, var_type_tag_value(vtype));
        ctx.set(self.value, value);
        Ok(())
    }
}

} // verus!
