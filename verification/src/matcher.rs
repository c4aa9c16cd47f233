//! Deciding whether a call invokes a tracked binding.
//!
//! A plain identifier callee is looked up directly; a property access on an
//! identifier is looked up by the object identifier alone, so every
//! property-style variant of a tracked symbol is matched alike, whatever the
//! property name. Any other callee shape never matches. The same matching
//! serves calls and constructions, whose callees take the same shapes.

use vstd::prelude::*;

use crate::ast::{Callee, CalleeV, Expr, ExprV, MemberProp, MemberPropV};
use crate::binding::{table_lookup, BindingTable, BindingV};
use crate::config::{TransformSpec, TransformSpecV};

verus! {

/// The rule a callee expression invokes: by the identifier's own binding
/// identity, or by the object's when the callee is a named property access
/// on an identifier; every other shape yields no match.
pub open spec fn expr_rule(entries: Seq<BindingV>, e: ExprV) -> Option<TransformSpecV> {
    match e {
        ExprV::Ident(i) => table_lookup(entries, i),
        ExprV::Member { obj, prop } => match (*obj, prop) {
            (ExprV::Ident(i), MemberPropV::Named(_)) => table_lookup(entries, i),
            _ => None,
        },
        _ => None,
    }
}

/// The rule a call's callee invokes; `super` and `import` callees never
/// match.
pub open spec fn callee_rule(entries: Seq<BindingV>, c: CalleeV) -> Option<TransformSpecV> {
    match c {
        CalleeV::Expr(e) => expr_rule(entries, *e),
        CalleeV::Other => None,
    }
}

/// The rule a callee expression invokes, if any; used for constructions,
/// whose callee is a bare expression.
pub fn get_config_for_expression<'a>(table: &'a BindingTable, expr: &Expr) -> (r: Option<
    &'a TransformSpec,
>)
    ensures
        match r {
            Some(t) => expr_rule(table@, crate::ast::expr_view(*expr)) == Some(t@),
            None => expr_rule(table@, crate::ast::expr_view(*expr)) is None,
        },
{
    proof {
        reveal_with_fuel(crate::ast::expr_view, 2);
    }
    match expr {
        Expr::Ident(i) => table.get_transform_spec_for_id(i),
        Expr::Member { obj, prop } => match (&**obj, prop) {
            (Expr::Ident(i), MemberProp::Named(_)) => table.get_transform_spec_for_id(i),
            _ => None,
        },
        _ => None,
    }
}

/// The rule a call's callee invokes, if any.
pub fn get_config_for_call<'a>(table: &'a BindingTable, callee: &Callee) -> (r: Option<
    &'a TransformSpec,
>)
    ensures
        match r {
            Some(t) => callee_rule(table@, crate::ast::callee_view(*callee)) == Some(t@),
            None => callee_rule(table@, crate::ast::callee_view(*callee)) is None,
        },
{
    match callee {
        Callee::Expr(e) => get_config_for_expression(table, e),
        Callee::Other => None,
    }
}

} // verus!
