//! The canonical string form of a node.

use vstd::prelude::*;
use crate::syntax::{Expr, ExprKind, ExprKindView, ExprView};

verus! {

/// The string that a node stands for: the value of a string literal, the
/// surface syntax of anything else.
pub open spec fn normalized(expr: ExprView) -> Seq<char> {
    match expr.kind {
        ExprKindView::Str(value) => value,
        _ => expr.text,
    }
}

/// Turns a node into its canonical string.
///
/// A string literal gives the value it denotes, without quotes or escapes.
/// Every other node gives its surface syntax as it stands; nothing is
/// evaluated.
pub fn expr_to_str(expr: &Expr) -> (text: String)
    ensures
        text@ == normalized(expr@),
{
    match &expr.kind {
        ExprKind::Str(value) => value.clone(),
        _ => expr.text.clone(),
    }
}

} // verus!
