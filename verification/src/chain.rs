//! The list of endpoints that an endpoint chains to.

use vstd::prelude::*;
use crate::error::{ErrorKind, ParseError, ParseErrorView};
use crate::normalize::{expr_to_str, normalized};
use crate::syntax::{Expr, ExprKind, ExprKindView, ExprView, Span};

verus! {

/// The diagnostic for a node that should have been a list literal.
pub open spec fn not_an_array(span: Span) -> ParseErrorView {
    ParseErrorView { kind: ErrorKind::Structure, field: None, message: "not an array"@, span }
}

/// The elements of a list literal, or the diagnostic for a node that is
/// none.
pub open spec fn array_spec(input: ExprView) -> Result<Seq<ExprView>, ParseErrorView> {
    match input.kind {
        ExprKindView::Array(elems) => Ok(elems),
        _ => Err(not_an_array(input.span)),
    }
}

/// What [`parse_chain_to`] answers: every element of the list normalized,
/// in source order.
pub open spec fn chain_spec(input: ExprView) -> Result<Seq<Seq<char>>, ParseErrorView> {
    match array_spec(input) {
        Ok(elems) => Ok(Seq::new(elems.len(), |i: int| normalized(elems[i]))),
        Err(refusal) => Err(refusal),
    }
}

/// Looks at `input` as a list literal and hands out its elements.
pub fn to_array(input: &Expr) -> (array: Result<&Vec<Expr>, ParseError>)
    ensures
        match array {
            Ok(elems) => {
                &&& array_spec(input@) is Ok
                &&& array_spec(input@)->Ok_0.len() == elems.len()
                &&& forall|i: int|
                    0 <= i < elems.len() ==> array_spec(input@)->Ok_0[i] == (#[trigger] elems[i])@
            },
            Err(refusal) => array_spec(input@) == Err::<Seq<ExprView>, ParseErrorView>(refusal@),
        },
{
    match &input.kind {
        ExprKind::Array(elems) => Ok(elems),
        _ => Err(
            ParseError {
                kind: ErrorKind::Structure,
                field: None,
                message: "not an array".to_owned(),
                span: input.span,
            },
        ),
    }
}

/// Collects the identifiers that a `chain_to` value lists.
///
/// The value must be a list literal. Each element is normalized and kept:
/// the order is that of the source, and an identifier that occurs twice is
/// kept twice. An empty list gives an empty chain.
pub fn parse_chain_to(input: &Expr) -> (parsed: Result<Vec<String>, ParseError>)
    ensures
        match parsed {
            Ok(chain) => chain_spec(input@) == Ok::<Seq<Seq<char>>, ParseErrorView>(
                chain.deep_view(),
            ),
            Err(refusal) => chain_spec(input@) == Err::<Seq<Seq<char>>, ParseErrorView>(refusal@),
        },
        parsed is Ok <==> input@.kind is Array,
        parsed matches Ok(chain) ==> {
            &&& chain.len() == input@.kind->Array_0.len()
            &&& forall|i: int|
                0 <= i < chain.len() ==> (#[trigger] chain[i])@ == normalized(
                    input@.kind->Array_0[i],
                )
        },
{
    let elems = match to_array(input) {
        Ok(elems) => elems,
        Err(refusal) => {
            return Err(refusal);
        },
    };
    let mut chain: Vec<String> = Vec::new();
    let mut i: usize = 0;
    while i < elems.len()
        invariant
            i <= elems.len(),
            chain.len() == i,
            forall|k: int| 0 <= k < i ==> (#[trigger] chain[k])@ == normalized(elems[k]@),
        decreases elems.len() - i,
    {
        chain.push(expr_to_str(&elems[i]));
        i += 1;
    }
    assert(chain.deep_view() =~= chain_spec(input@)->Ok_0);
    Ok(chain)
}

} // verus!
