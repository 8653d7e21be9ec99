//! The literal tree that the parser reads.
//!
//! A front end builds the tree from whatever concrete syntax it accepts.
//! Each node carries the text it was written as and a handle to the place
//! it came from; the parser copies the handle into its diagnostics and
//! never interprets it.

use vstd::prelude::*;

verus! {

/// A handle to a place in the source, chosen by whoever built the tree.
#[derive(Clone, Copy, Debug, PartialEq, Eq, Structural)]
pub struct Span {
    pub id: usize,
}

/// The name in front of a field's colon, or its absence.
#[derive(Debug)]
pub enum Member {
    /// A field referenced by name, as in `path: "/a/"`.
    Named { name: String, span: Span },
    /// A field referenced by position, as in `0: "/a/"`.
    Unnamed,
}

/// One `member: value` pair of a record literal.
#[derive(Debug)]
pub struct FieldValue {
    pub member: Member,
    pub expr: Expr,
    /// The place of the whole pair.
    pub span: Span,
}

/// A record literal: a type path followed by fields in braces.
#[derive(Debug)]
pub struct StructLit {
    /// The identifiers of the type path's segments, in order.
    pub path: Vec<String>,
    /// The place of the type path.
    pub path_span: Span,
    pub fields: Vec<FieldValue>,
}

/// The shapes of node that the parser tells apart.
#[derive(Debug)]
pub enum ExprKind {
    /// A string literal; holds the value it denotes, quotes and escapes
    /// already resolved.
    Str(String),
    /// A list literal and its elements, in source order.
    Array(Vec<Expr>),
    /// A record literal.
    Struct(StructLit),
    /// Any other expression: an identifier, a path, a number, a call.
    Other,
}

/// A node of the literal tree.
#[derive(Debug)]
pub struct Expr {
    pub kind: ExprKind,
    /// The node's surface syntax, token for token.
    pub text: String,
    pub span: Span,
}

/// The mathematical value of a [`Member`].
pub enum MemberView {
    Named { name: Seq<char>, span: Span },
    Unnamed,
}

/// The mathematical value of a [`FieldValue`].
pub struct FieldValueView {
    pub member: MemberView,
    pub expr: ExprView,
    pub span: Span,
}

/// The mathematical value of a [`StructLit`].
pub struct StructLitView {
    pub path: Seq<Seq<char>>,
    pub path_span: Span,
    pub fields: Seq<FieldValueView>,
}

/// The mathematical value of an [`ExprKind`].
pub enum ExprKindView {
    Str(Seq<char>),
    Array(Seq<ExprView>),
    Struct(StructLitView),
    Other,
}

/// The mathematical value of an [`Expr`].
pub struct ExprView {
    pub kind: ExprKindView,
    pub text: Seq<char>,
    pub span: Span,
}

impl View for Member {
    type V = MemberView;

    open spec fn view(&self) -> MemberView {
        match *self {
            Member::Named { name, span } => MemberView::Named { name: name@, span },
            Member::Unnamed => MemberView::Unnamed,
        }
    }
}

/// The mathematical value of the tree below `expr`.
pub open spec fn expr_view(expr: Expr) -> ExprView
    decreases expr,
{
    ExprView {
        kind: match expr.kind {
            ExprKind::Str(value) => ExprKindView::Str(value@),
            ExprKind::Array(elems) => ExprKindView::Array(
                Seq::new(
                    elems.len() as nat,
                    |i: int|
                        if 0 <= i < elems.len() {
                            expr_view(elems[i])
                        } else {
                            arbitrary()
                        },
                ),
            ),
            ExprKind::Struct(lit) => ExprKindView::Struct(
                StructLitView {
                    path: lit.path.deep_view(),
                    path_span: lit.path_span,
                    fields: Seq::new(
                        lit.fields.len() as nat,
                        |i: int|
                            if 0 <= i < lit.fields.len() {
                                FieldValueView {
                                    member: lit.fields[i].member@,
                                    expr: expr_view(lit.fields[i].expr),
                                    span: lit.fields[i].span,
                                }
                            } else {
                                arbitrary()
                            },
                    ),
                },
            ),
            ExprKind::Other => ExprKindView::Other,
        },
        text: expr.text@,
        span: expr.span,
    }
}

impl View for Expr {
    type V = ExprView;

    open spec fn view(&self) -> ExprView {
        expr_view(*self)
    }
}

impl View for FieldValue {
    type V = FieldValueView;

    open spec fn view(&self) -> FieldValueView {
        FieldValueView { member: self.member@, expr: self.expr@, span: self.span }
    }
}

impl View for StructLit {
    type V = StructLitView;

    open spec fn view(&self) -> StructLitView {
        StructLitView {
            path: self.path.deep_view(),
            path_span: self.path_span,
            fields: Seq::new(self.fields.len() as nat, |i: int| self.fields[i]@),
        }
    }
}

impl View for ExprKind {
    type V = ExprKindView;

    open spec fn view(&self) -> ExprKindView {
        match *self {
            ExprKind::Str(value) => ExprKindView::Str(value@),
            ExprKind::Array(elems) => ExprKindView::Array(
                Seq::new(elems.len() as nat, |i: int| elems[i]@),
            ),
            ExprKind::Struct(lit) => ExprKindView::Struct(lit@),
            ExprKind::Other => ExprKindView::Other,
        }
    }
}

/// The value of a node is made of the values of its parts.
pub proof fn lemma_view_of_parts(expr: Expr)
    ensures
        expr@ == (ExprView { kind: expr.kind@, text: expr.text@, span: expr.span }),
{
    match expr.kind {
        ExprKind::Array(elems) => {
            assert(expr@.kind->Array_0 =~= expr.kind@->Array_0);
        },
        ExprKind::Struct(lit) => {
            assert(expr@.kind->Struct_0.fields =~= lit@.fields);
        },
        _ => {},
    }
}

} // verus!
