//! One record of the list: its fields gathered, checked and assembled.

use vstd::prelude::*;
use crate::chain::{chain_spec, parse_chain_to};
use crate::endpoint::{Endpoint, EndpointView};
use crate::error::{ErrorKind, ParseError, ParseErrorView};
use crate::field::{check_field, check_field_spec};
use crate::laws::lemma_record_well_formed;
use crate::normalize::{expr_to_str, normalized};
use crate::syntax::{
    Expr,
    ExprKind,
    ExprKindView,
    ExprView,
    FieldValue,
    FieldValueView,
    Member,
    MemberView,
    Span,
};
use crate::text::str_eq;
use crate::valid::{lemma_record_characterized, record_acceptable};

verus! {

/// The fields of one record that have been read and accepted so far.
#[derive(Debug)]
pub struct Definition {
    pub path: Option<String>,
    pub method: Option<String>,
    pub chain_to: Option<Vec<String>>,
}

/// The mathematical value of a [`Definition`].
pub struct DefinitionView {
    pub path: Option<Seq<char>>,
    pub method: Option<Seq<char>>,
    pub chain_to: Option<Seq<Seq<char>>>,
}

impl View for Definition {
    type V = DefinitionView;

    open spec fn view(&self) -> DefinitionView {
        DefinitionView {
            path: match self.path {
                Some(path) => Some(path@),
                None => None,
            },
            method: match self.method {
                Some(method) => Some(method@),
                None => None,
            },
            chain_to: match self.chain_to {
                Some(chain) => Some(chain.deep_view()),
                None => None,
            },
        }
    }
}

impl DefinitionView {
    /// The definition of a record none of whose fields has been read.
    pub open spec fn empty() -> DefinitionView {
        DefinitionView { path: None, method: None, chain_to: None }
    }

    /// Whether a field called `name` has been accepted already.
    pub open spec fn has(self, name: Seq<char>) -> bool {
        ||| name == "path"@ && self.path is Some
        ||| name == "method"@ && self.method is Some
        ||| name == "chain_to"@ && self.chain_to is Some
    }

    /// The definition after one more field, or the diagnostic that the
    /// field ends in.
    ///
    /// The checks come in this order: the field is referenced by name; the
    /// name has not been accepted before; the value passes the rule for
    /// its name.
    pub open spec fn accept(self, field: FieldValueView) -> Result<DefinitionView, ParseErrorView> {
        match field.member {
            MemberView::Unnamed => Err(
                ParseErrorView {
                    kind: ErrorKind::Structure,
                    field: None,
                    message: "field should be named"@,
                    span: field.span,
                },
            ),
            MemberView::Named { name, span } => {
                if self.has(name) {
                    Err(
                        ParseErrorView {
                            kind: ErrorKind::DuplicateField,
                            field: Some(name),
                            message: "is already defined"@,
                            span,
                        },
                    )
                } else if name == "chain_to"@ {
                    match chain_spec(field.expr) {
                        Ok(chain) => Ok(DefinitionView { chain_to: Some(chain), ..self }),
                        Err(refusal) => Err(refusal),
                    }
                } else {
                    match check_field_spec(name, normalized(field.expr)) {
                        Ok(value) => if name == "path"@ {
                            Ok(DefinitionView { path: Some(value), ..self })
                        } else {
                            Ok(DefinitionView { method: Some(value), ..self })
                        },
                        Err(refusal) => Err(
                            ParseErrorView {
                                kind: refusal.kind,
                                field: Some(name),
                                message: refusal.message,
                                span: field.expr.span,
                            },
                        ),
                    }
                }
            },
        }
    }

    /// The descriptor that the definition amounts to once every field has
    /// been read, or the diagnostic for the required field that it lacks.
    /// `span` is the place that such a diagnostic points at.
    pub open spec fn finish(self, span: Span) -> Result<EndpointView, ParseErrorView> {
        match self.path {
            None => Err(
                ParseErrorView {
                    kind: ErrorKind::MissingRequiredField,
                    field: Some("path"@),
                    message: "missing field `path`"@,
                    span,
                },
            ),
            Some(path) => match self.method {
                None => Err(
                    ParseErrorView {
                        kind: ErrorKind::MissingRequiredField,
                        field: Some("method"@),
                        message: "missing field `method`"@,
                        span,
                    },
                ),
                Some(method) => Ok(EndpointView { path, method, chain_to: self.chain_to }),
            },
        }
    }
}

/// The definition after the first `n` of `fields`, read in order, or the
/// first diagnostic met on the way.
pub open spec fn accept_fields(fields: Seq<FieldValueView>, n: nat) -> Result<
    DefinitionView,
    ParseErrorView,
>
    decreases n,
{
    if n == 0 {
        Ok(DefinitionView::empty())
    } else {
        match accept_fields(fields, (n - 1) as nat) {
            Ok(definition) => definition.accept(fields[n - 1]),
            Err(refusal) => Err(refusal),
        }
    }
}

/// What [`parse_record`] answers for one element of the list.
pub open spec fn record_spec(elem: ExprView) -> Result<EndpointView, ParseErrorView> {
    match elem.kind {
        ExprKindView::Struct(lit) => {
            if lit.path.len() != 1 {
                Err(
                    ParseErrorView {
                        kind: ErrorKind::Structure,
                        field: None,
                        message: "a single path segment is expected"@,
                        span: lit.path_span,
                    },
                )
            } else if lit.path[0] != "Endpoint"@ {
                Err(
                    ParseErrorView {
                        kind: ErrorKind::Structure,
                        field: None,
                        message: "structure must be of type `Endpoint`"@,
                        span: lit.path_span,
                    },
                )
            } else {
                match accept_fields(lit.fields, lit.fields.len()) {
                    Ok(definition) => definition.finish(lit.path_span),
                    Err(refusal) => Err(refusal),
                }
            }
        },
        _ => Err(
            ParseErrorView {
                kind: ErrorKind::Structure,
                field: None,
                message: "not a structure"@,
                span: elem.span,
            },
        ),
    }
}

impl Definition {
    /// A definition with no field accepted yet.
    pub fn new() -> (definition: Definition)
        ensures
            definition@ == DefinitionView::empty(),
    {
        Definition { path: None, method: None, chain_to: None }
    }

    /// Whether a field called `name` has been accepted already.
    pub fn has(&self, name: &str) -> (seen: bool)
        ensures
            seen == self@.has(name@),
    {
        (str_eq(name, "path") && self.path.is_some()) || (str_eq(name, "method")
            && self.method.is_some()) || (str_eq(name, "chain_to") && self.chain_to.is_some())
    }

    /// Reads one more field into the definition.
    ///
    /// A positional field, a name that was accepted before, a `chain_to`
    /// that is no list and a value that fails the rule for its name each
    /// end in a diagnostic.
    pub fn accept(self, field: &FieldValue) -> (next: Result<Definition, ParseError>)
        ensures
            match next {
                Ok(definition) => self@.accept(field@) == Ok::<DefinitionView, ParseErrorView>(
                    definition@,
                ),
                Err(refusal) => self@.accept(field@) == Err::<DefinitionView, ParseErrorView>(
                    refusal@,
                ),
            },
    {
        match &field.member {
            Member::Unnamed => Err(
                ParseError {
                    kind: ErrorKind::Structure,
                    field: None,
                    message: "field should be named".to_owned(),
                    span: field.span,
                },
            ),
            Member::Named { name, span } => {
                if self.has(name.as_str()) {
                    return Err(
                        ParseError {
                            kind: ErrorKind::DuplicateField,
                            field: Some(name.clone()),
                            message: "is already defined".to_owned(),
                            span: *span,
                        },
                    );
                }
                if str_eq(name.as_str(), "chain_to") {
                    match parse_chain_to(&field.expr) {
                        Ok(chain) => Ok(
                            Definition {
                                path: self.path,
                                method: self.method,
                                chain_to: Some(chain),
                            },
                        ),
                        Err(refusal) => Err(refusal),
                    }
                } else {
                    let value = expr_to_str(&field.expr);
                    match check_field(name.as_str(), value.as_str()) {
                        Ok(checked) => if str_eq(name.as_str(), "path") {
                            Ok(
                                Definition {
                                    path: Some(checked),
                                    method: self.method,
                                    chain_to: self.chain_to,
                                },
                            )
                        } else {
                            Ok(
                                Definition {
                                    path: self.path,
                                    method: Some(checked),
                                    chain_to: self.chain_to,
                                },
                            )
                        },
                        Err(refusal) => Err(
                            ParseError {
                                kind: refusal.kind,
                                field: Some(name.clone()),
                                message: refusal.message,
                                span: field.expr.span,
                            },
                        ),
                    }
                }
            },
        }
    }

    /// Assembles the descriptor once every field has been read.
    ///
    /// Both `path` and `method` must have been accepted; a diagnostic for
    /// the one that is missing points at `span`.
    pub fn finish(self, span: Span) -> (done: Result<Endpoint, ParseError>)
        ensures
            match done {
                Ok(endpoint) => self@.finish(span) == Ok::<EndpointView, ParseErrorView>(
                    endpoint@,
                ),
                Err(refusal) => self@.finish(span) == Err::<EndpointView, ParseErrorView>(
                    refusal@,
                ),
            },
    {
        let path = match self.path {
            Some(path) => path,
            None => {
                return Err(
                    ParseError {
                        kind: ErrorKind::MissingRequiredField,
                        field: Some("path".to_owned()),
                        message: "missing field `path`".to_owned(),
                        span,
                    },
                );
            },
        };
        let method = match self.method {
            Some(method) => method,
            None => {
                return Err(
                    ParseError {
                        kind: ErrorKind::MissingRequiredField,
                        field: Some("method".to_owned()),
                        message: "missing field `method`".to_owned(),
                        span,
                    },
                );
            },
        };
        Ok(Endpoint { path, method, chain_to: self.chain_to })
    }
}

/// Reads one element of the list as an `Endpoint` record.
///
/// The element must be a record literal whose type is the single segment
/// `Endpoint`. Its fields are read in order; then `path` and `method` must
/// both be there.
pub fn parse_record(elem: &Expr) -> (parsed: Result<Endpoint, ParseError>)
    ensures
        match parsed {
            Ok(endpoint) => record_spec(elem@) == Ok::<EndpointView, ParseErrorView>(endpoint@),
            Err(refusal) => record_spec(elem@) == Err::<EndpointView, ParseErrorView>(refusal@),
        },
        parsed is Ok <==> record_acceptable(elem@),
        parsed matches Ok(endpoint) ==> endpoint@.well_formed(),
{
    proof {
        lemma_record_characterized(elem@);
        if record_spec(elem@) is Ok {
            lemma_record_well_formed(elem@);
        }
    }
    let lit = match &elem.kind {
        ExprKind::Struct(lit) => lit,
        _ => {
            return Err(
                ParseError {
                    kind: ErrorKind::Structure,
                    field: None,
                    message: "not a structure".to_owned(),
                    span: elem.span,
                },
            );
        },
    };
    if lit.path.len() != 1 {
        return Err(
            ParseError {
                kind: ErrorKind::Structure,
                field: None,
                message: "a single path segment is expected".to_owned(),
                span: lit.path_span,
            },
        );
    }
    if !str_eq(lit.path[0].as_str(), "Endpoint") {
        return Err(
            ParseError {
                kind: ErrorKind::Structure,
                field: None,
                message: "structure must be of type `Endpoint`".to_owned(),
                span: lit.path_span,
            },
        );
    }
    let ghost fields = elem@.kind->Struct_0.fields;
    let mut definition = Definition::new();
    let mut i: usize = 0;
    while i < lit.fields.len()
        invariant
            i <= lit.fields.len(),
            record_spec(elem@) is Ok <==> record_acceptable(elem@),
            elem@.kind is Struct,
            elem@.kind->Struct_0.path.len() == 1,
            elem@.kind->Struct_0.path[0] == "Endpoint"@,
            elem@.kind->Struct_0.fields == fields,
            fields.len() == lit.fields.len(),
            forall|k: int| 0 <= k < fields.len() ==> fields[k] == (#[trigger] lit.fields[k])@,
            accept_fields(fields, i as nat) == Ok::<DefinitionView, ParseErrorView>(definition@),
        decreases lit.fields.len() - i,
    {
        match definition.accept(&lit.fields[i]) {
            Ok(next) => {
                definition = next;
            },
            Err(refusal) => {
                proof {
                    lemma_accept_fields_stops(fields, (i + 1) as nat, fields.len());
                }
                return Err(refusal);
            },
        }
        i += 1;
    }
    definition.finish(lit.path_span)
}

/// Once a field has been turned down, reading further fields changes
/// nothing.
pub proof fn lemma_accept_fields_stops(fields: Seq<FieldValueView>, n: nat, m: nat)
    requires
        n <= m,
        accept_fields(fields, n) is Err,
    ensures
        accept_fields(fields, m) == accept_fields(fields, n),
    decreases m,
{
    if n < m {
        lemma_accept_fields_stops(fields, n, (m - 1) as nat);
    }
}

} // verus!
