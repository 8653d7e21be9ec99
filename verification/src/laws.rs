//! What holds of every parse, whatever the input.

use vstd::prelude::*;
use crate::chain::array_spec;
use crate::endpoint::EndpointView;
use crate::error::{ErrorKind, FieldErrorView, ParseErrorView};
use crate::field::{
    check_field_spec,
    is_standard_method,
    method_refusal,
    name_refusal,
    path_is_valid,
    path_refusal,
};
use crate::parse::{first_invalid, parse_records, parse_spec, records_valid};
use crate::normalize::normalized;
use crate::record::{accept_fields, lemma_accept_fields_stops, record_spec, DefinitionView};
use crate::syntax::{ExprView, FieldValueView, MemberView};

verus! {

/// A field value that passes its rule comes back unchanged, and only a
/// valid path or a standard method passes.
pub proof fn lemma_checked_value(name: Seq<char>, value: Seq<char>)
    requires
        check_field_spec(name, value) is Ok,
    ensures
        check_field_spec(name, value) == Ok::<Seq<char>, FieldErrorView>(value),
        name == "path"@ || name == "method"@,
        name == "path"@ ==> path_is_valid(value),
        name != "path"@ ==> is_standard_method(value),
{
}

/// Whatever fields have been accepted, a stored path is valid and a stored
/// method is standard.
pub proof fn lemma_accepted_fields_valid(fields: Seq<FieldValueView>, n: nat)
    requires
        accept_fields(fields, n) is Ok,
    ensures
        accept_fields(fields, n)->Ok_0.path matches Some(path) ==> path_is_valid(path),
        accept_fields(fields, n)->Ok_0.method matches Some(method) ==> is_standard_method(method),
    decreases n,
{
    if n > 0 {
        lemma_accepted_fields_valid(fields, (n - 1) as nat);
    }
}

/// Every descriptor that a record parses to is well formed: its path has
/// at least two characters and begins and ends with `/`, and its method is
/// a standard token.
pub proof fn lemma_record_well_formed(elem: ExprView)
    requires
        record_spec(elem) is Ok,
    ensures
        record_spec(elem)->Ok_0.well_formed(),
{
    let lit = elem.kind->Struct_0;
    lemma_accepted_fields_valid(lit.fields, lit.fields.len());
}

/// A list of `n` valid records parses to exactly `n` descriptors, the
/// `i`-th of them that of the `i`-th record.
pub proof fn lemma_valid_records_parse_in_order(elems: Seq<ExprView>, n: nat)
    requires
        records_valid(elems, n),
    ensures
        parse_records(elems, n) is Ok,
        parse_records(elems, n)->Ok_0.len() == n,
        forall|i: int|
            0 <= i < n ==> record_spec(elems[i]) == Ok::<EndpointView, ParseErrorView>(
                #[trigger] parse_records(elems, n)->Ok_0[i],
            ),
    decreases n,
{
    if n > 0 {
        lemma_valid_records_parse_in_order(elems, (n - 1) as nat);
        assert(record_spec(elems[n - 1]) is Ok);
    }
}

/// A parse of the first `n` elements that succeeds has found every one of
/// them valid.
pub proof fn lemma_parsed_records_valid(elems: Seq<ExprView>, n: nat)
    requires
        parse_records(elems, n) is Ok,
    ensures
        records_valid(elems, n),
    decreases n,
{
    if n > 0 {
        lemma_parsed_records_valid(elems, (n - 1) as nat);
    }
}

/// The first record that is turned down decides the parse: its diagnostic
/// is the result, whatever stands before or after it.
pub proof fn lemma_first_invalid_record_decides(elems: Seq<ExprView>, k: int, n: nat)
    requires
        first_invalid(elems, k),
        k < n,
    ensures
        parse_records(elems, n) == Err::<Seq<EndpointView>, ParseErrorView>(
            record_spec(elems[k])->Err_0,
        ),
    decreases n,
{
    if n == k + 1 {
        lemma_valid_records_parse_in_order(elems, k as nat);
    } else {
        lemma_first_invalid_record_decides(elems, k, (n - 1) as nat);
    }
}

/// A parse of the first `n` elements that fails has met a first invalid
/// record, and returns that record's diagnostic.
pub proof fn lemma_failed_parse_has_first_invalid(elems: Seq<ExprView>, n: nat) -> (k: int)
    requires
        n <= elems.len(),
        parse_records(elems, n) is Err,
    ensures
        k < n,
        first_invalid(elems, k),
        parse_records(elems, n) == Err::<Seq<EndpointView>, ParseErrorView>(
            record_spec(elems[k])->Err_0,
        ),
    decreases n,
{
    if parse_records(elems, (n - 1) as nat) is Err {
        lemma_failed_parse_has_first_invalid(elems, (n - 1) as nat)
    } else {
        lemma_parsed_records_valid(elems, (n - 1) as nat);
        n - 1
    }
}

/// For every well-formed list of valid records, the parser returns as many
/// descriptors as there are records, in the order of the records, each of
/// them well formed.
pub proof fn lemma_parse_valid_list(input: ExprView)
    requires
        array_spec(input) is Ok,
        records_valid(array_spec(input)->Ok_0, array_spec(input)->Ok_0.len()),
    ensures
        parse_spec(input) is Ok,
        parse_spec(input)->Ok_0.len() == array_spec(input)->Ok_0.len(),
        forall|i: int|
            0 <= i < array_spec(input)->Ok_0.len() ==> {
                &&& record_spec(array_spec(input)->Ok_0[i]) == Ok::<EndpointView, ParseErrorView>(
                    #[trigger] parse_spec(input)->Ok_0[i],
                )
                &&& parse_spec(input)->Ok_0[i].well_formed()
            },
{
    let elems = array_spec(input)->Ok_0;
    lemma_valid_records_parse_in_order(elems, elems.len());
    assert forall|i: int| 0 <= i < elems.len() implies (#[trigger] parse_spec(
        input,
    )->Ok_0[i]).well_formed() by {
        lemma_record_well_formed(elems[i]);
    }
}

/// A parse succeeds exactly when the input is a list and every element of
/// it is a valid record.
pub proof fn lemma_parse_succeeds_iff_all_valid(input: ExprView)
    ensures
        parse_spec(input) is Ok <==> array_spec(input) is Ok && records_valid(
            array_spec(input)->Ok_0,
            array_spec(input)->Ok_0.len(),
        ),
{
    if array_spec(input) is Ok {
        let elems = array_spec(input)->Ok_0;
        if parse_spec(input) is Ok {
            lemma_parsed_records_valid(elems, elems.len());
        }
        if records_valid(elems, elems.len()) {
            lemma_valid_records_parse_in_order(elems, elems.len());
        }
    }
}

/// A parse that fails returns a single diagnostic: that of the input
/// itself where it is no list, else that of the first invalid record.
pub proof fn lemma_parse_fails_fast(input: ExprView)
    requires
        parse_spec(input) is Err,
    ensures
        array_spec(input) is Err ==> parse_spec(input)->Err_0 == array_spec(input)->Err_0,
        array_spec(input) is Ok ==> exists|k: int|
            first_invalid(array_spec(input)->Ok_0, k) && #[trigger] record_spec(
                array_spec(input)->Ok_0[k],
            ) == Err::<EndpointView, ParseErrorView>(parse_spec(input)->Err_0),
{
    if array_spec(input) is Ok {
        let elems = array_spec(input)->Ok_0;
        let k = lemma_failed_parse_has_first_invalid(elems, elems.len());
        assert(record_spec(elems[k]) == Err::<EndpointView, ParseErrorView>(
            parse_spec(input)->Err_0,
        ));
    }
}

/// Whether `refusal` is one of the diagnostics that a parse can end in:
/// its class, the field it names and its text agree.
pub open spec fn is_diagnostic(refusal: ParseErrorView) -> bool {
    match refusal.kind {
        ErrorKind::Structure => {
            &&& refusal.field is None
            &&& {
                ||| refusal.message == "not an array"@
                ||| refusal.message == "not a structure"@
                ||| refusal.message == "a single path segment is expected"@
                ||| refusal.message == "structure must be of type `Endpoint`"@
                ||| refusal.message == "field should be named"@
            }
        },
        ErrorKind::DuplicateField => {
            &&& refusal.message == "is already defined"@
            &&& {
                ||| refusal.field == Some("path"@)
                ||| refusal.field == Some("method"@)
                ||| refusal.field == Some("chain_to"@)
            }
        },
        ErrorKind::UnknownField => {
            &&& refusal.field matches Some(name)
            &&& name != "path"@
            &&& name != "method"@
            &&& name != "chain_to"@
            &&& refusal.message == name_refusal(name)
        },
        ErrorKind::MissingRequiredField => {
            ||| refusal.field == Some("path"@) && refusal.message == "missing field `path`"@
            ||| refusal.field == Some("method"@) && refusal.message == "missing field `method`"@
        },
        ErrorKind::PathFormat => {
            &&& refusal.field == Some("path"@)
            &&& exists|value: Seq<char>|
                !path_is_valid(value) && refusal.message == #[trigger] path_refusal(value)
        },
        ErrorKind::InvalidMethod => {
            &&& refusal.field == Some("method"@)
            &&& exists|value: Seq<char>|
                !is_standard_method(value) && refusal.message == #[trigger] method_refusal(value)
        },
    }
}

/// The first field that is turned down decides its record: the fields
/// after it are not read.
pub proof fn lemma_first_refused_field_decides(fields: Seq<FieldValueView>, k: nat)
    requires
        k < fields.len(),
        accept_fields(fields, k) is Ok,
        accept_fields(fields, k)->Ok_0.accept(fields[k as int]) is Err,
    ensures
        accept_fields(fields, fields.len()) == Err::<DefinitionView, ParseErrorView>(
            accept_fields(fields, k)->Ok_0.accept(fields[k as int])->Err_0,
        ),
{
    assert(accept_fields(fields, k + 1) is Err);
    lemma_accept_fields_stops(fields, k + 1, fields.len());
}

/// Whatever reading the fields of a record ends in, it is a diagnostic of
/// one of the known forms.
pub proof fn lemma_field_diagnostic(fields: Seq<FieldValueView>, n: nat)
    requires
        accept_fields(fields, n) is Err,
    ensures
        is_diagnostic(accept_fields(fields, n)->Err_0),
    decreases n,
{
    if n > 0 {
        if accept_fields(fields, (n - 1) as nat) is Err {
            lemma_field_diagnostic(fields, (n - 1) as nat);
        } else {
            let before = accept_fields(fields, (n - 1) as nat)->Ok_0;
            let field = fields[n - 1];
            let refusal = before.accept(field)->Err_0;
            match field.member {
                MemberView::Unnamed => {},
                MemberView::Named { name, span } => {
                    if before.has(name) {
                    } else if name == "chain_to"@ {
                    } else {
                        let value = normalized(field.expr);
                        if name == "path"@ {
                            assert(refusal.message == path_refusal(value));
                        } else if name == "method"@ {
                            assert(refusal.message == method_refusal(value));
                        }
                    }
                },
            }
        }
    }
}

/// Every failure of a parse is a single diagnostic of one of the known
/// forms.
pub proof fn lemma_parse_diagnostic(input: ExprView)
    requires
        parse_spec(input) is Err,
    ensures
        is_diagnostic(parse_spec(input)->Err_0),
{
    lemma_parse_fails_fast(input);
    if array_spec(input) is Ok {
        let elems = array_spec(input)->Ok_0;
        let k = choose|k: int|
            first_invalid(elems, k) && #[trigger] record_spec(elems[k]) == Err::<
                EndpointView,
                ParseErrorView,
            >(parse_spec(input)->Err_0);
        lemma_record_diagnostic(elems[k]);
    }
}

/// Every failure of a record is a diagnostic of one of the known forms.
pub proof fn lemma_record_diagnostic(elem: ExprView)
    requires
        record_spec(elem) is Err,
    ensures
        is_diagnostic(record_spec(elem)->Err_0),
{
    if elem.kind is Struct {
        let lit = elem.kind->Struct_0;
        if accept_fields(lit.fields, lit.fields.len()) is Err {
            lemma_field_diagnostic(lit.fields, lit.fields.len());
        }
    }
}

} // verus!
