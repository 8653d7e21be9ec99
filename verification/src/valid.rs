//! What makes a record valid, said without reference to the order in
//! which its fields are read.

use vstd::prelude::*;
use crate::chain::chain_spec;
use crate::field::{is_standard_method, lemma_names_differ, path_is_valid};
use crate::laws::lemma_parse_succeeds_iff_all_valid;
use crate::normalize::normalized;
use crate::parse::parse_spec;
use crate::record::{accept_fields, record_spec, DefinitionView};
use crate::syntax::{ExprKindView, ExprView, FieldValueView, MemberView};

verus! {

/// Whether `field` is referenced by the name `name`.
pub open spec fn is_named(field: FieldValueView, name: Seq<char>) -> bool {
    match field.member {
        MemberView::Named { name: given, .. } => given == name,
        MemberView::Unnamed => false,
    }
}

/// Whether two fields are referenced by one and the same name.
pub open spec fn same_name(first: FieldValueView, second: FieldValueView) -> bool {
    match first.member {
        MemberView::Named { name, .. } => is_named(second, name),
        MemberView::Unnamed => false,
    }
}

/// Whether `field`, taken by itself, is one that a record may hold: a
/// valid `path`, a standard `method`, or a `chain_to` that is a list.
pub open spec fn field_acceptable(field: FieldValueView) -> bool {
    ||| is_named(field, "path"@) && path_is_valid(normalized(field.expr))
    ||| is_named(field, "method"@) && is_standard_method(normalized(field.expr))
    ||| is_named(field, "chain_to"@) && field.expr.kind is Array
}

/// Whether the first `n` of `fields` are each acceptable and no two of
/// them share a name.
pub open spec fn fields_acceptable(fields: Seq<FieldValueView>, n: nat) -> bool {
    &&& forall|i: int| 0 <= i < n ==> field_acceptable(#[trigger] fields[i])
    &&& forall|i: int, j: int|
        #![trigger fields[i], fields[j]]
        0 <= i < j < n ==> !same_name(fields[i], fields[j])
}

/// Whether one of the first `n` of `fields` is called `name`.
pub open spec fn holds(fields: Seq<FieldValueView>, n: nat, name: Seq<char>) -> bool {
    exists|i: int| 0 <= i < n && is_named(#[trigger] fields[i], name)
}

/// The value of a field called `name` among the first `n` of `fields`.
pub open spec fn value_of(fields: Seq<FieldValueView>, n: nat, name: Seq<char>) -> ExprView {
    fields[choose|i: int| 0 <= i < n && is_named(#[trigger] fields[i], name)].expr
}

/// The definition that the first `n` of `fields` amount to, whatever
/// their order.
pub open spec fn gathered(fields: Seq<FieldValueView>, n: nat) -> DefinitionView {
    DefinitionView {
        path: if holds(fields, n, "path"@) {
            Some(normalized(value_of(fields, n, "path"@)))
        } else {
            None
        },
        method: if holds(fields, n, "method"@) {
            Some(normalized(value_of(fields, n, "method"@)))
        } else {
            None
        },
        chain_to: if holds(fields, n, "chain_to"@) {
            Some(chain_spec(value_of(fields, n, "chain_to"@))->Ok_0)
        } else {
            None
        },
    }
}

/// Whether `elem` is a valid record: of type `Endpoint`, every field
/// acceptable, no name twice, `path` and `method` both there.
pub open spec fn record_acceptable(elem: ExprView) -> bool {
    &&& elem.kind matches ExprKindView::Struct(lit)
    &&& lit.path.len() == 1
    &&& lit.path[0] == "Endpoint"@
    &&& fields_acceptable(lit.fields, lit.fields.len())
    &&& holds(lit.fields, lit.fields.len(), "path"@)
    &&& holds(lit.fields, lit.fields.len(), "method"@)
}

/// Whether `input` is a list of valid records.
pub open spec fn input_acceptable(input: ExprView) -> bool {
    &&& input.kind matches ExprKindView::Array(elems)
    &&& forall|i: int| 0 <= i < elems.len() ==> record_acceptable(#[trigger] elems[i])
}

/// Where no two fields share a name, the field called `name` is the only
/// one, so its value is the value that [`value_of`] picks.
pub proof fn lemma_value_of_named(
    fields: Seq<FieldValueView>,
    n: nat,
    name: Seq<char>,
    i: int,
)
    requires
        0 <= i < n,
        is_named(fields[i], name),
        forall|a: int, b: int|
            #![trigger fields[a], fields[b]]
            0 <= a < b < n ==> !same_name(fields[a], fields[b]),
    ensures
        holds(fields, n, name),
        value_of(fields, n, name) == fields[i].expr,
{
    let j = choose|j: int| 0 <= j < n && is_named(#[trigger] fields[j], name);
    if i < j {
        assert(same_name(fields[i], fields[j]));
    } else if j < i {
        assert(same_name(fields[j], fields[i]));
    }
}

/// What one more field does to [`holds`] and [`value_of`].
proof fn lemma_gathered_step(fields: Seq<FieldValueView>, m: nat, name: Seq<char>)
    requires
        m < fields.len(),
        fields_acceptable(fields, m + 1),
    ensures
        holds(fields, m + 1, name) <==> holds(fields, m, name) || is_named(fields[m as int], name),
        holds(fields, m, name) ==> value_of(fields, m + 1, name) == value_of(fields, m, name),
        is_named(fields[m as int], name) ==> value_of(fields, m + 1, name) == fields[m as int].expr,
{
    if holds(fields, m, name) {
        let i = choose|i: int| 0 <= i < m && is_named(#[trigger] fields[i], name);
        lemma_value_of_named(fields, m, name, i);
        lemma_value_of_named(fields, m + 1, name, i);
    }
    if is_named(fields[m as int], name) {
        lemma_value_of_named(fields, m + 1, name, m as int);
    }
    if holds(fields, m + 1, name) {
        let i = choose|i: int| 0 <= i < m + 1 && is_named(#[trigger] fields[i], name);
        if i < m {
            assert(holds(fields, m, name));
        }
    }
}

/// Reading the first `n` fields in order succeeds exactly when they are
/// acceptable, and then gives the definition that they amount to.
pub proof fn lemma_accept_fields_characterized(fields: Seq<FieldValueView>, n: nat)
    requires
        n <= fields.len(),
    ensures
        accept_fields(fields, n) is Ok <==> fields_acceptable(fields, n),
        accept_fields(fields, n) is Ok ==> accept_fields(fields, n)->Ok_0 == gathered(fields, n),
    decreases n,
{
    lemma_names_differ();
    if n > 0 {
        let m = (n - 1) as nat;
        let last = fields[m as int];
        lemma_accept_fields_characterized(fields, m);
        if accept_fields(fields, m) is Ok {
            let before = accept_fields(fields, m)->Ok_0;
            assert(fields_acceptable(fields, m));
            assert(before == gathered(fields, m));
            match last.member {
                MemberView::Unnamed => {
                    assert(!field_acceptable(last));
                },
                MemberView::Named { name, span } => {
                    if before.has(name) {
                        assert(holds(fields, m, name));
                        let i = choose|i: int| 0 <= i < m && is_named(#[trigger] fields[i], name);
                        assert(same_name(fields[i], fields[m as int]));
                    } else if before.accept(last) is Ok {
                        assert(field_acceptable(last));
                        assert forall|i: int, j: int|
                            #![trigger fields[i], fields[j]]
                            0 <= i < j < n implies !same_name(fields[i], fields[j]) by {
                            if j == m && same_name(fields[i], fields[j]) {
                                assert(is_named(fields[i], name));
                                assert(holds(fields, m, name));
                            }
                        }
                        assert(fields_acceptable(fields, n));
                        lemma_gathered_step(fields, m, "path"@);
                        lemma_gathered_step(fields, m, "method"@);
                        lemma_gathered_step(fields, m, "chain_to"@);
                    } else {
                        assert(!field_acceptable(last));
                    }
                },
            }
        } else {
            assert(!fields_acceptable(fields, m));
        }
    }
}

/// A record parses exactly when it is valid, and its descriptor then holds
/// the normalized values of its `path` and `method` fields and the chain
/// of its `chain_to` field, if it has one.
pub proof fn lemma_record_characterized(elem: ExprView)
    ensures
        record_spec(elem) is Ok <==> record_acceptable(elem),
        record_spec(elem) matches Ok(endpoint) ==> {
            let fields = elem.kind->Struct_0.fields;
            &&& endpoint.path == normalized(value_of(fields, fields.len(), "path"@))
            &&& endpoint.method == normalized(value_of(fields, fields.len(), "method"@))
            &&& holds(fields, fields.len(), "chain_to"@) ==> endpoint.chain_to == Some(
                chain_spec(value_of(fields, fields.len(), "chain_to"@))->Ok_0,
            )
            &&& !holds(fields, fields.len(), "chain_to"@) ==> endpoint.chain_to.is_none()
        },
{
    if elem.kind is Struct {
        let fields = elem.kind->Struct_0.fields;
        lemma_accept_fields_characterized(fields, fields.len());
    }
}

/// Each element of a rearrangement stands somewhere among the fields that
/// it rearranges.
proof fn lemma_rearranged_member(
    fields: Seq<FieldValueView>,
    rearranged: Seq<FieldValueView>,
    j: int,
) -> (i: int)
    requires
        fields.to_multiset() == rearranged.to_multiset(),
        0 <= j < rearranged.len(),
    ensures
        0 <= i < fields.len(),
        fields[i] == rearranged[j],
{
    fields.to_multiset_ensures();
    rearranged.to_multiset_ensures();
    assert(rearranged.contains(rearranged[j]));
    assert(fields.to_multiset().count(rearranged[j]) > 0);
    assert(fields.contains(rearranged[j]));
    choose|i: int| 0 <= i < fields.len() && fields[i] == rearranged[j]
}

/// A rearrangement of acceptable fields is acceptable.
proof fn lemma_rearranged_acceptable(fields: Seq<FieldValueView>, rearranged: Seq<FieldValueView>)
    requires
        fields.to_multiset() == rearranged.to_multiset(),
        fields_acceptable(fields, fields.len()),
    ensures
        rearranged.len() == fields.len(),
        fields_acceptable(rearranged, rearranged.len()),
{
    fields.to_multiset_ensures();
    rearranged.to_multiset_ensures();
    assert forall|i: int, j: int| 0 <= i < j < fields.len() implies fields[i] != fields[j] by {
        assert(field_acceptable(fields[i]));
        if fields[i] == fields[j] {
            assert(same_name(fields[i], fields[j]));
        }
    }
    assert(fields.no_duplicates());
    fields.lemma_multiset_has_no_duplicates();
    rearranged.lemma_multiset_has_no_duplicates_conv();
    assert forall|j: int| 0 <= j < rearranged.len() implies field_acceptable(
        #[trigger] rearranged[j],
    ) by {
        let i = lemma_rearranged_member(fields, rearranged, j);
        assert(field_acceptable(fields[i]));
    }
    assert forall|i: int, j: int|
        #![trigger rearranged[i], rearranged[j]]
        0 <= i < j < rearranged.len() implies !same_name(rearranged[i], rearranged[j]) by {
        if same_name(rearranged[i], rearranged[j]) {
            let k = lemma_rearranged_member(fields, rearranged, i);
            let l = lemma_rearranged_member(fields, rearranged, j);
            if k < l {
                assert(same_name(fields[k], fields[l]));
            } else if l < k {
                assert(same_name(fields[l], fields[k]));
            }
            assert(rearranged[i] == rearranged[j]);
        }
    }
}

/// A rearrangement holds a field of a given name exactly where the fields
/// that it rearranges do, and with the same value.
proof fn lemma_rearranged_value(
    fields: Seq<FieldValueView>,
    rearranged: Seq<FieldValueView>,
    name: Seq<char>,
)
    requires
        fields.to_multiset() == rearranged.to_multiset(),
        fields_acceptable(fields, fields.len()),
        fields_acceptable(rearranged, rearranged.len()),
    ensures
        holds(rearranged, rearranged.len(), name) <==> holds(fields, fields.len(), name),
        holds(fields, fields.len(), name) ==> value_of(rearranged, rearranged.len(), name)
            == value_of(fields, fields.len(), name),
{
    if holds(rearranged, rearranged.len(), name) {
        let j = choose|j: int|
            0 <= j < rearranged.len() && is_named(#[trigger] rearranged[j], name);
        let i = lemma_rearranged_member(fields, rearranged, j);
        lemma_value_of_named(fields, fields.len(), name, i);
        lemma_value_of_named(rearranged, rearranged.len(), name, j);
    }
    if holds(fields, fields.len(), name) {
        let i = choose|i: int| 0 <= i < fields.len() && is_named(#[trigger] fields[i], name);
        let j = lemma_rearranged_member(rearranged, fields, i);
        lemma_value_of_named(fields, fields.len(), name, i);
        lemma_value_of_named(rearranged, rearranged.len(), name, j);
    }
}

/// The order of the fields is irrelevant: where the fields of a record
/// are accepted in one order, they are accepted in every other order, and
/// amount to the same definition.
pub proof fn lemma_field_order_is_irrelevant(
    fields: Seq<FieldValueView>,
    rearranged: Seq<FieldValueView>,
)
    requires
        fields.to_multiset() == rearranged.to_multiset(),
        accept_fields(fields, fields.len()) is Ok,
    ensures
        accept_fields(rearranged, rearranged.len()) == accept_fields(fields, fields.len()),
{
    lemma_accept_fields_characterized(fields, fields.len());
    lemma_rearranged_acceptable(fields, rearranged);
    lemma_accept_fields_characterized(rearranged, rearranged.len());
    lemma_rearranged_value(fields, rearranged, "path"@);
    lemma_rearranged_value(fields, rearranged, "method"@);
    lemma_rearranged_value(fields, rearranged, "chain_to"@);
}

/// Two records of one type whose fields differ only in their order parse
/// to the same descriptor, where one of them parses at all.
pub proof fn lemma_record_field_order_is_irrelevant(elem: ExprView, rearranged: ExprView)
    requires
        elem.kind is Struct,
        rearranged.kind is Struct,
        elem.kind->Struct_0.path == rearranged.kind->Struct_0.path,
        elem.kind->Struct_0.fields.to_multiset() == rearranged.kind->Struct_0.fields.to_multiset(),
        record_spec(elem) is Ok,
    ensures
        record_spec(rearranged) == record_spec(elem),
{
    lemma_field_order_is_irrelevant(
        elem.kind->Struct_0.fields,
        rearranged.kind->Struct_0.fields,
    );
}

/// A parse succeeds exactly when the input is a list of valid records.
pub proof fn lemma_parse_succeeds_iff_acceptable(input: ExprView)
    ensures
        parse_spec(input) is Ok <==> input_acceptable(input),
{
    lemma_parse_succeeds_iff_all_valid(input);
    if input.kind is Array {
        let elems = input.kind->Array_0;
        assert forall|i: int| 0 <= i < elems.len() implies (record_acceptable(
            #[trigger] elems[i],
        ) <==> record_spec(elems[i]) is Ok) by {
            lemma_record_characterized(elems[i]);
        }
    }
}

} // verus!
