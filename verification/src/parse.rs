//! The whole list: every record parsed in order, the first failure final.

use vstd::prelude::*;
use crate::chain::{array_spec, to_array};
use crate::endpoint::{Endpoint, EndpointView};
use crate::error::{ParseError, ParseErrorView};
use crate::laws::{
    is_diagnostic,
    lemma_parse_diagnostic,
    lemma_parse_succeeds_iff_all_valid,
    lemma_parse_valid_list,
};
use crate::record::{parse_record, record_spec};
use crate::syntax::{Expr, ExprView};
use crate::valid::{input_acceptable, lemma_parse_succeeds_iff_acceptable};

verus! {

/// The descriptors of the first `n` of `elems`, parsed in order, or the
/// first diagnostic met on the way.
pub open spec fn parse_records(elems: Seq<ExprView>, n: nat) -> Result<
    Seq<EndpointView>,
    ParseErrorView,
>
    decreases n,
{
    if n == 0 {
        Ok(Seq::empty())
    } else {
        match parse_records(elems, (n - 1) as nat) {
            Ok(endpoints) => match record_spec(elems[n - 1]) {
                Ok(endpoint) => Ok(endpoints.push(endpoint)),
                Err(refusal) => Err(refusal),
            },
            Err(refusal) => Err(refusal),
        }
    }
}

/// What [`parse_endpoints`] answers.
pub open spec fn parse_spec(input: ExprView) -> Result<Seq<EndpointView>, ParseErrorView> {
    match array_spec(input) {
        Ok(elems) => parse_records(elems, elems.len()),
        Err(refusal) => Err(refusal),
    }
}

/// Whether each of the first `n` of `elems` parses as a record.
pub open spec fn records_valid(elems: Seq<ExprView>, n: nat) -> bool {
    forall|i: int| 0 <= i < n ==> (#[trigger] record_spec(elems[i])) is Ok
}

/// Whether `elems[k]` is the first element that does not parse as a
/// record.
pub open spec fn first_invalid(elems: Seq<ExprView>, k: int) -> bool {
    &&& 0 <= k < elems.len()
    &&& records_valid(elems, k as nat)
    &&& record_spec(elems[k]) is Err
}

/// Once a record has been turned down, the records after it change
/// nothing.
pub proof fn lemma_parse_records_stops(elems: Seq<ExprView>, n: nat, m: nat)
    requires
        n <= m,
        parse_records(elems, n) is Err,
    ensures
        parse_records(elems, m) == parse_records(elems, n),
    decreases m,
{
    if n < m {
        lemma_parse_records_stops(elems, n, (m - 1) as nat);
    }
}

/// Parses a list of endpoint definitions.
///
/// `input` must be a list literal, each element a record literal of type
/// `Endpoint` with the fields `path` and `method` and, if wanted,
/// `chain_to`, in any order. The descriptors come back in the order of
/// the records. The first failure anywhere ends the parse: its diagnostic
/// is returned and no descriptor is.
pub fn parse_endpoints(input: &Expr) -> (parsed: Result<Vec<Endpoint>, ParseError>)
    ensures
        match parsed {
            Ok(endpoints) => parse_spec(input@) == Ok::<Seq<EndpointView>, ParseErrorView>(
                endpoints.deep_view(),
            ),
            Err(refusal) => parse_spec(input@) == Err::<Seq<EndpointView>, ParseErrorView>(
                refusal@,
            ),
        },
        parsed is Ok <==> input_acceptable(input@),
        parsed matches Err(refusal) ==> is_diagnostic(refusal@),
        parsed matches Ok(endpoints) ==> {
            &&& endpoints.len() == array_spec(input@)->Ok_0.len()
            &&& forall|i: int|
                0 <= i < endpoints.len() ==> {
                    &&& record_spec(array_spec(input@)->Ok_0[i]) == Ok::<
                        EndpointView,
                        ParseErrorView,
                    >((#[trigger] endpoints[i])@)
                    &&& endpoints[i]@.well_formed()
                }
        },
{
    proof {
        lemma_parse_succeeds_iff_acceptable(input@);
        lemma_parse_succeeds_iff_all_valid(input@);
        if parse_spec(input@) is Err {
            lemma_parse_diagnostic(input@);
        }
    }
    let elems = match to_array(input) {
        Ok(elems) => elems,
        Err(refusal) => {
            return Err(refusal);
        },
    };
    let ghost views = array_spec(input@)->Ok_0;
    let mut endpoints: Vec<Endpoint> = Vec::new();
    let mut i: usize = 0;
    assert(endpoints.deep_view() =~= Seq::<EndpointView>::empty());
    while i < elems.len()
        invariant
            i <= elems.len(),
            parse_spec(input@) is Err ==> is_diagnostic(parse_spec(input@)->Err_0),
            array_spec(input@) == Ok::<Seq<ExprView>, ParseErrorView>(views),
            views.len() == elems.len(),
            forall|k: int| 0 <= k < elems.len() ==> views[k] == (#[trigger] elems[k])@,
            parse_records(views, i as nat) == Ok::<Seq<EndpointView>, ParseErrorView>(
                endpoints.deep_view(),
            ),
        decreases elems.len() - i,
    {
        match parse_record(&elems[i]) {
            Ok(endpoint) => {
                let ghost before = endpoints.deep_view();
                endpoints.push(endpoint);
                assert(endpoints.deep_view() =~= before.push(endpoint@));
            },
            Err(refusal) => {
                proof {
                    lemma_parse_records_stops(views, (i + 1) as nat, views.len());
                }
                return Err(refusal);
            },
        }
        i += 1;
    }
    proof {
        lemma_parse_valid_list(input@);
        assert forall|i: int| 0 <= i < endpoints.len() implies {
            &&& record_spec(views[i]) == Ok::<EndpointView, ParseErrorView>(
                (#[trigger] endpoints[i])@,
            )
            &&& endpoints[i]@.well_formed()
        } by {
            assert(endpoints.deep_view()[i] == endpoints[i]@);
        }
    }
    Ok(endpoints)
}

} // verus!
