//! The rules that a single field value has to pass.

use std::str::FromStr;
use vstd::prelude::*;
use crate::error::{ErrorKind, FieldError, FieldErrorView};
use crate::text::{join2, join3, str_eq};

verus! {

/// A path has at least two characters, and begins and ends with `/`.
pub open spec fn path_is_valid(value: Seq<char>) -> bool {
    value.len() >= 2 && value[0] == '/' && value[value.len() - 1] == '/'
}

/// The nine method tokens that an endpoint may name.
pub open spec fn is_standard_method(value: Seq<char>) -> bool {
    value == "GET"@ || value == "POST"@ || value == "PUT"@ || value == "DELETE"@ || value
        == "HEAD"@ || value == "OPTIONS"@ || value == "CONNECT"@ || value == "PATCH"@ || value
        == "TRACE"@
}

/// What is said of a path that is not valid: the first of the three
/// demands that it fails, its length before its leading `/`, that before
/// its trailing `/`.
pub open spec fn path_refusal(value: Seq<char>) -> Seq<char> {
    if value.len() < 2 {
        "path: "@ + value + " must be at least 2 characters"@
    } else if value[0] != '/' {
        "path: "@ + value + " should start with `/`"@
    } else {
        "path: "@ + value + " should end with `/`"@
    }
}

/// What is said of a method that is not a standard token.
pub open spec fn method_refusal(value: Seq<char>) -> Seq<char> {
    "unknown method: "@ + value
}

/// What is said of a field name that no rule knows.
pub open spec fn name_refusal(name: Seq<char>) -> Seq<char> {
    "unknown field name: "@ + name
}

/// What [`check_field`] answers for a field called `name` whose normalized
/// value is `value`.
pub open spec fn check_field_spec(name: Seq<char>, value: Seq<char>) -> Result<
    Seq<char>,
    FieldErrorView,
> {
    if name == "path"@ {
        if path_is_valid(value) {
            Ok(value)
        } else {
            Err(FieldErrorView { kind: ErrorKind::PathFormat, message: path_refusal(value) })
        }
    } else if name == "method"@ {
        if is_standard_method(value) {
            Ok(value)
        } else {
            Err(FieldErrorView { kind: ErrorKind::InvalidMethod, message: method_refusal(value) })
        }
    } else {
        Err(FieldErrorView { kind: ErrorKind::UnknownField, message: name_refusal(name) })
    }
}

/// The three field names are three different strings.
pub proof fn lemma_names_differ()
    ensures
        "path"@ != "method"@,
        "path"@ != "chain_to"@,
        "method"@ != "chain_to"@,
{
    reveal_strlit("path");
    reveal_strlit("method");
    reveal_strlit("chain_to");
    assert("path"@.len() == 4);
    assert("method"@.len() == 6);
    assert("chain_to"@.len() == 8);
}

/// Whether `hyper::Method::from_str` returns `Ok` for `token`.
pub uninterp spec fn hyper_accepts_method(token: Seq<char>) -> bool;

/// Asks `hyper::Method::from_str` (hyper's `Method` is that of the `http`
/// crate) whether `token` is a method at all.
///
/// Not proved, but taken from hyper: the answer depends on the token
/// alone, and each of the nine standard tokens is accepted. hyper accepts
/// more than those, extension methods among them, which is why
/// [`check_field`] does not leave the decision to it.
#[verifier::external_body]
fn parses_as_method(token: &str) -> (accepted: bool)
    ensures
        accepted == hyper_accepts_method(token@),
        is_standard_method(token@) ==> accepted,
{
    hyper::Method::from_str(token).is_ok()
}

/// Whether `value` is one of the nine standard method tokens.
pub fn is_standard_method_token(value: &str) -> (standard: bool)
    ensures
        standard == is_standard_method(value@),
{
    str_eq(value, "GET") || str_eq(value, "POST") || str_eq(value, "PUT") || str_eq(
        value,
        "DELETE",
    ) || str_eq(value, "HEAD") || str_eq(value, "OPTIONS") || str_eq(value, "CONNECT") || str_eq(
        value,
        "PATCH",
    ) || str_eq(value, "TRACE")
}

/// Applies the rule for the field called `name` to its normalized `value`.
///
/// A `path` must be at least two characters long and both start and end
/// with `/`; a `method` must be one of the standard method tokens; no other
/// name is known. A value that passes comes back unchanged.
pub fn check_field(name: &str, value: &str) -> (checked: Result<String, FieldError>)
    ensures
        match checked {
            Ok(accepted) => check_field_spec(name@, value@) == Ok::<Seq<char>, FieldErrorView>(
                accepted@,
            ),
            Err(refusal) => check_field_spec(name@, value@) == Err::<Seq<char>, FieldErrorView>(
                refusal@,
            ),
        },
        checked is Ok <==> (name@ == "path"@ && path_is_valid(value@)) || (name@ == "method"@
            && is_standard_method(value@)),
        checked matches Ok(accepted) ==> accepted@ == value@,
{
    proof {
        lemma_names_differ();
    }
    if str_eq(name, "path") {
        let length = value.unicode_len();
        if length < 2 {
            return Err(
                FieldError {
                    kind: ErrorKind::PathFormat,
                    message: join3("path: ", value, " must be at least 2 characters"),
                },
            );
        }
        if value.get_char(0) != '/' {
            return Err(
                FieldError {
                    kind: ErrorKind::PathFormat,
                    message: join3("path: ", value, " should start with `/`"),
                },
            );
        }
        if value.get_char(length - 1) != '/' {
            return Err(
                FieldError {
                    kind: ErrorKind::PathFormat,
                    message: join3("path: ", value, " should end with `/`"),
                },
            );
        }
        Ok(value.to_owned())
    } else if str_eq(name, "method") {
        if parses_as_method(value) && is_standard_method_token(value) {
            Ok(value.to_owned())
        } else {
            Err(
                FieldError {
                    kind: ErrorKind::InvalidMethod,
                    message: join2("unknown method: ", value),
                },
            )
        }
    } else {
        Err(
            FieldError {
                kind: ErrorKind::UnknownField,
                message: join2("unknown field name: ", name),
            },
        )
    }
}

} // verus!
