//! The endpoint descriptor that parsing produces.

use vstd::prelude::*;
use crate::field::{is_standard_method, path_is_valid};

verus! {

/// A validated endpoint.
#[derive(Debug)]
pub struct Endpoint {
    /// At least two characters, beginning and ending with `/`.
    pub path: String,
    /// One of the standard method tokens.
    pub method: String,
    /// The endpoints that a request is handed on to, in order. Nothing
    /// checks that they exist, and one may occur more than once.
    pub chain_to: Option<Vec<String>>,
}

/// The mathematical value of an [`Endpoint`].
pub struct EndpointView {
    pub path: Seq<char>,
    pub method: Seq<char>,
    pub chain_to: Option<Seq<Seq<char>>>,
}

impl EndpointView {
    /// What every descriptor that the parser returns satisfies.
    pub open spec fn well_formed(self) -> bool {
        path_is_valid(self.path) && is_standard_method(self.method)
    }
}

impl View for Endpoint {
    type V = EndpointView;

    open spec fn view(&self) -> EndpointView {
        EndpointView {
            path: self.path@,
            method: self.method@,
            chain_to: match self.chain_to {
                Some(chain) => Some(chain.deep_view()),
                None => None,
            },
        }
    }
}

impl DeepView for Endpoint {
    type V = EndpointView;

    open spec fn deep_view(&self) -> EndpointView {
        self@
    }
}

} // verus!
