//! Argument mapping for generated query methods.
//!
//! A method that runs a query has a list of parameters, and the query is
//! written as a template in which literal text alternates with placeholders
//! that name those parameters. This crate reads such an invocation, decides
//! how the parameters are handed to the binder (a bare value, a tuple of
//! values, or a tuple of name and value pairs), and writes the expression
//! that does so.

use vstd::prelude::*;
use vstd::string::*;
use proc_macro2::TokenStream;

pub mod error;
pub mod mapping;
pub mod normalize;
pub mod parser;
pub mod stream;
pub mod token;

pub use error::{Expected, GrammarError};
pub use mapping::{Element, Mapping, Output};
pub use normalize::canonical_name;
pub use parser::{parse_name, MapArgs, Placeholder};
pub use stream::read_tokens;
pub use token::{BindingMode, Token};

use parser::declared_are_leading_names;
use stream::{
    empty_stream, map_spec, push_string, report, stream_trees, to_uppercase_spec, token_of,
    tokens_of, write_output, written_from, Tree,
};
use token::TokenView;

verus! {

/// Maps the parameters of a method to the arguments of its query.
///
/// The input is an invocation: the names of the parameters, `=>`, and the
/// template of the query. The output is the expression that hands the
/// parameters to the binder. An invocation that does not follow the grammar
/// gives the tokens that make the compiler report the error.
pub fn map(input: TokenStream) -> (out: TokenStream)
    ensures
        stream_trees(out) == map_spec(stream_trees(input)),
{
    let ghost trees = stream_trees(input);
    let tokens = read_tokens(&input);
    match MapArgs::parse(&tokens) {
        Ok(args) => {
            let output = args.output();
            proof {
                declared_are_leading_names(tokens_of(trees));
                let declared = args.deep_view().method_args;
                assert forall|k: int| 0 <= k < declared.len() implies k < trees.len() && trees[k]
                    == Tree::Ident(declared[k]) by {
                    assert(tokens_of(trees)[k] == TokenView::Name(declared[k]));
                    assert(token_of(trees[k]) == TokenView::Name(declared[k]));
                }
                assert(written_from(output.deep_view(), trees));
            }
            write_output(&output, &input)
        },
        Err(error) => {
            let message = error.message();
            report(&input, error.position, message.as_str())
        },
    }
}

/// Returns the upper-case form of an identifier as a string literal.
///
/// The input is an invocation that holds one identifier. Anything else gives
/// the tokens that make the compiler report the error.
pub fn to_uppercase(input: TokenStream) -> (out: TokenStream)
    ensures
        stream_trees(out) == to_uppercase_spec(stream_trees(input)),
{
    let tokens = read_tokens(&input);
    match parse_name(&tokens) {
        Ok(name) => {
            let canonical = canonical_name(name.as_str());
            let mut out = empty_stream();
            push_string(&mut out, canonical.as_str());
            assert(stream_trees(out) =~= to_uppercase_spec(stream_trees(input)));
            out
        },
        Err(error) => {
            let message = error.message();
            report(&input, error.position, message.as_str())
        },
    }
}

} // verus!
