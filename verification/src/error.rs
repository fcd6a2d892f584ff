//! What is reported when an invocation does not follow the grammar.

use vstd::prelude::*;
use vstd::string::*;
use crate::token::{Token, TokenView};

verus! {

/// What the grammar asks for at the place where reading stopped.
#[derive(Clone, Copy, Debug, PartialEq, Eq, Structural)]
pub enum Expected {
    /// An identifier that may name a parameter.
    Identifier,
    /// A string literal.
    StringLiteral,
    /// One of the markers `:` and `#`.
    Marker,
    /// Nothing more.
    EndOfInput,
}

/// An invocation that does not follow the grammar: where reading stopped,
/// what was asked for there, and the token that stood there instead.
#[derive(Debug, PartialEq, Eq)]
pub struct GrammarError {
    /// The index of the unexpected token; the number of tokens where the
    /// input ended too early.
    pub position: usize,
    /// What the grammar asks for at that place.
    pub expected: Expected,
    /// The unexpected token; `None` where the input ended too early.
    pub found: Option<Token>,
}

/// What a [`GrammarError`] stands for in contracts.
pub struct GrammarErrorView {
    pub position: nat,
    pub expected: Expected,
    pub found: Option<TokenView>,
}

impl DeepView for GrammarError {
    type V = GrammarErrorView;

    open spec fn deep_view(&self) -> GrammarErrorView {
        GrammarErrorView {
            position: self.position as nat,
            expected: self.expected,
            found: self.found.deep_view(),
        }
    }
}

/// The error for reading that stops at index `at` of `tokens`.
pub open spec fn failure_at(tokens: Seq<TokenView>, at: int, expected: Expected) -> GrammarErrorView {
    GrammarErrorView {
        position: at as nat,
        expected,
        found: if 0 <= at < tokens.len() {
            Some(tokens[at])
        } else {
            None
        },
    }
}

/// The text of the diagnostic for an error.
pub open spec fn message_text(error: GrammarErrorView) -> Seq<char> {
    match error.expected {
        Expected::Identifier => if error.found is None {
            "unexpected end of input, expected identifier"@
        } else {
            "expected identifier"@
        },
        Expected::StringLiteral => "expected string literal"@,
        Expected::Marker => "expected `:` or `#`"@,
        Expected::EndOfInput => "unexpected token"@,
    }
}

impl GrammarError {
    /// The error for reading that stops at index `at` of `tokens`.
    pub fn at(tokens: &Vec<Token>, at: usize, expected: Expected) -> (error: GrammarError)
        ensures
            error.deep_view() == failure_at(tokens.deep_view(), at as int, expected),
    {
        let found = if at < tokens.len() {
            Some(tokens[at].clone())
        } else {
            None
        };
        GrammarError { position: at, expected, found }
    }

    /// The text of the diagnostic for this error.
    pub fn message(&self) -> (text: String)
        ensures
            text@ == message_text(self.deep_view()),
    {
        match self.expected {
            Expected::Identifier => if self.found.is_none() {
                "unexpected end of input, expected identifier".to_owned()
            } else {
                "expected identifier".to_owned()
            },
            Expected::StringLiteral => "expected string literal".to_owned(),
            Expected::Marker => "expected `:` or `#`".to_owned(),
            Expected::EndOfInput => "unexpected token".to_owned(),
        }
    }
}

} // verus!
