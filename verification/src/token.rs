//! The tokens of an invocation, as the grammar sees them.

use vstd::prelude::*;
use vstd::string::*;

verus! {

/// How a placeholder binds its parameter.
#[derive(Clone, Copy, Debug, PartialEq, Eq, Structural)]
pub enum BindingMode {
    /// Written `:name`: the parameter is bound as one value.
    ByValue,
    /// Written `#name`: the parameter is bound by reference, as an array.
    ByReference,
}

/// One token of an invocation.
#[derive(Debug, PartialEq, Eq)]
pub enum Token {
    /// An identifier that may name a parameter.
    Name(String),
    /// An identifier that may not: a reserved word, or `_`.
    Reserved(String),
    /// A punctuation character, and whether the next token follows it
    /// without a space.
    Punct(char, bool),
    /// A string literal, as it is written.
    Str(String),
    /// Any other literal, as it is written.
    Literal(String),
    /// A delimited group of tokens.
    Group,
}

/// What a [`Token`] stands for in contracts.
pub enum TokenView {
    Name(Seq<char>),
    Reserved(Seq<char>),
    Punct(char, bool),
    Str(Seq<char>),
    Literal(Seq<char>),
    Group,
}

impl TokenView {
    /// The binding mode that this token announces, if it is a marker.
    pub open spec fn mode(self) -> Option<BindingMode> {
        match self {
            TokenView::Punct(c, _) => if c == ':' {
                Some(BindingMode::ByValue)
            } else if c == '#' {
                Some(BindingMode::ByReference)
            } else {
                None
            },
            _ => None,
        }
    }

    /// The spelling of a name.
    pub open spec fn name(self) -> Seq<char>
        recommends
            self is Name,
    {
        self->Name_0
    }
}

impl DeepView for Token {
    type V = TokenView;

    open spec fn deep_view(&self) -> TokenView {
        match self {
            Token::Name(text) => TokenView::Name(text@),
            Token::Reserved(text) => TokenView::Reserved(text@),
            Token::Punct(c, joint) => TokenView::Punct(*c, *joint),
            Token::Str(text) => TokenView::Str(text@),
            Token::Literal(text) => TokenView::Literal(text@),
            Token::Group => TokenView::Group,
        }
    }
}

impl Clone for Token {
    fn clone(&self) -> (copy: Self)
        ensures
            copy == *self,
    {
        match self {
            Token::Name(text) => Token::Name(text.clone()),
            Token::Reserved(text) => Token::Reserved(text.clone()),
            Token::Punct(c, joint) => Token::Punct(*c, *joint),
            Token::Str(text) => Token::Str(text.clone()),
            Token::Literal(text) => Token::Literal(text.clone()),
            Token::Group => Token::Group,
        }
    }
}

/// Whether `syn` reads `text` as one identifier that is no reserved word.
pub uninterp spec fn ident_accepted(text: Seq<char>) -> bool;

/// Whether a literal written as `text` is a string literal: it opens with a
/// double quote, or with the `r` of a raw string.
pub open spec fn is_string_text(text: Seq<char>) -> bool {
    text.len() > 0 && (text[0] == '"' || text[0] == 'r')
}

/// The token that an identifier spelled `text` becomes.
pub open spec fn ident_token(text: Seq<char>) -> TokenView {
    if ident_accepted(text) {
        TokenView::Name(text)
    } else {
        TokenView::Reserved(text)
    }
}

/// The token that a literal written as `text` becomes.
pub open spec fn literal_token(text: Seq<char>) -> TokenView {
    if is_string_text(text) {
        TokenView::Str(text)
    } else {
        TokenView::Literal(text)
    }
}

/// `syn::parse_str::<syn::Ident>`: parses the text as a single identifier.
/// It succeeds when the text is one identifier and nothing else, and that
/// identifier is neither a reserved word nor `_`. The answer is named by
/// [`ident_accepted`].
#[verifier::external_body]
fn accepts_ident(text: &str) -> (accepted: bool)
    ensures
        accepted == ident_accepted(text@),
{
    syn::parse_str::<syn::Ident>(text).is_ok()
}

impl Token {
    /// The token for an identifier with this spelling.
    pub fn ident(text: &str) -> (token: Token)
        ensures
            token.deep_view() == ident_token(text@),
    {
        if accepts_ident(text) {
            Token::Name(text.to_owned())
        } else {
            Token::Reserved(text.to_owned())
        }
    }

    /// The token for a literal that is written as `text`.
    pub fn literal(text: &str) -> (token: Token)
        ensures
            token.deep_view() == literal_token(text@),
    {
        if text.unicode_len() > 0 {
            let first = text.get_char(0);
            if first == '"' || first == 'r' {
                return Token::Str(text.to_owned());
            }
        }
        Token::Literal(text.to_owned())
    }

    /// Whether this token may name a parameter.
    pub fn is_name(&self) -> (yes: bool)
        ensures
            yes == (self.deep_view() is Name),
    {
        match self {
            Token::Name(_) => true,
            _ => false,
        }
    }

    /// Whether this token is a string literal.
    pub fn is_str(&self) -> (yes: bool)
        ensures
            yes == (self.deep_view() is Str),
    {
        match self {
            Token::Str(_) => true,
            _ => false,
        }
    }

    /// Whether this token is the punctuation character `c`.
    pub fn is_punct(&self, c: char) -> (yes: bool)
        ensures
            yes == (self.deep_view() matches TokenView::Punct(d, _) && d == c),
    {
        match self {
            Token::Punct(d, _) => *d == c,
            _ => false,
        }
    }

    /// Whether this token is the punctuation character `c`, with the next
    /// token right behind it.
    pub fn is_joint_punct(&self, c: char) -> (yes: bool)
        ensures
            yes == (self.deep_view() == TokenView::Punct(c, true)),
    {
        match self {
            Token::Punct(d, joint) => *d == c && *joint,
            _ => false,
        }
    }

    /// The binding mode that this token announces, if it is a marker.
    pub fn mode(&self) -> (mode: Option<BindingMode>)
        ensures
            mode == self.deep_view().mode(),
    {
        if self.is_punct(':') {
            Some(BindingMode::ByValue)
        } else if self.is_punct('#') {
            Some(BindingMode::ByReference)
        } else {
            None
        }
    }

    /// The spelling of this token if it is a name.
    pub fn name(&self) -> (name: Option<String>)
        ensures
            match name {
                Some(text) => self.deep_view() == TokenView::Name(text@),
                None => !(self.deep_view() is Name),
            },
    {
        match self {
            Token::Name(text) => Some(text.clone()),
            _ => None,
        }
    }
}

} // verus!
