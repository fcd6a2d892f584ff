//! Invocations as token streams: reading the tokens of a `TokenStream`, and
//! writing the expression into one.

use vstd::prelude::*;
use vstd::string::*;
use proc_macro2::{Group, Literal, Punct, Spacing, Span, TokenStream, TokenTree};
use quote::TokenStreamExt;
use crate::error::message_text;
use crate::mapping::{Element, ElementView, Output, OutputView};
use crate::normalize::canonical;
use crate::parser::{name_spec, parse_spec};
use crate::token::{ident_token, literal_token, Token, TokenView};

verus! {

/// `proc_macro2::TokenStream`. Contracts speak of a stream through
/// [`stream_trees`].
#[verifier::external_type_specification]
#[verifier::external_body]
pub struct ExTokenStream(TokenStream);

/// The brackets around a group of tokens.
#[derive(Clone, Copy, Debug, PartialEq, Eq, Structural)]
pub enum Delimiter {
    /// `( ... )`
    Parenthesis,
    /// `{ ... }`
    Brace,
    /// `[ ... ]`
    Bracket,
    /// No brackets that are written: the group only holds its tokens
    /// together.
    Invisible,
}

/// One token tree of a stream: a single token, or a group with the trees
/// between its brackets.
pub enum Tree {
    /// An identifier and its spelling.
    Ident(Seq<char>),
    /// A punctuation character, and whether the next token follows it
    /// without a space.
    Punct(char, bool),
    /// A literal, as it is written.
    Literal(Seq<char>),
    /// A group.
    Group(Delimiter, Seq<Tree>),
}

/// The token trees that a stream holds, in its order.
pub uninterp spec fn stream_trees(stream: TokenStream) -> Seq<Tree>;

/// How `Literal::string` writes a string literal with the value `value`:
/// between double quotes, with escapes where they are needed.
pub uninterp spec fn string_literal_text(value: Seq<char>) -> Seq<char>;

/// A token tree as it is taken out of a stream, before the grammar has
/// looked at it.
enum Raw {
    Ident(String),
    Punct(char, bool),
    Literal(String),
    Group,
}

impl Raw {
    /// Whether this is what `tree` shows from outside.
    spec fn shows(self, tree: Tree) -> bool {
        match self {
            Raw::Ident(text) => tree == Tree::Ident(text@),
            Raw::Punct(c, joint) => tree == Tree::Punct(c, joint),
            Raw::Literal(text) => tree == Tree::Literal(text@),
            Raw::Group => tree is Group,
        }
    }
}

/// `TokenStream::new`: a stream that holds nothing.
#[verifier::external_body]
pub(crate) fn empty_stream() -> (stream: TokenStream)
    ensures
        stream_trees(stream) == Seq::<Tree>::empty(),
{
    TokenStream::new()
}

/// `TokenStream::into_iter`, counted: the number of token trees in the
/// stream. Groups count as one.
#[verifier::external_body]
fn tree_count(stream: &TokenStream) -> (count: usize)
    ensures
        count == stream_trees(*stream).len(),
{
    stream.clone().into_iter().count()
}

/// `TokenStream::into_iter`, at one index: the kind of the token tree there,
/// with the spelling of an identifier (`Ident::to_string`), the character and
/// spacing of a punctuation (`Punct::as_char`, `Punct::spacing`), and the text
/// of a literal (`Literal::to_string`). Of a group nothing is taken out.
#[verifier::external_body]
fn tree_at(stream: &TokenStream, index: usize) -> (raw: Raw)
    requires
        index < stream_trees(*stream).len(),
    ensures
        raw.shows(stream_trees(*stream)[index as int]),
{
    match stream.clone().into_iter().nth(index).unwrap() {
        TokenTree::Ident(ident) => Raw::Ident(ident.to_string()),
        TokenTree::Punct(punct) => match punct.spacing() {
            Spacing::Alone => Raw::Punct(punct.as_char(), false),
            Spacing::Joint => Raw::Punct(punct.as_char(), true),
        },
        TokenTree::Literal(literal) => Raw::Literal(literal.to_string()),
        TokenTree::Group(_) => Raw::Group,
    }
}

/// `TokenStreamExt::append` with an identifier of another stream: the
/// identifier at `index` of `from` is put at the end of `out`, as it is.
#[verifier::external_body]
fn push_ident_of(out: &mut TokenStream, from: &TokenStream, index: usize)
    requires
        index < stream_trees(*from).len(),
        stream_trees(*from)[index as int] is Ident,
    ensures
        stream_trees(*final(out)) == stream_trees(*old(out)).push(
            stream_trees(*from)[index as int],
        ),
{
    out.append(from.clone().into_iter().nth(index).unwrap())
}

/// The characters that `Punct::new` takes.
pub open spec fn is_punct_char(c: char) -> bool {
    c == '!' || c == '#' || c == '$' || c == '%' || c == '&' || c == '\'' || c == '*' || c == '+'
        || c == ',' || c == '-' || c == '.' || c == '/' || c == ':' || c == ';' || c == '<' || c
        == '=' || c == '>' || c == '?' || c == '@' || c == '^' || c == '|' || c == '~'
}

/// `TokenStreamExt::append` with `Punct::new`: the punctuation character `c`,
/// with a space behind it, is put at the end of `out`.
#[verifier::external_body]
fn push_punct(out: &mut TokenStream, c: char)
    requires
        is_punct_char(c),
    ensures
        stream_trees(*final(out)) == stream_trees(*old(out)).push(Tree::Punct(c, false)),
{
    out.append(Punct::new(c, Spacing::Alone))
}

/// `TokenStreamExt::append` with `Literal::string`: a string literal with the
/// value `value` is put at the end of `out`. Its text is named by
/// [`string_literal_text`].
#[verifier::external_body]
pub(crate) fn push_string(out: &mut TokenStream, value: &str)
    ensures
        stream_trees(*final(out)) == stream_trees(*old(out)).push(
            Tree::Literal(string_literal_text(value@)),
        ),
{
    out.append(Literal::string(value))
}

/// `TokenStreamExt::append` with `Group::new`: the trees of `inner`, between
/// the brackets of `delimiter`, are put at the end of `out` as one group.
#[verifier::external_body]
fn push_group(out: &mut TokenStream, delimiter: Delimiter, inner: TokenStream)
    ensures
        stream_trees(*final(out)) == stream_trees(*old(out)).push(
            Tree::Group(delimiter, stream_trees(inner)),
        ),
{
    let brackets = match delimiter {
        Delimiter::Parenthesis => proc_macro2::Delimiter::Parenthesis,
        Delimiter::Brace => proc_macro2::Delimiter::Brace,
        Delimiter::Bracket => proc_macro2::Delimiter::Bracket,
        Delimiter::Invisible => proc_macro2::Delimiter::None,
    };
    out.append(Group::new(brackets, inner))
}

/// `syn::Error::new` and `syn::Error::to_compile_error`: the tokens that make
/// the compiler report `message`. The report points at the token at
/// `position` of `input`, or at the whole invocation where there is none.
#[verifier::external_body]
pub(crate) fn report(input: &TokenStream, position: usize, message: &str) -> (out: TokenStream)
    ensures
        stream_trees(out) == report_trees(message@),
{
    let at = input.clone().into_iter().nth(position);
    let span = at.map_or(Span::call_site(), |tree| tree.span());
    syn::Error::new(span, message).to_compile_error()
}

/// The tokens of a report: `compile_error! { "message" }`.
pub open spec fn report_trees(message: Seq<char>) -> Seq<Tree> {
    seq![
        Tree::Ident("compile_error"@),
        Tree::Punct('!', false),
        Tree::Group(Delimiter::Brace, seq![Tree::Literal(string_literal_text(message))]),
    ]
}

/// The token that the grammar sees in a token tree.
pub open spec fn token_of(tree: Tree) -> TokenView {
    match tree {
        Tree::Ident(text) => ident_token(text),
        Tree::Punct(c, joint) => TokenView::Punct(c, joint),
        Tree::Literal(text) => literal_token(text),
        Tree::Group(_, _) => TokenView::Group,
    }
}

/// The tokens that the grammar sees in a sequence of token trees.
pub open spec fn tokens_of(trees: Seq<Tree>) -> Seq<TokenView> {
    trees.map_values(|tree: Tree| token_of(tree))
}

/// The token tree for one element of a tuple.
pub open spec fn element_tree(element: ElementView) -> Tree {
    match element {
        ElementView::Value(name) => Tree::Ident(name),
        ElementView::Unit => Tree::Group(Delimiter::Parenthesis, Seq::empty()),
        ElementView::Named(canonical, name) => Tree::Group(
            Delimiter::Parenthesis,
            seq![
                Tree::Literal(string_literal_text(canonical)),
                Tree::Punct(',', false),
                Tree::Ident(name),
            ],
        ),
    }
}

/// The elements with a comma between any two of them.
pub open spec fn separated(elements: Seq<ElementView>) -> Seq<Tree> {
    Seq::new(
        if elements.len() == 0 {
            0nat
        } else {
            (2 * elements.len() - 1) as nat
        },
        |i: int|
            if i % 2 == 0 {
                element_tree(elements[i / 2])
            } else {
                Tree::Punct(',', false)
            },
    )
}

/// The token trees of an expression.
pub open spec fn expression(output: OutputView) -> Seq<Tree> {
    match output {
        OutputView::Bare(name) => seq![Tree::Ident(name)],
        OutputView::Tuple(elements) => seq![
            Tree::Group(Delimiter::Parenthesis, separated(elements)),
        ],
    }
}

/// What `map` makes of an invocation: the expression where the invocation
/// follows the grammar, and the report of the error where it does not.
pub open spec fn map_spec(trees: Seq<Tree>) -> Seq<Tree> {
    match parse_spec(tokens_of(trees)) {
        Ok(args) => expression(args.output()),
        Err(error) => report_trees(message_text(error)),
    }
}

/// What `to_uppercase` makes of an invocation: a string literal with the
/// canonical name where the invocation is a single name, and the report of
/// the error where it is not.
pub open spec fn to_uppercase_spec(trees: Seq<Tree>) -> Seq<Tree> {
    match name_spec(tokens_of(trees)) {
        Ok(name) => seq![Tree::Literal(string_literal_text(canonical(name)))],
        Err(error) => report_trees(message_text(error)),
    }
}

/// Reads the tokens of a stream.
pub fn read_tokens(stream: &TokenStream) -> (tokens: Vec<Token>)
    ensures
        tokens.deep_view() == tokens_of(stream_trees(*stream)),
{
    let ghost trees = stream_trees(*stream);
    let count = tree_count(stream);
    let mut tokens: Vec<Token> = Vec::new();
    let mut i: usize = 0;
    while i < count
        invariant
            i <= count,
            count == trees.len(),
            trees == stream_trees(*stream),
            tokens.deep_view() == tokens_of(trees).take(i as int),
        decreases count - i,
    {
        let ghost before = tokens.deep_view();
        let token = match tree_at(stream, i) {
            Raw::Ident(text) => Token::ident(text.as_str()),
            Raw::Punct(c, joint) => Token::Punct(c, joint),
            Raw::Literal(text) => Token::literal(text.as_str()),
            Raw::Group => Token::Group,
        };
        assert(token.deep_view() == token_of(trees[i as int]));
        tokens.push(token);
        assert(tokens.deep_view() =~= before.push(token_of(trees[i as int])));
        i += 1;
        assert(tokens.deep_view() =~= tokens_of(trees).take(i as int));
    }
    assert(tokens.deep_view() =~= tokens_of(trees));
    tokens
}

/// Whether each parameter in `output` is the identifier that stands at the
/// index of its element in `trees`.
pub open spec fn written_from(output: OutputView, trees: Seq<Tree>) -> bool {
    match output {
        OutputView::Bare(name) => 0 < trees.len() && trees[0] == Tree::Ident(name),
        OutputView::Tuple(elements) => forall|k: int|
            0 <= k < elements.len() ==> match #[trigger] elements[k] {
                ElementView::Value(name) => k < trees.len() && trees[k] == Tree::Ident(name),
                ElementView::Unit => true,
                ElementView::Named(_, name) => k < trees.len() && trees[k] == Tree::Ident(name),
            },
    }
}

/// One more element behind `k` separated ones is a comma, unless it is the
/// first, and the element.
proof fn separated_grows(elements: Seq<ElementView>, k: int)
    requires
        0 <= k < elements.len(),
    ensures
        separated(elements.take(k + 1)) == if k == 0 {
            seq![element_tree(elements[k])]
        } else {
            separated(elements.take(k)).push(Tree::Punct(',', false)).push(
                element_tree(elements[k]),
            )
        },
{
    let grown = separated(elements.take(k + 1));
    if k == 0 {
        assert(grown =~= seq![element_tree(elements[k])]);
    } else {
        let wanted = separated(elements.take(k)).push(Tree::Punct(',', false)).push(
            element_tree(elements[k]),
        );
        assert(grown.len() == wanted.len());
        assert forall|i: int| 0 <= i < grown.len() implies grown[i] == wanted[i] by {
            if i < 2 * k - 1 {
                assert(grown[i] == separated(elements.take(k))[i]);
            }
        }
        assert(grown =~= wanted);
    }
}

/// Writes an expression. The parameters are taken from `input`, where each
/// stands at the index of its element.
pub(crate) fn write_output(output: &Output, input: &TokenStream) -> (out: TokenStream)
    requires
        written_from(output.deep_view(), stream_trees(*input)),
    ensures
        stream_trees(out) == expression(output.deep_view()),
{
    let mut out = empty_stream();
    match output {
        Output::Bare(_) => {
            push_ident_of(&mut out, input, 0);
            assert(stream_trees(out) =~= expression(output.deep_view()));
        },
        Output::Tuple(elements) => {
            let ghost views = elements.deep_view();
            let mut inner = empty_stream();
            let mut k: usize = 0;
            assert(stream_trees(inner) =~= separated(views.take(0)));
            while k < elements.len()
                invariant
                    k <= elements.len(),
                    views == elements.deep_view(),
                    written_from(OutputView::Tuple(views), stream_trees(*input)),
                    stream_trees(inner) == separated(views.take(k as int)),
                decreases elements.len() - k,
            {
                if k > 0 {
                    push_punct(&mut inner, ',');
                }
                assert(views[k as int] == elements[k as int].deep_view());
                match &elements[k] {
                    Element::Value(_) => {
                        push_ident_of(&mut inner, input, k);
                    },
                    Element::Unit => {
                        push_group(&mut inner, Delimiter::Parenthesis, empty_stream());
                    },
                    Element::Named(canonical, _) => {
                        let mut pair = empty_stream();
                        push_string(&mut pair, canonical.as_str());
                        push_punct(&mut pair, ',');
                        push_ident_of(&mut pair, input, k);
                        assert(Tree::Group(Delimiter::Parenthesis, stream_trees(pair))
                            == element_tree(views[k as int])) by {
                            assert(stream_trees(pair) =~= element_tree(views[k as int])->Group_1);
                        }
                        push_group(&mut inner, Delimiter::Parenthesis, pair);
                    },
                }
                proof {
                    separated_grows(views, k as int);
                    assert(stream_trees(inner) =~= separated(views.take(k + 1)));
                }
                k += 1;
            }
            assert(views.take(k as int) =~= views);
            push_group(&mut out, Delimiter::Parenthesis, inner);
            assert(stream_trees(out) =~= expression(output.deep_view()));
        },
    }
    out
}

} // verus!
