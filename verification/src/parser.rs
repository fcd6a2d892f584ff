//! The grammar of an invocation, and the scanner that reads it.
//!
//! An invocation is a header, a separator and a body:
//!
//! ```text
//! name* "=>" ( string ( (":" | "#") name string )* ( (":" | "#") name )? )?
//! ```
//!
//! The header declares the parameters of the method. The body is the
//! template: literal text, with a placeholder between any two pieces of it and
//! possibly one more at the end. A placeholder is a marker, which gives the
//! binding mode, and the name of the parameter that it refers to.

use vstd::prelude::*;
use vstd::string::*;
use crate::error::{failure_at, Expected, GrammarError, GrammarErrorView};
use crate::token::{BindingMode, Token, TokenView};

verus! {

/// A place in the template where a parameter is bound.
#[derive(Debug, PartialEq, Eq)]
pub struct Placeholder {
    /// How the parameter is bound. The mapping never looks at it.
    pub mode: BindingMode,
    /// The name of the parameter that is referred to.
    pub name: String,
}

/// What a [`Placeholder`] stands for in contracts.
pub struct PlaceholderView {
    pub mode: BindingMode,
    pub name: Seq<char>,
}

impl DeepView for Placeholder {
    type V = PlaceholderView;

    open spec fn deep_view(&self) -> PlaceholderView {
        PlaceholderView { mode: self.mode, name: self.name@ }
    }
}

/// An invocation that has been read: the declared parameters in the order of
/// the header, and the placeholders in the order of the template.
#[derive(Debug, PartialEq, Eq)]
pub struct MapArgs {
    /// The parameters that the method declares.
    pub method_args: Vec<String>,
    /// The placeholders of the template, repeated ones included.
    pub sql_args: Vec<Placeholder>,
}

/// What a [`MapArgs`] stands for in contracts.
pub struct MapArgsView {
    pub method_args: Seq<Seq<char>>,
    pub sql_args: Seq<PlaceholderView>,
}

impl DeepView for MapArgs {
    type V = MapArgsView;

    open spec fn deep_view(&self) -> MapArgsView {
        MapArgsView {
            method_args: self.method_args.deep_view(),
            sql_args: self.sql_args.deep_view(),
        }
    }
}

impl MapArgsView {
    /// The names that the template refers to, in its order.
    pub open spec fn references(self) -> Seq<Seq<char>> {
        self.sql_args.map_values(|p: PlaceholderView| p.name)
    }
}

/// The first index from `from` on at which `stop` holds; `len` if there is
/// none before it.
pub open spec fn first_stop(from: int, len: int, stop: spec_fn(int) -> bool) -> int
    decreases len - from,
{
    if from >= len || stop(from) {
        from
    } else {
        first_stop(from + 1, len, stop)
    }
}

/// `first_stop` is the one index that ends a run on which `stop` never holds.
pub proof fn first_stop_is(from: int, len: int, stop: spec_fn(int) -> bool, at: int)
    requires
        from <= at <= len,
        forall|i: int| from <= i < at ==> !#[trigger] stop(i),
        at == len || stop(at),
    ensures
        first_stop(from, len, stop) == at,
    decreases at - from,
{
    if from < at {
        first_stop_is(from + 1, len, stop, at);
    }
}

/// `first_stop` lies between `from` and `len`, `stop` holds nowhere before it,
/// and it holds there unless the run goes on to `len`.
pub proof fn first_stop_ends_run(from: int, len: int, stop: spec_fn(int) -> bool)
    requires
        from <= len,
    ensures
        from <= first_stop(from, len, stop) <= len,
        forall|i: int| from <= i < first_stop(from, len, stop) ==> !#[trigger] stop(i),
        first_stop(from, len, stop) == len || stop(first_stop(from, len, stop)),
    decreases len - from,
{
    if from < len && !stop(from) {
        first_stop_ends_run(from + 1, len, stop);
    }
}

/// Holds at the indices of `tokens` where no name stands.
pub open spec fn no_name(tokens: Seq<TokenView>) -> spec_fn(int) -> bool {
    |i: int| !(tokens[i] is Name)
}

/// The number of declared parameters: the length of the run of names that
/// `tokens` begins with.
pub open spec fn header_len(tokens: Seq<TokenView>) -> int {
    first_stop(0, tokens.len() as int, no_name(tokens))
}

/// Whether the separator `=>` stands at index `at`: a `=` with a `>` right
/// behind it.
pub open spec fn arrow_at(tokens: Seq<TokenView>, at: int) -> bool {
    &&& 0 <= at
    &&& at + 1 < tokens.len()
    &&& tokens[at] == TokenView::Punct('=', true)
    &&& tokens[at + 1] matches TokenView::Punct(c, _)
    &&& c == '>'
}

/// Whether `token` may stand in a slot of the body. The slots repeat in
/// threes: literal text, a marker, the name that the marker binds.
pub open spec fn fits(token: TokenView, slot: int) -> bool {
    if slot == 0 {
        token is Str
    } else if slot == 1 {
        token.mode() is Some
    } else {
        token is Name
    }
}

/// What the grammar asks for in a slot of the body.
pub open spec fn expected_in(slot: int) -> Expected {
    if slot == 0 {
        Expected::StringLiteral
    } else if slot == 1 {
        Expected::Marker
    } else {
        Expected::Identifier
    }
}

/// Holds at the indices of a body beginning at `start` whose token does not
/// fit its slot.
pub open spec fn misfit(tokens: Seq<TokenView>, start: int) -> spec_fn(int) -> bool {
    |i: int| !fits(tokens[i], (i - start) % 3)
}

/// The index of the first token that does not fit the body beginning at
/// `start`; the number of tokens if all of them fit.
pub open spec fn body_stop(tokens: Seq<TokenView>, start: int) -> int {
    first_stop(start, tokens.len() as int, misfit(tokens, start))
}

/// The placeholder number `k` of a body that begins at `start`.
pub open spec fn placeholder_at(tokens: Seq<TokenView>, start: int, k: int) -> PlaceholderView {
    PlaceholderView {
        mode: tokens[start + 3 * k + 1].mode()->0,
        name: tokens[start + 3 * k + 2].name(),
    }
}

/// What reading `tokens` as an invocation gives.
///
/// Reading fails at the first token that the grammar does not allow: in the
/// header, anything that is neither a name nor the separator; in the body, a
/// token that does not fit its slot. It fails at the end of the input where
/// the separator is missing or a marker is left without its name.
pub open spec fn parse_spec(tokens: Seq<TokenView>) -> Result<MapArgsView, GrammarErrorView> {
    let header = header_len(tokens);
    let start = header + 2;
    let stop = body_stop(tokens, start);
    if !arrow_at(tokens, header) {
        Err(failure_at(tokens, header, Expected::Identifier))
    } else if stop < tokens.len() {
        Err(failure_at(tokens, stop, expected_in((stop - start) % 3)))
    } else if (tokens.len() - start) % 3 == 2 {
        Err(failure_at(tokens, tokens.len() as int, Expected::Identifier))
    } else {
        Ok(
            MapArgsView {
                method_args: Seq::new(header as nat, |i: int| tokens[i].name()),
                sql_args: Seq::new(
                    ((tokens.len() - start) / 3) as nat,
                    |k: int| placeholder_at(tokens, start, k),
                ),
            },
        )
    }
}

/// Whether `tokens` follows the grammar with `header` declared parameters:
/// names up to the separator, behind it a body in which every token fits its
/// slot, and no marker at the end that is left without its name.
pub open spec fn follows_grammar(tokens: Seq<TokenView>, header: int) -> bool {
    &&& 0 <= header
    &&& forall|i: int| 0 <= i < header ==> #[trigger] tokens[i] is Name
    &&& arrow_at(tokens, header)
    &&& forall|j: int|
        header + 2 <= j < tokens.len() ==> fits(#[trigger] tokens[j], (j - header - 2) % 3)
    &&& (tokens.len() - header - 2) % 3 != 2
}

/// Reading succeeds on the invocations that follow the grammar, and on no
/// others.
pub proof fn reads_exactly_the_grammar(tokens: Seq<TokenView>)
    ensures
        parse_spec(tokens) is Ok <==> exists|header: int| follows_grammar(tokens, header),
        parse_spec(tokens) is Ok ==> follows_grammar(tokens, header_len(tokens)),
{
    let len = tokens.len() as int;
    first_stop_ends_run(0, len, no_name(tokens));
    let found = header_len(tokens);
    if parse_spec(tokens) is Ok {
        let start = found + 2;
        first_stop_ends_run(start, len, misfit(tokens, start));
        assert forall|i: int| 0 <= i < found implies #[trigger] tokens[i] is Name by {
            assert(!no_name(tokens)(i));
        }
        assert forall|j: int| start <= j < len implies fits(
            #[trigger] tokens[j],
            (j - found - 2) % 3,
        ) by {
            assert(!misfit(tokens, start)(j));
        }
        assert(follows_grammar(tokens, found));
    }
    if exists|header: int| follows_grammar(tokens, header) {
        let header = choose|header: int| follows_grammar(tokens, header);
        let start = header + 2;
        assert forall|i: int| 0 <= i < header implies !#[trigger] no_name(tokens)(i) by {
            assert(tokens[i] is Name);
        }
        first_stop_is(0, len, no_name(tokens), header);
        assert forall|j: int| start <= j < len implies !#[trigger] misfit(tokens, start)(j) by {
            assert(fits(tokens[j], (j - header - 2) % 3));
        }
        first_stop_is(start, len, misfit(tokens, start), len);
        assert(parse_spec(tokens) is Ok);
    }
}

/// In an invocation that follows the grammar, the declared parameters are
/// the tokens before the separator: parameter `i` is the name at index `i`.
pub proof fn declared_are_leading_names(tokens: Seq<TokenView>)
    requires
        parse_spec(tokens) is Ok,
    ensures
        parse_spec(tokens)->Ok_0.method_args.len() == header_len(tokens),
        header_len(tokens) + 2 <= tokens.len(),
        forall|i: int|
            0 <= i < header_len(tokens) ==> #[trigger] tokens[i] == TokenView::Name(
                parse_spec(tokens)->Ok_0.method_args[i],
            ),
{
    first_stop_ends_run(0, tokens.len() as int, no_name(tokens));
    assert forall|i: int| 0 <= i < header_len(tokens) implies #[trigger] tokens[i]
        == TokenView::Name(parse_spec(tokens)->Ok_0.method_args[i]) by {
        assert(!no_name(tokens)(i));
    }
}

/// What reading `tokens` as a single name gives.
pub open spec fn name_spec(tokens: Seq<TokenView>) -> Result<Seq<char>, GrammarErrorView> {
    if tokens.len() == 0 || !(tokens[0] is Name) {
        Err(failure_at(tokens, 0, Expected::Identifier))
    } else if tokens.len() > 1 {
        Err(failure_at(tokens, 1, Expected::EndOfInput))
    } else {
        Ok(tokens[0].name())
    }
}

/// The slot of the body that the scanner stands in.
#[derive(Clone, Copy, PartialEq, Eq, Structural)]
enum Slot {
    Literal,
    Marker,
    Name,
}

impl Slot {
    spec fn index(self) -> int {
        match self {
            Slot::Literal => 0,
            Slot::Marker => 1,
            Slot::Name => 2,
        }
    }
}

impl MapArgs {
    /// Reads an invocation.
    pub fn parse(tokens: &Vec<Token>) -> (read: Result<MapArgs, GrammarError>)
        ensures
            match read {
                Ok(args) => parse_spec(tokens.deep_view()) == Ok::<MapArgsView, GrammarErrorView>(
                    args.deep_view(),
                ),
                Err(error) => parse_spec(tokens.deep_view()) == Err::<
                    MapArgsView,
                    GrammarErrorView,
                >(error.deep_view()),
            },
    {
        let ghost view = tokens.deep_view();
        let len = tokens.len();
        let mut method_args: Vec<String> = Vec::new();
        let mut at: usize = 0;
        loop
            invariant_except_break
                at <= len,
            invariant
                len == tokens.len(),
                view == tokens.deep_view(),
                at == method_args.len(),
                forall|i: int| 0 <= i < at ==> view[i] is Name,
                method_args.deep_view() == Seq::new(at as nat, |i: int| view[i].name()),
            ensures
                at <= len,
                at == len || !(view[at as int] is Name),
            decreases len - at,
        {
            if at == len {
                break ;
            }
            let ghost before = method_args.deep_view();
            match tokens[at].name() {
                Some(name) => {
                    method_args.push(name);
                },
                None => {
                    break ;
                },
            }
            assert(method_args.deep_view() =~= before.push(view[at as int].name()));
            at += 1;
        }
        proof {
            first_stop_is(0, len as int, no_name(view), at as int);
        }
        if len - at < 2 || !tokens[at].is_joint_punct('=') || !tokens[at + 1].is_punct('>') {
            return Err(GrammarError::at(tokens, at, Expected::Identifier));
        }
        let start = at + 2;
        let mut sql_args: Vec<Placeholder> = Vec::new();
        let mut slot = Slot::Literal;
        let mut mode = BindingMode::ByValue;
        let mut i = start;
        while i < len
            invariant
                len == tokens.len(),
                view == tokens.deep_view(),
                start <= i <= len,
                header_len(view) == start - 2,
                arrow_at(view, start - 2),
                forall|j: int| start <= j < i ==> !#[trigger] misfit(view, start as int)(j),
                slot.index() == (i - start) % 3,
                slot == Slot::Name ==> view[i - 1].mode() == Some(mode),
                sql_args.deep_view() == Seq::new(
                    ((i - start) / 3) as nat,
                    |k: int| placeholder_at(view, start as int, k),
                ),
            decreases len - i,
        {
            let ghost before = sql_args.deep_view();
            match slot {
                Slot::Literal => {
                    if !tokens[i].is_str() {
                        proof {
                            first_stop_is(start as int, len as int, misfit(view, start as int), i as int);
                        }
                        return Err(GrammarError::at(tokens, i, Expected::StringLiteral));
                    }
                    slot = Slot::Marker;
                },
                Slot::Marker => {
                    match tokens[i].mode() {
                        Some(found) => {
                            mode = found;
                        },
                        None => {
                            proof {
                                first_stop_is(
                                    start as int,
                                    len as int,
                                    misfit(view, start as int),
                                    i as int,
                                );
                            }
                            return Err(GrammarError::at(tokens, i, Expected::Marker));
                        },
                    }
                    slot = Slot::Name;
                },
                Slot::Name => {
                    match tokens[i].name() {
                        Some(name) => {
                            sql_args.push(Placeholder { mode, name });
                        },
                        None => {
                            proof {
                                first_stop_is(
                                    start as int,
                                    len as int,
                                    misfit(view, start as int),
                                    i as int,
                                );
                            }
                            return Err(GrammarError::at(tokens, i, Expected::Identifier));
                        },
                    }
                    slot = Slot::Literal;
                },
            }
            assert(slot == Slot::Literal ==> sql_args.deep_view() =~= before.push(
                placeholder_at(view, start as int, (i - start) / 3),
            ));
            i += 1;
        }
        proof {
            first_stop_is(start as int, len as int, misfit(view, start as int), len as int);
        }
        if slot == Slot::Name {
            return Err(GrammarError::at(tokens, len, Expected::Identifier));
        }
        Ok(MapArgs { method_args, sql_args })
    }
}

/// Reads an invocation that holds a single name, and returns the name.
pub fn parse_name(tokens: &Vec<Token>) -> (read: Result<String, GrammarError>)
    ensures
        match read {
            Ok(name) => name_spec(tokens.deep_view()) == Ok::<Seq<char>, GrammarErrorView>(name@),
            Err(error) => name_spec(tokens.deep_view()) == Err::<Seq<char>, GrammarErrorView>(
                error.deep_view(),
            ),
        },
{
    if tokens.len() == 0 {
        return Err(GrammarError::at(tokens, 0, Expected::Identifier));
    }
    match tokens[0].name() {
        Some(name) => {
            if tokens.len() > 1 {
                Err(GrammarError::at(tokens, 1, Expected::EndOfInput))
            } else {
                Ok(name)
            }
        },
        None => Err(GrammarError::at(tokens, 0, Expected::Identifier)),
    }
}

} // verus!
