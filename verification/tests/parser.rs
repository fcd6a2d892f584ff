use include_sql_args::{parse_name, BindingMode, Expected, GrammarError, MapArgs, Placeholder, Token};

fn name(text: &str) -> Token {
    Token::Name(text.to_string())
}

fn text(value: &str) -> Token {
    Token::Str(format!("\"{}\"", value))
}

fn arrow() -> [Token; 2] {
    [Token::Punct('=', true), Token::Punct('>', false)]
}

fn colon() -> Token {
    Token::Punct(':', false)
}

fn hash() -> Token {
    Token::Punct('#', false)
}

fn by_value(text: &str) -> Placeholder {
    Placeholder { mode: BindingMode::ByValue, name: text.to_string() }
}

fn by_reference(text: &str) -> Placeholder {
    Placeholder { mode: BindingMode::ByReference, name: text.to_string() }
}

fn invocation(header: &[&str], body: Vec<Token>) -> Vec<Token> {
    let mut tokens: Vec<Token> = header.iter().map(|n| name(n)).collect();
    tokens.extend(arrow());
    tokens.extend(body);
    tokens
}

#[test]
fn parse_header_and_alternating_body() {
    let tokens = invocation(
        &["a1", "a2"],
        vec![text("SELECT "), colon(), name("a1"), text(" AND "), colon(), name("a2")],
    );
    assert_eq!(
        MapArgs::parse(&tokens),
        Ok(MapArgs {
            method_args: vec!["a1".to_string(), "a2".to_string()],
            sql_args: vec![by_value("a1"), by_value("a2")],
        })
    );
}

#[test]
fn parse_body_that_ends_with_text() {
    let tokens = invocation(&["a"], vec![text("x = "), colon(), name("a"), text(" ORDER BY z")]);
    assert_eq!(
        MapArgs::parse(&tokens),
        Ok(MapArgs { method_args: vec!["a".to_string()], sql_args: vec![by_value("a")] })
    );
}

#[test]
fn parse_keeps_the_binding_modes() {
    let tokens = invocation(
        &["a", "b"],
        vec![text("x"), hash(), name("b"), text("y"), colon(), name("a"), text("z"), hash(), name("b")],
    );
    assert_eq!(
        MapArgs::parse(&tokens),
        Ok(MapArgs {
            method_args: vec!["a".to_string(), "b".to_string()],
            sql_args: vec![by_reference("b"), by_value("a"), by_reference("b")],
        })
    );
}

#[test]
fn parse_keeps_repeated_and_unknown_references() {
    let tokens = invocation(
        &["a"],
        vec![text("x"), colon(), name("a"), text("y"), colon(), name("zz"), text("z"), colon(), name("a")],
    );
    assert_eq!(
        MapArgs::parse(&tokens),
        Ok(MapArgs {
            method_args: vec!["a".to_string()],
            sql_args: vec![by_value("a"), by_value("zz"), by_value("a")],
        })
    );
}

#[test]
fn parse_body_of_text_alone() {
    let tokens = invocation(&["a"], vec![text("SELECT 1")]);
    assert_eq!(
        MapArgs::parse(&tokens),
        Ok(MapArgs { method_args: vec!["a".to_string()], sql_args: vec![] })
    );
}

#[test]
fn parse_empty_body() {
    let tokens = invocation(&["a", "b"], vec![]);
    assert_eq!(
        MapArgs::parse(&tokens),
        Ok(MapArgs { method_args: vec!["a".to_string(), "b".to_string()], sql_args: vec![] })
    );
}

#[test]
fn parse_empty_header() {
    let tokens = invocation(&[], vec![text("x"), colon(), name("a")]);
    assert_eq!(
        MapArgs::parse(&tokens),
        Ok(MapArgs { method_args: vec![], sql_args: vec![by_value("a")] })
    );
}

#[test]
fn parse_accepts_a_separator_with_anything_behind_the_second_character() {
    let tokens = vec![name("a"), Token::Punct('=', true), Token::Punct('>', true), text("x")];
    assert_eq!(
        MapArgs::parse(&tokens),
        Ok(MapArgs { method_args: vec!["a".to_string()], sql_args: vec![] })
    );
}

#[test]
fn parse_fails_on_empty_input() {
    assert_eq!(
        MapArgs::parse(&vec![]),
        Err(GrammarError { position: 0, expected: Expected::Identifier, found: None })
    );
}

#[test]
fn parse_fails_when_the_separator_never_comes() {
    let tokens = vec![name("a"), name("b")];
    assert_eq!(
        MapArgs::parse(&tokens),
        Err(GrammarError { position: 2, expected: Expected::Identifier, found: None })
    );
}

#[test]
fn parse_fails_on_text_in_the_header() {
    let tokens = vec![name("a"), text("x"), colon(), name("a")];
    assert_eq!(
        MapArgs::parse(&tokens),
        Err(GrammarError { position: 1, expected: Expected::Identifier, found: Some(text("x")) })
    );
}

#[test]
fn parse_fails_on_a_reserved_word_in_the_header() {
    let mut tokens = vec![name("a"), Token::Reserved("fn".to_string())];
    tokens.extend(arrow());
    assert_eq!(
        MapArgs::parse(&tokens),
        Err(GrammarError {
            position: 1,
            expected: Expected::Identifier,
            found: Some(Token::Reserved("fn".to_string())),
        })
    );
}

#[test]
fn parse_fails_on_a_separator_that_is_split() {
    let tokens = vec![name("a"), Token::Punct('=', false), Token::Punct('>', false), text("x")];
    assert_eq!(
        MapArgs::parse(&tokens),
        Err(GrammarError {
            position: 1,
            expected: Expected::Identifier,
            found: Some(Token::Punct('=', false)),
        })
    );
}

#[test]
fn parse_fails_on_half_a_separator() {
    let tokens = vec![name("a"), Token::Punct('=', true)];
    assert_eq!(
        MapArgs::parse(&tokens),
        Err(GrammarError {
            position: 1,
            expected: Expected::Identifier,
            found: Some(Token::Punct('=', true)),
        })
    );
    let tokens = vec![name("a"), Token::Punct('=', true), Token::Punct('=', false)];
    assert_eq!(
        MapArgs::parse(&tokens),
        Err(GrammarError {
            position: 1,
            expected: Expected::Identifier,
            found: Some(Token::Punct('=', true)),
        })
    );
}

#[test]
fn parse_fails_when_the_body_does_not_begin_with_text() {
    let tokens = invocation(&["a"], vec![colon(), name("a")]);
    assert_eq!(
        MapArgs::parse(&tokens),
        Err(GrammarError { position: 3, expected: Expected::StringLiteral, found: Some(colon()) })
    );
}

#[test]
fn parse_fails_on_text_behind_text() {
    let tokens = invocation(&["a"], vec![text("x"), text("y")]);
    assert_eq!(
        MapArgs::parse(&tokens),
        Err(GrammarError { position: 4, expected: Expected::Marker, found: Some(text("y")) })
    );
}

#[test]
fn parse_fails_on_another_marker_character() {
    let tokens = invocation(&["a"], vec![text("x"), Token::Punct('$', false), name("a")]);
    assert_eq!(
        MapArgs::parse(&tokens),
        Err(GrammarError {
            position: 4,
            expected: Expected::Marker,
            found: Some(Token::Punct('$', false)),
        })
    );
}

#[test]
fn parse_fails_on_a_name_without_marker() {
    let tokens = invocation(&["a"], vec![text("x"), name("a")]);
    assert_eq!(
        MapArgs::parse(&tokens),
        Err(GrammarError { position: 4, expected: Expected::Marker, found: Some(name("a")) })
    );
}

#[test]
fn parse_fails_on_a_marker_without_name() {
    let tokens = invocation(&["a"], vec![text("x"), colon()]);
    assert_eq!(
        MapArgs::parse(&tokens),
        Err(GrammarError { position: 5, expected: Expected::Identifier, found: None })
    );
}

#[test]
fn parse_fails_on_a_marker_before_something_else() {
    let tokens = invocation(&["a"], vec![text("x"), hash(), text("y")]);
    assert_eq!(
        MapArgs::parse(&tokens),
        Err(GrammarError { position: 5, expected: Expected::Identifier, found: Some(text("y")) })
    );
    let tokens = invocation(&["a"], vec![text("x"), hash(), Token::Reserved("_".to_string())]);
    assert_eq!(
        MapArgs::parse(&tokens),
        Err(GrammarError {
            position: 5,
            expected: Expected::Identifier,
            found: Some(Token::Reserved("_".to_string())),
        })
    );
}

#[test]
fn parse_fails_on_a_second_separator() {
    let mut body = vec![text("x")];
    body.extend(arrow());
    let tokens = invocation(&["a"], body);
    assert_eq!(
        MapArgs::parse(&tokens),
        Err(GrammarError {
            position: 4,
            expected: Expected::Marker,
            found: Some(Token::Punct('=', true)),
        })
    );
}

#[test]
fn parse_fails_on_a_group() {
    let tokens = invocation(&["a"], vec![text("x"), colon(), name("a"), Token::Group]);
    assert_eq!(
        MapArgs::parse(&tokens),
        Err(GrammarError { position: 6, expected: Expected::StringLiteral, found: Some(Token::Group) })
    );
}

#[test]
fn parse_fails_at_the_first_fault() {
    let tokens = invocation(&["a"], vec![text("x"), text("y"), Token::Group, colon()]);
    assert_eq!(
        MapArgs::parse(&tokens),
        Err(GrammarError { position: 4, expected: Expected::Marker, found: Some(text("y")) })
    );
}

#[test]
fn parse_name_of_a_single_name() {
    assert_eq!(parse_name(&vec![name("param_name")]), Ok("param_name".to_string()));
}

#[test]
fn parse_name_fails_on_empty_input() {
    assert_eq!(
        parse_name(&vec![]),
        Err(GrammarError { position: 0, expected: Expected::Identifier, found: None })
    );
}

#[test]
fn parse_name_fails_on_anything_but_a_name() {
    assert_eq!(
        parse_name(&vec![text("x")]),
        Err(GrammarError { position: 0, expected: Expected::Identifier, found: Some(text("x")) })
    );
    assert_eq!(
        parse_name(&vec![Token::Reserved("fn".to_string()), name("a")]),
        Err(GrammarError {
            position: 0,
            expected: Expected::Identifier,
            found: Some(Token::Reserved("fn".to_string())),
        })
    );
}

#[test]
fn parse_name_fails_on_more_than_one_token() {
    assert_eq!(
        parse_name(&vec![name("a"), name("b")]),
        Err(GrammarError { position: 1, expected: Expected::EndOfInput, found: Some(name("b")) })
    );
}

#[test]
fn messages_of_the_errors() {
    let error = |expected: Expected, found: Option<Token>| GrammarError { position: 0, expected, found };
    assert_eq!(error(Expected::Identifier, Some(colon())).message(), "expected identifier");
    assert_eq!(
        error(Expected::Identifier, None).message(),
        "unexpected end of input, expected identifier"
    );
    assert_eq!(error(Expected::StringLiteral, Some(colon())).message(), "expected string literal");
    assert_eq!(error(Expected::Marker, Some(name("a"))).message(), "expected `:` or `#`");
    assert_eq!(error(Expected::EndOfInput, Some(name("a"))).message(), "unexpected token");
}

#[test]
fn error_at_takes_the_token_from_its_position() {
    let tokens = vec![name("a"), colon()];
    assert_eq!(
        GrammarError::at(&tokens, 1, Expected::StringLiteral),
        GrammarError { position: 1, expected: Expected::StringLiteral, found: Some(colon()) }
    );
    assert_eq!(
        GrammarError::at(&tokens, 2, Expected::Identifier),
        GrammarError { position: 2, expected: Expected::Identifier, found: None }
    );
    assert_eq!(
        GrammarError::at(&tokens, 7, Expected::Marker),
        GrammarError { position: 7, expected: Expected::Marker, found: None }
    );
}
