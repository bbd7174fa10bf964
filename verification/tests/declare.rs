use frpc::declare::{is_keyword, parse, Delimiter, ParseError, ParseFailure, Spacing, State, TokenTree};

fn ident(s: &str) -> TokenTree {
    TokenTree::Ident(s.to_string())
}
fn lit(s: &str) -> TokenTree {
    TokenTree::Literal(s.to_string())
}
fn p(c: char) -> TokenTree {
    TokenTree::Punct(c, Spacing::Alone)
}
fn j(c: char) -> TokenTree {
    TokenTree::Punct(c, Spacing::Joint)
}
fn group(d: Delimiter, t: Vec<TokenTree>) -> TokenTree {
    TokenTree::Group(d, t)
}

#[test]
fn keywords() {
    assert!(is_keyword(&"type".to_string()));
    assert!(is_keyword(&"_".to_string()));
    assert!(!is_keyword(&"service".to_string()));
    assert!(!is_keyword(&"r#type".to_string()));
}

#[test]
fn echo_declaration() {
    // type State = Arc<Context>;
    // pub service EchoTest { log = 0, echo_u8 = 1, }
    let tokens = vec![
        ident("type"),
        ident("State"),
        p('='),
        ident("Arc"),
        p('<'),
        ident("Context"),
        p('>'),
        p(';'),
        ident("pub"),
        ident("service"),
        ident("EchoTest"),
        group(
            Delimiter::Brace,
            vec![ident("log"), p('='), lit("0"), p(','), ident("echo_u8"), p('='), lit("1"), p(',')],
        ),
    ];
    let d = parse(&tokens).unwrap();
    assert!(matches!(d.state, Some(State::Type { ty: (3, 7) })));
    assert_eq!(d.services.len(), 1);
    let s = &d.services[0];
    assert_eq!(s.attrs, (8, 8));
    assert_eq!(s.vis, (8, 9));
    assert_eq!(s.ident, 10);
    assert_eq!(s.body, 11);
    assert_eq!(s.funcs.len(), 2);
    assert_eq!((s.funcs[1].name, s.funcs[1].id), (4, 6));
}

#[test]
fn attributes_and_restricted_visibility() {
    let tokens = vec![
        p('#'),
        group(Delimiter::Bracket, vec![ident("doc")]),
        ident("pub"),
        group(Delimiter::Parenthesis, vec![ident("crate")]),
        ident("service"),
        ident("r#ValidateTest"),
        group(Delimiter::Brace, vec![]),
        ident("service"),
        ident("B"),
        group(Delimiter::Brace, vec![ident("f"), p('='), lit("2")]),
    ];
    let d = parse(&tokens).unwrap();
    assert!(d.state.is_none());
    assert_eq!(d.services.len(), 2);
    assert_eq!(d.services[0].attrs, (0, 2));
    assert_eq!(d.services[0].vis, (2, 4));
    assert_eq!(d.services[1].funcs.len(), 1);
}

#[test]
fn errors() {
    let body = || group(Delimiter::Brace, vec![]);
    assert_eq!(
        parse(&[ident("type"), ident("Ctx"), p('='), ident("u8"), p(';')]).err().map(|f| f.error),
        Some(ParseError::UnknownStateKeyword("Ctx".to_string()))
    );
    assert_eq!(
        parse(&[ident("type"), ident("State"), p(':'), ident("u8"), p(';')]).err().map(|f| f.error),
        Some(ParseError::ExpectedEq)
    );
    assert_eq!(
        parse(&[ident("type"), ident("State"), p('='), p(';')]).err().map(|f| f.error),
        Some(ParseError::ExpectedType)
    );
    assert_eq!(
        parse(&[ident("type"), ident("State"), p('='), ident("u8")]).err().map(|f| f.error),
        Some(ParseError::ExpectedSemicolon)
    );
    let state = || vec![ident("type"), ident("State"), p('='), ident("u8"), p(';')];
    let mut twice = state();
    twice.extend(state());
    assert_eq!(parse(&twice).err().map(|f| f.error), Some(ParseError::DuplicateState));
    assert_eq!(
        parse(&[ident("services"), ident("A"), body()]).err().map(|f| f.error),
        Some(ParseError::ExpectedServiceKeyword)
    );
    assert_eq!(
        parse(&[ident("service"), ident("fn"), body()]).err().map(|f| f.error),
        Some(ParseError::ExpectedIdent)
    );
    assert_eq!(
        parse(&[ident("service"), ident("A"), group(Delimiter::Parenthesis, vec![])]).err().map(|f| f.error),
        Some(ParseError::ExpectedBraces)
    );
    assert_eq!(parse(&[lit("1")]).err().map(|f| f.error), Some(ParseError::UnexpectedToken));
    assert_eq!(
        parse(&[ident("service"), ident("A"), group(Delimiter::Brace, vec![ident("f"), p('='), lit("1"), ident("g")])]).err().map(|f| f.error),
        Some(ParseError::ExpectedComma)
    );
    assert_eq!(
        parse(&[ident("service"), ident("A"), group(Delimiter::Brace, vec![ident("f"), p('='), ident("x")])]).err().map(|f| f.error),
        Some(ParseError::ExpectedLiteral)
    );
    assert_eq!(parse(&[p('#'), ident("x")]).err().map(|f| f.error), Some(ParseError::ExpectedSquareBrackets));
    assert!(parse(&[]).unwrap().services.is_empty());
}

fn state_decl(ty: Vec<TokenTree>) -> Vec<TokenTree> {
    let mut t = vec![ident("type"), ident("State"), p('=')];
    t.extend(ty);
    t.push(p(';'));
    t
}

#[test]
fn state_type_is_checked() {
    // type State = u8 u16;
    assert_eq!(
        parse(&state_decl(vec![ident("u8"), ident("u16")])).err().map(|f| f.error),
        Some(ParseError::ExpectedType)
    );
    // type State = std::sync::Arc<Context>;
    let path = vec![
        ident("std"), j(':'), p(':'), ident("sync"), j(':'), p(':'), ident("Arc"),
        p('<'), ident("Context"), p('>'),
    ];
    assert!(matches!(parse(&state_decl(path)).unwrap().state, Some(State::Type { ty: (3, 13) })));
    // type State = Vec<Vec<u8>>;
    let nested = vec![ident("Vec"), p('<'), ident("Vec"), p('<'), ident("u8"), j('>'), p('>')];
    assert!(parse(&state_decl(nested)).is_ok());
    // type State = &'static str;
    let lifetime = vec![p('&'), j('\''), ident("static"), ident("str")];
    assert!(parse(&state_decl(lifetime)).is_ok());
    // type State = (u8, [u8; 4]);
    let tuple = vec![group(
        Delimiter::Parenthesis,
        vec![ident("u8"), p(','), group(Delimiter::Bracket, vec![ident("u8"), p(';'), lit("4")])],
    )];
    assert!(parse(&state_decl(tuple)).is_ok());
    // type State = 42;
    assert_eq!(parse(&state_decl(vec![lit("42")])).err().map(|f| f.error), Some(ParseError::ExpectedType));
    // A punctuation mark that Rust's tokens never hold.
    assert_eq!(parse(&state_decl(vec![p('`')])).err().map(|f| f.error), Some(ParseError::ExpectedType));
}

#[test]
fn service_keyword_and_trailing_comma() {
    // svc Foo { a = 1 }
    assert_eq!(
        parse(&[ident("svc"), ident("Foo"), group(Delimiter::Brace, vec![ident("a"), p('='), lit("1")])]).err().map(|f| f.error),
        Some(ParseError::ExpectedServiceKeyword)
    );
    // service Foo { a = 1, b = 2, }
    let body = vec![ident("a"), p('='), lit("1"), p(','), ident("b"), p('='), lit("2"), p(',')];
    let d = parse(&[ident("service"), ident("Foo"), group(Delimiter::Brace, body)]).unwrap();
    let s = &d.services[0];
    assert_eq!(s.ident, 1);
    let funcs: Vec<(usize, usize)> = s.funcs.iter().map(|f| (f.name, f.id)).collect();
    assert_eq!(funcs, vec![(0, 2), (4, 6)]);
}

#[test]
fn errors_carry_their_position() {
    // svc Foo { a = 1 }: at `svc`.
    assert_eq!(
        parse(&[ident("svc"), ident("Foo"), group(Delimiter::Brace, vec![])]).err(),
        Some(ParseFailure { error: ParseError::ExpectedServiceKeyword, at: 0, inside: None })
    );
    // service A { f = 1 g }: at `g`, inside the body.
    let body = vec![ident("f"), p('='), lit("1"), ident("g")];
    assert_eq!(
        parse(&[ident("service"), ident("A"), group(Delimiter::Brace, body)]).err(),
        Some(ParseFailure { error: ParseError::ExpectedComma, at: 2, inside: Some(3) })
    );
    // service A { f = }: at the end of the body.
    let body = vec![ident("f"), p('=')];
    assert_eq!(
        parse(&[ident("service"), ident("A"), group(Delimiter::Brace, body)]).err(),
        Some(ParseFailure { error: ParseError::ExpectedLiteral, at: 2, inside: Some(2) })
    );
    // type State = u8 (no `;`): at the end of the input.
    assert_eq!(
        parse(&[ident("type"), ident("State"), p('='), ident("u8")]).err(),
        Some(ParseFailure { error: ParseError::ExpectedSemicolon, at: 4, inside: None })
    );
    // type State = u8 u16;: at the type.
    assert_eq!(
        parse(&state_decl(vec![ident("u8"), ident("u16")])).err(),
        Some(ParseFailure { error: ParseError::ExpectedType, at: 3, inside: None })
    );
    // A second state: at its `type`.
    let mut twice = state_decl(vec![ident("u8")]);
    twice.extend(state_decl(vec![ident("u8")]));
    assert_eq!(
        parse(&twice).err(),
        Some(ParseFailure { error: ParseError::DuplicateState, at: 5, inside: None })
    );
}
