//! The grammar of `declare!`: an optional `type State = <type>;` and any number of
//! `[attributes] [visibility] service <Name> { <procedure> = <index>, ... }`.
//!
//! The input is a sequence of token trees. Parsing yields positions into it.
//! The tokens of the state type must make up a Rust type, as `syn` reads one;
//! the tokens inside attributes and a visibility's `in` path are carried, not
//! checked against Rust's grammar.
use vstd::prelude::*;

verus! {

/// How a group of tokens is delimited.
#[derive(Debug, Clone, Copy, PartialEq, Eq, Structural)]
pub enum Delimiter {
    Parenthesis,
    Brace,
    Bracket,
    Invisible,
}

/// Whether a punctuation mark is joined to the token after it, as the first
/// `:` of `::` is.
#[derive(Debug, Clone, Copy, PartialEq, Eq, Structural)]
pub enum Spacing {
    Alone,
    Joint,
}

/// A token tree of a macro's input.
#[derive(Debug)]
pub enum TokenTree {
    Group(Delimiter, Vec<TokenTree>),
    Ident(String),
    Punct(char, Spacing),
    Literal(String),
}

/// Why the input of `declare!` was refused.
#[derive(Debug, PartialEq, Eq)]
pub enum ParseError {
    /// A token that begins neither a state type nor a service.
    UnexpectedToken,
    /// `type <name>` where the name is not `State`.
    UnknownStateKeyword(String),
    /// A second `type State`.
    DuplicateState,
    /// A service that does not begin with the `service` keyword.
    ExpectedServiceKeyword,
    /// An identifier was expected (a keyword is not one).
    ExpectedIdent,
    /// A punctuation mark was expected.
    ExpectedPunct,
    /// `=` was expected.
    ExpectedEq,
    /// A literal was expected.
    ExpectedLiteral,
    /// `{ ... }` was expected.
    ExpectedBraces,
    /// `[ ... ]` was expected after `#`.
    ExpectedSquareBrackets,
    /// `,` was expected between procedures.
    ExpectedComma,
    /// A type was expected after `type State =`.
    ExpectedType,
    /// `;` was expected after the state type.
    ExpectedSemicolon,
}

/// Where parsing `declare!`'s input failed: the error; the index of the token
/// it is found at, in the input, or the input's length at its end; and, for an
/// error inside a service's body (`at`), the index of the token in the body, or
/// the body's length at its end.
#[derive(Debug, PartialEq, Eq)]
pub struct ParseFailure {
    pub error: ParseError,
    pub at: usize,
    pub inside: Option<usize>,
}

impl ParseFailure {
    /// Whether this failure is `f`.
    pub open spec fn is(self, f: Failure) -> bool {
        &&& self.error == f.0
        &&& self.at == f.1
        &&& match f.2 {
            None => self.inside is None,
            Some(k) => self.inside matches Some(x) && x == k,
        }
    }
}

/// Rust's keywords and `_`: the words that do not parse as identifiers.
pub open spec fn keywords() -> Seq<Seq<char>> {
    seq![
        "_"@, "abstract"@, "as"@, "async"@, "await"@, "become"@, "box"@, "break"@, "const"@,
        "continue"@, "crate"@, "do"@, "dyn"@, "else"@, "enum"@, "extern"@, "false"@, "final"@,
        "fn"@, "for"@, "if"@, "impl"@, "in"@, "let"@, "loop"@, "macro"@, "match"@, "mod"@,
        "move"@, "mut"@, "override"@, "priv"@, "pub"@, "ref"@, "return"@, "Self"@, "self"@,
        "static"@, "struct"@, "super"@, "trait"@, "true"@, "try"@, "type"@, "typeof"@,
        "unsafe"@, "unsized"@, "use"@, "virtual"@, "where"@, "while"@, "yield"@,
    ]
}

/// Whether `s` is one of Rust's keywords.
pub fn is_keyword(s: &String) -> (r: bool)
    ensures
        r == keywords().contains(s@),
{
    let kws: [&str; 52] = [
        "_", "abstract", "as", "async", "await", "become", "box", "break", "const",
        "continue", "crate", "do", "dyn", "else", "enum", "extern", "false", "final",
        "fn", "for", "if", "impl", "in", "let", "loop", "macro", "match", "mod",
        "move", "mut", "override", "priv", "pub", "ref", "return", "Self", "self",
        "static", "struct", "super", "trait", "true", "try", "type", "typeof",
        "unsafe", "unsized", "use", "virtual", "where", "while", "yield",
    ];
    assert(forall|i: int| 0 <= i < 52 ==> #[trigger] kws@[i]@ == keywords()[i]);
    let mut i: usize = 0;
    while i < 52
        invariant
            i <= 52,
            forall|i: int| 0 <= i < 52 ==> #[trigger] kws@[i]@ == keywords()[i],
            forall|j: int| 0 <= j < i ==> keywords()[j] != s@,
        decreases 52 - i,
    {
        let kw = kws[i].to_owned();
        if *s == kw {
            assert(keywords()[i as int] == s@);
            return true;
        }
        i = i + 1;
    }
    assert(keywords().len() == 52);
    false
}

pub open spec fn is_punct(t: TokenTree, c: char) -> bool {
    t matches TokenTree::Punct(x, _) && x == c
}

pub open spec fn is_ident_named(t: TokenTree, name: Seq<char>) -> bool {
    t matches TokenTree::Ident(s) && s@ == name
}

/// An identifier that is not a keyword.
pub open spec fn is_plain_ident(t: TokenTree) -> bool {
    t matches TokenTree::Ident(s) && !keywords().contains(s@)
}

/// Where the outer attributes (`# [ ... ]`) that start at `i` end; an error
/// comes with the index of the token it is found at.
pub open spec fn attrs_end(ts: Seq<TokenTree>, i: int) -> Result<int, (ParseError, int)>
    decreases ts.len() - i,
{
    if 0 <= i < ts.len() && is_punct(ts[i], '#') {
        if i + 1 < ts.len() && ts[i + 1] matches TokenTree::Group(Delimiter::Bracket, _) {
            attrs_end(ts, i + 2)
        } else {
            Err((ParseError::ExpectedSquareBrackets, i + 1))
        }
    } else {
        Ok(i)
    }
}

/// Whether a parenthesized group restricts a `pub`: `(crate)`, `(self)`,
/// `(super)`, or `(in <path>)`.
pub open spec fn is_restriction(t: TokenTree) -> bool {
    t matches TokenTree::Group(Delimiter::Parenthesis, inner) && inner@.len() > 0 && (
    (inner@.len() == 1 && (is_ident_named(inner@[0], "crate"@) || is_ident_named(
        inner@[0],
        "self"@,
    ) || is_ident_named(inner@[0], "super"@))) || is_ident_named(inner@[0], "in"@))
}

/// Where the visibility that starts at `i` ends.
pub open spec fn vis_end(ts: Seq<TokenTree>, i: int) -> int {
    if 0 <= i < ts.len() && is_ident_named(ts[i], "pub"@) {
        if i + 1 < ts.len() && is_restriction(ts[i + 1]) {
            i + 2
        } else {
            i + 1
        }
    } else {
        i
    }
}

/// The procedures in a service's body, each as the positions of its name and of
/// its index literal; an error comes with the index of the token it is found at
/// (the body's length, at its end).
pub open spec fn parse_funcs(ts: Seq<TokenTree>, k: int) -> Result<Seq<(int, int)>, (ParseError, int)>
    decreases ts.len() - k,
{
    if k < 0 || k >= ts.len() {
        Ok(Seq::empty())
    } else if !is_plain_ident(ts[k]) {
        Err((ParseError::ExpectedIdent, k))
    } else if !(k + 1 < ts.len() && is_punct(ts[k + 1], '=')) {
        Err((ParseError::ExpectedEq, k + 1))
    } else if !(k + 2 < ts.len() && ts[k + 2] is Literal) {
        Err((ParseError::ExpectedLiteral, k + 2))
    } else if k + 3 == ts.len() {
        Ok(seq![(k, k + 2)])
    } else if !is_punct(ts[k + 3], ',') {
        Err((ParseError::ExpectedComma, k + 3))
    } else {
        match parse_funcs(ts, k + 4) {
            Ok(rest) => Ok(seq![(k, k + 2)] + rest),
            Err(e) => Err(e),
        }
    }
}

/// Every procedure in an accepted service body is written `name = literal`,
/// its name not a keyword, procedures separated by commas.
pub proof fn law_funcs_are_assignments(ts: Seq<TokenTree>, k: int)
    requires
        0 <= k,
    ensures
        parse_funcs(ts, k) matches Ok(fs) ==> forall|j: int|
            0 <= j < fs.len() ==> {
                let (n, id) = #[trigger] fs[j];
                &&& k <= n
                &&& id == n + 2
                &&& id < ts.len()
                &&& is_plain_ident(ts[n])
                &&& is_punct(ts[n + 1], '=')
                &&& ts[id] is Literal
                &&& (id + 1 < ts.len() ==> is_punct(ts[id + 1], ','))
            },
    decreases ts.len() - k,
{
    if k < ts.len() && is_plain_ident(ts[k]) && k + 1 < ts.len() && is_punct(ts[k + 1], '=')
        && k + 2 < ts.len() && ts[k + 2] is Literal && k + 3 < ts.len() && is_punct(ts[k + 3], ',') {
        law_funcs_are_assignments(ts, k + 4);
    }
}

/// The positions a parsed service is found at.
pub struct ServiceSpan {
    pub attrs: (int, int),
    pub vis: (int, int),
    pub ident: int,
    pub body: int,
    pub funcs: Seq<(int, int)>,
}

/// Where parsing failed: the error, the index of the token it is found at (the
/// input's length, at its end), and, for an error inside a service's body, the
/// index of the token in the body.
pub type Failure = (ParseError, int, Option<int>);

/// The service that starts at `i`, and where the next item starts.
pub open spec fn parse_service(ts: Seq<TokenTree>, i: int) -> Result<(ServiceSpan, int), Failure> {
    match attrs_end(ts, i) {
        Err((e, at)) => Err((e, at, None)),
        Ok(a) => {
            let v = vis_end(ts, a);
            if !(0 <= v < ts.len() && is_ident_named(ts[v], "service"@)) {
                Err((ParseError::ExpectedServiceKeyword, v, None))
            } else if !(v + 1 < ts.len() && is_plain_ident(ts[v + 1])) {
                Err((ParseError::ExpectedIdent, v + 1, None))
            } else if !(v + 2 < ts.len() && ts[v + 2] matches TokenTree::Group(Delimiter::Brace, _)) {
                Err((ParseError::ExpectedBraces, v + 2, None))
            } else {
                match parse_funcs(ts[v + 2]->Group_1@, 0) {
                    Err((e, k)) => Err((e, v + 2, Some(k))),
                    Ok(funcs) => Ok(
                        (
                            ServiceSpan { attrs: (i, a), vis: (a, v), ident: v + 1, body: v + 2, funcs },
                            v + 3,
                        ),
                    ),
                }
            }
        },
    }
}

/// The first `;` at or after `k`.
pub open spec fn find_semi(ts: Seq<TokenTree>, k: int) -> Option<int>
    decreases ts.len() - k,
{
    if k < 0 || k >= ts.len() {
        None
    } else if is_punct(ts[k], ';') {
        Some(k)
    } else {
        find_semi(ts, k + 1)
    }
}

/// The punctuation marks of Rust's token trees.
pub open spec fn is_rust_punct(c: char) -> bool {
    c == '=' || c == '<' || c == '>' || c == '!' || c == '~' || c == '+' || c == '-' || c == '*'
        || c == '/' || c == '%' || c == '^' || c == '&' || c == '|' || c == '@' || c == '.'
        || c == ',' || c == ';' || c == ':' || c == '#' || c == '$' || c == '?' || c == '\''
}

/// Whether every punctuation mark in `ts`, inside groups too, is one of Rust's.
pub open spec fn all_rust_puncts(ts: Seq<TokenTree>) -> bool
    decreases ts,
{
    if ts.len() == 0 {
        true
    } else {
        all_rust_puncts(ts.drop_last()) && match ts.last() {
            TokenTree::Group(_, inner) => all_rust_puncts(inner@),
            TokenTree::Punct(c, _) => is_rust_punct(c),
            _ => true,
        }
    }
}

/// The text that opens a group; an invisible group is written in parentheses.
pub open spec fn open_text(d: Delimiter) -> Seq<char> {
    match d {
        Delimiter::Parenthesis => seq!['('],
        Delimiter::Brace => seq!['{'],
        Delimiter::Bracket => seq!['['],
        Delimiter::Invisible => seq!['('],
    }
}

/// The text that closes a group.
pub open spec fn close_text(d: Delimiter) -> Seq<char> {
    match d {
        Delimiter::Parenthesis => seq![')'],
        Delimiter::Brace => seq!['}'],
        Delimiter::Bracket => seq![']'],
        Delimiter::Invisible => seq![')'],
    }
}

/// Source text for `ts`: each token, then a space, except after a punctuation
/// mark joined to the next token.
pub open spec fn token_text(ts: Seq<TokenTree>) -> Seq<char>
    decreases ts,
{
    if ts.len() == 0 {
        Seq::empty()
    } else {
        let t = ts.last();
        let head = match t {
            TokenTree::Group(d, inner) => open_text(d) + token_text(inner@) + close_text(d),
            TokenTree::Ident(s) => s@,
            TokenTree::Punct(c, _) => seq![c],
            TokenTree::Literal(s) => s@,
        };
        let sep = if t matches TokenTree::Punct(_, Spacing::Joint) {
            Seq::empty()
        } else {
            seq![' ']
        };
        token_text(ts.drop_last()) + head + sep
    }
}

/// Whether `text` is a Rust type, as `syn` parses types.
pub uninterp spec fn rust_type(text: Seq<char>) -> bool;

/// Whether the tokens `ts` make up a Rust type.
pub open spec fn state_type(ts: Seq<TokenTree>) -> bool {
    all_rust_puncts(ts) && rust_type(token_text(ts))
}

/// Parses `text` with `syn::parse_str::<syn::Type>`.
///
/// The contract names the outcome `rust_type(text)`; Rust's grammar of types is
/// not stated.
#[verifier::external_body]
fn parses_as_type(text: &str) -> (r: bool)
    ensures
        r == rust_type(text@),
{
    syn::parse_str::<syn::Type>(text).is_ok()
}

fn punct_str(c: char) -> (r: Option<&'static str>)
    ensures
        r is Some <==> is_rust_punct(c),
        r matches Some(s) ==> s@ == seq![c],
{
    proof {
        reveal_strlit("=");
        reveal_strlit("<");
        reveal_strlit(">");
        reveal_strlit("!");
        reveal_strlit("~");
        reveal_strlit("+");
        reveal_strlit("-");
        reveal_strlit("*");
        reveal_strlit("/");
        reveal_strlit("%");
        reveal_strlit("^");
        reveal_strlit("&");
        reveal_strlit("|");
        reveal_strlit("@");
        reveal_strlit(".");
        reveal_strlit(",");
        reveal_strlit(";");
        reveal_strlit(":");
        reveal_strlit("#");
        reveal_strlit("$");
        reveal_strlit("?");
        reveal_strlit("'");
    }
    match c {
        '=' => Some("="),
        '<' => Some("<"),
        '>' => Some(">"),
        '!' => Some("!"),
        '~' => Some("~"),
        '+' => Some("+"),
        '-' => Some("-"),
        '*' => Some("*"),
        '/' => Some("/"),
        '%' => Some("%"),
        '^' => Some("^"),
        '&' => Some("&"),
        '|' => Some("|"),
        '@' => Some("@"),
        '.' => Some("."),
        ',' => Some(","),
        ';' => Some(";"),
        ':' => Some(":"),
        '#' => Some("#"),
        '$' => Some("$"),
        '?' => Some("?"),
        '\'' => Some("'"),
        _ => None,
    }
}

fn open_str(d: Delimiter) -> (r: &'static str)
    ensures
        r@ == open_text(d),
{
    proof {
        reveal_strlit("(");
        reveal_strlit("{");
        reveal_strlit("[");
    }
    match d {
        Delimiter::Parenthesis => "(",
        Delimiter::Brace => "{",
        Delimiter::Bracket => "[",
        Delimiter::Invisible => "(",
    }
}

fn close_str(d: Delimiter) -> (r: &'static str)
    ensures
        r@ == close_text(d),
{
    proof {
        reveal_strlit(")");
        reveal_strlit("}");
        reveal_strlit("]");
    }
    match d {
        Delimiter::Parenthesis => ")",
        Delimiter::Brace => "}",
        Delimiter::Bracket => "]",
        Delimiter::Invisible => ")",
    }
}

/// Appends the text of `ts[from..to]` to `out`; `false`, when a punctuation
/// mark there is not one of Rust's.
fn write_tokens(out: &mut String, ts: &[TokenTree], from: usize, to: usize) -> (ok: bool)
    requires
        from <= to <= ts@.len(),
    ensures
        ok == all_rust_puncts(ts@.subrange(from as int, to as int)),
        ok ==> final(out)@ == old(out)@ + token_text(ts@.subrange(from as int, to as int)),
    decreases ts@,
{
    let mut i: usize = from;
    while i < to
        invariant
            from <= i <= to <= ts@.len(),
            all_rust_puncts(ts@.subrange(from as int, i as int)),
            out@ == old(out)@ + token_text(ts@.subrange(from as int, i as int)),
        decreases to - i,
    {
        let ghost pre = ts@.subrange(from as int, i as int);
        let ghost next = ts@.subrange(from as int, i + 1);
        assert(next.drop_last() =~= pre);
        assert(next.last() == ts@[i as int]);
        match &ts[i] {
            TokenTree::Group(d, inner) => {
                out.append(open_str(*d));
                proof {
                    assert(decreases_to!(ts@ => ts@[i as int]));
                    assert(inner@.subrange(0, inner@.len() as int) =~= inner@);
                }
                if !write_tokens(out, inner.as_slice(), 0, inner.len()) {
                    proof {
                        lemma_puncts_prefix(ts@.subrange(from as int, to as int), i + 1 - from);
                        assert(ts@.subrange(from as int, to as int).subrange(0, i + 1 - from) =~= next);
                    }
                    return false;
                }
                out.append(close_str(*d));
                out.append(" ");
            },
            TokenTree::Ident(s) => {
                out.append(s.as_str());
                out.append(" ");
            },
            TokenTree::Punct(c, spacing) => {
                match punct_str(*c) {
                    Some(p) => out.append(p),
                    None => {
                        proof {
                            lemma_puncts_prefix(ts@.subrange(from as int, to as int), i + 1 - from);
                            assert(ts@.subrange(from as int, to as int).subrange(0, i + 1 - from) =~= next);
                        }
                        return false;
                    },
                }
                if *spacing == Spacing::Alone {
                    out.append(" ");
                }
            },
            TokenTree::Literal(s) => {
                out.append(s.as_str());
                out.append(" ");
            },
        }
        proof {
            reveal_strlit(" ");
            assert(out@ =~= old(out)@ + token_text(next));
        }
        i = i + 1;
    }
    true
}

/// A prefix of tokens whose punctuation is not all Rust's spoils the whole.
proof fn lemma_puncts_prefix(ts: Seq<TokenTree>, n: int)
    requires
        0 <= n <= ts.len(),
        !all_rust_puncts(ts.subrange(0, n)),
    ensures
        !all_rust_puncts(ts),
    decreases ts.len() - n,
{
    if n < ts.len() {
        assert(ts.subrange(0, n + 1).drop_last() =~= ts.subrange(0, n));
        lemma_puncts_prefix(ts, n + 1);
    } else {
        assert(ts.subrange(0, n) =~= ts);
    }
}

/// Whether the tokens `ts[from..to]` make up a Rust type.
fn is_state_type(ts: &[TokenTree], from: usize, to: usize) -> (r: bool)
    requires
        from <= to <= ts@.len(),
    ensures
        r == state_type(ts@.subrange(from as int, to as int)),
{
    let mut text = String::new();
    if !write_tokens(&mut text, ts, from, to) {
        return false;
    }
    parses_as_type(text.as_str())
}

/// The state type declared at `i` (where `type` stands), as the range of its
/// tokens, which must make up a Rust type, and where the next item starts; an
/// error comes with the index of the token it is found at.
pub open spec fn parse_state(ts: Seq<TokenTree>, i: int) -> Result<((int, int), int), (ParseError, int)> {
    if !(0 <= i && i + 1 < ts.len() && is_plain_ident(ts[i + 1])) {
        Err((ParseError::ExpectedIdent, i + 1))
    } else if !is_ident_named(ts[i + 1], "State"@) {
        Err((ParseError::UnknownStateKeyword(ts[i + 1]->Ident_0), i + 1))
    } else if !(i + 2 < ts.len() && ts[i + 2] is Punct) {
        Err((ParseError::ExpectedPunct, i + 2))
    } else if !is_punct(ts[i + 2], '=') {
        Err((ParseError::ExpectedEq, i + 2))
    } else {
        match find_semi(ts, i + 3) {
            None => if i + 3 >= ts.len() {
                Err((ParseError::ExpectedType, i + 3))
            } else {
                Err((ParseError::ExpectedSemicolon, ts.len() as int))
            },
            Some(j) => if j == i + 3 || !state_type(ts.subrange(i + 3, j)) {
                Err((ParseError::ExpectedType, i + 3))
            } else {
                Ok(((i + 3, j), j + 1))
            },
        }
    }
}

pub proof fn lemma_attrs_end_advances(ts: Seq<TokenTree>, i: int)
    requires
        0 <= i,
    ensures
        attrs_end(ts, i) matches Ok(a) ==> i <= a,
    decreases ts.len() - i,
{
    if 0 <= i < ts.len() && is_punct(ts[i], '#') && i + 1 < ts.len() {
        lemma_attrs_end_advances(ts, i + 2);
    }
}

pub proof fn lemma_find_semi_at_or_after(ts: Seq<TokenTree>, k: int)
    ensures
        find_semi(ts, k) matches Some(j) ==> k <= j < ts.len() && is_punct(ts[j], ';'),
    decreases ts.len() - k,
{
    if 0 <= k < ts.len() && !is_punct(ts[k], ';') {
        lemma_find_semi_at_or_after(ts, k + 1);
    }
}

/// The state type and the services declared from `i` on; `has_state` tells
/// whether a state type was declared before `i`.
pub open spec fn parse_items(ts: Seq<TokenTree>, i: int, has_state: bool) -> Result<
    (Option<(int, int)>, Seq<ServiceSpan>),
    Failure,
>
    decreases ts.len() - i,
{
    if i < 0 || i >= ts.len() {
        Ok((None, Seq::empty()))
    } else if is_ident_named(ts[i], "type"@) {
        match parse_state(ts, i) {
            Err((e, at)) => Err((e, at, None)),
            Ok((ty, next)) => if has_state {
                Err((ParseError::DuplicateState, i, None))
            } else {
                proof {
                    lemma_find_semi_at_or_after(ts, i + 3);
                }
                match parse_items(ts, next, true) {
                    Ok((_, services)) => Ok((Some(ty), services)),
                    Err(e) => Err(e),
                }
            },
        }
    } else if ts[i] is Ident || is_punct(ts[i], '#') {
        match parse_service(ts, i) {
            Err(e) => Err(e),
            Ok((service, next)) => {
                proof {
                    lemma_attrs_end_advances(ts, i);
                }
                match parse_items(ts, next, has_state) {
                    Ok((state, services)) => Ok((state, seq![service] + services)),
                    Err(e) => Err(e),
                }
            },
        }
    } else {
        Err((ParseError::UnexpectedToken, i, None))
    }
}

/// A procedure: the positions, in its service's body, of its name and of its index.
#[derive(Debug, Clone, Copy, PartialEq, Eq, Structural)]
pub struct Func {
    pub name: usize,
    pub id: usize,
}

/// The state type: the range of its tokens.
#[derive(Debug, Clone, Copy)]
pub enum State {
    Type { ty: (usize, usize) },
}

/// A service: the ranges of its attributes and visibility, the positions of
/// its name and of its body, and its procedures.
#[derive(Debug)]
pub struct Service {
    pub attrs: (usize, usize),
    pub vis: (usize, usize),
    pub ident: usize,
    pub body: usize,
    pub funcs: Vec<Func>,
}

/// What `declare!` declares.
#[derive(Debug)]
pub struct Declare {
    pub state: Option<State>,
    pub services: Vec<Service>,
}

pub open spec fn func_span(f: Func) -> (int, int) {
    (f.name as int, f.id as int)
}

impl Service {
    pub open spec fn span(self) -> ServiceSpan {
        ServiceSpan {
            attrs: (self.attrs.0 as int, self.attrs.1 as int),
            vis: (self.vis.0 as int, self.vis.1 as int),
            ident: self.ident as int,
            body: self.body as int,
            funcs: self.funcs@.map_values(|f: Func| func_span(f)),
        }
    }
}

pub open spec fn state_span(s: Option<State>) -> Option<(int, int)> {
    match s {
        None => None,
        Some(State::Type { ty }) => Some((ty.0 as int, ty.1 as int)),
    }
}

impl Declare {
    pub open spec fn spans(self) -> (Option<(int, int)>, Seq<ServiceSpan>) {
        (state_span(self.state), self.services@.map_values(|s: Service| s.span()))
    }
}

fn attrs_end_exec(ts: &[TokenTree], i: usize) -> (r: Result<usize, (ParseError, usize)>)
    ensures
        match attrs_end(ts@, i as int) {
            Ok(a) => r matches Ok(x) && x == a,
            Err(e) => r matches Err(x) && x.0 == e.0 && x.1 == e.1,
        },
    decreases ts@.len() - i,
{
    if i < ts.len() && matches!(ts[i], TokenTree::Punct('#', _)) {
        if i + 1 < ts.len() && matches!(ts[i + 1], TokenTree::Group(Delimiter::Bracket, _)) {
            attrs_end_exec(ts, i + 2)
        } else {
            Err((ParseError::ExpectedSquareBrackets, i + 1))
        }
    } else {
        Ok(i)
    }
}

fn ident_is(t: &TokenTree, name: &str) -> (r: bool)
    ensures
        r == is_ident_named(*t, name@),
{
    match t {
        TokenTree::Ident(s) => *s == name.to_owned(),
        _ => false,
    }
}

fn plain_ident(t: &TokenTree) -> (r: bool)
    ensures
        r == is_plain_ident(*t),
{
    match t {
        TokenTree::Ident(s) => !is_keyword(s),
        _ => false,
    }
}

fn restriction(t: &TokenTree) -> (r: bool)
    ensures
        r == is_restriction(*t),
{
    match t {
        TokenTree::Group(Delimiter::Parenthesis, inner) => {
            if inner.len() == 0 {
                false
            } else if inner.len() == 1 && (ident_is(&inner[0], "crate") || ident_is(&inner[0], "self")
                || ident_is(&inner[0], "super")) {
                true
            } else {
                ident_is(&inner[0], "in")
            }
        },
        _ => false,
    }
}

fn vis_end_exec(ts: &[TokenTree], i: usize) -> (r: usize)
    ensures
        r == vis_end(ts@, i as int),
{
    if i < ts.len() && ident_is(&ts[i], "pub") {
        if i + 1 < ts.len() && restriction(&ts[i + 1]) {
            i + 2
        } else {
            i + 1
        }
    } else {
        i
    }
}

fn parse_funcs_exec(ts: &[TokenTree], k: usize) -> (r: Result<Vec<Func>, (ParseError, usize)>)
    ensures
        match parse_funcs(ts@, k as int) {
            Ok(fs) => r matches Ok(x) && x@.map_values(|f: Func| func_span(f)) == fs,
            Err(e) => r matches Err(x) && x.0 == e.0 && x.1 == e.1,
        },
    decreases ts@.len() - k,
{
    if k >= ts.len() {
        let v: Vec<Func> = Vec::new();
        assert(v@.map_values(|f: Func| func_span(f)) =~= Seq::<(int, int)>::empty());
        return Ok(v);
    }
    if !plain_ident(&ts[k]) {
        return Err((ParseError::ExpectedIdent, k));
    }
    if !(k + 1 < ts.len() && matches!(ts[k + 1], TokenTree::Punct('=', _))) {
        return Err((ParseError::ExpectedEq, k + 1));
    }
    if !(k + 2 < ts.len() && matches!(ts[k + 2], TokenTree::Literal(_))) {
        return Err((ParseError::ExpectedLiteral, k + 2));
    }
    let f = Func { name: k, id: k + 2 };
    if k + 3 == ts.len() {
        let mut v: Vec<Func> = Vec::new();
        v.push(f);
        assert(v@.map_values(|f: Func| func_span(f)) =~= seq![(k as int, k + 2)]);
        return Ok(v);
    }
    if !matches!(ts[k + 3], TokenTree::Punct(',', _)) {
        return Err((ParseError::ExpectedComma, k + 3));
    }
    let mut rest = parse_funcs_exec(ts, k + 4)?;
    let ghost old_rest = rest@;
    rest.insert(0, f);
    assert(rest@.map_values(|f: Func| func_span(f)) =~= seq![(k as int, k + 2)]
        + old_rest.map_values(|f: Func| func_span(f)));
    Ok(rest)
}

fn parse_service_exec(ts: &[TokenTree], i: usize) -> (r: Result<(Service, usize), ParseFailure>)
    ensures
        match parse_service(ts@, i as int) {
            Ok((span, next)) => r matches Ok(x) && x.0.span() == span && x.1 == next,
            Err(e) => r matches Err(x) && x.is(e),
        },
{
    let a = match attrs_end_exec(ts, i) {
        Ok(a) => a,
        Err((error, at)) => return Err(ParseFailure { error, at, inside: None }),
    };
    proof {
        lemma_attrs_end_advances(ts@, i as int);
    }
    let v = vis_end_exec(ts, a);
    if !(v < ts.len() && ident_is(&ts[v], "service")) {
        return Err(ParseFailure { error: ParseError::ExpectedServiceKeyword, at: v, inside: None });
    }
    if !(v + 1 < ts.len() && plain_ident(&ts[v + 1])) {
        return Err(ParseFailure { error: ParseError::ExpectedIdent, at: v + 1, inside: None });
    }
    if v + 2 >= ts.len() {
        return Err(ParseFailure { error: ParseError::ExpectedBraces, at: v + 2, inside: None });
    }
    match &ts[v + 2] {
        TokenTree::Group(Delimiter::Brace, inner) => {
            let funcs = match parse_funcs_exec(inner.as_slice(), 0) {
                Ok(funcs) => funcs,
                Err((error, k)) => {
                    return Err(ParseFailure { error, at: v + 2, inside: Some(k) });
                },
            };
            Ok((Service { attrs: (i, a), vis: (a, v), ident: v + 1, body: v + 2, funcs }, v + 3))
        },
        _ => Err(ParseFailure { error: ParseError::ExpectedBraces, at: v + 2, inside: None }),
    }
}

fn find_semi_exec(ts: &[TokenTree], k: usize) -> (r: Option<usize>)
    ensures
        match find_semi(ts@, k as int) {
            Some(j) => r matches Some(x) && x == j,
            None => r is None,
        },
{
    let mut j = k;
    while j < ts.len()
        invariant
            k <= j,
            find_semi(ts@, k as int) == find_semi(ts@, j as int),
        decreases ts@.len() - j,
    {
        if matches!(ts[j], TokenTree::Punct(';', _)) {
            return Some(j);
        }
        j = j + 1;
    }
    None
}

fn parse_state_exec(ts: &[TokenTree], i: usize) -> (r: Result<((usize, usize), usize), (ParseError, usize)>)
    requires
        i < ts@.len(),
    ensures
        match parse_state(ts@, i as int) {
            Ok((ty, next)) => r matches Ok(x) && x.0.0 == ty.0 && x.0.1 == ty.1 && x.1 == next,
            Err(e) => r matches Err(x) && x.0 == e.0 && x.1 == e.1,
        },
{
    if !(ts.len() - i > 1 && plain_ident(&ts[i + 1])) {
        return Err((ParseError::ExpectedIdent, i + 1));
    }
    if !ident_is(&ts[i + 1], "State") {
        return match &ts[i + 1] {
            TokenTree::Ident(name) => Err((ParseError::UnknownStateKeyword(name.clone()), i + 1)),
            _ => Err((ParseError::ExpectedIdent, i + 1)),
        };
    }
    if !(i + 2 < ts.len() && matches!(ts[i + 2], TokenTree::Punct(_, _))) {
        return Err((ParseError::ExpectedPunct, i + 2));
    }
    if !matches!(ts[i + 2], TokenTree::Punct('=', _)) {
        return Err((ParseError::ExpectedEq, i + 2));
    }
    proof {
        lemma_find_semi_at_or_after(ts@, i + 3);
    }
    match find_semi_exec(ts, i + 3) {
        None => if i + 3 >= ts.len() {
            Err((ParseError::ExpectedType, i + 3))
        } else {
            Err((ParseError::ExpectedSemicolon, ts.len()))
        },
        Some(j) => if j == i + 3 || !is_state_type(ts, i + 3, j) {
            Err((ParseError::ExpectedType, i + 3))
        } else {
            Ok(((i + 3, j), j + 1))
        },
    }
}

fn parse_items_exec(ts: &[TokenTree], i: usize, has_state: bool) -> (r: Result<
    (Option<State>, Vec<Service>),
    ParseFailure,
>)
    ensures
        match parse_items(ts@, i as int, has_state) {
            Ok((state, services)) => r matches Ok(x) && state_span(x.0) == state
                && x.1@.map_values(|s: Service| s.span()) == services,
            Err(e) => r matches Err(x) && x.is(e),
        },
    decreases ts@.len() - i,
{
    if i >= ts.len() {
        let v: Vec<Service> = Vec::new();
        assert(v@.map_values(|s: Service| s.span()) =~= Seq::<ServiceSpan>::empty());
        return Ok((None, v));
    }
    if ident_is(&ts[i], "type") {
        let (ty, next) = match parse_state_exec(ts, i) {
            Ok(found) => found,
            Err((error, at)) => return Err(ParseFailure { error, at, inside: None }),
        };
        if has_state {
            return Err(ParseFailure { error: ParseError::DuplicateState, at: i, inside: None });
        }
        proof {
            lemma_find_semi_at_or_after(ts@, i + 3);
        }
        let (_, services) = parse_items_exec(ts, next, true)?;
        Ok((Some(State::Type { ty }), services))
    } else if matches!(ts[i], TokenTree::Ident(_)) || matches!(ts[i], TokenTree::Punct('#', _)) {
        let (service, next) = parse_service_exec(ts, i)?;
        proof {
            lemma_attrs_end_advances(ts@, i as int);
        }
        let (state, mut services) = parse_items_exec(ts, next, has_state)?;
        let ghost old = services@;
        let ghost first = service.span();
        services.insert(0, service);
        assert(services@.map_values(|s: Service| s.span()) =~= seq![first] + old.map_values(
            |s: Service| s.span(),
        ));
        Ok((state, services))
    } else {
        Err(ParseFailure { error: ParseError::UnexpectedToken, at: i, inside: None })
    }
}

/// Parses the input of `declare!`.
pub fn parse(tokens: &[TokenTree]) -> (r: Result<Declare, ParseFailure>)
    ensures
        match parse_items(tokens@, 0, false) {
            Ok(spans) => r matches Ok(d) && d.spans() == spans,
            Err(e) => r matches Err(x) && x.is(e),
        },
{
    let (state, services) = parse_items_exec(tokens, 0, false)?;
    Ok(Declare { state, services })
}


/// Any number of outer attributes may stand before a service: at a `#`
/// followed by a bracketed group, the attributes go on to wherever the ones
/// after that group end.
pub proof fn law_attrs_run_on(ts: Seq<TokenTree>, i: int)
    requires
        0 <= i,
        i + 1 < ts.len(),
        is_punct(ts[i], '#'),
        ts[i + 1] matches TokenTree::Group(Delimiter::Bracket, _),
    ensures
        attrs_end(ts, i) == attrs_end(ts, i + 2),
{
}

/// The attributes read from `i` are made of `#` and bracketed groups only, and
/// they stop only where no further attribute begins.
pub proof fn law_attrs_stop_where_none_follows(ts: Seq<TokenTree>, i: int)
    requires
        0 <= i,
    ensures
        attrs_end(ts, i) matches Ok(a) ==> {
            &&& i <= a
            &&& !(a < ts.len() && is_punct(ts[a], '#'))
            &&& forall|j: int|
                i <= j < a ==> is_punct(#[trigger] ts[j], '#') || ts[j] matches TokenTree::Group(
                    Delimiter::Bracket,
                    _,
                )
        },
    decreases ts.len() - i,
{
    if 0 <= i < ts.len() && is_punct(ts[i], '#') && i + 1 < ts.len() {
        law_attrs_stop_where_none_follows(ts, i + 2);
    }
}

} // verus!
