//! Syntax highlighting of source code as HTML: each token of the code
//! becomes a `span` whose class names its kind, in a normalized layout.
//! The highlighter works on tokens alone: it refuses code that does not
//! split into tokens, and does not check how the tokens nest.
use vstd::prelude::*;
use vstd::std_specs::iter::IteratorSpec;

verus! {

broadcast use vstd::string::group_string_axioms;

/// The kinds of tokens.
#[derive(Debug, Clone, Copy, PartialEq, Eq, Structural)]
pub enum TokenKind {
    Number,
    Str,
    Ident,
    OpenBracket,
    CloseBracket,
    OpenBrace,
    CloseBrace,
    Comma,
    Colon,
    Equals,
}

/// A token: its kind and the range `start..end` of characters it covers.
#[derive(Debug, Clone, Copy, PartialEq, Eq, Structural)]
pub struct Token {
    pub kind: TokenKind,
    pub start: usize,
    pub end: usize,
}

/// What the lexer is in the middle of, with the start of the pending token.
#[derive(Debug, Clone, Copy, PartialEq, Eq, Structural)]
pub enum LexState {
    Between,
    InNumber { start: usize },
    InIdent { start: usize },
    InString { start: usize },
}

/// Why a piece of code could not be highlighted.
#[derive(Debug, Clone, Copy, PartialEq, Eq, Structural)]
pub enum HighlightError {
    /// A character that starts no token.
    UnexpectedChar { at: usize },
    /// A string literal that is not closed.
    UnterminatedString { start: usize },
}

pub open spec fn is_space(c: char) -> bool {
    c == ' ' || c == '\n' || c == '\t' || c == '\r'
}

pub open spec fn is_digit(c: char) -> bool {
    '0' <= c && c <= '9'
}

pub open spec fn is_letter(c: char) -> bool {
    ('a' <= c && c <= 'z') || ('A' <= c && c <= 'Z')
}

/// The kind of a one-character token.
pub open spec fn punct_kind(c: char) -> Option<TokenKind> {
    if c == '[' {
        Some(TokenKind::OpenBracket)
    } else if c == ']' {
        Some(TokenKind::CloseBracket)
    } else if c == '{' {
        Some(TokenKind::OpenBrace)
    } else if c == '}' {
        Some(TokenKind::CloseBrace)
    } else if c == ',' {
        Some(TokenKind::Comma)
    } else if c == ':' {
        Some(TokenKind::Colon)
    } else if c == '=' {
        Some(TokenKind::Equals)
    } else {
        None
    }
}

/// What the character `c` at position `i` does when no token is pending:
/// the new state, and the tokens it completes.
pub open spec fn start_token(c: char, i: usize) -> Option<(LexState, Seq<Token>)> {
    if is_space(c) {
        Some((LexState::Between, Seq::empty()))
    } else if is_digit(c) {
        Some((LexState::InNumber { start: i }, Seq::empty()))
    } else if is_letter(c) {
        Some((LexState::InIdent { start: i }, Seq::empty()))
    } else if c == '"' {
        Some((LexState::InString { start: i }, Seq::empty()))
    } else {
        match punct_kind(c) {
            Some(kind) => Some(
                (LexState::Between, seq![Token { kind, start: i, end: (i + 1) as usize }]),
            ),
            None => None,
        }
    }
}

/// `start_token`, after the pending token `t` has been completed.
pub open spec fn complete_then_start(t: Token, c: char, i: usize) -> Option<(LexState, Seq<Token>)> {
    match start_token(c, i) {
        Some((st, ts)) => Some((st, seq![t] + ts)),
        None => None,
    }
}

/// One step of the lexer: the character `c` at position `i` in state `st`.
pub open spec fn lex_step(st: LexState, c: char, i: usize) -> Option<(LexState, Seq<Token>)> {
    match st {
        LexState::Between => start_token(c, i),
        LexState::InString { start } => if c == '"' {
            Some(
                (
                    LexState::Between,
                    seq![Token { kind: TokenKind::Str, start, end: (i + 1) as usize }],
                ),
            )
        } else {
            Some((st, Seq::empty()))
        },
        LexState::InNumber { start } => if is_digit(c) {
            Some((st, Seq::empty()))
        } else {
            complete_then_start(Token { kind: TokenKind::Number, start, end: i }, c, i)
        },
        LexState::InIdent { start } => if is_letter(c) || is_digit(c) {
            Some((st, Seq::empty()))
        } else {
            complete_then_start(Token { kind: TokenKind::Ident, start, end: i }, c, i)
        },
    }
}

/// The lexer after the first `n` characters of `s`.
pub open spec fn lex_prefix(s: Seq<char>, n: nat) -> Option<(LexState, Seq<Token>)>
    decreases n,
{
    if n == 0 {
        Some((LexState::Between, Seq::empty()))
    } else {
        match lex_prefix(s, (n - 1) as nat) {
            None => None,
            Some((st, ts)) => match lex_step(st, s[n - 1], (n - 1) as usize) {
                None => None,
                Some((st2, more)) => Some((st2, ts + more)),
            },
        }
    }
}

/// The tokens of `s`: numbers are runs of digits, identifiers a letter
/// and then letters and digits, strings run from a double quote to the
/// next, and blanks separate tokens. `None` for a character that starts
/// no token, or a string that is not closed.
pub open spec fn lex(s: Seq<char>) -> Option<Seq<Token>> {
    match lex_prefix(s, s.len()) {
        None => None,
        Some((st, ts)) => match st {
            LexState::Between => Some(ts),
            LexState::InNumber { start } => Some(
                ts.push(Token { kind: TokenKind::Number, start, end: s.len() as usize }),
            ),
            LexState::InIdent { start } => Some(
                ts.push(Token { kind: TokenKind::Ident, start, end: s.len() as usize }),
            ),
            LexState::InString { .. } => None,
        },
    }
}

/// Every token covers a range of the first `n` characters.
pub open spec fn tokens_in(ts: Seq<Token>, n: nat) -> bool {
    forall|k: int| 0 <= k < ts.len() ==> #[trigger] ts[k].start <= ts[k].end && ts[k].end <= n
}

fn is_space_exec(c: char) -> (r: bool)
    ensures
        r == is_space(c),
{
    c == ' ' || c == '\n' || c == '\t' || c == '\r'
}

fn is_digit_exec(c: char) -> (r: bool)
    ensures
        r == is_digit(c),
{
    '0' <= c && c <= '9'
}

fn is_letter_exec(c: char) -> (r: bool)
    ensures
        r == is_letter(c),
{
    ('a' <= c && c <= 'z') || ('A' <= c && c <= 'Z')
}

fn punct_kind_exec(c: char) -> (r: Option<TokenKind>)
    ensures
        r == punct_kind(c),
{
    if c == '[' {
        Some(TokenKind::OpenBracket)
    } else if c == ']' {
        Some(TokenKind::CloseBracket)
    } else if c == '{' {
        Some(TokenKind::OpenBrace)
    } else if c == '}' {
        Some(TokenKind::CloseBrace)
    } else if c == ',' {
        Some(TokenKind::Comma)
    } else if c == ':' {
        Some(TokenKind::Colon)
    } else if c == '=' {
        Some(TokenKind::Equals)
    } else {
        None
    }
}

/// `start_token` on `c` at `i`, appending the tokens it completes to `toks`.
fn start_token_exec(c: char, i: usize, toks: &mut Vec<Token>) -> (r: Option<LexState>)
    requires
        i < usize::MAX,
    ensures
        match start_token(c, i) {
            None => r is None,
            Some((st, ts)) => r == Some(st) && final(toks)@ == old(toks)@ + ts,
        },
{
    if is_space_exec(c) {
        assert(old(toks)@ + Seq::<Token>::empty() =~= old(toks)@);
        Some(LexState::Between)
    } else if is_digit_exec(c) {
        assert(old(toks)@ + Seq::<Token>::empty() =~= old(toks)@);
        Some(LexState::InNumber { start: i })
    } else if is_letter_exec(c) {
        assert(old(toks)@ + Seq::<Token>::empty() =~= old(toks)@);
        Some(LexState::InIdent { start: i })
    } else if c == '"' {
        assert(old(toks)@ + Seq::<Token>::empty() =~= old(toks)@);
        Some(LexState::InString { start: i })
    } else {
        match punct_kind_exec(c) {
            Some(kind) => {
                toks.push(Token { kind, start: i, end: i + 1 });
                assert(toks@ =~= old(toks)@ + seq![Token { kind, start: i, end: (i + 1) as usize }]);
                Some(LexState::Between)
            },
            None => None,
        }
    }
}

/// The tokens of `chars`, as `lex` gives them.
pub fn tokenize(chars: &Vec<char>) -> (r: Result<Vec<Token>, HighlightError>)
    requires
        chars@.len() < usize::MAX,
    ensures
        match lex(chars@) {
            None => r is Err,
            Some(ts) => r matches Ok(v) && v@ == ts,
        },
        r matches Ok(v) ==> tokens_in(v@, chars@.len()),
{
    let mut toks: Vec<Token> = Vec::new();
    let mut st = LexState::Between;
    let mut i: usize = 0;
    while i < chars.len()
        invariant
            i <= chars@.len() < usize::MAX,
            lex_prefix(chars@, i as nat) == Some((st, toks@)),
            tokens_in(toks@, i as nat),
            match st {
                LexState::Between => true,
                LexState::InNumber { start } => start < i,
                LexState::InIdent { start } => start < i,
                LexState::InString { start } => start < i,
            },
        decreases chars@.len() - i,
    {
        let c = chars[i];
        let ghost before = toks@;
        let next = match st {
            LexState::Between => start_token_exec(c, i, &mut toks),
            LexState::InString { start } => {
                if c == '"' {
                    toks.push(Token { kind: TokenKind::Str, start, end: i + 1 });
                    assert(toks@ =~= before + seq![Token { kind: TokenKind::Str, start, end: (i + 1) as usize }]);
                    Some(LexState::Between)
                } else {
                    assert(toks@ =~= before + Seq::<Token>::empty());
                    Some(st)
                }
            },
            LexState::InNumber { start } => {
                if is_digit_exec(c) {
                    assert(toks@ =~= before + Seq::<Token>::empty());
                    Some(st)
                } else {
                    let t = Token { kind: TokenKind::Number, start, end: i };
                    toks.push(t);
                    let r = start_token_exec(c, i, &mut toks);
                    proof {
                        if let Some((_, ts)) = start_token(c, i) {
                            assert(toks@ =~= before + (seq![t] + ts));
                        }
                    }
                    r
                }
            },
            LexState::InIdent { start } => {
                if is_letter_exec(c) || is_digit_exec(c) {
                    assert(toks@ =~= before + Seq::<Token>::empty());
                    Some(st)
                } else {
                    let t = Token { kind: TokenKind::Ident, start, end: i };
                    toks.push(t);
                    let r = start_token_exec(c, i, &mut toks);
                    proof {
                        if let Some((_, ts)) = start_token(c, i) {
                            assert(toks@ =~= before + (seq![t] + ts));
                        }
                    }
                    r
                }
            },
        };
        match next {
            Some(s2) => {
                st = s2;
            },
            None => {
                proof {
                    lemma_lex_refused_prefix(chars@, (i + 1) as nat);
                }
                return Err(HighlightError::UnexpectedChar { at: i });
            },
        }
        i += 1;
    }
    match st {
        LexState::Between => {},
        LexState::InNumber { start } => {
            toks.push(Token { kind: TokenKind::Number, start, end: i });
        },
        LexState::InIdent { start } => {
            toks.push(Token { kind: TokenKind::Ident, start, end: i });
        },
        LexState::InString { start } => {
            return Err(HighlightError::UnterminatedString { start });
        },
    }
    Ok(toks)
}

/// Once a prefix of the input is refused, the whole input is.
proof fn lemma_lex_refused_prefix(s: Seq<char>, n: nat)
    requires
        n <= s.len(),
        lex_prefix(s, n) is None,
    ensures
        lex(s) is None,
    decreases s.len() - n,
{
    if n < s.len() {
        lemma_lex_refused_prefix(s, n + 1);
    }
}

/// The HTML of the token at index `k` of `toks`, whose text lies in `s`.
/// An identifier followed by a colon is a record field, any other one a
/// variable.
pub open spec fn token_html(s: Seq<char>, toks: Seq<Token>, k: int) -> Seq<char> {
    let t = toks[k];
    let text = s.subrange(t.start as int, t.end as int);
    match t.kind {
        TokenKind::Number => "<span class=\"syntax-number\">"@ + text + "</span>"@,
        TokenKind::Str => "<span class=\"syntax-string\">"@ + text + "</span>"@,
        TokenKind::Ident => if k + 1 < toks.len() && toks[k + 1].kind == TokenKind::Colon {
            "<span class=\"syntax-recordfield\">"@ + text + "</span>"@
        } else {
            "<span class=\"syntax-variable\">"@ + text + "</span>"@
        },
        TokenKind::OpenBracket => "<span class=\"syntax-bracket\">[ </span>"@,
        TokenKind::CloseBracket => "<span class=\"syntax-bracket\"> ]</span>"@,
        TokenKind::OpenBrace => "<span class=\"syntax-bracket\">{ </span>"@,
        TokenKind::CloseBrace => "<span class=\"syntax-bracket\"> }</span>"@,
        TokenKind::Comma => "<span class=\"syntax-comma\">, </span>"@,
        TokenKind::Colon => "<span class=\"syntax-operator\">: </span>"@,
        TokenKind::Equals => "<span class=\"syntax-operator\"> = </span>"@,
    }
}

/// The HTML of the first `n` tokens.
pub open spec fn render_prefix(s: Seq<char>, toks: Seq<Token>, n: nat) -> Seq<char>
    decreases n,
{
    if n == 0 {
        Seq::empty()
    } else {
        render_prefix(s, toks, (n - 1) as nat) + token_html(s, toks, n - 1)
    }
}

/// The HTML of all the tokens.
pub open spec fn render(s: Seq<char>, toks: Seq<Token>) -> Seq<char> {
    render_prefix(s, toks, toks.len())
}

/// Appends the characters of `s` to `out`.
fn push_str(out: &mut Vec<char>, s: &str)
    ensures
        final(out)@ == old(out)@ + s@,
{
    let mut cs = chars_of(s);
    out.append(&mut cs);
}

/// Appends `chars[start..end]` to `out`.
fn push_range(out: &mut Vec<char>, chars: &Vec<char>, start: usize, end: usize)
    requires
        start <= end <= chars@.len(),
    ensures
        final(out)@ == old(out)@ + chars@.subrange(start as int, end as int),
{
    let mut j: usize = start;
    while j < end
        invariant
            start <= j <= end <= chars@.len(),
            out@ == old(out)@ + chars@.subrange(start as int, j as int),
        decreases end - j,
    {
        out.push(chars[j]);
        j += 1;
        assert(out@ =~= old(out)@ + chars@.subrange(start as int, j as int));
    }
}

/// The HTML of `toks`, whose text lies in `chars`.
pub fn render_tokens(chars: &Vec<char>, toks: &Vec<Token>) -> (r: Vec<char>)
    requires
        tokens_in(toks@, chars@.len()),
    ensures
        r@ == render(chars@, toks@),
{
    let mut out: Vec<char> = Vec::new();
    let mut k: usize = 0;
    while k < toks.len()
        invariant
            k <= toks@.len(),
            tokens_in(toks@, chars@.len()),
            out@ == render_prefix(chars@, toks@, k as nat),
        decreases toks@.len() - k,
    {
        let t = toks[k];
        assert(t.start <= t.end && t.end <= chars@.len());
        match t.kind {
            TokenKind::Number => {
                push_str(&mut out, "<span class=\"syntax-number\">");
                push_range(&mut out, chars, t.start, t.end);
                push_str(&mut out, "</span>");
            },
            TokenKind::Str => {
                push_str(&mut out, "<span class=\"syntax-string\">");
                push_range(&mut out, chars, t.start, t.end);
                push_str(&mut out, "</span>");
            },
            TokenKind::Ident => {
                if k + 1 < toks.len() && toks[k + 1].kind == TokenKind::Colon {
                    push_str(&mut out, "<span class=\"syntax-recordfield\">");
                } else {
                    push_str(&mut out, "<span class=\"syntax-variable\">");
                }
                push_range(&mut out, chars, t.start, t.end);
                push_str(&mut out, "</span>");
            },
            TokenKind::OpenBracket => push_str(&mut out, "<span class=\"syntax-bracket\">[ </span>"),
            TokenKind::CloseBracket => push_str(&mut out, "<span class=\"syntax-bracket\"> ]</span>"),
            TokenKind::OpenBrace => push_str(&mut out, "<span class=\"syntax-bracket\">{ </span>"),
            TokenKind::CloseBrace => push_str(&mut out, "<span class=\"syntax-bracket\"> }</span>"),
            TokenKind::Comma => push_str(&mut out, "<span class=\"syntax-comma\">, </span>"),
            TokenKind::Colon => push_str(&mut out, "<span class=\"syntax-operator\">: </span>"),
            TokenKind::Equals => push_str(&mut out, "<span class=\"syntax-operator\"> = </span>"),
        }
        assert(out@ =~= render_prefix(chars@, toks@, k as nat) + token_html(chars@, toks@, k as int));
        k += 1;
    }
    out
}

/// Relies on `String::from_iter` over characters: the string holds them in
/// order.
#[verifier::external_body]
fn string_from_chars(chars: &Vec<char>) -> (r: String)
    ensures
        r@ == chars@,
{
    String::from_iter(chars.iter())
}

/// Highlights an expression: the HTML of its tokens, or why it has none.
pub fn syntax_highlight_expr(code: &str) -> (r: Result<String, HighlightError>)
    requires
        code@.len() < usize::MAX,
    ensures
        match lex(code@) {
            None => r is Err,
            Some(toks) => r matches Ok(html) && html@ == render(code@, toks),
        },
{
    let chars = chars_of(code);
    let toks = tokenize(&chars)?;
    let html = render_tokens(&chars, &toks);
    Ok(string_from_chars(&html))
}

/// Highlights top-level definitions: the HTML of their tokens, then a
/// blank line.
pub fn syntax_highlight_top_level_defs(code: &str) -> (r: Result<String, HighlightError>)
    requires
        code@.len() < usize::MAX,
    ensures
        match lex(code@) {
            None => r is Err,
            Some(toks) => r matches Ok(html) && html@ == render(code@, toks) + "\n\n"@,
        },
{
    let chars = chars_of(code);
    let toks = tokenize(&chars)?;
    let mut html = render_tokens(&chars, &toks);
    push_str(&mut html, "\n\n");
    Ok(string_from_chars(&html))
}

/// The characters of `s`, in order.
fn chars_of(s: &str) -> (r: Vec<char>)
    ensures
        r@ == s@,
{
    let mut r: Vec<char> = Vec::new();
    let mut it = s.chars();
    loop
        invariant
            it.obeys_prophetic_iter_laws(),
            it.decrease() is Some,
            r@ + it.remaining() == s@,
        ensures
            r@ == s@,
        decreases it.decrease()->0,
    {
        match it.next() {
            Some(c) => {
                r.push(c);
                assert(r@ + it.remaining() =~= s@);
            },
            None => {
                assert(r@ =~= r@ + it.remaining());
                break;
            },
        }
    }
    r
}

} // verus!
