//! The textual front end: a tokenizer that splits source text into tokens,
//! and a recursive-descent parser that builds an `Expr` per the grammar
//!
//! ```text
//! expr  := "if" expr "then" expr "else" expr
//!        | "func" IDENT "=>" expr
//!        | "apply" "(" expr "," expr ")"
//!        | orExpr
//! orExpr   := andExpr  ( ("|" | "||") andExpr )*
//! andExpr  := cmpExpr  ( ("&" | "&&") cmpExpr )*
//! cmpExpr  := addExpr  ( ("<" | "<=" | ">" | ">=" | "==") addExpr )*
//! addExpr  := mulExpr  ( ("+" | "-") mulExpr )*
//! mulExpr  := unaryExpr ( ("*" | "/") unaryExpr )*
//! unaryExpr := "!" unaryExpr | atom
//! atom  := INT | "T" | "F" | IDENT | "(" expr ")"
//! ```
//!
//! Lexical rule: tokens are separated by whitespace; the characters `(`,
//! `)` and `,` always form their own token even without surrounding
//! whitespace; every other whitespace-delimited run must be exactly one
//! keyword, operator, integer literal or identifier. `&&` and `||` are the
//! boolean operators, `&` and `|` the bitwise ones, and `==` is the
//! equality operator. `T` and `F` are the boolean literals; any other
//! identifier is a variable reference, resolved at evaluation time.

use vstd::prelude::*;

use crate::program::{BinaryOp, Expr, ExprModel, UnaryOp, Value, ValueModel, expr_model};

verus! {

/// One token of source text.
#[derive(Debug, PartialEq, Eq)]
pub enum Token {
    /// An integer literal that fits in `i64`.
    IntLit(i64),
    /// The boolean literal `T`.
    TrueLit,
    /// The boolean literal `F`.
    FalseLit,
    /// An identifier: a variable name or a function parameter.
    Ident(String),
    If,
    Then,
    Else,
    Func,
    Apply,
    Arrow,
    LParen,
    RParen,
    Comma,
    Plus,
    Minus,
    Star,
    Slash,
    Amp,
    Pipe,
    AmpAmp,
    PipePipe,
    Lt,
    Le,
    Gt,
    Ge,
    EqEq,
    Bang,
    /// A whitespace-delimited run that matches no token form.
    Unknown(String),
}

/// Ghost model of a `Token`.
pub enum TokenModel {
    IntLit(i64),
    TrueLit,
    FalseLit,
    Ident(Seq<char>),
    If,
    Then,
    Else,
    Func,
    Apply,
    Arrow,
    LParen,
    RParen,
    Comma,
    Plus,
    Minus,
    Star,
    Slash,
    Amp,
    Pipe,
    AmpAmp,
    PipePipe,
    Lt,
    Le,
    Gt,
    Ge,
    EqEq,
    Bang,
    Unknown(Seq<char>),
}

pub open spec fn token_model(t: Token) -> TokenModel {
    match t {
        Token::IntLit(i) => TokenModel::IntLit(i),
        Token::TrueLit => TokenModel::TrueLit,
        Token::FalseLit => TokenModel::FalseLit,
        Token::Ident(name) => TokenModel::Ident(name@),
        Token::If => TokenModel::If,
        Token::Then => TokenModel::Then,
        Token::Else => TokenModel::Else,
        Token::Func => TokenModel::Func,
        Token::Apply => TokenModel::Apply,
        Token::Arrow => TokenModel::Arrow,
        Token::LParen => TokenModel::LParen,
        Token::RParen => TokenModel::RParen,
        Token::Comma => TokenModel::Comma,
        Token::Plus => TokenModel::Plus,
        Token::Minus => TokenModel::Minus,
        Token::Star => TokenModel::Star,
        Token::Slash => TokenModel::Slash,
        Token::Amp => TokenModel::Amp,
        Token::Pipe => TokenModel::Pipe,
        Token::AmpAmp => TokenModel::AmpAmp,
        Token::PipePipe => TokenModel::PipePipe,
        Token::Lt => TokenModel::Lt,
        Token::Le => TokenModel::Le,
        Token::Gt => TokenModel::Gt,
        Token::Ge => TokenModel::Ge,
        Token::EqEq => TokenModel::EqEq,
        Token::Bang => TokenModel::Bang,
        Token::Unknown(text) => TokenModel::Unknown(text@),
    }
}

/// The model of a token sequence.
pub open spec fn tokens_model(ts: Seq<Token>) -> Seq<TokenModel> {
    ts.map_values(|t: Token| token_model(t))
}

impl Clone for Token {
    fn clone(&self) -> (res: Self)
        ensures
            res == *self,
    {
        match self {
            Token::IntLit(i) => Token::IntLit(*i),
            Token::TrueLit => Token::TrueLit,
            Token::FalseLit => Token::FalseLit,
            Token::Ident(name) => Token::Ident(name.clone()),
            Token::If => Token::If,
            Token::Then => Token::Then,
            Token::Else => Token::Else,
            Token::Func => Token::Func,
            Token::Apply => Token::Apply,
            Token::Arrow => Token::Arrow,
            Token::LParen => Token::LParen,
            Token::RParen => Token::RParen,
            Token::Comma => Token::Comma,
            Token::Plus => Token::Plus,
            Token::Minus => Token::Minus,
            Token::Star => Token::Star,
            Token::Slash => Token::Slash,
            Token::Amp => Token::Amp,
            Token::Pipe => Token::Pipe,
            Token::AmpAmp => Token::AmpAmp,
            Token::PipePipe => Token::PipePipe,
            Token::Lt => Token::Lt,
            Token::Le => Token::Le,
            Token::Gt => Token::Gt,
            Token::Ge => Token::Ge,
            Token::EqEq => Token::EqEq,
            Token::Bang => Token::Bang,
            Token::Unknown(text) => Token::Unknown(text.clone()),
        }
    }
}

/// What the parser was looking for when it stopped.
#[derive(Debug, Clone, Copy, PartialEq, Eq)]
pub enum Expected {
    /// The start of an expression (a literal, an identifier, `!`, `(` or a
    /// keyword form).
    Expression,
    /// A closing parenthesis.
    ClosingParen,
    /// An opening parenthesis.
    OpeningParen,
    /// The comma between the two operands of `apply`.
    CommaSep,
    /// A parameter name after `func`.
    ParamName,
    /// The `=>` of a function form.
    ArrowSep,
    /// The `then` keyword of a conditional.
    ThenKeyword,
    /// The `else` keyword of a conditional.
    ElseKeyword,
    /// The end of the input after a complete expression.
    EndOfInput,
    /// Less deeply nested input: the parser's recursion guard tripped.
    ShallowerNesting,
}

/// A parse failure: the token index at which parsing stopped, the offending
/// token (`None` at the end of the input), and what was expected there.
#[derive(Debug, PartialEq, Eq)]
pub struct ParseError {
    pub position: usize,
    pub found: Option<Token>,
    pub expected: Expected,
}

/// Ghost model of a `ParseError`.
pub struct ParseErrorModel {
    pub position: nat,
    pub found: Option<TokenModel>,
    pub expected: Expected,
}

pub open spec fn opt_token_model(o: Option<Token>) -> Option<TokenModel> {
    match o {
        None => None,
        Some(t) => Some(token_model(t)),
    }
}

pub open spec fn parse_error_model(e: ParseError) -> ParseErrorModel {
    ParseErrorModel {
        position: e.position as nat,
        found: opt_token_model(e.found),
        expected: e.expected,
    }
}

pub open spec fn is_space_char(c: char) -> bool {
    c == ' ' || c == '\t' || c == '\n' || c == '\r'
}

pub open spec fn is_punct_char(c: char) -> bool {
    c == '(' || c == ')' || c == ','
}

/// A character that continues a whitespace-delimited word: anything that is
/// neither whitespace nor one of the stand-alone punctuation characters.
pub open spec fn is_word_char(c: char) -> bool {
    !is_space_char(c) && !is_punct_char(c)
}

pub open spec fn is_digit_char(c: char) -> bool {
    '0' <= c && c <= '9'
}

pub open spec fn is_letter_char(c: char) -> bool {
    ('a' <= c && c <= 'z') || ('A' <= c && c <= 'Z')
}

/// A character that may continue an identifier.
pub open spec fn is_ident_char(c: char) -> bool {
    is_letter_char(c) || is_digit_char(c) || c == '_'
}

pub open spec fn digit_val(c: char) -> nat {
    ((c as int) - ('0' as int)) as nat
}

/// The value of a run of decimal digits.
pub open spec fn digits_val(w: Seq<char>) -> nat
    decreases w.len(),
{
    if w.len() == 0 {
        0
    } else {
        digits_val(w.drop_last()) * 10 + digit_val(w.last())
    }
}

/// A non-empty run of decimal digits.
pub open spec fn is_int_lit(w: Seq<char>) -> bool {
    w.len() > 0 && forall|k: int| 0 <= k < w.len() ==> is_digit_char(w[k])
}

/// A letter followed by letters, digits and underscores.
pub open spec fn is_ident(w: Seq<char>) -> bool {
    w.len() > 0 && is_letter_char(w[0]) && forall|k: int| 0 <= k < w.len() ==> is_ident_char(w[k])
}

/// Classify one whitespace-delimited word as a token. Keywords and operator
/// spellings come first; `T` and `F` are the boolean literals; then integer
/// literals (a literal that does not fit in `i64` matches no token form)
/// and identifiers; every other word is unknown.
pub open spec fn classify(w: Seq<char>) -> TokenModel {
    if w == "if"@ {
        TokenModel::If
    } else if w == "then"@ {
        TokenModel::Then
    } else if w == "else"@ {
        TokenModel::Else
    } else if w == "func"@ {
        TokenModel::Func
    } else if w == "apply"@ {
        TokenModel::Apply
    } else if w == "=>"@ {
        TokenModel::Arrow
    } else if w == "T"@ {
        TokenModel::TrueLit
    } else if w == "F"@ {
        TokenModel::FalseLit
    } else if w == "+"@ {
        TokenModel::Plus
    } else if w == "-"@ {
        TokenModel::Minus
    } else if w == "*"@ {
        TokenModel::Star
    } else if w == "/"@ {
        TokenModel::Slash
    } else if w == "&&"@ {
        TokenModel::AmpAmp
    } else if w == "||"@ {
        TokenModel::PipePipe
    } else if w == "&"@ {
        TokenModel::Amp
    } else if w == "|"@ {
        TokenModel::Pipe
    } else if w == "<="@ {
        TokenModel::Le
    } else if w == "<"@ {
        TokenModel::Lt
    } else if w == ">="@ {
        TokenModel::Ge
    } else if w == ">"@ {
        TokenModel::Gt
    } else if w == "=="@ {
        TokenModel::EqEq
    } else if w == "!"@ {
        TokenModel::Bang
    } else if is_int_lit(w) {
        if digits_val(w) <= i64::MAX as nat {
            TokenModel::IntLit(digits_val(w) as i64)
        } else {
            TokenModel::Unknown(w)
        }
    } else if is_ident(w) {
        TokenModel::Ident(w)
    } else {
        TokenModel::Unknown(w)
    }
}

/// The index at which the word starting at `i` ends: the first index at or
/// after `i` holding whitespace or punctuation, or the end of the input.
pub open spec fn word_end(s: Seq<char>, i: nat) -> nat
    decreases s.len() - i,
{
    if i >= s.len() || !is_word_char(s[i as int]) {
        i
    } else {
        word_end(s, i + 1)
    }
}

pub proof fn lemma_word_end_bounds(s: Seq<char>, i: nat)
    requires
        i <= s.len(),
    ensures
        i <= word_end(s, i) <= s.len(),
    decreases s.len() - i,
{
    if !(i >= s.len() || !is_word_char(s[i as int])) {
        lemma_word_end_bounds(s, i + 1);
    }
}

/// The word end is where the scan stops: every character before it is a
/// word character and the character at it, if any, is not.
pub proof fn lemma_word_end_is_boundary(s: Seq<char>, i: nat, j: nat)
    requires
        i <= j <= s.len(),
        forall|k: int| i <= k < j ==> is_word_char(s[k]),
        j == s.len() || !is_word_char(s[j as int]),
    ensures
        word_end(s, i) == j,
    decreases s.len() - i,
{
    if i < j {
        lemma_word_end_is_boundary(s, i + 1, j);
    }
}

/// The tokens of the source text from character index `i` on.
pub open spec fn lex_from(s: Seq<char>, i: nat) -> Seq<TokenModel>
    decreases s.len() - i,
    when i <= s.len()
    via lex_from_decreases
{
    if i >= s.len() {
        Seq::empty()
    } else if is_space_char(s[i as int]) {
        lex_from(s, i + 1)
    } else if s[i as int] == '(' {
        seq![TokenModel::LParen] + lex_from(s, i + 1)
    } else if s[i as int] == ')' {
        seq![TokenModel::RParen] + lex_from(s, i + 1)
    } else if s[i as int] == ',' {
        seq![TokenModel::Comma] + lex_from(s, i + 1)
    } else {
        let j = word_end(s, i);
        seq![classify(s.subrange(i as int, j as int))] + lex_from(s, j)
    }
}

#[via_fn]
proof fn lex_from_decreases(s: Seq<char>, i: nat) {
    if i < s.len() && is_word_char(s[i as int]) {
        lemma_word_end_bounds(s, i);
        assert(word_end(s, i) == word_end(s, i + 1));
        lemma_word_end_bounds(s, i + 1);
    }
}

/// The token model of the whole source text.
pub open spec fn lex_spec(s: Seq<char>) -> Seq<TokenModel> {
    lex_from(s, 0)
}

fn is_space_char_x(c: char) -> (r: bool)
    ensures
        r == is_space_char(c),
{
    c == ' ' || c == '\t' || c == '\n' || c == '\r'
}

fn is_word_char_x(c: char) -> (r: bool)
    ensures
        r == is_word_char(c),
{
    !(c == ' ' || c == '\t' || c == '\n' || c == '\r' || c == '(' || c == ')' || c == ',')
}

fn is_digit_char_x(c: char) -> (r: bool)
    ensures
        r == is_digit_char(c),
{
    c as u32 >= '0' as u32 && c as u32 <= '9' as u32
}

fn is_letter_char_x(c: char) -> (r: bool)
    ensures
        r == is_letter_char(c),
{
    (c as u32 >= 'a' as u32 && c as u32 <= 'z' as u32) || (c as u32 >= 'A' as u32 && c as u32
        <= 'Z' as u32)
}

fn is_ident_char_x(c: char) -> (r: bool)
    ensures
        r == is_ident_char(c),
{
    is_letter_char_x(c) || is_digit_char_x(c) || c == '_'
}

/// Character-for-character equality of two string slices.
fn str_eq(a: &str, b: &str) -> (r: bool)
    ensures
        r == (a@ == b@),
{
    let an = a.unicode_len();
    let bn = b.unicode_len();
    if an != bn {
        proof {
            assert(a@ != b@);
        }
        return false;
    }
    let mut i: usize = 0;
    while i < an
        invariant
            i <= an,
            an == a@.len(),
            an == b@.len(),
            forall|k: int| 0 <= k < i ==> a@[k] == b@[k],
        decreases an - i,
    {
        if a.get_char(i) != b.get_char(i) {
            proof {
                assert(a@ != b@);
            }
            return false;
        }
        i += 1;
    }
    proof {
        assert(a@ =~= b@);
    }
    true
}

/// Once the accumulated digits exceed `i64::MAX`, every extension of the
/// run still exceeds it.
proof fn lemma_digits_val_grows(w: Seq<char>, i: int)
    requires
        0 <= i <= w.len(),
    ensures
        digits_val(w) >= digits_val(w.subrange(0, i)),
    decreases w.len() - i,
{
    if i < w.len() {
        assert(w.subrange(0, i + 1).drop_last() =~= w.subrange(0, i));
        assert(digits_val(w.subrange(0, i + 1)) == digits_val(w.subrange(0, i)) * 10 + digit_val(
            w.subrange(0, i + 1).last(),
        ));
        assert(digits_val(w.subrange(0, i)) * 10 >= digits_val(w.subrange(0, i))) by (nonlinear_arith);
        lemma_digits_val_grows(w, i + 1);
    } else {
        assert(w.subrange(0, i) =~= w);
    }
}

/// Read the value of a digit run, reporting whether it exceeds `i64::MAX`.
fn digits_to_int(w: &str) -> (r: Option<i64>)
    requires
        is_int_lit(w@),
    ensures
        match r {
            Some(v) => digits_val(w@) <= i64::MAX as nat && v == digits_val(w@) as i64,
            None => digits_val(w@) > i64::MAX as nat,
        },
{
    let n = w.unicode_len();
    let mut v: u64 = 0;
    let mut i: usize = 0;
    while i < n
        invariant
            is_int_lit(w@),
            i <= n,
            n == w@.len(),
            v as nat == digits_val(w@.subrange(0, i as int)),
            v <= i64::MAX as u64,
        decreases n - i,
    {
        let c = w.get_char(i);
        let d: u64 = (c as u32 as u64) - ('0' as u32 as u64);
        proof {
            assert(is_digit_char(w@[i as int]));
            assert(d == digit_val(w@[i as int]));
        }
        if v > (i64::MAX as u64 - d) / 10 {
            proof {
                let pre = w@.subrange(0, i as int + 1);
                assert(pre.drop_last() =~= w@.subrange(0, i as int));
                assert(digits_val(pre) == (v as nat) * 10 + d);
                assert((v as nat) * 10 + d > i64::MAX as nat) by (nonlinear_arith)
                    requires
                        v > (i64::MAX as u64 - d) / 10,
                        d <= 9,
                        v <= i64::MAX as u64,
                ;
                lemma_digits_val_grows(w@, i as int + 1);
            }
            return None;
        }
        proof {
            let pre = w@.subrange(0, i as int + 1);
            assert(pre.drop_last() =~= w@.subrange(0, i as int));
            assert((v as nat) * 10 + d <= i64::MAX as nat) by (nonlinear_arith)
                requires
                    v <= (i64::MAX as u64 - d) / 10,
                    d <= 9,
            ;
        }
        v = v * 10 + d;
        i += 1;
    }
    proof {
        assert(w@.subrange(0, n as int) =~= w@);
    }
    Some(v as i64)
}

/// Classify one whitespace-delimited word.
fn classify_x(w: &str) -> (t: Token)
    ensures
        token_model(t) == classify(w@),
{
    if str_eq(w, "if") {
        Token::If
    } else if str_eq(w, "then") {
        Token::Then
    } else if str_eq(w, "else") {
        Token::Else
    } else if str_eq(w, "func") {
        Token::Func
    } else if str_eq(w, "apply") {
        Token::Apply
    } else if str_eq(w, "=>") {
        Token::Arrow
    } else if str_eq(w, "T") {
        Token::TrueLit
    } else if str_eq(w, "F") {
        Token::FalseLit
    } else if str_eq(w, "+") {
        Token::Plus
    } else if str_eq(w, "-") {
        Token::Minus
    } else if str_eq(w, "*") {
        Token::Star
    } else if str_eq(w, "/") {
        Token::Slash
    } else if str_eq(w, "&&") {
        Token::AmpAmp
    } else if str_eq(w, "||") {
        Token::PipePipe
    } else if str_eq(w, "&") {
        Token::Amp
    } else if str_eq(w, "|") {
        Token::Pipe
    } else if str_eq(w, "<=") {
        Token::Le
    } else if str_eq(w, "<") {
        Token::Lt
    } else if str_eq(w, ">=") {
        Token::Ge
    } else if str_eq(w, ">") {
        Token::Gt
    } else if str_eq(w, "==") {
        Token::EqEq
    } else if str_eq(w, "!") {
        Token::Bang
    } else {
        let n = w.unicode_len();
        let mut all_digits = n > 0;
        let mut i: usize = 0;
        while i < n
            invariant
                i <= n,
                n == w@.len(),
                all_digits == (n > 0 && forall|k: int| 0 <= k < i ==> is_digit_char(w@[k])),
            decreases n - i,
        {
            if !is_digit_char_x(w.get_char(i)) {
                all_digits = false;
            }
            i += 1;
        }
        if all_digits {
            proof {
                assert(is_int_lit(w@));
            }
            match digits_to_int(w) {
                Some(v) => Token::IntLit(v),
                None => Token::Unknown(w.to_owned()),
            }
        } else {
            let mut ident_ok = n > 0 && is_letter_char_x(w.get_char(0));
            let mut j: usize = 0;
            while j < n
                invariant
                    j <= n,
                    n == w@.len(),
                    ident_ok == (n > 0 && is_letter_char(w@[0]) && forall|k: int|
                        0 <= k < j ==> is_ident_char(w@[k])),
                decreases n - j,
            {
                if !is_ident_char_x(w.get_char(j)) {
                    ident_ok = false;
                }
                j += 1;
            }
            if ident_ok {
                proof {
                    assert(is_ident(w@));
                }
                Token::Ident(w.to_owned())
            } else {
                proof {
                    assert(!is_int_lit(w@));
                    assert(!is_ident(w@));
                }
                Token::Unknown(w.to_owned())
            }
        }
    }
}

/// Split the source text into tokens.
fn tokenize(src: &str) -> (toks: Vec<Token>)
    ensures
        tokens_model(toks@) == lex_spec(src@),
{
    let n = src.unicode_len();
    let mut toks: Vec<Token> = Vec::new();
    let mut i: usize = 0;
    proof {
        assert(tokens_model(toks@) =~= Seq::<TokenModel>::empty());
    }
    while i < n
        invariant
            i <= n,
            n == src@.len(),
            tokens_model(toks@) + lex_from(src@, i as nat) == lex_spec(src@),
        decreases n - i,
    {
        let ghost prev = toks@;
        let c = src.get_char(i);
        if is_space_char_x(c) {
            i += 1;
        } else if c == '(' {
            toks.push(Token::LParen);
            proof {
                assert(tokens_model(toks@) =~= tokens_model(prev) + seq![TokenModel::LParen]);
                assert(tokens_model(toks@) + lex_from(src@, i as nat + 1) =~= tokens_model(prev)
                    + lex_from(src@, i as nat));
            }
            i += 1;
        } else if c == ')' {
            toks.push(Token::RParen);
            proof {
                assert(tokens_model(toks@) =~= tokens_model(prev) + seq![TokenModel::RParen]);
                assert(tokens_model(toks@) + lex_from(src@, i as nat + 1) =~= tokens_model(prev)
                    + lex_from(src@, i as nat));
            }
            i += 1;
        } else if c == ',' {
            toks.push(Token::Comma);
            proof {
                assert(tokens_model(toks@) =~= tokens_model(prev) + seq![TokenModel::Comma]);
                assert(tokens_model(toks@) + lex_from(src@, i as nat + 1) =~= tokens_model(prev)
                    + lex_from(src@, i as nat));
            }
            i += 1;
        } else {
            let mut j: usize = i + 1;
            while j < n && is_word_char_x(src.get_char(j))
                invariant
                    i < j <= n,
                    n == src@.len(),
                    forall|k: int| i <= k < j ==> is_word_char(src@[k]),
                decreases n - j,
            {
                j += 1;
            }
            proof {
                lemma_word_end_is_boundary(src@, i as nat, j as nat);
            }
            let word = src.substring_char(i, j);
            let t = classify_x(word);
            toks.push(t);
            proof {
                assert(word@ =~= src@.subrange(i as int, j as int));
                assert(tokens_model(toks@) =~= tokens_model(prev) + seq![token_model(t)]);
                assert(tokens_model(toks@) + lex_from(src@, j as nat) =~= tokens_model(prev)
                    + lex_from(src@, i as nat));
            }
            i = j;
        }
    }
    toks
}

/// The token at `pos`, or `None` at the end of the input.
pub open spec fn peek(toks: Seq<TokenModel>, pos: nat) -> Option<TokenModel> {
    if pos < toks.len() {
        Some(toks[pos as int])
    } else {
        None
    }
}

/// The failure reported when the parser's recursion guard trips.
pub open spec fn guard_error(toks: Seq<TokenModel>, pos: nat) -> ParseErrorModel {
    ParseErrorModel { position: pos, found: peek(toks, pos), expected: Expected::ShallowerNesting }
}

/// One parsing step of the grammar: the expression built and the position
/// after it, or a failure.
pub open spec fn p_expr(toks: Seq<TokenModel>, pos: nat, fuel: nat) -> Result<
    (ExprModel, nat),
    ParseErrorModel,
>
    decreases fuel, 0int,
{
    if fuel == 0 {
        Err(guard_error(toks, pos))
    } else {
        let f = (fuel - 1) as nat;
        match peek(toks, pos) {
            Some(TokenModel::If) => match p_expr(toks, pos + 1, f) {
                Ok((c, p1)) => match peek(toks, p1) {
                    Some(TokenModel::Then) => match p_expr(toks, p1 + 1, f) {
                        Ok((t, p2)) => match peek(toks, p2) {
                            Some(TokenModel::Else) => match p_expr(toks, p2 + 1, f) {
                                Ok((e, p3)) => Ok(
                                    (
                                        ExprModel::If {
                                            cond: Box::new(c),
                                            then_branch: Box::new(t),
                                            else_branch: Box::new(e),
                                        },
                                        p3,
                                    ),
                                ),
                                Err(er) => Err(er),
                            },
                            _ => Err(ParseErrorModel {
                                position: p2,
                                found: peek(toks, p2),
                                expected: Expected::ElseKeyword,
                            }),
                        },
                        Err(er) => Err(er),
                    },
                    _ => Err(ParseErrorModel {
                        position: p1,
                        found: peek(toks, p1),
                        expected: Expected::ThenKeyword,
                    }),
                },
                Err(er) => Err(er),
            },
            Some(TokenModel::Func) => match peek(toks, pos + 1) {
                Some(TokenModel::Ident(name)) => match peek(toks, pos + 2) {
                    Some(TokenModel::Arrow) => match p_expr(toks, pos + 3, f) {
                        Ok((b, p1)) => Ok(
                            (ExprModel::Func { param: name, body: Box::new(b) }, p1),
                        ),
                        Err(er) => Err(er),
                    },
                    _ => Err(ParseErrorModel {
                        position: pos + 2,
                        found: peek(toks, pos + 2),
                        expected: Expected::ArrowSep,
                    }),
                },
                _ => Err(ParseErrorModel {
                    position: pos + 1,
                    found: peek(toks, pos + 1),
                    expected: Expected::ParamName,
                }),
            },
            Some(TokenModel::Apply) => match peek(toks, pos + 1) {
                Some(TokenModel::LParen) => match p_expr(toks, pos + 2, f) {
                    Ok((fe, p1)) => match peek(toks, p1) {
                        Some(TokenModel::Comma) => match p_expr(toks, p1 + 1, f) {
                            Ok((ae, p2)) => match peek(toks, p2) {
                                Some(TokenModel::RParen) => Ok(
                                    (
                                        ExprModel::Apply {
                                            func: Box::new(fe),
                                            arg: Box::new(ae),
                                        },
                                        p2 + 1,
                                    ),
                                ),
                                _ => Err(ParseErrorModel {
                                    position: p2,
                                    found: peek(toks, p2),
                                    expected: Expected::ClosingParen,
                                }),
                            },
                            Err(er) => Err(er),
                        },
                        _ => Err(ParseErrorModel {
                            position: p1,
                            found: peek(toks, p1),
                            expected: Expected::CommaSep,
                        }),
                    },
                    Err(er) => Err(er),
                },
                _ => Err(ParseErrorModel {
                    position: pos + 1,
                    found: peek(toks, pos + 1),
                    expected: Expected::OpeningParen,
                }),
            },
            _ => p_or(toks, pos, f),
        }
    }
}

pub open spec fn p_or(toks: Seq<TokenModel>, pos: nat, fuel: nat) -> Result<
    (ExprModel, nat),
    ParseErrorModel,
>
    decreases fuel, 0int,
{
    if fuel == 0 {
        Err(guard_error(toks, pos))
    } else {
        let f = (fuel - 1) as nat;
        match p_and(toks, pos, f) {
            Ok((l, p)) => match peek(toks, p) {
                Some(TokenModel::Pipe) => match p_or(toks, p + 1, f) {
                    Ok((r, p2)) => Ok(
                        (
                            ExprModel::BinOp {
                                left: Box::new(l),
                                right: Box::new(r),
                                op: BinaryOp::BitOr,
                            },
                            p2,
                        ),
                    ),
                    Err(er) => Err(er),
                },
                Some(TokenModel::PipePipe) => match p_or(toks, p + 1, f) {
                    Ok((r, p2)) => Ok(
                        (
                            ExprModel::BinOp {
                                left: Box::new(l),
                                right: Box::new(r),
                                op: BinaryOp::Or,
                            },
                            p2,
                        ),
                    ),
                    Err(er) => Err(er),
                },
                _ => Ok((l, p)),
            },
            Err(er) => Err(er),
        }
    }
}

pub open spec fn p_and(toks: Seq<TokenModel>, pos: nat, fuel: nat) -> Result<
    (ExprModel, nat),
    ParseErrorModel,
>
    decreases fuel, 0int,
{
    if fuel == 0 {
        Err(guard_error(toks, pos))
    } else {
        let f = (fuel - 1) as nat;
        match p_cmp(toks, pos, f) {
            Ok((l, p)) => match peek(toks, p) {
                Some(TokenModel::Amp) => match p_and(toks, p + 1, f) {
                    Ok((r, p2)) => Ok(
                        (
                            ExprModel::BinOp {
                                left: Box::new(l),
                                right: Box::new(r),
                                op: BinaryOp::BitAnd,
                            },
                            p2,
                        ),
                    ),
                    Err(er) => Err(er),
                },
                Some(TokenModel::AmpAmp) => match p_and(toks, p + 1, f) {
                    Ok((r, p2)) => Ok(
                        (
                            ExprModel::BinOp {
                                left: Box::new(l),
                                right: Box::new(r),
                                op: BinaryOp::And,
                            },
                            p2,
                        ),
                    ),
                    Err(er) => Err(er),
                },
                _ => Ok((l, p)),
            },
            Err(er) => Err(er),
        }
    }
}

pub open spec fn p_cmp(toks: Seq<TokenModel>, pos: nat, fuel: nat) -> Result<
    (ExprModel, nat),
    ParseErrorModel,
>
    decreases fuel, 0int,
{
    if fuel == 0 {
        Err(guard_error(toks, pos))
    } else {
        let f = (fuel - 1) as nat;
        match p_add(toks, pos, f) {
            Ok((l, p)) => match peek(toks, p) {
                Some(TokenModel::Lt) => match p_cmp(toks, p + 1, f) {
                    Ok((r, p2)) => Ok(
                        (
                            ExprModel::BinOp {
                                left: Box::new(l),
                                right: Box::new(r),
                                op: BinaryOp::Lt,
                            },
                            p2,
                        ),
                    ),
                    Err(er) => Err(er),
                },
                Some(TokenModel::Le) => match p_cmp(toks, p + 1, f) {
                    Ok((r, p2)) => Ok(
                        (
                            ExprModel::BinOp {
                                left: Box::new(l),
                                right: Box::new(r),
                                op: BinaryOp::Le,
                            },
                            p2,
                        ),
                    ),
                    Err(er) => Err(er),
                },
                Some(TokenModel::Gt) => match p_cmp(toks, p + 1, f) {
                    Ok((r, p2)) => Ok(
                        (
                            ExprModel::BinOp {
                                left: Box::new(l),
                                right: Box::new(r),
                                op: BinaryOp::Gt,
                            },
                            p2,
                        ),
                    ),
                    Err(er) => Err(er),
                },
                Some(TokenModel::Ge) => match p_cmp(toks, p + 1, f) {
                    Ok((r, p2)) => Ok(
                        (
                            ExprModel::BinOp {
                                left: Box::new(l),
                                right: Box::new(r),
                                op: BinaryOp::Ge,
                            },
                            p2,
                        ),
                    ),
                    Err(er) => Err(er),
                },
                Some(TokenModel::EqEq) => match p_cmp(toks, p + 1, f) {
                    Ok((r, p2)) => Ok(
                        (
                            ExprModel::BinOp {
                                left: Box::new(l),
                                right: Box::new(r),
                                op: BinaryOp::Eq,
                            },
                            p2,
                        ),
                    ),
                    Err(er) => Err(er),
                },
                _ => Ok((l, p)),
            },
            Err(er) => Err(er),
        }
    }
}

pub open spec fn p_add(toks: Seq<TokenModel>, pos: nat, fuel: nat) -> Result<
    (ExprModel, nat),
    ParseErrorModel,
>
    decreases fuel, 0int,
{
    if fuel == 0 {
        Err(guard_error(toks, pos))
    } else {
        let f = (fuel - 1) as nat;
        match p_mul(toks, pos, f) {
            Ok((l, p)) => match peek(toks, p) {
                Some(TokenModel::Plus) => match p_add(toks, p + 1, f) {
                    Ok((r, p2)) => Ok(
                        (
                            ExprModel::BinOp {
                                left: Box::new(l),
                                right: Box::new(r),
                                op: BinaryOp::Add,
                            },
                            p2,
                        ),
                    ),
                    Err(er) => Err(er),
                },
                Some(TokenModel::Minus) => match p_add(toks, p + 1, f) {
                    Ok((r, p2)) => Ok(
                        (
                            ExprModel::BinOp {
                                left: Box::new(l),
                                right: Box::new(r),
                                op: BinaryOp::Sub,
                            },
                            p2,
                        ),
                    ),
                    Err(er) => Err(er),
                },
                _ => Ok((l, p)),
            },
            Err(er) => Err(er),
        }
    }
}

pub open spec fn p_mul(toks: Seq<TokenModel>, pos: nat, fuel: nat) -> Result<
    (ExprModel, nat),
    ParseErrorModel,
>
    decreases fuel, 0int,
{
    if fuel == 0 {
        Err(guard_error(toks, pos))
    } else {
        let f = (fuel - 1) as nat;
        match p_unary(toks, pos, f) {
            Ok((l, p)) => match peek(toks, p) {
                Some(TokenModel::Star) => match p_mul(toks, p + 1, f) {
                    Ok((r, p2)) => Ok(
                        (
                            ExprModel::BinOp {
                                left: Box::new(l),
                                right: Box::new(r),
                                op: BinaryOp::Mul,
                            },
                            p2,
                        ),
                    ),
                    Err(er) => Err(er),
                },
                Some(TokenModel::Slash) => match p_mul(toks, p + 1, f) {
                    Ok((r, p2)) => Ok(
                        (
                            ExprModel::BinOp {
                                left: Box::new(l),
                                right: Box::new(r),
                                op: BinaryOp::Div,
                            },
                            p2,
                        ),
                    ),
                    Err(er) => Err(er),
                },
                _ => Ok((l, p)),
            },
            Err(er) => Err(er),
        }
    }
}

pub open spec fn p_unary(toks: Seq<TokenModel>, pos: nat, fuel: nat) -> Result<
    (ExprModel, nat),
    ParseErrorModel,
>
    decreases fuel, 0int,
{
    if fuel == 0 {
        Err(guard_error(toks, pos))
    } else {
        let f = (fuel - 1) as nat;
        match peek(toks, pos) {
            Some(TokenModel::Bang) => match p_unary(toks, pos + 1, f) {
                Ok((e, p)) => Ok(
                    (ExprModel::UnaryOp { val: Box::new(e), op: UnaryOp::Not }, p),
                ),
                Err(er) => Err(er),
            },
            _ => p_atom(toks, pos, f),
        }
    }
}

/// The leaf expression a single token stands for, if any.
pub open spec fn atom_leaf(t: TokenModel) -> Option<ExprModel> {
    match t {
        TokenModel::IntLit(i) => Some(ExprModel::Leaf(ValueModel::Int(i))),
        TokenModel::TrueLit => Some(ExprModel::Leaf(ValueModel::Bool(true))),
        TokenModel::FalseLit => Some(ExprModel::Leaf(ValueModel::Bool(false))),
        TokenModel::Ident(name) => Some(ExprModel::Leaf(ValueModel::Var(name))),
        _ => None,
    }
}

/// Close a parenthesised group: the parsed inner expression must be
/// followed by the closing parenthesis.
pub open spec fn p_close(toks: Seq<TokenModel>, sub: Result<(ExprModel, nat), ParseErrorModel>) -> Result<
    (ExprModel, nat),
    ParseErrorModel,
> {
    match sub {
        Ok((e, p)) => if peek(toks, p) == Some(TokenModel::RParen) {
            Ok((e, p + 1))
        } else {
            Err(ParseErrorModel {
                position: p,
                found: peek(toks, p),
                expected: Expected::ClosingParen,
            })
        },
        Err(er) => Err(er),
    }
}

/// A parenthesised group at `pos`: the expression parsed after the opening
/// parenthesis, closed by the matching parenthesis.
#[verifier::opaque]
pub open spec fn p_group(toks: Seq<TokenModel>, pos: nat, fuel: nat) -> Result<
    (ExprModel, nat),
    ParseErrorModel,
> {
    p_close(toks, p_expr(toks, pos + 1, fuel))
}

pub open spec fn p_atom(toks: Seq<TokenModel>, pos: nat, fuel: nat) -> Result<
    (ExprModel, nat),
    ParseErrorModel,
>
    decreases fuel, 0int,
{
    if fuel == 0 {
        Err(guard_error(toks, pos))
    } else {
        let f = (fuel - 1) as nat;
        match peek(toks, pos) {
            None => Err(ParseErrorModel {
                position: pos,
                found: None,
                expected: Expected::Expression,
            }),
            Some(t) => if t == TokenModel::LParen {
                p_close(toks, p_expr(toks, pos + 1, f))
            } else {
                match atom_leaf(t) {
                    Some(e) => Ok((e, pos + 1)),
                    None => Err(ParseErrorModel {
                        position: pos,
                        found: Some(t),
                        expected: Expected::Expression,
                    }),
                }
            },
        }
    }
}

/// The recursion budget the parser starts with: generously more than one
/// unit per token and grammar level, capped at `usize::MAX`.
pub open spec fn parse_fuel(n: nat) -> nat {
    if 16 * n > usize::MAX as nat {
        usize::MAX as nat
    } else if 16 * n + 16 > usize::MAX as nat {
        usize::MAX as nat
    } else {
        16 * n + 16
    }
}

/// Parse a whole token sequence: one expression covering every token.
pub open spec fn parse_tokens_spec(toks: Seq<TokenModel>) -> Result<ExprModel, ParseErrorModel> {
    match p_expr(toks, 0, parse_fuel(toks.len())) {
        Ok((e, p)) => if p == toks.len() {
            Ok(e)
        } else {
            Err(ParseErrorModel {
                position: p,
                found: peek(toks, p),
                expected: Expected::EndOfInput,
            })
        },
        Err(er) => Err(er),
    }
}

/// Parse whole source text: tokenize, then parse every token.
pub open spec fn parse_spec(s: Seq<char>) -> Result<ExprModel, ParseErrorModel> {
    parse_tokens_spec(lex_spec(s))
}

/// Ghost model of one parsing step's outcome.
pub open spec fn step_model(r: Result<(Expr, usize), ParseError>) -> Result<
    (ExprModel, nat),
    ParseErrorModel,
> {
    match r {
        Ok((e, p)) => Ok((expr_model(e), p as nat)),
        Err(er) => Err(parse_error_model(er)),
    }
}

/// Ghost model of a whole parse's outcome.
pub open spec fn parse_result_model(r: Result<Expr, ParseError>) -> Result<
    ExprModel,
    ParseErrorModel,
> {
    match r {
        Ok(e) => Ok(expr_model(e)),
        Err(er) => Err(parse_error_model(er)),
    }
}


/// `p_unary` at a `!` token wraps the operand that follows.
proof fn lemma_p_unary_bang(tm: Seq<TokenModel>, pos: nat, fuel: nat)
    requires
        fuel >= 1,
        peek(tm, pos) == Some(TokenModel::Bang),
    ensures
        p_unary(tm, pos, fuel) == (match p_unary(tm, pos + 1, (fuel - 1) as nat) {
            Ok((e, p)) => Ok::<(ExprModel, nat), ParseErrorModel>(
                (ExprModel::UnaryOp { val: Box::new(e), op: UnaryOp::Not }, p),
            ),
            Err(er) => Err(er),
        }),
{
}

/// An atom that starts with an opening parenthesis is a parenthesised
/// group around the expression that follows.
proof fn lemma_p_atom_group(tm: Seq<TokenModel>, pos: nat, fuel: nat)
    requires
        fuel >= 1,
        peek(tm, pos) == Some(TokenModel::LParen),
    ensures
        p_atom(tm, pos, fuel) == p_group(tm, pos, (fuel - 1) as nat),
{
    reveal(p_group);
}

/// An atom at any token other than an opening parenthesis is a leaf, or an
/// offending token.
proof fn lemma_p_atom_leaf(tm: Seq<TokenModel>, t: TokenModel, pos: nat, fuel: nat)
    requires
        fuel >= 1,
        peek(tm, pos) == Some(t),
        t != TokenModel::LParen,
    ensures
        p_atom(tm, pos, fuel) == (match atom_leaf(t) {
            Some(e) => Ok::<(ExprModel, nat), ParseErrorModel>((e, pos + 1)),
            None => Err(ParseErrorModel {
                position: pos,
                found: Some(t),
                expected: Expected::Expression,
            }),
        }),
{
}

/// An atom at the end of the input is a failure.
proof fn lemma_p_atom_end(tm: Seq<TokenModel>, pos: nat, fuel: nat)
    requires
        fuel >= 1,
        peek(tm, pos) is None,
    ensures
        p_atom(tm, pos, fuel) == Err::<(ExprModel, nat), ParseErrorModel>(ParseErrorModel {
            position: pos,
            found: None,
            expected: Expected::Expression,
        }),
{
}

/// The token at `pos`, by reference.
fn peek_x<'a>(toks: &'a Vec<Token>, pos: usize) -> (r: Option<&'a Token>)
    ensures
        match r {
            None => peek(tokens_model(toks@), pos as nat) is None,
            Some(t) => peek(tokens_model(toks@), pos as nat) == Some(token_model(*t)) && pos
                < toks@.len() && toks@.len() <= usize::MAX,
        },
{
    if pos < toks.len() {
        Some(&toks[pos])
    } else {
        None
    }
}

/// The token at `pos`, as an owned value for an error report.
fn peek_clone(toks: &Vec<Token>, pos: usize) -> (r: Option<Token>)
    ensures
        opt_token_model(r) == peek(tokens_model(toks@), pos as nat),
{
    if pos < toks.len() {
        Some(toks[pos].clone())
    } else {
        None
    }
}

fn parse_expr(toks: &Vec<Token>, pos: usize, fuel: usize) -> (r: Result<
    (Expr, usize),
    ParseError,
>)
    ensures
        step_model(r) == p_expr(tokens_model(toks@), pos as nat, fuel as nat),
    decreases fuel, 0int,
{
    if fuel == 0 {
        return Err(ParseError {
            position: pos,
            found: peek_clone(toks, pos),
            expected: Expected::ShallowerNesting,
        });
    }
    let f = fuel - 1;
    match peek_x(toks, pos) {
        Some(Token::If) => match parse_expr(toks, pos + 1, f) {
            Ok((c, p1)) => match peek_x(toks, p1) {
                Some(Token::Then) => match parse_expr(toks, p1 + 1, f) {
                    Ok((t, p2)) => match peek_x(toks, p2) {
                        Some(Token::Else) => match parse_expr(toks, p2 + 1, f) {
                            Ok((e, p3)) => Ok((
                                Expr::If {
                                    cond: Box::new(c),
                                    then_branch: Box::new(t),
                                    else_branch: Box::new(e),
                                },
                                p3,
                            )),
                            Err(er) => Err(er),
                        },
                        _ => Err(ParseError {
                            position: p2,
                            found: peek_clone(toks, p2),
                            expected: Expected::ElseKeyword,
                        }),
                    },
                    Err(er) => Err(er),
                },
                _ => Err(ParseError {
                    position: p1,
                    found: peek_clone(toks, p1),
                    expected: Expected::ThenKeyword,
                }),
            },
            Err(er) => Err(er),
        },
        Some(Token::Func) => match peek_x(toks, pos + 1) {
            Some(Token::Ident(name)) => {
                let param = name.clone();
                match peek_x(toks, pos + 2) {
                    Some(Token::Arrow) => match parse_expr(toks, pos + 3, f) {
                        Ok((b, p1)) => Ok((Expr::Func { param, body: Box::new(b) }, p1)),
                        Err(er) => Err(er),
                    },
                    _ => Err(ParseError {
                        position: pos + 2,
                        found: peek_clone(toks, pos + 2),
                        expected: Expected::ArrowSep,
                    }),
                }
            },
            _ => Err(ParseError {
                position: pos + 1,
                found: peek_clone(toks, pos + 1),
                expected: Expected::ParamName,
            }),
        },
        Some(Token::Apply) => match peek_x(toks, pos + 1) {
            Some(Token::LParen) => match parse_expr(toks, pos + 2, f) {
                Ok((fe, p1)) => match peek_x(toks, p1) {
                    Some(Token::Comma) => match parse_expr(toks, p1 + 1, f) {
                        Ok((ae, p2)) => match peek_x(toks, p2) {
                            Some(Token::RParen) => Ok((
                                Expr::Apply { func: Box::new(fe), arg: Box::new(ae) },
                                p2 + 1,
                            )),
                            _ => Err(ParseError {
                                position: p2,
                                found: peek_clone(toks, p2),
                                expected: Expected::ClosingParen,
                            }),
                        },
                        Err(er) => Err(er),
                    },
                    _ => Err(ParseError {
                        position: p1,
                        found: peek_clone(toks, p1),
                        expected: Expected::CommaSep,
                    }),
                },
                Err(er) => Err(er),
            },
            _ => Err(ParseError {
                position: pos + 1,
                found: peek_clone(toks, pos + 1),
                expected: Expected::OpeningParen,
            }),
        },
        _ => parse_or(toks, pos, f),
    }
}

fn parse_or(toks: &Vec<Token>, pos: usize, fuel: usize) -> (r: Result<(Expr, usize), ParseError>)
    ensures
        step_model(r) == p_or(tokens_model(toks@), pos as nat, fuel as nat),
    decreases fuel, 0int,
{
    if fuel == 0 {
        return Err(ParseError {
            position: pos,
            found: peek_clone(toks, pos),
            expected: Expected::ShallowerNesting,
        });
    }
    let f = fuel - 1;
    match parse_and(toks, pos, f) {
        Ok((l, p)) => match peek_x(toks, p) {
            Some(Token::Pipe) => match parse_or(toks, p + 1, f) {
                Ok((rhs, p2)) => Ok((
                    Expr::BinOp { left: Box::new(l), right: Box::new(rhs), op: BinaryOp::BitOr },
                    p2,
                )),
                Err(er) => Err(er),
            },
            Some(Token::PipePipe) => match parse_or(toks, p + 1, f) {
                Ok((rhs, p2)) => Ok((
                    Expr::BinOp { left: Box::new(l), right: Box::new(rhs), op: BinaryOp::Or },
                    p2,
                )),
                Err(er) => Err(er),
            },
            _ => Ok((l, p)),
        },
        Err(er) => Err(er),
    }
}

fn parse_and(toks: &Vec<Token>, pos: usize, fuel: usize) -> (r: Result<(Expr, usize), ParseError>)
    ensures
        step_model(r) == p_and(tokens_model(toks@), pos as nat, fuel as nat),
    decreases fuel, 0int,
{
    if fuel == 0 {
        return Err(ParseError {
            position: pos,
            found: peek_clone(toks, pos),
            expected: Expected::ShallowerNesting,
        });
    }
    let f = fuel - 1;
    match parse_cmp(toks, pos, f) {
        Ok((l, p)) => match peek_x(toks, p) {
            Some(Token::Amp) => match parse_and(toks, p + 1, f) {
                Ok((rhs, p2)) => Ok((
                    Expr::BinOp { left: Box::new(l), right: Box::new(rhs), op: BinaryOp::BitAnd },
                    p2,
                )),
                Err(er) => Err(er),
            },
            Some(Token::AmpAmp) => match parse_and(toks, p + 1, f) {
                Ok((rhs, p2)) => Ok((
                    Expr::BinOp { left: Box::new(l), right: Box::new(rhs), op: BinaryOp::And },
                    p2,
                )),
                Err(er) => Err(er),
            },
            _ => Ok((l, p)),
        },
        Err(er) => Err(er),
    }
}

fn parse_cmp(toks: &Vec<Token>, pos: usize, fuel: usize) -> (r: Result<(Expr, usize), ParseError>)
    ensures
        step_model(r) == p_cmp(tokens_model(toks@), pos as nat, fuel as nat),
    decreases fuel, 0int,
{
    if fuel == 0 {
        return Err(ParseError {
            position: pos,
            found: peek_clone(toks, pos),
            expected: Expected::ShallowerNesting,
        });
    }
    let f = fuel - 1;
    match parse_add(toks, pos, f) {
        Ok((l, p)) => match peek_x(toks, p) {
            Some(Token::Lt) => match parse_cmp(toks, p + 1, f) {
                Ok((rhs, p2)) => Ok((
                    Expr::BinOp { left: Box::new(l), right: Box::new(rhs), op: BinaryOp::Lt },
                    p2,
                )),
                Err(er) => Err(er),
            },
            Some(Token::Le) => match parse_cmp(toks, p + 1, f) {
                Ok((rhs, p2)) => Ok((
                    Expr::BinOp { left: Box::new(l), right: Box::new(rhs), op: BinaryOp::Le },
                    p2,
                )),
                Err(er) => Err(er),
            },
            Some(Token::Gt) => match parse_cmp(toks, p + 1, f) {
                Ok((rhs, p2)) => Ok((
                    Expr::BinOp { left: Box::new(l), right: Box::new(rhs), op: BinaryOp::Gt },
                    p2,
                )),
                Err(er) => Err(er),
            },
            Some(Token::Ge) => match parse_cmp(toks, p + 1, f) {
                Ok((rhs, p2)) => Ok((
                    Expr::BinOp { left: Box::new(l), right: Box::new(rhs), op: BinaryOp::Ge },
                    p2,
                )),
                Err(er) => Err(er),
            },
            Some(Token::EqEq) => match parse_cmp(toks, p + 1, f) {
                Ok((rhs, p2)) => Ok((
                    Expr::BinOp { left: Box::new(l), right: Box::new(rhs), op: BinaryOp::Eq },
                    p2,
                )),
                Err(er) => Err(er),
            },
            _ => Ok((l, p)),
        },
        Err(er) => Err(er),
    }
}

fn parse_add(toks: &Vec<Token>, pos: usize, fuel: usize) -> (r: Result<(Expr, usize), ParseError>)
    ensures
        step_model(r) == p_add(tokens_model(toks@), pos as nat, fuel as nat),
    decreases fuel, 0int,
{
    if fuel == 0 {
        return Err(ParseError {
            position: pos,
            found: peek_clone(toks, pos),
            expected: Expected::ShallowerNesting,
        });
    }
    let f = fuel - 1;
    match parse_mul(toks, pos, f) {
        Ok((l, p)) => match peek_x(toks, p) {
            Some(Token::Plus) => match parse_add(toks, p + 1, f) {
                Ok((rhs, p2)) => Ok((
                    Expr::BinOp { left: Box::new(l), right: Box::new(rhs), op: BinaryOp::Add },
                    p2,
                )),
                Err(er) => Err(er),
            },
            Some(Token::Minus) => match parse_add(toks, p + 1, f) {
                Ok((rhs, p2)) => Ok((
                    Expr::BinOp { left: Box::new(l), right: Box::new(rhs), op: BinaryOp::Sub },
                    p2,
                )),
                Err(er) => Err(er),
            },
            _ => Ok((l, p)),
        },
        Err(er) => Err(er),
    }
}

fn parse_mul(toks: &Vec<Token>, pos: usize, fuel: usize) -> (r: Result<(Expr, usize), ParseError>)
    ensures
        step_model(r) == p_mul(tokens_model(toks@), pos as nat, fuel as nat),
    decreases fuel, 0int,
{
    if fuel == 0 {
        return Err(ParseError {
            position: pos,
            found: peek_clone(toks, pos),
            expected: Expected::ShallowerNesting,
        });
    }
    let f = fuel - 1;
    match parse_unary(toks, pos, f) {
        Ok((l, p)) => match peek_x(toks, p) {
            Some(Token::Star) => match parse_mul(toks, p + 1, f) {
                Ok((rhs, p2)) => Ok((
                    Expr::BinOp { left: Box::new(l), right: Box::new(rhs), op: BinaryOp::Mul },
                    p2,
                )),
                Err(er) => Err(er),
            },
            Some(Token::Slash) => match parse_mul(toks, p + 1, f) {
                Ok((rhs, p2)) => Ok((
                    Expr::BinOp { left: Box::new(l), right: Box::new(rhs), op: BinaryOp::Div },
                    p2,
                )),
                Err(er) => Err(er),
            },
            _ => Ok((l, p)),
        },
        Err(er) => Err(er),
    }
}

fn parse_unary(toks: &Vec<Token>, pos: usize, fuel: usize) -> (r: Result<
    (Expr, usize),
    ParseError,
>)
    ensures
        step_model(r) == p_unary(tokens_model(toks@), pos as nat, fuel as nat),
    decreases fuel, 0int,
{
    if fuel == 0 {
        return Err(ParseError {
            position: pos,
            found: peek_clone(toks, pos),
            expected: Expected::ShallowerNesting,
        });
    }
    let f = fuel - 1;
    match peek_x(toks, pos) {
        Some(Token::Bang) => {
            proof {
                lemma_p_unary_bang(tokens_model(toks@), pos as nat, fuel as nat);
            }
            match parse_unary(toks, pos + 1, f) {
                Ok((e, p)) => Ok((Expr::UnaryOp { val: Box::new(e), op: UnaryOp::Not }, p)),
                Err(er) => Err(er),
            }
        },
        _ => {
            proof {
                assert(!(peek(tokens_model(toks@), pos as nat) matches Some(
                    TokenModel::Bang,
                )));
            }
            parse_atom(toks, pos, f)
        },
    }
}

/// The parenthesised-group case of an atom: the expression after the
/// opening parenthesis, which must be followed by the closing one.
/// The parenthesised-group case of an atom: the expression after the
/// opening parenthesis, which must be followed by the closing one.
/// The parenthesised-group case of an atom: the expression after the
/// opening parenthesis, which must be followed by the closing one.
#[verifier::rlimit(20)]
fn parse_group(toks: &Vec<Token>, pos: usize, fuel: usize) -> (r: Result<
    (Expr, usize),
    ParseError,
>)
    requires
        fuel >= 1,
        pos < usize::MAX,
    ensures
        step_model(r) == p_group(tokens_model(toks@), pos as nat, (fuel - 1) as nat),
    decreases fuel, 1int,
{
    proof { reveal(p_group); }
    let ghost tm = tokens_model(toks@);
    let f = fuel - 1;
    let ghost sub = p_expr(tm, pos as nat + 1, f as nat);
    let r1 = parse_expr(toks, pos + 1, f);
    proof {
        assert(step_model(r1) == sub);
    }
    match r1 {
        Ok((e, p)) => {
            let ghost em = expr_model(e);
            proof {
                assert(sub == Ok::<(ExprModel, nat), ParseErrorModel>((em, p as nat)));
            }
            match peek_x(toks, p) {
                Some(Token::RParen) => {
                    proof {
                        assert(p_close(tm, sub) == Ok::<(ExprModel, nat), ParseErrorModel>(
                            (em, p as nat + 1),
                        ));
                    }
                    Ok((e, p + 1))
                },
                _ => {
                    proof {
                        assert(p_close(tm, sub) == Err::<
                            (ExprModel, nat),
                            ParseErrorModel,
                        >(ParseErrorModel {
                            position: p as nat,
                            found: peek(tm, p as nat),
                            expected: Expected::ClosingParen,
                        }));
                    }
                    Err(ParseError {
                        position: p,
                        found: peek_clone(toks, p),
                        expected: Expected::ClosingParen,
                    })
                },
            }
        },
        Err(er) => {
            proof {
                assert(p_close(tm, sub) == Err::<(ExprModel, nat), ParseErrorModel>(
                    parse_error_model(er),
                ));
            }
            Err(er)
        },
    }
}

/// The leaf cases of an atom: an integer or boolean literal, an identifier,
/// or an offending token.
fn parse_leaf(toks: &Vec<Token>, pos: usize, fuel: usize) -> (r: Result<
    (Expr, usize),
    ParseError,
>)
    requires
        fuel >= 1,
        peek(tokens_model(toks@), pos as nat) matches Some(t) && t != TokenModel::LParen,
    ensures
        step_model(r) == p_atom(tokens_model(toks@), pos as nat, fuel as nat),
{
    let tok = match peek_x(toks, pos) {
        Some(t) => t,
        None => {
            return Err(ParseError {
                position: pos,
                found: None,
                expected: Expected::Expression,
            });
        },
    };
    proof {
        lemma_p_atom_leaf(tokens_model(toks@), token_model(*tok), pos as nat, fuel as nat);
    }
    let leaf: Option<Expr> = match tok {
        Token::IntLit(i) => Some(Expr::Leaf(Value::Int(*i))),
        Token::TrueLit => Some(Expr::Leaf(Value::Bool(true))),
        Token::FalseLit => Some(Expr::Leaf(Value::Bool(false))),
        Token::Ident(name) => Some(Expr::Leaf(Value::Var(name.clone()))),
        _ => None,
    };
    proof {
        assert(crate::program::opt_expr_model(leaf) == atom_leaf(token_model(*tok)));
    }
    match leaf {
        Some(e) => Ok((e, pos + 1)),
        None => Err(ParseError {
            position: pos,
            found: peek_clone(toks, pos),
            expected: Expected::Expression,
        }),
    }
}

#[verifier::rlimit(20)]
fn parse_atom(toks: &Vec<Token>, pos: usize, fuel: usize) -> (r: Result<
    (Expr, usize),
    ParseError,
>)
    ensures
        step_model(r) == p_atom(tokens_model(toks@), pos as nat, fuel as nat),
    decreases fuel, 2int, 1int,
{
    if fuel == 0 {
        return Err(ParseError {
            position: pos,
            found: peek_clone(toks, pos),
            expected: Expected::ShallowerNesting,
        });
    }
    match peek_x(toks, pos) {
        None => {
            proof {
                lemma_p_atom_end(tokens_model(toks@), pos as nat, fuel as nat);
            }
            Err(ParseError {
                position: pos,
                found: None,
                expected: Expected::Expression,
            })
        },
        Some(tok) => {
            if matches!(tok, Token::LParen) {
                proof {
                    lemma_p_atom_group(tokens_model(toks@), pos as nat, fuel as nat);
                }
                parse_group(toks, pos, fuel)
            } else {
                parse_leaf(toks, pos, fuel)
            }
        },
    }
}

/// Parse a token sequence as one complete expression.
pub fn parse_tokens(tokens: Vec<Token>) -> (res: Result<Expr, ParseError>)
    ensures
        parse_result_model(res) == parse_tokens_spec(tokens_model(tokens@)),
{
    let fuel: usize = match tokens.len().checked_mul(16) {
        Some(m) => match m.checked_add(16) {
            Some(fl) => fl,
            None => usize::MAX,
        },
        None => usize::MAX,
    };
    proof {
        assert(fuel as nat == parse_fuel(tokens_model(tokens@).len()));
    }
    match parse_expr(&tokens, 0, fuel) {
        Ok((e, p)) => if p == tokens.len() {
            Ok(e)
        } else {
            Err(ParseError {
                position: p,
                found: peek_clone(&tokens, p),
                expected: Expected::EndOfInput,
            })
        },
        Err(er) => Err(er),
    }
}

/// Parse source text: split it into tokens, then parse them as one
/// complete expression.
pub fn parse(src_code: String) -> (res: Result<Expr, ParseError>)
    ensures
        parse_result_model(res) == parse_spec(src_code@),
{
    let toks = tokenize(src_code.as_str());
    parse_tokens(toks)
}

} // verus!
