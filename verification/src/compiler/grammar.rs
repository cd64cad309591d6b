//! The script grammar and its parser.
//!
//! A script is line-oriented text:
//!
//! ```text
//! act        := line*                      (one or more scenes among them)
//! line       := scene | statement | blank
//! scene      := "scene" IDENT
//! statement  := dialogue | infotext | stage_command | log
//! dialogue   := IDENT ":" [IDENT ":"] expr ("," expr)*
//!               (the optional IDENT names an emotion)
//! infotext   := "narrator" ":" expr
//! log        := "log" expr ("," expr)*
//! expr       := term ("+" term)*
//! term       := NUMBER | STRING
//! stage_command :=
//!     "[" "background" "change" STRING "]"
//!   | "[" "background" "dissolve" [STRING] "]"
//!   | "[" "background" "slide" DIRECTION "]"     N(orth) S(outh) E(ast) W(est)
//!   | "[" "ui" ("textbox" | "namebox") expr ["sliced"] "]"
//!   | "[" "ui" ("font" | "sounds" | "typing") expr "]"
//!   | "[" "scene" "change" expr "]"
//!   | "[" "act" "change" expr "]"
//!   | "[" "character" IDENT actor_directive "]"
//!   | "[" "animation" (IDENT | STRING) actor_directive "]"
//!   | "[" "audio" AUDIOCMD IDENT STRING NUMBER "]"
//! actor_directive :=
//!     ("appears" | "fade" "in") modifier*
//!   | "disappears" | "fade" "out"
//!   | "looks" ("left" | "right")
//!   | "moves" position
//! modifier   := "emotion" IDENT | "at" position
//!             | "looks" ("left" | "right") | "scale" NUMBER
//! ```
//!
//! Character positions are `center`, `left`, `right`, `far left`,
//! `far right`, `invisible left`, `invisible right`; animation positions
//! are `center`, `top`, `bottom`, `left`, `right`, `top left`,
//! `top right`, `bottom left`, `bottom right`. `IDENT` is a word of
//! letters, digits and underscores starting with a letter; `STRING` is
//! double-quoted text without quotes in it; `NUMBER` is an optionally
//! negative integer of at most eighteen digits.
//!
//! The tokenizer and parser are written twice: as specification functions
//! over character sequences, which are the grammar's mathematical
//! definition, and as executable functions proved to return exactly what
//! the specification functions say.
use vstd::prelude::*;

use crate::actor::{
    ActorOperation, ActorPosition, AnimationPosition, CharacterDirection, CharacterPosition,
    SpawnInfo,
};
use crate::audio::AudioCommand;
use crate::background::{BackgroundDirection, BackgroundOperation};
use crate::chat::{UiChangeTarget, UiImageMode};
use crate::compiler::ast::str_eq;

verus! {

/// Why a script failed to parse, and where.
#[derive(Clone, Copy, Debug, PartialEq, Eq, Structural)]
pub enum ParseErrorKind {
    /// A character no token can start with.
    BadChar,
    /// A string literal misses its closing quote.
    UnterminatedString,
    /// A number literal has more than eighteen digits.
    NumberTooLarge,
    /// A token the grammar does not allow here.
    UnexpectedToken,
    /// The source ended inside a construct.
    UnexpectedEnd,
    /// A word where a known command or directive was expected.
    UnknownWord,
    /// Two scenes share a name.
    DuplicateScene,
    /// A scene holds more statements than a cursor position can address.
    SceneTooLong,
    /// The script holds no scene at all.
    EmptyAct,
}

/// A parse error: its kind, the character position it points at, and the
/// offending identifier where one exists.
#[derive(Debug)]
pub struct ParseError {
    pub kind: ParseErrorKind,
    pub pos: usize,
    pub item: String,
}

/// Mathematical image of a [`ParseError`].
pub struct ParseErrorV {
    pub kind: ParseErrorKind,
    pub pos: int,
    pub item: Seq<char>,
}

impl View for ParseError {
    type V = ParseErrorV;

    open spec fn view(&self) -> ParseErrorV {
        ParseErrorV { kind: self.kind, pos: self.pos as int, item: self.item@ }
    }
}

/// One token of the script text.
#[derive(Debug)]
pub enum TokenKind {
    Word(String),
    Num(i64),
    Str(String),
    Colon,
    Comma,
    Plus,
    LBrack,
    RBrack,
    Newline,
}

/// Mathematical image of a [`TokenKind`].
pub enum TokenKindV {
    Word(Seq<char>),
    Num(i64),
    Str(Seq<char>),
    Colon,
    Comma,
    Plus,
    LBrack,
    RBrack,
    Newline,
}

impl View for TokenKind {
    type V = TokenKindV;

    open spec fn view(&self) -> TokenKindV {
        match self {
            TokenKind::Word(s) => TokenKindV::Word(s@),
            TokenKind::Num(n) => TokenKindV::Num(*n),
            TokenKind::Str(s) => TokenKindV::Str(s@),
            TokenKind::Colon => TokenKindV::Colon,
            TokenKind::Comma => TokenKindV::Comma,
            TokenKind::Plus => TokenKindV::Plus,
            TokenKind::LBrack => TokenKindV::LBrack,
            TokenKind::RBrack => TokenKindV::RBrack,
            TokenKind::Newline => TokenKindV::Newline,
        }
    }
}

/// A token and the character position it starts at.
#[derive(Debug)]
pub struct Token {
    pub kind: TokenKind,
    pub pos: usize,
}

/// Mathematical image of a [`Token`].
pub struct TokenV {
    pub kind: TokenKindV,
    pub pos: int,
}

impl View for Token {
    type V = TokenV;

    open spec fn view(&self) -> TokenV {
        TokenV { kind: self.kind@, pos: self.pos as int }
    }
}

/// The views of a sequence of tokens.
pub open spec fn tokens_view(v: Seq<Token>) -> Seq<TokenV> {
    v.map_values(|t: Token| t@)
}

/// Blank characters inside a line.
pub open spec fn is_space(c: char) -> bool {
    c == ' ' || c == '\t' || c == '\r'
}

/// Letters and the underscore: what a word can start with.
pub open spec fn is_alpha(c: char) -> bool {
    ('a' <= c && c <= 'z') || ('A' <= c && c <= 'Z') || c == '_'
}

/// Decimal digits.
pub open spec fn is_digit(c: char) -> bool {
    '0' <= c && c <= '9'
}

/// What a word can continue with.
pub open spec fn is_word_char(c: char) -> bool {
    is_alpha(c) || is_digit(c)
}

/// The value of a decimal digit.
pub open spec fn digit_val(c: char) -> int {
    c as int - '0' as int
}

/// The first position at or after `i` that no longer continues a word.
pub open spec fn word_end(cs: Seq<char>, i: int) -> int
    decreases cs.len() - i,
{
    if 0 <= i < cs.len() && is_word_char(cs[i]) {
        word_end(cs, i + 1)
    } else {
        i
    }
}

/// The first position at or after `i` that is not a digit.
pub open spec fn digits_end(cs: Seq<char>, i: int) -> int
    decreases cs.len() - i,
{
    if 0 <= i < cs.len() && is_digit(cs[i]) {
        digits_end(cs, i + 1)
    } else {
        i
    }
}

/// The position of the closing quote at or after `i`, if any.
pub open spec fn string_end(cs: Seq<char>, i: int) -> Option<int>
    decreases cs.len() - i,
{
    if !(0 <= i < cs.len()) {
        None
    } else if cs[i] == '"' {
        Some(i)
    } else {
        string_end(cs, i + 1)
    }
}

/// The value of the digits `cs[i..j)` read in decimal.
pub open spec fn digits_value(cs: Seq<char>, i: int, j: int) -> int
    decreases j - i,
{
    if j <= i {
        0
    } else {
        digits_value(cs, i, j - 1) * 10 + digit_val(cs[j - 1])
    }
}

pub proof fn lemma_word_end_bounds(cs: Seq<char>, i: int)
    ensures
        word_end(cs, i) >= i,
        i <= cs.len() ==> word_end(cs, i) <= cs.len(),
    decreases cs.len() - i,
{
    if 0 <= i < cs.len() && is_word_char(cs[i]) {
        lemma_word_end_bounds(cs, i + 1);
    }
}

pub proof fn lemma_digits_end_bounds(cs: Seq<char>, i: int)
    ensures
        digits_end(cs, i) >= i,
        i <= cs.len() ==> digits_end(cs, i) <= cs.len(),
    decreases cs.len() - i,
{
    if 0 <= i < cs.len() && is_digit(cs[i]) {
        lemma_digits_end_bounds(cs, i + 1);
    }
}

pub proof fn lemma_string_end_bounds(cs: Seq<char>, i: int)
    ensures
        string_end(cs, i) matches Some(j) ==> i <= j < cs.len() && cs[j] == '"',
    decreases cs.len() - i,
{
    if 0 <= i < cs.len() && cs[i] != '"' {
        lemma_string_end_bounds(cs, i + 1);
    }
}

/// Powers of ten.
pub open spec fn pow10(k: nat) -> int
    decreases k,
{
    if k == 0 {
        1
    } else {
        10 * pow10((k - 1) as nat)
    }
}

/// The digits `cs[i..j)` read in decimal stay below `10^(j-i)`.
pub proof fn lemma_digits_value_bound(cs: Seq<char>, i: int, j: int)
    requires
        i <= j,
        forall|k: int| i <= k < j ==> is_digit(#[trigger] cs[k]),
    ensures
        0 <= digits_value(cs, i, j) < pow10((j - i) as nat),
    decreases j - i,
{
    if j > i {
        lemma_digits_value_bound(cs, i, j - 1);
    }
}

/// The longest number literal: eighteen digits, which always fit.
pub proof fn lemma_pow10_18()
    ensures
        pow10(18) == 1000000000000000000,
{
    reveal_with_fuel(pow10, 19);
}

/// The tokens of the script text from position `i` on: spaces are
/// skipped, every other character starts a punctuation token, a word, a
/// number or a string literal.
pub open spec fn tokenize_from(cs: Seq<char>, i: int) -> Result<Seq<TokenV>, ParseErrorV>
    decreases cs.len() - i,
    via tokenize_from_dec
{
    if !(0 <= i < cs.len()) {
        Ok(Seq::empty())
    } else if is_space(cs[i]) {
        tokenize_from(cs, i + 1)
    } else if cs[i] == '\n' {
        tok_cons(TokenV { kind: TokenKindV::Newline, pos: i }, tokenize_from(cs, i + 1))
    } else if cs[i] == ':' {
        tok_cons(TokenV { kind: TokenKindV::Colon, pos: i }, tokenize_from(cs, i + 1))
    } else if cs[i] == ',' {
        tok_cons(TokenV { kind: TokenKindV::Comma, pos: i }, tokenize_from(cs, i + 1))
    } else if cs[i] == '+' {
        tok_cons(TokenV { kind: TokenKindV::Plus, pos: i }, tokenize_from(cs, i + 1))
    } else if cs[i] == '[' {
        tok_cons(TokenV { kind: TokenKindV::LBrack, pos: i }, tokenize_from(cs, i + 1))
    } else if cs[i] == ']' {
        tok_cons(TokenV { kind: TokenKindV::RBrack, pos: i }, tokenize_from(cs, i + 1))
    } else if is_alpha(cs[i]) {
        let j = word_end(cs, i + 1);
        tok_cons(
            TokenV { kind: TokenKindV::Word(cs.subrange(i, j)), pos: i },
            tokenize_from(cs, j),
        )
    } else if cs[i] == '"' {
        match string_end(cs, i + 1) {
            Some(j) => tok_cons(
                TokenV { kind: TokenKindV::Str(cs.subrange(i + 1, j)), pos: i },
                tokenize_from(cs, j + 1),
            ),
            None => Err(
                ParseErrorV { kind: ParseErrorKind::UnterminatedString, pos: i, item: Seq::empty() },
            ),
        }
    } else if is_digit(cs[i]) || (cs[i] == '-' && i + 1 < cs.len() && is_digit(cs[i + 1])) {
        let d0 = if cs[i] == '-' {
            i + 1
        } else {
            i
        };
        let j = digits_end(cs, d0);
        if j - d0 > 18 {
            Err(ParseErrorV { kind: ParseErrorKind::NumberTooLarge, pos: i, item: Seq::empty() })
        } else {
            let v = digits_value(cs, d0, j);
            let n: int = if cs[i] == '-' {
                -v
            } else {
                v
            };
            tok_cons(TokenV { kind: TokenKindV::Num(n as i64), pos: i }, tokenize_from(cs, j))
        }
    } else {
        Err(ParseErrorV { kind: ParseErrorKind::BadChar, pos: i, item: Seq::empty() })
    }
}

/// Puts one token in front of a tokenizer result.
pub open spec fn tok_cons(t: TokenV, rest: Result<Seq<TokenV>, ParseErrorV>) -> Result<
    Seq<TokenV>,
    ParseErrorV,
> {
    match rest {
        Ok(ts) => Ok(seq![t] + ts),
        Err(e) => Err(e),
    }
}

#[via_fn]
proof fn tokenize_from_dec(cs: Seq<char>, i: int) {
    if 0 <= i < cs.len() {
        if is_alpha(cs[i]) {
            lemma_word_end_bounds(cs, i + 1);
        }
        if cs[i] == '"' {
            lemma_string_end_bounds(cs, i + 1);
        }
        lemma_digits_end_bounds(cs, i);
        lemma_digits_end_bounds(cs, i + 1);
    }
}

/// The tokens of the whole script text.
pub open spec fn tokenize_spec(cs: Seq<char>) -> Result<Seq<TokenV>, ParseErrorV> {
    tokenize_from(cs, 0)
}

fn word_end_exec(s: &str, n: usize, i: usize) -> (j: usize)
    requires
        n == s@.len(),
        i <= n,
    ensures
        j == word_end(s@, i as int),
        i <= j <= n,
    decreases n - i,
{
    proof {
        lemma_word_end_bounds(s@, i as int);
    }
    if i < n {
        let c = s.get_char(i);
        let cu = c as u32;
        let word = (cu >= 97 && cu <= 122) || (cu >= 65 && cu <= 90) || cu == 95 || (cu >= 48 && cu
            <= 57);
        if word {
            word_end_exec(s, n, i + 1)
        } else {
            i
        }
    } else {
        i
    }
}

fn digits_end_exec(s: &str, n: usize, i: usize) -> (j: usize)
    requires
        n == s@.len(),
        i <= n,
    ensures
        j == digits_end(s@, i as int),
        i <= j <= n,
    decreases n - i,
{
    proof {
        lemma_digits_end_bounds(s@, i as int);
    }
    if i < n {
        let c = s.get_char(i);
        let cu = c as u32;
        if cu >= 48 && cu <= 57 {
            digits_end_exec(s, n, i + 1)
        } else {
            i
        }
    } else {
        i
    }
}

fn string_end_exec(s: &str, n: usize, i: usize) -> (j: Option<usize>)
    requires
        n == s@.len(),
        i <= n,
    ensures
        match string_end(s@, i as int) {
            Some(k) => j matches Some(u) && u as int == k && i <= k < n,
            None => j is None,
        },
    decreases n - i,
{
    proof {
        lemma_string_end_bounds(s@, i as int);
    }
    if i < n {
        let c = s.get_char(i);
        if c == '"' {
            Some(i)
        } else {
            string_end_exec(s, n, i + 1)
        }
    } else {
        None
    }
}

fn digits_value_exec(s: &str, n: usize, i: usize, j: usize) -> (v: u64)
    requires
        n == s@.len(),
        i <= j <= n,
        j - i <= 18,
        forall|k: int| i <= k < j ==> is_digit(#[trigger] s@[k]),
    ensures
        v == digits_value(s@, i as int, j as int),
        v < 1000000000000000000,
    decreases j - i,
{
    proof {
        lemma_digits_value_bound(s@, i as int, j as int);
        lemma_pow10_18();
        if j > i {
            lemma_digits_value_bound(s@, i as int, j as int - 1);
        }
    }
    if j <= i {
        0
    } else {
        let hi = digits_value_exec(s, n, i, j - 1);
        let c = s.get_char(j - 1);
        let d = (c as u32) - 48;
        proof {
            assert(digits_value(s@, i as int, j as int - 1) < pow10((j - 1 - i) as nat));
            assert(pow10((j - 1 - i) as nat) <= pow10(17)) by {
                lemma_pow10_mono((j - 1 - i) as nat, 17);
            }
            reveal_with_fuel(pow10, 19);
        }
        hi * 10 + (d as u64)
    }
}

/// Powers of ten grow with the exponent.
pub proof fn lemma_pow10_mono(a: nat, b: nat)
    requires
        a <= b,
    ensures
        pow10(a) <= pow10(b),
        pow10(a) >= 1,
    decreases b,
{
    if a < b {
        lemma_pow10_mono(a, (b - 1) as nat);
        assert(pow10(b) == 10 * pow10((b - 1) as nat));
    } else if b > 0 {
        lemma_pow10_mono((a - 1) as nat, (b - 1) as nat);
    }
}

fn tokenize_at(s: &str, n: usize, i: usize) -> (r: Result<Vec<Token>, ParseError>)
    requires
        n == s@.len(),
        i <= n,
    ensures
        match r {
            Ok(v) => tokenize_from(s@, i as int) == Ok::<Seq<TokenV>, ParseErrorV>(
                tokens_view(v@),
            ),
            Err(e) => tokenize_from(s@, i as int) == Err::<Seq<TokenV>, ParseErrorV>(e@),
        },
    decreases n - i, 0int,
{
    if i >= n {
        let v: Vec<Token> = Vec::new();
        proof {
            assert(tokens_view(v@) =~= Seq::<TokenV>::empty());
        }
        return Ok(v);
    }
    let c = s.get_char(i);
    let cu = c as u32;
    let neg_num = c == '-' && i + 1 < n && {
        let c2 = s.get_char(i + 1);
        let cu2 = c2 as u32;
        cu2 >= 48 && cu2 <= 57
    };
    if c == ' ' || c == '\t' || c == '\r' {
        tokenize_at(s, n, i + 1)
    } else if c == '\n' {
        tokenize_cons(s, n, TokenKind::Newline, i, i + 1)
    } else if c == ':' {
        tokenize_cons(s, n, TokenKind::Colon, i, i + 1)
    } else if c == ',' {
        tokenize_cons(s, n, TokenKind::Comma, i, i + 1)
    } else if c == '+' {
        tokenize_cons(s, n, TokenKind::Plus, i, i + 1)
    } else if c == '[' {
        tokenize_cons(s, n, TokenKind::LBrack, i, i + 1)
    } else if c == ']' {
        tokenize_cons(s, n, TokenKind::RBrack, i, i + 1)
    } else if (cu >= 97 && cu <= 122) || (cu >= 65 && cu <= 90) || cu == 95 {
        let j = word_end_exec(s, n, i + 1);
        let w = s.substring_char(i, j).to_owned();
        tokenize_cons(s, n, TokenKind::Word(w), i, j)
    } else if c == '"' {
        match string_end_exec(s, n, i + 1) {
            Some(j) => {
                let lit = s.substring_char(i + 1, j).to_owned();
                tokenize_cons(s, n, TokenKind::Str(lit), i, j + 1)
            },
            None => Err(
                ParseError { kind: ParseErrorKind::UnterminatedString, pos: i, item: String::new() },
            ),
        }
    } else if (cu >= 48 && cu <= 57) || neg_num {
        let d0 = if c == '-' {
            i + 1
        } else {
            i
        };
        let j = digits_end_exec(s, n, d0);
        if j - d0 > 18 {
            Err(ParseError { kind: ParseErrorKind::NumberTooLarge, pos: i, item: String::new() })
        } else {
            proof {
                lemma_digits_in_range(s@, d0 as int);
                lemma_digits_end_bounds(s@, i as int + 1);
                assert(j > i);
            }
            let v = digits_value_exec(s, n, d0, j);
            let value: i64 = if c == '-' {
                -(v as i64)
            } else {
                v as i64
            };
            tokenize_cons(s, n, TokenKind::Num(value), i, j)
        }
    } else {
        Err(ParseError { kind: ParseErrorKind::BadChar, pos: i, item: String::new() })
    }
}

/// Every character of a digit run is a digit.
pub proof fn lemma_digits_in_range(cs: Seq<char>, i: int)
    ensures
        forall|k: int| i <= k < digits_end(cs, i) ==> is_digit(#[trigger] cs[k]),
    decreases cs.len() - i,
{
    if 0 <= i < cs.len() && is_digit(cs[i]) {
        lemma_digits_in_range(cs, i + 1);
    }
}

fn tokenize_cons(s: &str, n: usize, kind: TokenKind, at: usize, next: usize) -> (r: Result<
    Vec<Token>,
    ParseError,
>)
    requires
        n == s@.len(),
        next <= n,
    ensures
        match r {
            Ok(v) => tok_cons(TokenV { kind: kind@, pos: at as int }, tokenize_from(s@, next as int))
                == Ok::<Seq<TokenV>, ParseErrorV>(tokens_view(v@)),
            Err(e) => tok_cons(
                TokenV { kind: kind@, pos: at as int },
                tokenize_from(s@, next as int),
            ) == Err::<Seq<TokenV>, ParseErrorV>(e@),
        },
    decreases n - next, 1int,
{
    let rest = tokenize_at(s, n, next);
    match rest {
        Ok(mut v) => {
            let ghost tail = v@;
            v.insert(0, Token { kind, pos: at });
            proof {
                assert(tokens_view(v@) =~= seq![
                    TokenV { kind: kind@, pos: at as int },
                ] + tokens_view(tail));
            }
            Ok(v)
        },
        Err(e) => Err(e),
    }
}

/// Splits the script text into tokens, exactly as [`tokenize_spec`] says.
pub fn tokenize(s: &str) -> (r: Result<Vec<Token>, ParseError>)
    ensures
        match r {
            Ok(v) => tokenize_spec(s@) == Ok::<Seq<TokenV>, ParseErrorV>(tokens_view(v@)),
            Err(e) => tokenize_spec(s@) == Err::<Seq<TokenV>, ParseErrorV>(e@),
        },
{
    let n = s.unicode_len();
    tokenize_at(s, n, 0)
}

} // verus!

use crate::compiler::ast::{
    Act, ActV, Expr, ExprV, Scene, SceneV, Statement, StatementV, CodeStatement, CodeStatementV,
    Dialogue, DialogueV, InfoText, InfoTextV, StageCommand, StageCommandV, TextItem, TextItemV,
    scene_names_unique, stmts_view, exprs_view, scenes_view,
};

verus! {

/// What a parser yields: the position after the construct and its value,
/// or the error that stopped it.
pub enum Parsed<A> {
    Got(int, A),
    Fail(ParseErrorV),
}

/// The position blamed when the source ends inside a construct: that of
/// the last token, or the start of an empty script.
pub open spec fn eof_pos(ts: Seq<TokenV>) -> int {
    if ts.len() > 0 {
        ts[ts.len() - 1].pos
    } else {
        0
    }
}

/// A parse error pointing at token `i`, or at the end of the script.
pub open spec fn err_at(ts: Seq<TokenV>, i: int, kind: ParseErrorKind) -> ParseErrorV {
    if 0 <= i < ts.len() {
        ParseErrorV { kind, pos: ts[i].pos, item: Seq::empty() }
    } else {
        ParseErrorV { kind: ParseErrorKind::UnexpectedEnd, pos: eof_pos(ts), item: Seq::empty() }
    }
}

/// One term of an expression: a number or a string literal.
pub open spec fn sp_term(ts: Seq<TokenV>, i: int) -> Parsed<ExprV> {
    if 0 <= i < ts.len() {
        match ts[i].kind {
            TokenKindV::Num(n) => Parsed::Got(i + 1, ExprV::Number(n)),
            TokenKindV::Str(s) => Parsed::Got(i + 1, ExprV::String(s)),
            _ => Parsed::Fail(err_at(ts, i, ParseErrorKind::UnexpectedToken)),
        }
    } else {
        Parsed::Fail(err_at(ts, i, ParseErrorKind::UnexpectedToken))
    }
}

/// The additions following a first term: `acc + term + term + ...`,
/// combined left to right.
pub open spec fn sp_expr_tail(ts: Seq<TokenV>, i: int, acc: ExprV) -> Parsed<ExprV>
    decreases ts.len() - i,
{
    if 0 <= i < ts.len() && ts[i].kind is Plus {
        match sp_term(ts, i + 1) {
            Parsed::Got(j, t) => sp_expr_tail(
                ts,
                i + 2,
                ExprV::Add(Box::new(acc), Box::new(t)),
            ),
            Parsed::Fail(e) => Parsed::Fail(e),
        }
    } else {
        Parsed::Got(i, acc)
    }
}

/// An expression: a term, possibly followed by added terms.
pub open spec fn sp_expr(ts: Seq<TokenV>, i: int) -> Parsed<ExprV> {
    match sp_term(ts, i) {
        Parsed::Got(j, t) => sp_expr_tail(ts, j, t),
        Parsed::Fail(e) => Parsed::Fail(e),
    }
}

/// The expressions following a first one: `, expr , expr ...`.
pub open spec fn sp_expr_list_tail(ts: Seq<TokenV>, i: int, acc: Seq<ExprV>) -> Parsed<Seq<ExprV>>
    decreases ts.len() - i,
    via sp_expr_list_tail_dec
{
    if 0 <= i < ts.len() && ts[i].kind is Comma {
        match sp_expr(ts, i + 1) {
            Parsed::Got(j, e) => sp_expr_list_tail(ts, j, acc.push(e)),
            Parsed::Fail(e) => Parsed::Fail(e),
        }
    } else {
        Parsed::Got(i, acc)
    }
}

/// A successful expression parse always moves forward.
pub proof fn lemma_sp_expr_progress(ts: Seq<TokenV>, i: int)
    ensures
        sp_expr(ts, i) matches Parsed::Got(j, _) ==> i < j && j <= ts.len(),
{
    match sp_term(ts, i) {
        Parsed::Got(j, t) => {
            lemma_sp_expr_tail_progress(ts, j, t);
        },
        Parsed::Fail(_) => {},
    }
}

pub proof fn lemma_sp_expr_tail_progress(ts: Seq<TokenV>, i: int, acc: ExprV)
    requires
        i <= ts.len(),
    ensures
        sp_expr_tail(ts, i, acc) matches Parsed::Got(j, _) ==> i <= j && j <= ts.len(),
    decreases ts.len() - i,
{
    if 0 <= i < ts.len() && ts[i].kind is Plus {
        match sp_term(ts, i + 1) {
            Parsed::Got(j, t) => {
                lemma_sp_expr_tail_progress(ts, i + 2, ExprV::Add(Box::new(acc), Box::new(t)));
            },
            Parsed::Fail(_) => {},
        }
    }
}

#[via_fn]
proof fn sp_expr_list_tail_dec(ts: Seq<TokenV>, i: int, acc: Seq<ExprV>) {
    if 0 <= i < ts.len() && ts[i].kind is Comma {
        match sp_expr(ts, i + 1) {
            Parsed::Got(j, e) => {
                lemma_sp_expr_progress(ts, i + 1);
            },
            Parsed::Fail(_) => {},
        }
    }
}

/// A comma-separated list of expressions.
pub open spec fn sp_expr_list(ts: Seq<TokenV>, i: int) -> Parsed<Seq<ExprV>> {
    match sp_expr(ts, i) {
        Parsed::Got(j, e) => sp_expr_list_tail(ts, j, seq![e]),
        Parsed::Fail(e) => Parsed::Fail(e),
    }
}

/// A successful expression-list parse moves forward and yields no more
/// expressions than tokens it consumed.
pub proof fn lemma_sp_expr_list_progress(ts: Seq<TokenV>, i: int)
    ensures
        sp_expr_list(ts, i) matches Parsed::Got(j, es) ==> i < j && j <= ts.len() && es.len() <= j
            - i,
{
    lemma_sp_expr_progress(ts, i);
    match sp_expr(ts, i) {
        Parsed::Got(j, e) => {
            lemma_sp_expr_list_tail_progress(ts, j, seq![e]);
        },
        Parsed::Fail(_) => {},
    }
}

pub proof fn lemma_sp_expr_list_tail_progress(ts: Seq<TokenV>, i: int, acc: Seq<ExprV>)
    requires
        i <= ts.len(),
    ensures
        sp_expr_list_tail(ts, i, acc) matches Parsed::Got(j, es) ==> i <= j && j <= ts.len()
            && es.len() <= acc.len() + (j - i),
    decreases ts.len() - i,
{
    if 0 <= i < ts.len() && ts[i].kind is Comma {
        lemma_sp_expr_progress(ts, i + 1);
        match sp_expr(ts, i + 1) {
            Parsed::Got(j, e) => {
                lemma_sp_expr_list_tail_progress(ts, j, acc.push(e));
            },
            Parsed::Fail(_) => {},
        }
    }
}

fn err_at_exec(ts: &Vec<Token>, i: usize, kind: ParseErrorKind) -> (e: ParseError)
    ensures
        e@ == err_at(tokens_view(ts@), i as int, kind),
{
    if i < ts.len() {
        ParseError { kind, pos: ts[i].pos, item: String::new() }
    } else if ts.len() > 0 {
        ParseError {
            kind: ParseErrorKind::UnexpectedEnd,
            pos: ts[ts.len() - 1].pos,
            item: String::new(),
        }
    } else {
        ParseError { kind: ParseErrorKind::UnexpectedEnd, pos: 0, item: String::new() }
    }
}

fn build_term(ts: &Vec<Token>, i: usize) -> (r: Result<(usize, Expr), ParseError>)
    ensures
        match r {
            Ok((j, v)) => sp_term(tokens_view(ts@), i as int) == Parsed::Got(j as int, v@) && i < j
                <= ts@.len(),
            Err(e) => sp_term(tokens_view(ts@), i as int) == Parsed::Fail::<ExprV>(e@),
        },
{
    if i < ts.len() {
        match &ts[i].kind {
            TokenKind::Num(n) => Ok((i + 1, Expr::Number(*n))),
            TokenKind::Str(s) => Ok((i + 1, Expr::String(s.clone()))),
            _ => Err(err_at_exec(ts, i, ParseErrorKind::UnexpectedToken)),
        }
    } else {
        Err(err_at_exec(ts, i, ParseErrorKind::UnexpectedToken))
    }
}

fn build_expr_tail(ts: &Vec<Token>, i: usize, acc: Expr) -> (r: Result<(usize, Expr), ParseError>)
    requires
        i <= ts@.len(),
    ensures
        match r {
            Ok((j, v)) => sp_expr_tail(tokens_view(ts@), i as int, acc@) == Parsed::Got(
                j as int,
                v@,
            ) && i <= j <= ts@.len(),
            Err(e) => sp_expr_tail(tokens_view(ts@), i as int, acc@) == Parsed::Fail::<ExprV>(e@),
        },
    decreases ts@.len() - i,
{
    if i < ts.len() && matches!(&ts[i].kind, TokenKind::Plus) {
        match build_term(ts, i + 1) {
            Ok((j, t)) => build_expr_tail(
                ts,
                i + 2,
                Expr::Add { lhs: Box::new(acc), rhs: Box::new(t) },
            ),
            Err(e) => Err(e),
        }
    } else {
        Ok((i, acc))
    }
}

/// Parses an expression at token `i`: a term, possibly followed by `+`
/// and further terms, combined left to right; exactly [`sp_expr`].
pub fn build_expression(ts: &Vec<Token>, i: usize) -> (r: Result<(usize, Expr), ParseError>)
    ensures
        match r {
            Ok((j, v)) => sp_expr(tokens_view(ts@), i as int) == Parsed::Got(j as int, v@) && i < j
                <= ts@.len(),
            Err(e) => sp_expr(tokens_view(ts@), i as int) == Parsed::Fail::<ExprV>(e@),
        },
{
    proof {
        lemma_sp_expr_progress(tokens_view(ts@), i as int);
    }
    match build_term(ts, i) {
        Ok((j, t)) => build_expr_tail(ts, j, t),
        Err(e) => Err(e),
    }
}

fn build_expr_list_tail(ts: &Vec<Token>, i: usize, acc: Vec<Expr>) -> (r: Result<
    (usize, Vec<Expr>),
    ParseError,
>)
    requires
        i <= ts@.len(),
    ensures
        match r {
            Ok((j, v)) => sp_expr_list_tail(tokens_view(ts@), i as int, exprs_view(acc@))
                == Parsed::Got(j as int, exprs_view(v@)) && i <= j <= ts@.len(),
            Err(e) => sp_expr_list_tail(tokens_view(ts@), i as int, exprs_view(acc@))
                == Parsed::Fail::<Seq<ExprV>>(e@),
        },
    decreases ts@.len() - i,
{
    if i < ts.len() && matches!(&ts[i].kind, TokenKind::Comma) {
        match build_expression(ts, i + 1) {
            Ok((j, e)) => {
                let mut acc = acc;
                let ghost acc0 = exprs_view(acc@);
                acc.push(e);
                proof {
                    assert(exprs_view(acc@) =~= acc0.push(e@));
                }
                build_expr_list_tail(ts, j, acc)
            },
            Err(e) => Err(e),
        }
    } else {
        Ok((i, acc))
    }
}

/// Parses a comma-separated list of expressions at token `i`; exactly
/// [`sp_expr_list`].
pub fn build_expr_list(ts: &Vec<Token>, i: usize) -> (r: Result<(usize, Vec<Expr>), ParseError>)
    ensures
        match r {
            Ok((j, v)) => sp_expr_list(tokens_view(ts@), i as int) == Parsed::Got(
                j as int,
                exprs_view(v@),
            ) && i < j <= ts@.len(),
            Err(e) => sp_expr_list(tokens_view(ts@), i as int) == Parsed::Fail::<Seq<ExprV>>(e@),
        },
{
    proof {
        lemma_sp_expr_list_progress(tokens_view(ts@), i as int);
    }
    match build_expression(ts, i) {
        Ok((j, e)) => {
            let mut acc: Vec<Expr> = Vec::new();
            acc.push(e);
            proof {
                assert(exprs_view(acc@) =~= seq![e@]);
            }
            build_expr_list_tail(ts, j, acc)
        },
        Err(e) => Err(e),
    }
}

} // verus!


verus! {

/// An unknown-word error pointing at token `i`.
pub open spec fn err_word(ts: Seq<TokenV>, i: int, w: Seq<char>) -> ParseErrorV {
    ParseErrorV { kind: ParseErrorKind::UnknownWord, pos: ts[i].pos, item: w }
}

/// The number at token `i`, if that token is a number literal.
pub open spec fn num_at(ts: Seq<TokenV>, i: int) -> Option<i64> {
    if 0 <= i < ts.len() {
        match ts[i].kind {
            TokenKindV::Num(n) => Some(n),
            _ => None,
        }
    } else {
        None
    }
}

/// The word at token `i`, if that token is a word.
pub open spec fn word_at(ts: Seq<TokenV>, i: int) -> Option<Seq<char>> {
    if 0 <= i < ts.len() {
        match ts[i].kind {
            TokenKindV::Word(w) => Some(w),
            _ => None,
        }
    } else {
        None
    }
}

/// A named character stage position, one word or `far`/`invisible`
/// followed by a side.
pub open spec fn sp_char_position(ts: Seq<TokenV>, i: int) -> Parsed<CharacterPosition> {
    match word_at(ts, i) {
        Some(w) => if w == "center"@ {
            Parsed::Got(i + 1, CharacterPosition::Center)
        } else if w == "left"@ {
            Parsed::Got(i + 1, CharacterPosition::Left)
        } else if w == "right"@ {
            Parsed::Got(i + 1, CharacterPosition::Right)
        } else if w == "far"@ || w == "invisible"@ {
            match word_at(ts, i + 1) {
                Some(w2) => if w2 == "left"@ {
                    Parsed::Got(
                        i + 2,
                        if w == "far"@ {
                            CharacterPosition::FarLeft
                        } else {
                            CharacterPosition::InvisibleLeft
                        },
                    )
                } else if w2 == "right"@ {
                    Parsed::Got(
                        i + 2,
                        if w == "far"@ {
                            CharacterPosition::FarRight
                        } else {
                            CharacterPosition::InvisibleRight
                        },
                    )
                } else {
                    Parsed::Fail(err_word(ts, i + 1, w2))
                },
                None => Parsed::Fail(err_at(ts, i + 1, ParseErrorKind::UnexpectedToken)),
            }
        } else {
            Parsed::Fail(err_word(ts, i, w))
        },
        None => Parsed::Fail(err_at(ts, i, ParseErrorKind::UnexpectedToken)),
    }
}

/// A named animation stage position, one word or `top`/`bottom` followed
/// by an optional side.
pub open spec fn sp_anim_position(ts: Seq<TokenV>, i: int) -> Parsed<AnimationPosition> {
    match word_at(ts, i) {
        Some(w) => if w == "center"@ {
            Parsed::Got(i + 1, AnimationPosition::Center)
        } else if w == "left"@ {
            Parsed::Got(i + 1, AnimationPosition::Left)
        } else if w == "right"@ {
            Parsed::Got(i + 1, AnimationPosition::Right)
        } else if w == "top"@ || w == "bottom"@ {
            match word_at(ts, i + 1) {
                Some(w2) => if w2 == "left"@ && w == "top"@ {
                    Parsed::Got(i + 2, AnimationPosition::TopLeft)
                } else if w2 == "right"@ && w == "top"@ {
                    Parsed::Got(i + 2, AnimationPosition::TopRight)
                } else if w2 == "left"@ {
                    Parsed::Got(i + 2, AnimationPosition::BottomLeft)
                } else if w2 == "right"@ {
                    Parsed::Got(i + 2, AnimationPosition::BottomRight)
                } else if w == "top"@ {
                    Parsed::Got(i + 1, AnimationPosition::Top)
                } else {
                    Parsed::Got(i + 1, AnimationPosition::Bottom)
                },
                None => if w == "top"@ {
                    Parsed::Got(i + 1, AnimationPosition::Top)
                } else {
                    Parsed::Got(i + 1, AnimationPosition::Bottom)
                },
            }
        } else {
            Parsed::Fail(err_word(ts, i, w))
        },
        None => Parsed::Fail(err_at(ts, i, ParseErrorKind::UnexpectedToken)),
    }
}

/// A facing direction: `left` or `right`.
pub open spec fn sp_direction(ts: Seq<TokenV>, i: int) -> Parsed<CharacterDirection> {
    match word_at(ts, i) {
        Some(w) => if w == "left"@ {
            Parsed::Got(i + 1, CharacterDirection::Left)
        } else if w == "right"@ {
            Parsed::Got(i + 1, CharacterDirection::Right)
        } else {
            Parsed::Fail(err_word(ts, i, w))
        },
        None => Parsed::Fail(err_at(ts, i, ParseErrorKind::UnexpectedToken)),
    }
}

/// A fresh spawn request: no emotion, no position, facing right, no
/// scale, fading as given.
pub open spec fn spawn_defaults(fading: bool) -> crate::actor::SpawnInfoV {
    crate::actor::SpawnInfoV {
        emotion: None,
        position: None,
        direction: CharacterDirection::Right,
        fading,
        scale: None,
    }
}

/// The modifiers of a spawn: `emotion` (characters only), `at` a
/// position, `looks` a direction, `scale` (animations only); they end at
/// the closing bracket.
pub open spec fn sp_modifiers(
    ts: Seq<TokenV>,
    i: int,
    info: crate::actor::SpawnInfoV,
    is_anim: bool,
) -> Parsed<crate::actor::SpawnInfoV>
    decreases ts.len() - i,
{
    match word_at(ts, i) {
        Some(w) => if w == "emotion"@ && !is_anim {
            match word_at(ts, i + 1) {
                Some(e) => sp_modifiers(
                    ts,
                    i + 2,
                    crate::actor::SpawnInfoV { emotion: Some(e), ..info },
                    is_anim,
                ),
                None => Parsed::Fail(err_at(ts, i + 1, ParseErrorKind::UnexpectedToken)),
            }
        } else if w == "at"@ && is_anim {
            match sp_anim_position(ts, i + 1) {
                Parsed::Got(j, p) => sp_modifiers(
                    ts,
                    j,
                    crate::actor::SpawnInfoV { position: Some(ActorPosition::Animation(p)), ..info },
                    is_anim,
                ),
                Parsed::Fail(e) => Parsed::Fail(e),
            }
        } else if w == "at"@ {
            match sp_char_position(ts, i + 1) {
                Parsed::Got(j, p) => sp_modifiers(
                    ts,
                    j,
                    crate::actor::SpawnInfoV { position: Some(ActorPosition::Character(p)), ..info },
                    is_anim,
                ),
                Parsed::Fail(e) => Parsed::Fail(e),
            }
        } else if w == "looks"@ {
            match sp_direction(ts, i + 1) {
                Parsed::Got(j, d) => sp_modifiers(
                    ts,
                    j,
                    crate::actor::SpawnInfoV { direction: d, ..info },
                    is_anim,
                ),
                Parsed::Fail(e) => Parsed::Fail(e),
            }
        } else if w == "scale"@ && is_anim {
            match num_at(ts, i + 1) {
                Some(n) => sp_modifiers(
                    ts,
                    i + 2,
                    crate::actor::SpawnInfoV { scale: Some(n), ..info },
                    is_anim,
                ),
                None => Parsed::Fail(err_at(ts, i + 1, ParseErrorKind::UnexpectedToken)),
            }
        } else {
            Parsed::Fail(err_word(ts, i, w))
        },
        None => Parsed::Got(i, info),
    }
}

/// A successful modifier run stays inside the tokens.
pub proof fn lemma_sp_modifiers_progress(
    ts: Seq<TokenV>,
    i: int,
    info: crate::actor::SpawnInfoV,
    is_anim: bool,
)
    requires
        i <= ts.len(),
    ensures
        sp_modifiers(ts, i, info, is_anim) matches Parsed::Got(j, _) ==> i <= j <= ts.len(),
    decreases ts.len() - i,
{
    match word_at(ts, i) {
        Some(w) => {
            if w == "emotion"@ && !is_anim {
                match word_at(ts, i + 1) {
                    Some(e) => {
                        lemma_sp_modifiers_progress(
                            ts,
                            i + 2,
                            crate::actor::SpawnInfoV { emotion: Some(e), ..info },
                            is_anim,
                        );
                    },
                    None => {},
                }
            } else if w == "at"@ && is_anim {
                match sp_anim_position(ts, i + 1) {
                    Parsed::Got(j, p) => {
                        lemma_sp_modifiers_progress(
                            ts,
                            j,
                            crate::actor::SpawnInfoV {
                                position: Some(ActorPosition::Animation(p)),
                                ..info
                            },
                            is_anim,
                        );
                    },
                    Parsed::Fail(_) => {},
                }
            } else if w == "at"@ {
                match sp_char_position(ts, i + 1) {
                    Parsed::Got(j, p) => {
                        lemma_sp_modifiers_progress(
                            ts,
                            j,
                            crate::actor::SpawnInfoV {
                                position: Some(ActorPosition::Character(p)),
                                ..info
                            },
                            is_anim,
                        );
                    },
                    Parsed::Fail(_) => {},
                }
            } else if w == "looks"@ {
                match sp_direction(ts, i + 1) {
                    Parsed::Got(j, d) => {
                        lemma_sp_modifiers_progress(
                            ts,
                            j,
                            crate::actor::SpawnInfoV { direction: d, ..info },
                            is_anim,
                        );
                    },
                    Parsed::Fail(_) => {},
                }
            } else if w == "scale"@ && is_anim {
                match num_at(ts, i + 1) {
                    Some(n) => {
                        lemma_sp_modifiers_progress(
                            ts,
                            i + 2,
                            crate::actor::SpawnInfoV { scale: Some(n), ..info },
                            is_anim,
                        );
                    },
                    None => {},
                }
            }
        },
        None => {},
    }
}

/// What an actor is asked to do: appear (with modifiers), fade in or
/// out, disappear, look to a side, or move to a position.
pub open spec fn sp_actor_directive(ts: Seq<TokenV>, i: int, is_anim: bool) -> Parsed<
    crate::actor::ActorOperationV,
> {
    match word_at(ts, i) {
        Some(w) => if w == "appears"@ {
            match sp_modifiers(ts, i + 1, spawn_defaults(false), is_anim) {
                Parsed::Got(j, info) => Parsed::Got(j, crate::actor::ActorOperationV::Spawn(info)),
                Parsed::Fail(e) => Parsed::Fail(e),
            }
        } else if w == "fade"@ {
            match word_at(ts, i + 1) {
                Some(w2) => if w2 == "in"@ {
                    match sp_modifiers(ts, i + 2, spawn_defaults(true), is_anim) {
                        Parsed::Got(j, info) => Parsed::Got(
                            j,
                            crate::actor::ActorOperationV::Spawn(info),
                        ),
                        Parsed::Fail(e) => Parsed::Fail(e),
                    }
                } else if w2 == "out"@ {
                    Parsed::Got(i + 2, crate::actor::ActorOperationV::Despawn(true))
                } else {
                    Parsed::Fail(err_word(ts, i + 1, w2))
                },
                None => Parsed::Fail(err_at(ts, i + 1, ParseErrorKind::UnexpectedToken)),
            }
        } else if w == "disappears"@ {
            Parsed::Got(i + 1, crate::actor::ActorOperationV::Despawn(false))
        } else if w == "looks"@ {
            match sp_direction(ts, i + 1) {
                Parsed::Got(j, d) => Parsed::Got(j, crate::actor::ActorOperationV::Look(d)),
                Parsed::Fail(e) => Parsed::Fail(e),
            }
        } else if w == "moves"@ && is_anim {
            match sp_anim_position(ts, i + 1) {
                Parsed::Got(j, p) => Parsed::Got(
                    j,
                    crate::actor::ActorOperationV::Move(ActorPosition::Animation(p)),
                ),
                Parsed::Fail(e) => Parsed::Fail(e),
            }
        } else if w == "moves"@ {
            match sp_char_position(ts, i + 1) {
                Parsed::Got(j, p) => Parsed::Got(
                    j,
                    crate::actor::ActorOperationV::Move(ActorPosition::Character(p)),
                ),
                Parsed::Fail(e) => Parsed::Fail(e),
            }
        } else {
            Parsed::Fail(err_word(ts, i, w))
        },
        None => Parsed::Fail(err_at(ts, i, ParseErrorKind::UnexpectedToken)),
    }
}

/// A successful directive stays inside the tokens.
pub proof fn lemma_sp_actor_directive_progress(ts: Seq<TokenV>, i: int, is_anim: bool)
    requires
        i <= ts.len(),
    ensures
        sp_actor_directive(ts, i, is_anim) matches Parsed::Got(j, _) ==> i <= j <= ts.len(),
{
    match word_at(ts, i) {
        Some(w) => {
            if w == "appears"@ {
                lemma_sp_modifiers_progress(ts, i + 1, spawn_defaults(false), is_anim);
            } else if w == "fade"@ {
                match word_at(ts, i + 1) {
                    Some(w2) => {
                        if w2 == "in"@ {
                            lemma_sp_modifiers_progress(ts, i + 2, spawn_defaults(true), is_anim);
                        }
                    },
                    None => {},
                }
            }
        },
        None => {},
    }
}

} // verus!

verus! {

/// The string literal at token `i`, if that token is one.
pub open spec fn str_at(ts: Seq<TokenV>, i: int) -> Option<Seq<char>> {
    if 0 <= i < ts.len() {
        match ts[i].kind {
            TokenKindV::Str(s) => Some(s),
            _ => None,
        }
    } else {
        None
    }
}

/// Closes a stage command: expects the closing bracket at `j`.
pub open spec fn close_cmd(ts: Seq<TokenV>, j: int, c: StageCommandV) -> Parsed<StageCommandV> {
    if 0 <= j < ts.len() && ts[j].kind is RBrack {
        Parsed::Got(j + 1, c)
    } else {
        Parsed::Fail(err_at(ts, j, ParseErrorKind::UnexpectedToken))
    }
}

/// A ui change of the textbox or namebox background sprite.
pub open spec fn ui_box_cmd(target: UiChangeTarget, e: ExprV, m: UiImageMode) -> StageCommandV {
    StageCommandV::UiChange {
        ui_target: target,
        target_font: None,
        sprite_expr: Some(e),
        image_mode: Some(m),
        ui_sounds: None,
        typing_sound: None,
    }
}

/// A ui change of the font, the interface sounds, or the typing sound.
pub open spec fn ui_single_cmd(target: UiChangeTarget, e: ExprV) -> StageCommandV {
    StageCommandV::UiChange {
        ui_target: target,
        target_font: if target is Font {
            Some(e)
        } else {
            None
        },
        sprite_expr: None,
        image_mode: None,
        ui_sounds: if target is UiSounds {
            Some(e)
        } else {
            None
        },
        typing_sound: if target is TypingSound {
            Some(e)
        } else {
            None
        },
    }
}

/// A background stage command, after its `background` keyword.
pub open spec fn sp_stage_background(ts: Seq<TokenV>, i: int) -> Parsed<StageCommandV> {
    match word_at(ts, i + 1) {
        Some(w2) => if w2 == "change"@ {
            match str_at(ts, i + 2) {
                Some(s) => close_cmd(
                    ts,
                    i + 3,
                    StageCommandV::BackgroundChange {
                        operation: crate::background::BackgroundOperationV::ChangeTo(s),
                    },
                ),
                None => Parsed::Fail(err_at(ts, i + 2, ParseErrorKind::UnexpectedToken)),
            }
        } else if w2 == "dissolve"@ {
            match str_at(ts, i + 2) {
                Some(s) => close_cmd(
                    ts,
                    i + 3,
                    StageCommandV::BackgroundChange {
                        operation: crate::background::BackgroundOperationV::DissolveTo(Some(s)),
                    },
                ),
                None => close_cmd(
                    ts,
                    i + 2,
                    StageCommandV::BackgroundChange {
                        operation: crate::background::BackgroundOperationV::DissolveTo(None),
                    },
                ),
            }
        } else if w2 == "slide"@ {
            match word_at(ts, i + 2) {
                Some(d) => {
                    let dir: Option<BackgroundDirection> = if d == "N"@ || d == "North"@ {
                        Some(BackgroundDirection::North)
                    } else if d == "S"@ || d == "South"@ {
                        Some(BackgroundDirection::South)
                    } else if d == "E"@ || d == "East"@ {
                        Some(BackgroundDirection::East)
                    } else if d == "W"@ || d == "West"@ {
                        Some(BackgroundDirection::West)
                    } else {
                        None
                    };
                    match dir {
                        Some(dir) => close_cmd(
                            ts,
                            i + 3,
                            StageCommandV::BackgroundChange {
                                operation: crate::background::BackgroundOperationV::SlideTo(dir),
                            },
                        ),
                        None => Parsed::Fail(err_word(ts, i + 2, d)),
                    }
                },
                None => Parsed::Fail(err_at(ts, i + 2, ParseErrorKind::UnexpectedToken)),
            }
        } else {
            Parsed::Fail(err_word(ts, i + 1, w2))
        },
        None => Parsed::Fail(err_at(ts, i + 1, ParseErrorKind::UnexpectedToken)),
    }
}

/// A ui stage command, after its `ui` keyword.
pub open spec fn sp_stage_ui(ts: Seq<TokenV>, i: int) -> Parsed<StageCommandV> {
    match word_at(ts, i + 1) {
        Some(t) => if t == "textbox"@ || t == "namebox"@ {
            match sp_expr(ts, i + 2) {
                Parsed::Got(j, e) => {
                    let target = if t == "textbox"@ {
                        UiChangeTarget::TextBoxBackground
                    } else {
                        UiChangeTarget::NameBoxBackground
                    };
                    match word_at(ts, j) {
                        Some(m) => if m == "sliced"@ {
                            close_cmd(ts, j + 1, ui_box_cmd(target, e, UiImageMode::Sliced))
                        } else {
                            Parsed::Fail(err_word(ts, j, m))
                        },
                        None => close_cmd(ts, j, ui_box_cmd(target, e, UiImageMode::Auto)),
                    }
                },
                Parsed::Fail(e) => Parsed::Fail(e),
            }
        } else if t == "font"@ || t == "sounds"@ || t == "typing"@ {
            match sp_expr(ts, i + 2) {
                Parsed::Got(j, e) => {
                    let target = if t == "font"@ {
                        UiChangeTarget::Font
                    } else if t == "sounds"@ {
                        UiChangeTarget::UiSounds
                    } else {
                        UiChangeTarget::TypingSound
                    };
                    close_cmd(ts, j, ui_single_cmd(target, e))
                },
                Parsed::Fail(e) => Parsed::Fail(e),
            }
        } else {
            Parsed::Fail(err_word(ts, i + 1, t))
        },
        None => Parsed::Fail(err_at(ts, i + 1, ParseErrorKind::UnexpectedToken)),
    }
}

/// A scene- or act-change stage command, after its first keyword.
pub open spec fn sp_stage_flow(ts: Seq<TokenV>, i: int, is_scene: bool) -> Parsed<StageCommandV> {
    match word_at(ts, i + 1) {
        Some(w2) => if w2 == "change"@ {
            match sp_expr(ts, i + 2) {
                Parsed::Got(j, e) => close_cmd(
                    ts,
                    j,
                    if is_scene {
                        StageCommandV::SceneChange { scene_expr: e }
                    } else {
                        StageCommandV::ActChange { act_expr: e }
                    },
                ),
                Parsed::Fail(e) => Parsed::Fail(e),
            }
        } else {
            Parsed::Fail(err_word(ts, i + 1, w2))
        },
        None => Parsed::Fail(err_at(ts, i + 1, ParseErrorKind::UnexpectedToken)),
    }
}

/// A character stage command, after its `character` keyword.
pub open spec fn sp_stage_character(ts: Seq<TokenV>, i: int) -> Parsed<StageCommandV> {
    match word_at(ts, i + 1) {
        Some(name) => match sp_actor_directive(ts, i + 2, false) {
            Parsed::Got(j, op) => close_cmd(
                ts,
                j,
                StageCommandV::CharacterChange { character: name, operation: op },
            ),
            Parsed::Fail(e) => Parsed::Fail(e),
        },
        None => Parsed::Fail(err_at(ts, i + 1, ParseErrorKind::UnexpectedToken)),
    }
}

/// An animation stage command, after its `animation` keyword; the name
/// may be a word or a quoted string.
pub open spec fn sp_stage_animation(ts: Seq<TokenV>, i: int) -> Parsed<StageCommandV> {
    let name = match word_at(ts, i + 1) {
        Some(n) => Some(n),
        None => str_at(ts, i + 1),
    };
    match name {
        Some(name) => match sp_actor_directive(ts, i + 2, true) {
            Parsed::Got(j, op) => close_cmd(
                ts,
                j,
                StageCommandV::AnimationChange { animation: name, operation: op },
            ),
            Parsed::Fail(e) => Parsed::Fail(e),
        },
        None => Parsed::Fail(err_at(ts, i + 1, ParseErrorKind::UnexpectedToken)),
    }
}

/// An audio stage command, after its `audio` keyword.
pub open spec fn sp_stage_audio(ts: Seq<TokenV>, i: int) -> Parsed<StageCommandV> {
    match word_at(ts, i + 1) {
        Some(cmd) => {
            let command: Option<AudioCommand> = if cmd == "start"@ {
                Some(AudioCommand::Start)
            } else if cmd == "stop"@ {
                Some(AudioCommand::Stop)
            } else if cmd == "pause"@ {
                Some(AudioCommand::Pause)
            } else if cmd == "unpause"@ {
                Some(AudioCommand::Unpause)
            } else {
                None
            };
            match command {
                Some(command) => match (word_at(ts, i + 2), str_at(ts, i + 3), num_at(ts, i + 4)) {
                    (Some(category), Some(track), Some(vol)) => close_cmd(
                        ts,
                        i + 5,
                        StageCommandV::AudioChange { command, category, audio: track, volume: vol },
                    ),
                    (None, _, _) => Parsed::Fail(err_at(ts, i + 2, ParseErrorKind::UnexpectedToken)),
                    (_, None, _) => Parsed::Fail(err_at(ts, i + 3, ParseErrorKind::UnexpectedToken)),
                    (_, _, None) => Parsed::Fail(err_at(ts, i + 4, ParseErrorKind::UnexpectedToken)),
                },
                None => Parsed::Fail(err_word(ts, i + 1, cmd)),
            }
        },
        None => Parsed::Fail(err_at(ts, i + 1, ParseErrorKind::UnexpectedToken)),
    }
}

/// A stage command, from the word after its opening bracket through its
/// closing bracket.
pub open spec fn sp_stage(ts: Seq<TokenV>, i: int) -> Parsed<StageCommandV> {
    match word_at(ts, i) {
        Some(w) => if w == "background"@ {
            sp_stage_background(ts, i)
        } else if w == "ui"@ {
            sp_stage_ui(ts, i)
        } else if w == "scene"@ {
            sp_stage_flow(ts, i, true)
        } else if w == "act"@ {
            sp_stage_flow(ts, i, false)
        } else if w == "character"@ {
            sp_stage_character(ts, i)
        } else if w == "animation"@ {
            sp_stage_animation(ts, i)
        } else if w == "audio"@ {
            sp_stage_audio(ts, i)
        } else {
            Parsed::Fail(err_word(ts, i, w))
        },
        None => Parsed::Fail(err_at(ts, i, ParseErrorKind::UnexpectedToken)),
    }
}

/// A successful stage command moves forward and stays inside the tokens.
pub proof fn lemma_sp_stage_progress(ts: Seq<TokenV>, i: int)
    requires
        i <= ts.len(),
    ensures
        sp_stage(ts, i) matches Parsed::Got(j, _) ==> i < j <= ts.len(),
{
    match word_at(ts, i) {
        Some(w) => {
            if w == "ui"@ || w == "scene"@ || w == "act"@ {
                lemma_sp_expr_progress(ts, i + 2);
            } else if w == "character"@ && i + 2 <= ts.len() {
                lemma_sp_actor_directive_progress(ts, i + 2, false);
            } else if w == "animation"@ && i + 2 <= ts.len() {
                lemma_sp_actor_directive_progress(ts, i + 2, true);
            }
        },
        None => {},
    }
}

} // verus!

verus! {

fn word_is(ts: &Vec<Token>, i: usize, kw: &str) -> (r: bool)
    ensures
        r == (word_at(tokens_view(ts@), i as int) matches Some(w) && w == kw@),
        ts@.len() <= usize::MAX as int,
{
    let n = ts.len();
    if i < n {
        match &ts[i].kind {
            TokenKind::Word(w) => str_eq(w.as_str(), kw),
            _ => false,
        }
    } else {
        false
    }
}

fn get_word(ts: &Vec<Token>, i: usize) -> (r: Option<String>)
    ensures
        match word_at(tokens_view(ts@), i as int) {
            Some(w) => r matches Some(s) && s@ == w,
            None => r is None,
        },
        ts@.len() <= usize::MAX as int,
{
    let n = ts.len();
    if i < n {
        match &ts[i].kind {
            TokenKind::Word(w) => Some(w.clone()),
            _ => None,
        }
    } else {
        None
    }
}

fn get_str(ts: &Vec<Token>, i: usize) -> (r: Option<String>)
    ensures
        match str_at(tokens_view(ts@), i as int) {
            Some(w) => r matches Some(s) && s@ == w,
            None => r is None,
        },
        ts@.len() <= usize::MAX as int,
{
    let n = ts.len();
    if i < n {
        match &ts[i].kind {
            TokenKind::Str(s) => Some(s.clone()),
            _ => None,
        }
    } else {
        None
    }
}

fn get_num(ts: &Vec<Token>, i: usize) -> (r: Option<i64>)
    ensures
        match num_at(tokens_view(ts@), i as int) {
            Some(n) => r == Some(n),
            None => r is None,
        },
        ts@.len() <= usize::MAX as int,
{
    let n = ts.len();
    if i < n {
        match &ts[i].kind {
            TokenKind::Num(n) => Some(*n),
            _ => None,
        }
    } else {
        None
    }
}

fn build_char_position(ts: &Vec<Token>, i: usize) -> (r: Result<
    (usize, CharacterPosition),
    ParseError,
>)
    ensures
        match r {
            Ok((j, p)) => sp_char_position(tokens_view(ts@), i as int) == Parsed::Got(j as int, p)
                && i < j <= ts@.len(),
            Err(e) => sp_char_position(tokens_view(ts@), i as int) == Parsed::Fail::<
                CharacterPosition,
            >(e@),
        },
{
    match get_word(ts, i) {
        Some(w) => {
            if str_eq(w.as_str(), "center") {
                Ok((i + 1, CharacterPosition::Center))
            } else if str_eq(w.as_str(), "left") {
                Ok((i + 1, CharacterPosition::Left))
            } else if str_eq(w.as_str(), "right") {
                Ok((i + 1, CharacterPosition::Right))
            } else if str_eq(w.as_str(), "far") || str_eq(w.as_str(), "invisible") {
                let far = str_eq(w.as_str(), "far");
                match get_word(ts, i + 1) {
                    Some(w2) => {
                        if str_eq(w2.as_str(), "left") {
                            Ok(
                                (
                                    i + 2,
                                    if far {
                                        CharacterPosition::FarLeft
                                    } else {
                                        CharacterPosition::InvisibleLeft
                                    },
                                ),
                            )
                        } else if str_eq(w2.as_str(), "right") {
                            Ok(
                                (
                                    i + 2,
                                    if far {
                                        CharacterPosition::FarRight
                                    } else {
                                        CharacterPosition::InvisibleRight
                                    },
                                ),
                            )
                        } else {
                            Err(
                                ParseError {
                                    kind: ParseErrorKind::UnknownWord,
                                    pos: ts[i + 1].pos,
                                    item: w2,
                                },
                            )
                        }
                    },
                    None => Err(err_at_exec(ts, i + 1, ParseErrorKind::UnexpectedToken)),
                }
            } else {
                Err(ParseError { kind: ParseErrorKind::UnknownWord, pos: ts[i].pos, item: w })
            }
        },
        None => Err(err_at_exec(ts, i, ParseErrorKind::UnexpectedToken)),
    }
}

fn build_anim_position(ts: &Vec<Token>, i: usize) -> (r: Result<
    (usize, AnimationPosition),
    ParseError,
>)
    ensures
        match r {
            Ok((j, p)) => sp_anim_position(tokens_view(ts@), i as int) == Parsed::Got(j as int, p)
                && i < j <= ts@.len(),
            Err(e) => sp_anim_position(tokens_view(ts@), i as int) == Parsed::Fail::<
                AnimationPosition,
            >(e@),
        },
{
    match get_word(ts, i) {
        Some(w) => {
            if str_eq(w.as_str(), "center") {
                Ok((i + 1, AnimationPosition::Center))
            } else if str_eq(w.as_str(), "left") {
                Ok((i + 1, AnimationPosition::Left))
            } else if str_eq(w.as_str(), "right") {
                Ok((i + 1, AnimationPosition::Right))
            } else if str_eq(w.as_str(), "top") || str_eq(w.as_str(), "bottom") {
                let top = str_eq(w.as_str(), "top");
                match get_word(ts, i + 1) {
                    Some(w2) => {
                        if str_eq(w2.as_str(), "left") && top {
                            Ok((i + 2, AnimationPosition::TopLeft))
                        } else if str_eq(w2.as_str(), "right") && top {
                            Ok((i + 2, AnimationPosition::TopRight))
                        } else if str_eq(w2.as_str(), "left") {
                            Ok((i + 2, AnimationPosition::BottomLeft))
                        } else if str_eq(w2.as_str(), "right") {
                            Ok((i + 2, AnimationPosition::BottomRight))
                        } else if top {
                            Ok((i + 1, AnimationPosition::Top))
                        } else {
                            Ok((i + 1, AnimationPosition::Bottom))
                        }
                    },
                    None => {
                        if top {
                            Ok((i + 1, AnimationPosition::Top))
                        } else {
                            Ok((i + 1, AnimationPosition::Bottom))
                        }
                    },
                }
            } else {
                Err(ParseError { kind: ParseErrorKind::UnknownWord, pos: ts[i].pos, item: w })
            }
        },
        None => Err(err_at_exec(ts, i, ParseErrorKind::UnexpectedToken)),
    }
}

fn build_direction(ts: &Vec<Token>, i: usize) -> (r: Result<
    (usize, CharacterDirection),
    ParseError,
>)
    ensures
        match r {
            Ok((j, d)) => sp_direction(tokens_view(ts@), i as int) == Parsed::Got(j as int, d) && i
                < j <= ts@.len(),
            Err(e) => sp_direction(tokens_view(ts@), i as int) == Parsed::Fail::<
                CharacterDirection,
            >(e@),
        },
{
    match get_word(ts, i) {
        Some(w) => {
            if str_eq(w.as_str(), "left") {
                Ok((i + 1, CharacterDirection::Left))
            } else if str_eq(w.as_str(), "right") {
                Ok((i + 1, CharacterDirection::Right))
            } else {
                Err(ParseError { kind: ParseErrorKind::UnknownWord, pos: ts[i].pos, item: w })
            }
        },
        None => Err(err_at_exec(ts, i, ParseErrorKind::UnexpectedToken)),
    }
}

fn build_modifiers(ts: &Vec<Token>, i: usize, info: SpawnInfo, is_anim: bool) -> (r: Result<
    (usize, SpawnInfo),
    ParseError,
>)
    requires
        i <= ts@.len(),
    ensures
        match r {
            Ok((j, v)) => sp_modifiers(tokens_view(ts@), i as int, info@, is_anim) == Parsed::Got(
                j as int,
                v@,
            ) && i <= j <= ts@.len(),
            Err(e) => sp_modifiers(tokens_view(ts@), i as int, info@, is_anim) == Parsed::Fail::<
                crate::actor::SpawnInfoV,
            >(e@),
        },
    decreases ts@.len() - i,
{
    proof {
        lemma_sp_modifiers_progress(tokens_view(ts@), i as int, info@, is_anim);
    }
    match get_word(ts, i) {
        Some(w) => {
            if str_eq(w.as_str(), "emotion") && !is_anim {
                match get_word(ts, i + 1) {
                    Some(e) => {
                        let info2 = SpawnInfo { emotion: Some(e), ..info };
                        build_modifiers(ts, i + 2, info2, is_anim)
                    },
                    None => Err(err_at_exec(ts, i + 1, ParseErrorKind::UnexpectedToken)),
                }
            } else if str_eq(w.as_str(), "at") && is_anim {
                match build_anim_position(ts, i + 1) {
                    Ok((j, p)) => {
                        let info2 = SpawnInfo {
                            position: Some(ActorPosition::Animation(p)),
                            ..info
                        };
                        build_modifiers(ts, j, info2, is_anim)
                    },
                    Err(e) => Err(e),
                }
            } else if str_eq(w.as_str(), "at") {
                match build_char_position(ts, i + 1) {
                    Ok((j, p)) => {
                        let info2 = SpawnInfo {
                            position: Some(ActorPosition::Character(p)),
                            ..info
                        };
                        build_modifiers(ts, j, info2, is_anim)
                    },
                    Err(e) => Err(e),
                }
            } else if str_eq(w.as_str(), "looks") {
                match build_direction(ts, i + 1) {
                    Ok((j, d)) => {
                        let info2 = SpawnInfo { direction: d, ..info };
                        build_modifiers(ts, j, info2, is_anim)
                    },
                    Err(e) => Err(e),
                }
            } else if str_eq(w.as_str(), "scale") && is_anim {
                match get_num(ts, i + 1) {
                    Some(n) => {
                        let info2 = SpawnInfo { scale: Some(n), ..info };
                        build_modifiers(ts, i + 2, info2, is_anim)
                    },
                    None => Err(err_at_exec(ts, i + 1, ParseErrorKind::UnexpectedToken)),
                }
            } else {
                Err(ParseError { kind: ParseErrorKind::UnknownWord, pos: ts[i].pos, item: w })
            }
        },
        None => Ok((i, info)),
    }
}

fn build_actor_directive(ts: &Vec<Token>, i: usize, is_anim: bool) -> (r: Result<
    (usize, ActorOperation),
    ParseError,
>)
    requires
        i <= ts@.len(),
    ensures
        match r {
            Ok((j, v)) => sp_actor_directive(tokens_view(ts@), i as int, is_anim) == Parsed::Got(
                j as int,
                v@,
            ) && i <= j <= ts@.len(),
            Err(e) => sp_actor_directive(tokens_view(ts@), i as int, is_anim) == Parsed::Fail::<
                crate::actor::ActorOperationV,
            >(e@),
        },
{
    proof {
        lemma_sp_actor_directive_progress(tokens_view(ts@), i as int, is_anim);
    }
    match get_word(ts, i) {
        Some(w) => {
            if str_eq(w.as_str(), "appears") {
                match build_modifiers(ts, i + 1, SpawnInfo::default(), is_anim) {
                    Ok((j, info)) => Ok((j, ActorOperation::Spawn(info))),
                    Err(e) => Err(e),
                }
            } else if str_eq(w.as_str(), "fade") {
                match get_word(ts, i + 1) {
                    Some(w2) => {
                        if str_eq(w2.as_str(), "in") {
                            let start = SpawnInfo { fading: true, ..SpawnInfo::default() };
                            match build_modifiers(ts, i + 2, start, is_anim) {
                                Ok((j, info)) => Ok((j, ActorOperation::Spawn(info))),
                                Err(e) => Err(e),
                            }
                        } else if str_eq(w2.as_str(), "out") {
                            Ok((i + 2, ActorOperation::Despawn(true)))
                        } else {
                            Err(
                                ParseError {
                                    kind: ParseErrorKind::UnknownWord,
                                    pos: ts[i + 1].pos,
                                    item: w2,
                                },
                            )
                        }
                    },
                    None => Err(err_at_exec(ts, i + 1, ParseErrorKind::UnexpectedToken)),
                }
            } else if str_eq(w.as_str(), "disappears") {
                Ok((i + 1, ActorOperation::Despawn(false)))
            } else if str_eq(w.as_str(), "looks") {
                match build_direction(ts, i + 1) {
                    Ok((j, d)) => Ok((j, ActorOperation::Look(d))),
                    Err(e) => Err(e),
                }
            } else if str_eq(w.as_str(), "moves") && is_anim {
                match build_anim_position(ts, i + 1) {
                    Ok((j, p)) => Ok((j, ActorOperation::Move(ActorPosition::Animation(p)))),
                    Err(e) => Err(e),
                }
            } else if str_eq(w.as_str(), "moves") {
                match build_char_position(ts, i + 1) {
                    Ok((j, p)) => Ok((j, ActorOperation::Move(ActorPosition::Character(p)))),
                    Err(e) => Err(e),
                }
            } else {
                Err(ParseError { kind: ParseErrorKind::UnknownWord, pos: ts[i].pos, item: w })
            }
        },
        None => Err(err_at_exec(ts, i, ParseErrorKind::UnexpectedToken)),
    }
}

} // verus!

verus! {

fn close_stage(ts: &Vec<Token>, j: usize, c: StageCommand) -> (r: Result<
    (usize, StageCommand),
    ParseError,
>)
    requires
        j <= ts@.len(),
    ensures
        match r {
            Ok((k, v)) => close_cmd(tokens_view(ts@), j as int, c@) == Parsed::Got(k as int, v@)
                && j < k <= ts@.len(),
            Err(e) => close_cmd(tokens_view(ts@), j as int, c@) == Parsed::Fail::<StageCommandV>(
                e@,
            ),
        },
{
    if j < ts.len() && matches!(&ts[j].kind, TokenKind::RBrack) {
        Ok((j + 1, c))
    } else {
        Err(err_at_exec(ts, j, ParseErrorKind::UnexpectedToken))
    }
}

/// Parses one stage command at token `i`, the word right after the
/// opening bracket, through its closing bracket; exactly [`sp_stage`].
pub fn build_stage_command(ts: &Vec<Token>, i: usize) -> (r: Result<(usize, Statement), ParseError>)
    requires
        i <= ts@.len(),
    ensures
        match r {
            Ok((j, st)) => st@ matches StatementV::Stage(cv) && sp_stage(tokens_view(ts@), i as int)
                == Parsed::Got(j as int, cv) && i < j <= ts@.len(),
            Err(e) => sp_stage(tokens_view(ts@), i as int) == Parsed::Fail::<StageCommandV>(e@),
        },
{
    proof {
        lemma_sp_stage_progress(tokens_view(ts@), i as int);
    }
    let cmd = build_stage_inner(ts, i);
    match cmd {
        Ok((j, c)) => Ok((j, Statement::Stage(c))),
        Err(e) => Err(e),
    }
}

fn build_stage_inner(ts: &Vec<Token>, i: usize) -> (r: Result<(usize, StageCommand), ParseError>)
    requires
        i <= ts@.len(),
    ensures
        match r {
            Ok((j, v)) => sp_stage(tokens_view(ts@), i as int) == Parsed::Got(j as int, v@) && i < j
                <= ts@.len(),
            Err(e) => sp_stage(tokens_view(ts@), i as int) == Parsed::Fail::<StageCommandV>(e@),
        },
{
    proof {
        lemma_sp_stage_progress(tokens_view(ts@), i as int);
    }
    match get_word(ts, i) {
        Some(w) => {
            if str_eq(w.as_str(), "background") {
                build_stage_background(ts, i)
            } else if str_eq(w.as_str(), "ui") {
                build_stage_ui(ts, i)
            } else if str_eq(w.as_str(), "scene") {
                build_stage_flow(ts, i, true)
            } else if str_eq(w.as_str(), "act") {
                build_stage_flow(ts, i, false)
            } else if str_eq(w.as_str(), "character") {
                build_stage_character(ts, i)
            } else if str_eq(w.as_str(), "animation") {
                build_stage_animation(ts, i)
            } else if str_eq(w.as_str(), "audio") {
                build_stage_audio(ts, i)
            } else {
                Err(ParseError { kind: ParseErrorKind::UnknownWord, pos: ts[i].pos, item: w })
            }
        },
        None => Err(err_at_exec(ts, i, ParseErrorKind::UnexpectedToken)),
    }
}

} // verus!

verus! {

fn build_stage_background(ts: &Vec<Token>, i: usize) -> (r: Result<
    (usize, StageCommand),
    ParseError,
>)
    requires
        i < ts@.len(),
    ensures
        match r {
            Ok((j, v)) => sp_stage_background(tokens_view(ts@), i as int) == Parsed::Got(
                j as int,
                v@,
            ) && i < j <= ts@.len(),
            Err(e) => sp_stage_background(tokens_view(ts@), i as int) == Parsed::Fail::<
                StageCommandV,
            >(e@),
        },
{
    let n = ts.len();
    proof {
        assert(i + 1 <= n);
    }
    match get_word(ts, i + 1) {
        Some(w2) => {
            if str_eq(w2.as_str(), "change") {
                match get_str(ts, i + 2) {
                    Some(s) => close_stage(
                        ts,
                        i + 3,
                        StageCommand::BackgroundChange {
                            operation: BackgroundOperation::ChangeTo(s),
                        },
                    ),
                    None => Err(err_at_exec(ts, i + 2, ParseErrorKind::UnexpectedToken)),
                }
            } else if str_eq(w2.as_str(), "dissolve") {
                match get_str(ts, i + 2) {
                    Some(s) => close_stage(
                        ts,
                        i + 3,
                        StageCommand::BackgroundChange {
                            operation: BackgroundOperation::DissolveTo(Some(s)),
                        },
                    ),
                    None => close_stage(
                        ts,
                        i + 2,
                        StageCommand::BackgroundChange {
                            operation: BackgroundOperation::DissolveTo(None),
                        },
                    ),
                }
            } else if str_eq(w2.as_str(), "slide") {
                match get_word(ts, i + 2) {
                    Some(d) => {
                        let dir = if str_eq(d.as_str(), "N") || str_eq(d.as_str(), "North") {
                            Some(BackgroundDirection::North)
                        } else if str_eq(d.as_str(), "S") || str_eq(d.as_str(), "South") {
                            Some(BackgroundDirection::South)
                        } else if str_eq(d.as_str(), "E") || str_eq(d.as_str(), "East") {
                            Some(BackgroundDirection::East)
                        } else if str_eq(d.as_str(), "W") || str_eq(d.as_str(), "West") {
                            Some(BackgroundDirection::West)
                        } else {
                            None
                        };
                        match dir {
                            Some(dir) => close_stage(
                                ts,
                                i + 3,
                                StageCommand::BackgroundChange {
                                    operation: BackgroundOperation::SlideTo(dir),
                                },
                            ),
                            None => Err(
                                ParseError {
                                    kind: ParseErrorKind::UnknownWord,
                                    pos: ts[i + 2].pos,
                                    item: d,
                                },
                            ),
                        }
                    },
                    None => Err(err_at_exec(ts, i + 2, ParseErrorKind::UnexpectedToken)),
                }
            } else {
                Err(
                    ParseError {
                        kind: ParseErrorKind::UnknownWord,
                        pos: ts[i + 1].pos,
                        item: w2,
                    },
                )
            }
        },
        None => Err(err_at_exec(ts, i + 1, ParseErrorKind::UnexpectedToken)),
    }
}

fn build_stage_ui(ts: &Vec<Token>, i: usize) -> (r: Result<(usize, StageCommand), ParseError>)
    requires
        i < ts@.len(),
    ensures
        match r {
            Ok((j, v)) => sp_stage_ui(tokens_view(ts@), i as int) == Parsed::Got(j as int, v@) && i
                < j <= ts@.len(),
            Err(e) => sp_stage_ui(tokens_view(ts@), i as int) == Parsed::Fail::<StageCommandV>(e@),
        },
{
    let n = ts.len();
    proof {
        assert(i + 1 <= n);
    }
    match get_word(ts, i + 1) {
        Some(t) => {
            if str_eq(t.as_str(), "textbox") || str_eq(t.as_str(), "namebox") {
                let target = if str_eq(t.as_str(), "textbox") {
                    UiChangeTarget::TextBoxBackground
                } else {
                    UiChangeTarget::NameBoxBackground
                };
                match build_expression(ts, i + 2) {
                    Ok((j, e)) => {
                        match get_word(ts, j) {
                            Some(m) => {
                                if str_eq(m.as_str(), "sliced") {
                                    close_stage(
                                        ts,
                                        j + 1,
                                        StageCommand::UiChange {
                                            ui_target: target,
                                            target_font: None,
                                            sprite_expr: Some(Box::new(e)),
                                            image_mode: Some(UiImageMode::Sliced),
                                            ui_sounds: None,
                                            typing_sound: None,
                                        },
                                    )
                                } else {
                                    Err(
                                        ParseError {
                                            kind: ParseErrorKind::UnknownWord,
                                            pos: ts[j].pos,
                                            item: m,
                                        },
                                    )
                                }
                            },
                            None => close_stage(
                                ts,
                                j,
                                StageCommand::UiChange {
                                    ui_target: target,
                                    target_font: None,
                                    sprite_expr: Some(Box::new(e)),
                                    image_mode: Some(UiImageMode::Auto),
                                    ui_sounds: None,
                                    typing_sound: None,
                                },
                            ),
                        }
                    },
                    Err(e) => Err(e),
                }
            } else if str_eq(t.as_str(), "font") || str_eq(t.as_str(), "sounds") || str_eq(
                t.as_str(),
                "typing",
            ) {
                let target = if str_eq(t.as_str(), "font") {
                    UiChangeTarget::Font
                } else if str_eq(t.as_str(), "sounds") {
                    UiChangeTarget::UiSounds
                } else {
                    UiChangeTarget::TypingSound
                };
                match build_expression(ts, i + 2) {
                    Ok((j, e)) => {
                        let cmd = StageCommand::UiChange {
                            ui_target: target,
                            target_font: if matches!(target, UiChangeTarget::Font) {
                                Some(Box::new(e.clone()))
                            } else {
                                None
                            },
                            sprite_expr: None,
                            image_mode: None,
                            ui_sounds: if matches!(target, UiChangeTarget::UiSounds) {
                                Some(Box::new(e.clone()))
                            } else {
                                None
                            },
                            typing_sound: if matches!(target, UiChangeTarget::TypingSound) {
                                Some(Box::new(e))
                            } else {
                                None
                            },
                        };
                        close_stage(ts, j, cmd)
                    },
                    Err(e) => Err(e),
                }
            } else {
                Err(ParseError { kind: ParseErrorKind::UnknownWord, pos: ts[i + 1].pos, item: t })
            }
        },
        None => Err(err_at_exec(ts, i + 1, ParseErrorKind::UnexpectedToken)),
    }
}

fn build_stage_flow(ts: &Vec<Token>, i: usize, is_scene: bool) -> (r: Result<
    (usize, StageCommand),
    ParseError,
>)
    requires
        i < ts@.len(),
    ensures
        match r {
            Ok((j, v)) => sp_stage_flow(tokens_view(ts@), i as int, is_scene) == Parsed::Got(
                j as int,
                v@,
            ) && i < j <= ts@.len(),
            Err(e) => sp_stage_flow(tokens_view(ts@), i as int, is_scene) == Parsed::Fail::<
                StageCommandV,
            >(e@),
        },
{
    let n = ts.len();
    proof {
        assert(i + 1 <= n);
    }
    match get_word(ts, i + 1) {
        Some(w2) => {
            if str_eq(w2.as_str(), "change") {
                match build_expression(ts, i + 2) {
                    Ok((j, e)) => close_stage(
                        ts,
                        j,
                        if is_scene {
                            StageCommand::SceneChange { scene_expr: Box::new(e) }
                        } else {
                            StageCommand::ActChange { act_expr: Box::new(e) }
                        },
                    ),
                    Err(e) => Err(e),
                }
            } else {
                Err(ParseError { kind: ParseErrorKind::UnknownWord, pos: ts[i + 1].pos, item: w2 })
            }
        },
        None => Err(err_at_exec(ts, i + 1, ParseErrorKind::UnexpectedToken)),
    }
}

fn build_stage_character(ts: &Vec<Token>, i: usize) -> (r: Result<
    (usize, StageCommand),
    ParseError,
>)
    requires
        i < ts@.len(),
    ensures
        match r {
            Ok((j, v)) => sp_stage_character(tokens_view(ts@), i as int) == Parsed::Got(
                j as int,
                v@,
            ) && i < j <= ts@.len(),
            Err(e) => sp_stage_character(tokens_view(ts@), i as int) == Parsed::Fail::<
                StageCommandV,
            >(e@),
        },
{
    let n = ts.len();
    proof {
        assert(i + 1 <= n);
    }
    match get_word(ts, i + 1) {
        Some(name) => {
            if i + 2 <= ts.len() {
                match build_actor_directive(ts, i + 2, false) {
                    Ok((j, op)) => close_stage(
                        ts,
                        j,
                        StageCommand::CharacterChange { character: name, operation: op },
                    ),
                    Err(e) => Err(e),
                }
            } else {
                Err(err_at_exec(ts, i + 2, ParseErrorKind::UnexpectedToken))
            }
        },
        None => Err(err_at_exec(ts, i + 1, ParseErrorKind::UnexpectedToken)),
    }
}

fn build_stage_animation(ts: &Vec<Token>, i: usize) -> (r: Result<
    (usize, StageCommand),
    ParseError,
>)
    requires
        i < ts@.len(),
    ensures
        match r {
            Ok((j, v)) => sp_stage_animation(tokens_view(ts@), i as int) == Parsed::Got(
                j as int,
                v@,
            ) && i < j <= ts@.len(),
            Err(e) => sp_stage_animation(tokens_view(ts@), i as int) == Parsed::Fail::<
                StageCommandV,
            >(e@),
        },
{
    let n = ts.len();
    proof {
        assert(i + 1 <= n);
    }
    let name = match get_word(ts, i + 1) {
        Some(n) => Some(n),
        None => get_str(ts, i + 1),
    };
    match name {
        Some(name) => {
            if i + 2 <= ts.len() {
                match build_actor_directive(ts, i + 2, true) {
                    Ok((j, op)) => close_stage(
                        ts,
                        j,
                        StageCommand::AnimationChange { animation: name, operation: op },
                    ),
                    Err(e) => Err(e),
                }
            } else {
                Err(err_at_exec(ts, i + 2, ParseErrorKind::UnexpectedToken))
            }
        },
        None => Err(err_at_exec(ts, i + 1, ParseErrorKind::UnexpectedToken)),
    }
}

fn build_stage_audio(ts: &Vec<Token>, i: usize) -> (r: Result<(usize, StageCommand), ParseError>)
    requires
        i < ts@.len(),
    ensures
        match r {
            Ok((j, v)) => sp_stage_audio(tokens_view(ts@), i as int) == Parsed::Got(j as int, v@)
                && i < j <= ts@.len(),
            Err(e) => sp_stage_audio(tokens_view(ts@), i as int) == Parsed::Fail::<StageCommandV>(
                e@,
            ),
        },
{
    let n = ts.len();
    proof {
        assert(i + 1 <= n);
    }
    match get_word(ts, i + 1) {
        Some(cmd) => {
            let command = if str_eq(cmd.as_str(), "start") {
                Some(AudioCommand::Start)
            } else if str_eq(cmd.as_str(), "stop") {
                Some(AudioCommand::Stop)
            } else if str_eq(cmd.as_str(), "pause") {
                Some(AudioCommand::Pause)
            } else if str_eq(cmd.as_str(), "unpause") {
                Some(AudioCommand::Unpause)
            } else {
                None
            };
            match command {
                Some(command) => match get_word(ts, i + 2) {
                    Some(category) => match get_str(ts, i + 3) {
                        Some(track) => match get_num(ts, i + 4) {
                            Some(vol) => close_stage(
                                ts,
                                i + 5,
                                StageCommand::AudioChange {
                                    command,
                                    category,
                                    audio: track,
                                    volume: vol,
                                },
                            ),
                            None => Err(err_at_exec(ts, i + 4, ParseErrorKind::UnexpectedToken)),
                        },
                        None => Err(err_at_exec(ts, i + 3, ParseErrorKind::UnexpectedToken)),
                    },
                    None => Err(err_at_exec(ts, i + 2, ParseErrorKind::UnexpectedToken)),
                },
                None => Err(
                    ParseError {
                        kind: ParseErrorKind::UnknownWord,
                        pos: ts[i + 1].pos,
                        item: cmd,
                    },
                ),
            }
        },
        None => Err(err_at_exec(ts, i + 1, ParseErrorKind::UnexpectedToken)),
    }
}

} // verus!

verus! {

/// Whether token `i` is a colon.
pub open spec fn colon_at(ts: Seq<TokenV>, i: int) -> bool {
    0 <= i < ts.len() && ts[i].kind is Colon
}

/// The dialogue statements of one line: the speaker says each expression
/// in turn.
pub open spec fn dialogues_of(speaker: Seq<char>, exprs: Seq<ExprV>) -> Seq<StatementV> {
    exprs.map_values(
        |e: ExprV|
            StatementV::TextItem(
                TextItemV::Dialogue(DialogueV { character: speaker, dialogue: e }),
            ),
    )
}

/// The implicit emotion change in front of a dialogue line with an
/// emotion tag.
pub open spec fn emotion_stmt(speaker: Seq<char>, emo: Seq<char>) -> StatementV {
    StatementV::Stage(
        StageCommandV::CharacterChange {
            character: speaker,
            operation: crate::actor::ActorOperationV::EmotionChange(emo),
        },
    )
}

/// A log statement, after its `log` keyword: the expressions to write to
/// the diagnostic sink.
pub open spec fn sp_code(ts: Seq<TokenV>, i: int) -> Parsed<StatementV> {
    match sp_expr_list(ts, i + 1) {
        Parsed::Got(j, es) => Parsed::Got(j, StatementV::Code(CodeStatementV::Log { exprs: es })),
        Parsed::Fail(e) => Parsed::Fail(e),
    }
}

/// A narration line: `narrator`, a colon, one expression.
pub open spec fn sp_infotext(ts: Seq<TokenV>, i: int) -> Parsed<StatementV> {
    if colon_at(ts, i + 1) {
        match sp_expr(ts, i + 2) {
            Parsed::Got(j, e) => Parsed::Got(
                j,
                StatementV::TextItem(TextItemV::InfoText(InfoTextV { infotext: e })),
            ),
            Parsed::Fail(e) => Parsed::Fail(e),
        }
    } else {
        Parsed::Fail(err_at(ts, i + 1, ParseErrorKind::UnexpectedToken))
    }
}

/// A dialogue line: a speaker, a colon, an optional emotion tag, and one
/// or more comma-separated text expressions, each its own dialogue
/// statement.
pub open spec fn sp_dialogue(ts: Seq<TokenV>, i: int) -> Parsed<Seq<StatementV>> {
    match word_at(ts, i) {
        Some(speaker) => if colon_at(ts, i + 1) {
            match word_at(ts, i + 2) {
                Some(emo) => if colon_at(ts, i + 3) {
                    match sp_expr_list(ts, i + 4) {
                        Parsed::Got(j, es) => Parsed::Got(
                            j,
                            seq![emotion_stmt(speaker, emo)] + dialogues_of(speaker, es),
                        ),
                        Parsed::Fail(e) => Parsed::Fail(e),
                    }
                } else {
                    Parsed::Fail(err_at(ts, i + 2, ParseErrorKind::UnexpectedToken))
                },
                None => match sp_expr_list(ts, i + 2) {
                    Parsed::Got(j, es) => Parsed::Got(j, dialogues_of(speaker, es)),
                    Parsed::Fail(e) => Parsed::Fail(e),
                },
            }
        } else {
            Parsed::Fail(err_at(ts, i + 1, ParseErrorKind::UnexpectedToken))
        },
        None => Parsed::Fail(err_at(ts, i, ParseErrorKind::UnexpectedToken)),
    }
}

/// One statement: a bracketed stage command, a log line, a narration
/// line, or a dialogue line.
pub open spec fn sp_statement(ts: Seq<TokenV>, i: int) -> Parsed<Seq<StatementV>> {
    if 0 <= i < ts.len() && ts[i].kind is LBrack {
        match sp_stage(ts, i + 1) {
            Parsed::Got(j, c) => Parsed::Got(j, seq![StatementV::Stage(c)]),
            Parsed::Fail(e) => Parsed::Fail(e),
        }
    } else {
        match word_at(ts, i) {
            Some(w) => if w == "log"@ {
                match sp_code(ts, i) {
                    Parsed::Got(j, st) => Parsed::Got(j, seq![st]),
                    Parsed::Fail(e) => Parsed::Fail(e),
                }
            } else if w == "narrator"@ && colon_at(ts, i + 1) {
                match sp_infotext(ts, i) {
                    Parsed::Got(j, st) => Parsed::Got(j, seq![st]),
                    Parsed::Fail(e) => Parsed::Fail(e),
                }
            } else {
                sp_dialogue(ts, i)
            },
            None => Parsed::Fail(err_at(ts, i, ParseErrorKind::UnexpectedToken)),
        }
    }
}

/// A successful statement moves forward and yields no more statements
/// than tokens it consumed.
pub proof fn lemma_sp_statement_progress(ts: Seq<TokenV>, i: int)
    requires
        i <= ts.len(),
    ensures
        sp_statement(ts, i) matches Parsed::Got(j, sts) ==> i < j <= ts.len() && sts.len() <= j - i,
{
    if 0 <= i < ts.len() && ts[i].kind is LBrack {
        lemma_sp_stage_progress(ts, i + 1);
    } else {
        lemma_sp_expr_list_progress(ts, i + 1);
        lemma_sp_expr_list_progress(ts, i + 2);
        lemma_sp_expr_list_progress(ts, i + 4);
        lemma_sp_expr_progress(ts, i + 2);
    }
}

/// The accumulated scenes once the one being built is closed.
pub open spec fn close_scene(scenes: Seq<SceneV>, cur: Option<SceneV>) -> Seq<SceneV> {
    match cur {
        Some(sc) => scenes.push(sc),
        None => scenes,
    }
}

/// Whether the scene being built holds more statements than a cursor
/// position can address.
pub open spec fn cur_too_long(cur: Option<SceneV>) -> bool {
    match cur {
        Some(sc) => sc.statements.len() > i64::MAX,
        None => false,
    }
}

/// Whether a scene of this name was already built.
pub open spec fn name_taken(scenes: Seq<SceneV>, name: Seq<char>) -> bool {
    exists|k: int| 0 <= k < scenes.len() && scenes[k].name == name
}

/// Whether tokens `i` and `i + 1` open a scene: the word `scene` followed
/// by a name.
pub open spec fn is_scene_header(ts: Seq<TokenV>, i: int) -> bool {
    match word_at(ts, i) {
        Some(w) => w == "scene"@ && word_at(ts, i + 1) is Some,
        None => false,
    }
}

/// The scenes of the script from token `i` on, given the scenes already
/// built and the one being built: a `scene` header closes the current
/// scene and opens a named one (duplicate names are rejected), blank
/// lines pass, and every other token must start a statement of the
/// current scene.
pub open spec fn sp_scenes(
    ts: Seq<TokenV>,
    i: int,
    scenes: Seq<SceneV>,
    cur: Option<SceneV>,
) -> Result<Seq<SceneV>, ParseErrorV>
    decreases ts.len() - i,
    via sp_scenes_dec
{
    if !(0 <= i < ts.len()) {
        if cur_too_long(cur) {
            Err(
                ParseErrorV {
                    kind: ParseErrorKind::SceneTooLong,
                    pos: eof_pos(ts),
                    item: cur.unwrap().name,
                },
            )
        } else {
            Ok(close_scene(scenes, cur))
        }
    } else if ts[i].kind is Newline {
        sp_scenes(ts, i + 1, scenes, cur)
    } else if is_scene_header(ts, i) {
        let name = word_at(ts, i + 1).unwrap();
        if cur_too_long(cur) {
            Err(
                ParseErrorV {
                    kind: ParseErrorKind::SceneTooLong,
                    pos: ts[i].pos,
                    item: cur.unwrap().name,
                },
            )
        } else {
            let scenes1 = close_scene(scenes, cur);
            if name_taken(scenes1, name) {
                Err(
                    ParseErrorV {
                        kind: ParseErrorKind::DuplicateScene,
                        pos: ts[i + 1].pos,
                        item: name,
                    },
                )
            } else {
                sp_scenes(ts, i + 2, scenes1, Some(SceneV { name, statements: Seq::empty() }))
            }
        }
    } else {
        match cur {
            None => Err(err_at(ts, i, ParseErrorKind::UnexpectedToken)),
            Some(sc) => match sp_statement(ts, i) {
                Parsed::Got(j, sts) => sp_scenes(
                    ts,
                    j,
                    scenes,
                    Some(SceneV { name: sc.name, statements: sc.statements + sts }),
                ),
                Parsed::Fail(e) => Err(e),
            },
        }
    }
}

#[via_fn]
proof fn sp_scenes_dec(ts: Seq<TokenV>, i: int, scenes: Seq<SceneV>, cur: Option<SceneV>) {
    if 0 <= i < ts.len() {
        lemma_sp_statement_progress(ts, i);
    }
}

/// The act of a whole token sequence: its scenes in source order, the
/// first scene's name as entrypoint; a script without scenes is
/// rejected.
pub open spec fn sp_act(ts: Seq<TokenV>) -> Result<ActV, ParseErrorV> {
    match sp_scenes(ts, 0, Seq::empty(), None) {
        Ok(scenes) => if scenes.len() == 0 {
            Err(ParseErrorV { kind: ParseErrorKind::EmptyAct, pos: 0, item: Seq::empty() })
        } else {
            Ok(ActV { scenes, name: Seq::empty(), entrypoint: scenes[0].name })
        },
        Err(e) => Err(e),
    }
}

/// The act of a script text: tokens first, then scenes.
pub open spec fn parse_spec(cs: Seq<char>) -> Result<ActV, ParseErrorV> {
    match tokenize_spec(cs) {
        Ok(ts) => sp_act(ts),
        Err(e) => Err(e),
    }
}

/// Scene assembly keeps names unique and statement counts addressable.
pub proof fn lemma_sp_scenes_wf(ts: Seq<TokenV>, i: int, scenes: Seq<SceneV>, cur: Option<SceneV>)
    requires
        scene_names_unique(scenes),
        cur matches Some(sc) ==> !name_taken(scenes, sc.name),
        forall|k: int|
            0 <= k < scenes.len() ==> (#[trigger] scenes[k].statements.len()) <= i64::MAX,
    ensures
        sp_scenes(ts, i, scenes, cur) matches Ok(out) ==> scene_names_unique(out) && forall|k: int|
            0 <= k < out.len() ==> (#[trigger] out[k].statements.len()) <= i64::MAX,
    decreases ts.len() - i,
{
    if !(0 <= i < ts.len()) {
    } else if ts[i].kind is Newline {
        lemma_sp_scenes_wf(ts, i + 1, scenes, cur);
    } else if is_scene_header(ts, i) {
        let name = word_at(ts, i + 1).unwrap();
        if !cur_too_long(cur) {
            let scenes1 = close_scene(scenes, cur);
            if !name_taken(scenes1, name) {
                lemma_sp_scenes_wf(ts, i + 2, scenes1, Some(
                    SceneV { name, statements: Seq::empty() },
                ));
            }
        }
    } else {
        match cur {
            None => {},
            Some(sc) => {
                match sp_statement(ts, i) {
                    Parsed::Got(j, sts) => {
                        lemma_sp_statement_progress(ts, i);
                        lemma_sp_scenes_wf(
                            ts,
                            j,
                            scenes,
                            Some(SceneV { name: sc.name, statements: sc.statements + sts }),
                        );
                    },
                    Parsed::Fail(_) => {},
                }
            },
        }
    }
}

/// Law: a successfully parsed act is well formed — it holds at least one
/// scene, its scene names are unique, its entrypoint is the first
/// scene's name — and every scene fits the cursor.
pub proof fn lemma_parse_act_wf(cs: Seq<char>)
    ensures
        parse_spec(cs) matches Ok(a) ==> a.wf() && crate::compiler::ast::act_scenes_fit(a),
{
    match tokenize_spec(cs) {
        Ok(ts) => {
            lemma_sp_scenes_wf(ts, 0, Seq::empty(), None);
        },
        Err(_) => {},
    }
}

} // verus!

verus! {

/// The view of the scene being built, if any.
pub open spec fn opt_scene_view(c: Option<Scene>) -> Option<SceneV> {
    match c {
        Some(sc) => Some(sc@),
        None => None,
    }
}

/// Parses one log statement at token `i`, its `log` keyword; exactly
/// [`sp_code`].
pub fn build_code_statement(ts: &Vec<Token>, i: usize) -> (r: Result<(usize, Statement), ParseError>)
    requires
        i < ts@.len(),
    ensures
        match r {
            Ok((j, st)) => sp_code(tokens_view(ts@), i as int) == Parsed::Got(j as int, st@) && i
                < j <= ts@.len(),
            Err(e) => sp_code(tokens_view(ts@), i as int) == Parsed::Fail::<StatementV>(e@),
        },
{
    let n = ts.len();
    match build_expr_list(ts, i + 1) {
        Ok((j, es)) => Ok((j, Statement::Code(CodeStatement::Log { exprs: es }))),
        Err(e) => Err(e),
    }
}

/// Parses one narration line at token `i`, its `narrator` word; exactly
/// [`sp_infotext`].
pub fn build_infotext(ts: &Vec<Token>, i: usize) -> (r: Result<(usize, Statement), ParseError>)
    requires
        i < ts@.len(),
    ensures
        match r {
            Ok((j, st)) => sp_infotext(tokens_view(ts@), i as int) == Parsed::Got(j as int, st@)
                && i < j <= ts@.len(),
            Err(e) => sp_infotext(tokens_view(ts@), i as int) == Parsed::Fail::<StatementV>(e@),
        },
{
    let n = ts.len();
    if i + 1 < n && matches!(&ts[i + 1].kind, TokenKind::Colon) {
        match build_expression(ts, i + 2) {
            Ok((j, e)) => Ok((j, Statement::TextItem(TextItem::InfoText(InfoText { infotext: e })))),
            Err(e) => Err(e),
        }
    } else {
        Err(err_at_exec(ts, i + 1, ParseErrorKind::UnexpectedToken))
    }
}

fn push_dialogues(speaker: &String, es: &Vec<Expr>, out: &mut Vec<Statement>)
    ensures
        stmts_view(final(out)@) == stmts_view(old(out)@) + dialogues_of(speaker@, exprs_view(es@)),
{
    let n = es.len();
    let mut k: usize = 0;
    proof {
        assert(stmts_view(out@) =~= stmts_view(out@) + dialogues_of(
            speaker@,
            exprs_view(es@).take(0),
        ));
    }
    while k < n
        invariant
            n == es@.len(),
            k <= n,
            stmts_view(out@) == stmts_view(old(out)@) + dialogues_of(
                speaker@,
                exprs_view(es@).take(k as int),
            ),
        decreases n - k,
    {
        let ghost prefix = exprs_view(es@).take(k as int);
        let st = Statement::TextItem(
            TextItem::Dialogue(Dialogue { character: speaker.clone(), dialogue: es[k].clone() }),
        );
        proof {
            assert(st@ == StatementV::TextItem(
                TextItemV::Dialogue(
                    DialogueV { character: speaker@, dialogue: exprs_view(es@)[k as int] },
                ),
            ));
        }
        let ghost outv0 = stmts_view(out@);
        let ghost stv = st@;
        out.push(st);
        proof {
            assert(stmts_view(out@) =~= outv0.push(stv));
            assert(exprs_view(es@).take(k + 1) =~= prefix.push(exprs_view(es@)[k as int]));
            assert(dialogues_of(speaker@, prefix.push(exprs_view(es@)[k as int])) =~= dialogues_of(
                speaker@,
                prefix,
            ).push(
                StatementV::TextItem(
                    TextItemV::Dialogue(
                        DialogueV { character: speaker@, dialogue: exprs_view(es@)[k as int] },
                    ),
                ),
            ));
            assert(stmts_view(old(out)@) + dialogues_of(speaker@, exprs_view(es@).take(k + 1))
                =~= (stmts_view(old(out)@) + dialogues_of(speaker@, prefix)).push(stv));
            assert(stmts_view(out@) =~= stmts_view(old(out)@) + dialogues_of(
                speaker@,
                exprs_view(es@).take(k + 1),
            ));
        }
        k = k + 1;
    }
    proof {
        assert(exprs_view(es@).take(n as int) =~= exprs_view(es@));
    }
}

/// Parses one dialogue line at token `i`, its speaker word: the optional
/// emotion tag becomes an implicit character change, and every text
/// expression becomes one dialogue statement; exactly [`sp_dialogue`].
pub fn build_dialogue(ts: &Vec<Token>, i: usize) -> (r: Result<(usize, Vec<Statement>), ParseError>)
    requires
        i < ts@.len(),
    ensures
        match r {
            Ok((j, v)) => sp_dialogue(tokens_view(ts@), i as int) == Parsed::Got(
                j as int,
                stmts_view(v@),
            ) && i < j <= ts@.len(),
            Err(e) => sp_dialogue(tokens_view(ts@), i as int) == Parsed::Fail::<Seq<StatementV>>(
                e@,
            ),
        },
{
    let n = ts.len();
    match get_word(ts, i) {
        Some(speaker) => {
            if i + 1 < n && matches!(&ts[i + 1].kind, TokenKind::Colon) {
                match get_word(ts, i + 2) {
                    Some(emo) => {
                        if i + 3 < n && matches!(&ts[i + 3].kind, TokenKind::Colon) {
                            match build_expr_list(ts, i + 4) {
                                Ok((j, es)) => {
                                    let mut out: Vec<Statement> = Vec::new();
                                    out.push(
                                        Statement::Stage(
                                            StageCommand::CharacterChange {
                                                character: speaker.clone(),
                                                operation: ActorOperation::EmotionChange(emo),
                                            },
                                        ),
                                    );
                                    proof {
                                        assert(stmts_view(out@) =~= seq![
                                            emotion_stmt(speaker@, emo@),
                                        ]);
                                    }
                                    push_dialogues(&speaker, &es, &mut out);
                                    proof {
                                        assert(stmts_view(out@) =~= seq![
                                            emotion_stmt(speaker@, emo@),
                                        ] + dialogues_of(speaker@, exprs_view(es@)));
                                    }
                                    Ok((j, out))
                                },
                                Err(e) => Err(e),
                            }
                        } else {
                            Err(err_at_exec(ts, i + 2, ParseErrorKind::UnexpectedToken))
                        }
                    },
                    None => {
                        match build_expr_list(ts, i + 2) {
                            Ok((j, es)) => {
                                let mut out: Vec<Statement> = Vec::new();
                                proof {
                                    assert(stmts_view(out@) =~= Seq::<StatementV>::empty());
                                }
                                push_dialogues(&speaker, &es, &mut out);
                                proof {
                                    assert(stmts_view(out@) =~= dialogues_of(
                                        speaker@,
                                        exprs_view(es@),
                                    ));
                                }
                                Ok((j, out))
                            },
                            Err(e) => Err(e),
                        }
                    },
                }
            } else {
                Err(err_at_exec(ts, i + 1, ParseErrorKind::UnexpectedToken))
            }
        },
        None => Err(err_at_exec(ts, i, ParseErrorKind::UnexpectedToken)),
    }
}

/// Parses one statement at token `i`; exactly [`sp_statement`].
pub fn build_statement(ts: &Vec<Token>, i: usize) -> (r: Result<(usize, Vec<Statement>), ParseError>)
    requires
        i < ts@.len(),
    ensures
        match r {
            Ok((j, v)) => sp_statement(tokens_view(ts@), i as int) == Parsed::Got(
                j as int,
                stmts_view(v@),
            ) && i < j <= ts@.len(),
            Err(e) => sp_statement(tokens_view(ts@), i as int) == Parsed::Fail::<Seq<StatementV>>(
                e@,
            ),
        },
{
    let n = ts.len();
    if matches!(&ts[i].kind, TokenKind::LBrack) {
        match build_stage_command(ts, i + 1) {
            Ok((j, st)) => {
                let mut out: Vec<Statement> = Vec::new();
                let ghost stv = st@;
                out.push(st);
                proof {
                    assert(stmts_view(out@) =~= seq![stv]);
                }
                Ok((j, out))
            },
            Err(e) => Err(e),
        }
    } else {
        if word_is(ts, i, "log") {
            match build_code_statement(ts, i) {
                Ok((j, st)) => {
                    let mut out: Vec<Statement> = Vec::new();
                    let ghost stv = st@;
                    out.push(st);
                    proof {
                        assert(stmts_view(out@) =~= seq![stv]);
                    }
                    Ok((j, out))
                },
                Err(e) => Err(e),
            }
        } else if word_is(ts, i, "narrator") && i + 1 < n && matches!(
            &ts[i + 1].kind,
            TokenKind::Colon,
        ) {
            match build_infotext(ts, i) {
                Ok((j, st)) => {
                    let mut out: Vec<Statement> = Vec::new();
                    let ghost stv = st@;
                    out.push(st);
                    proof {
                        assert(stmts_view(out@) =~= seq![stv]);
                    }
                    Ok((j, out))
                },
                Err(e) => Err(e),
            }
        } else if i < n && matches!(&ts[i].kind, TokenKind::Word(_)) {
            build_dialogue(ts, i)
        } else {
            Err(err_at_exec(ts, i, ParseErrorKind::UnexpectedToken))
        }
    }
}

fn scene_name_taken(scenes: &Vec<Scene>, name: &str) -> (r: bool)
    ensures
        r == name_taken(scenes_view(scenes@), name@),
{
    let n = scenes.len();
    let mut k: usize = 0;
    while k < n
        invariant
            n == scenes@.len(),
            k <= n,
            forall|m: int| 0 <= m < k ==> (#[trigger] scenes_view(scenes@)[m].name) != name@,
        decreases n - k,
    {
        if str_eq(scenes[k].name.as_str(), name) {
            proof {
                assert(scenes_view(scenes@)[k as int].name == name@);
            }
            return true;
        }
        k = k + 1;
    }
    false
}

fn eof_pos_exec(ts: &Vec<Token>) -> (p: usize)
    ensures
        p as int == eof_pos(tokens_view(ts@)),
{
    if ts.len() > 0 {
        ts[ts.len() - 1].pos
    } else {
        0
    }
}

fn scenes_at(ts: &Vec<Token>, i: usize, scenes: Vec<Scene>, cur: Option<Scene>) -> (r: Result<
    Vec<Scene>,
    ParseError,
>)
    requires
        i <= ts@.len(),
    ensures
        match r {
            Ok(v) => sp_scenes(tokens_view(ts@), i as int, scenes_view(scenes@), opt_scene_view(cur))
                == Ok::<Seq<SceneV>, ParseErrorV>(scenes_view(v@)),
            Err(e) => sp_scenes(
                tokens_view(ts@),
                i as int,
                scenes_view(scenes@),
                opt_scene_view(cur),
            ) == Err::<Seq<SceneV>, ParseErrorV>(e@),
        },
    decreases ts@.len() - i,
{
    let n = ts.len();
    if i >= n {
        match cur {
            Some(sc) => {
                if sc.statements.len() as u64 > i64::MAX as u64 {
                    return Err(
                        ParseError {
                            kind: ParseErrorKind::SceneTooLong,
                            pos: eof_pos_exec(ts),
                            item: sc.name,
                        },
                    );
                }
                let mut scenes = scenes;
                let ghost sv = scenes_view(scenes@);
                let ghost scv = sc@;
                scenes.push(sc);
                proof {
                    assert(scenes_view(scenes@) =~= sv.push(scv));
                }
                Ok(scenes)
            },
            None => Ok(scenes),
        }
    } else if matches!(&ts[i].kind, TokenKind::Newline) {
        scenes_at(ts, i + 1, scenes, cur)
    } else if word_is(ts, i, "scene") && { let h = get_word(ts, i + 1); h.is_some() } {
        let name = match get_word(ts, i + 1) {
            Some(nm) => nm,
            None => {
                proof {
                    assert(false);
                }
                String::new()
            },
        };
        let mut scenes = scenes;
        match cur {
            Some(sc) => {
                if sc.statements.len() as u64 > i64::MAX as u64 {
                    return Err(
                        ParseError {
                            kind: ParseErrorKind::SceneTooLong,
                            pos: ts[i].pos,
                            item: sc.name,
                        },
                    );
                }
                let ghost sv = scenes_view(scenes@);
                let ghost scv = sc@;
                scenes.push(sc);
                proof {
                    assert(scenes_view(scenes@) =~= sv.push(scv));
                }
            },
            None => {},
        }
        if scene_name_taken(&scenes, name.as_str()) {
            Err(ParseError { kind: ParseErrorKind::DuplicateScene, pos: ts[i + 1].pos, item: name })
        } else {
            let fresh = Scene { name, statements: Vec::new() };
            proof {
                assert(stmts_view(fresh.statements@) =~= Seq::<StatementV>::empty());
            }
            scenes_at(ts, i + 2, scenes, Some(fresh))
        }
    } else {
        match cur {
            None => Err(err_at_exec(ts, i, ParseErrorKind::UnexpectedToken)),
            Some(sc) => {
                match build_statement(ts, i) {
                    Ok((j, mut sts)) => {
                        let mut sc = sc;
                        let ghost before = stmts_view(sc.statements@);
                        let ghost added = stmts_view(sts@);
                        sc.statements.append(&mut sts);
                        proof {
                            assert(stmts_view(sc.statements@) =~= before + added);
                        }
                        scenes_at(ts, j, scenes, Some(sc))
                    },
                    Err(e) => Err(e),
                }
            },
        }
    }
}

/// Builds the act of a whole token sequence: scenes in source order, the
/// first scene's name as entrypoint; fails on a duplicate scene name, on
/// a statement outside any scene, and on a script without scenes;
/// exactly [`sp_act`].
pub fn build_scenes(ts: &Vec<Token>) -> (r: Result<Act, ParseError>)
    ensures
        match r {
            Ok(a) => sp_act(tokens_view(ts@)) matches Ok(av) && a@ == av,
            Err(e) => sp_act(tokens_view(ts@)) matches Err(ev) && e@ == ev,
        },
{
    let scenes0: Vec<Scene> = Vec::new();
    proof {
        assert(scenes_view(scenes0@) =~= Seq::<SceneV>::empty());
    }
    match scenes_at(ts, 0, scenes0, None) {
        Ok(scenes) => {
            if scenes.len() == 0 {
                Err(ParseError { kind: ParseErrorKind::EmptyAct, pos: 0, item: String::new() })
            } else {
                let entrypoint = scenes[0].name.clone();
                Ok(Act { scenes, name: String::new(), entrypoint })
            }
        },
        Err(e) => Err(e),
    }
}

/// Compiles a script text into its act: tokens first, then scenes. A
/// successfully parsed act is well formed and every scene fits the
/// cursor; the result is exactly what [`parse_spec`] says.
pub fn parse_act(src: &str) -> (r: Result<Act, ParseError>)
    ensures
        match r {
            Ok(a) => parse_spec(src@) matches Ok(av) && a@ == av && av.wf()
                && crate::compiler::ast::act_scenes_fit(av),
            Err(e) => parse_spec(src@) matches Err(ev) && e@ == ev,
        },
{
    proof {
        lemma_parse_act_wf(src@);
    }
    match tokenize(src) {
        Ok(ts) => build_scenes(&ts),
        Err(e) => Err(e),
    }
}

} // verus!
