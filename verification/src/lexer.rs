use vstd::prelude::*;
use vstd::string::*;

use crate::grammar::{Token, TokenV, TypeKind};
use crate::text::{is_ascii_digit, is_alphabetic, is_alphanumeric, is_whitespace, is_digit_spec, char_is_whitespace, char_is_alphabetic, char_is_alphanumeric, push_char, str_eq, digits_end, lemma_digits_end_bounds};

verus! {

/// A position in a sequence of characters, read from left to right.
pub struct CharCursor {
    pub chars: Vec<char>,
    pub pos: usize,
}

impl CharCursor {
    /// A cursor at the first character of `chars`.
    pub fn new(chars: Vec<char>) -> (c: CharCursor)
        ensures
            c.chars@ == chars@,
            c.pos == 0,
    {
        CharCursor { chars, pos: 0 }
    }
}

/// Why lexing stops without a token: the input ends inside a comment or a string.
#[derive(Clone, Copy, Debug, PartialEq, Eq, Structural)]
pub enum LexError {
    UnterminatedComment,
    UnterminatedString,
}

/// The outcome of reading one token, with the position after it.
pub enum LexStep {
    Token(TokenV, int),
    End(int),
    Unknown(char, int),
}

/// The first index from `i` on that holds a newline, or the end of `s`.
pub open spec fn line_end(s: Seq<char>, i: int) -> int
    decreases s.len() - i,
{
    if i >= s.len() {
        s.len() as int
    } else if s[i] == '\n' {
        i
    } else {
        line_end(s, i + 1)
    }
}

/// Inside a block comment from index `i` on, where `prev_star` tells whether the
/// character before `i` was a `*` of the comment: the index just past the closing
/// `*/`, or `None` when the input ends first.
pub open spec fn block_comment_end(s: Seq<char>, i: int, prev_star: bool) -> Option<int>
    decreases s.len() - i,
{
    if i >= s.len() {
        None
    } else if prev_star && s[i] == '/' {
        Some(i + 1)
    } else {
        block_comment_end(s, i + 1, s[i] == '*')
    }
}

pub proof fn lemma_line_end_bounds(s: Seq<char>, i: int)
    requires
        0 <= i <= s.len(),
    ensures
        i <= line_end(s, i) <= s.len(),
    decreases s.len() - i,
{
    if i < s.len() && s[i] != '\n' {
        lemma_line_end_bounds(s, i + 1);
    }
}

pub proof fn lemma_block_comment_end_bounds(s: Seq<char>, i: int, prev_star: bool)
    requires
        0 <= i,
    ensures
        block_comment_end(s, i, prev_star) matches Some(j) ==> i < j <= s.len(),
    decreases s.len() - i,
{
    if i < s.len() && !(prev_star && s[i] == '/') {
        lemma_block_comment_end_bounds(s, i + 1, s[i] == '*');
    }
}

/// Skips whitespace, line comments and block comments from `p`: the position of
/// the next character that is none of them.
pub open spec fn skip_trivia(s: Seq<char>, p: int) -> Result<int, LexError>
    decreases s.len() - p,
{
    if p < 0 || p >= s.len() {
        Ok(p)
    } else if char_is_whitespace(s[p]) {
        skip_trivia(s, p + 1)
    } else if s[p] == '/' && p + 1 < s.len() && s[p + 1] == '/' {
        proof {
            lemma_line_end_bounds(s, p + 2);
        }
        skip_trivia(s, line_end(s, p + 2))
    } else if s[p] == '/' && p + 1 < s.len() && s[p + 1] == '*' {
        proof {
            lemma_block_comment_end_bounds(s, p + 2, false);
        }
        match block_comment_end(s, p + 2, false) {
            Some(q) => skip_trivia(s, q),
            None => Err(LexError::UnterminatedComment),
        }
    } else {
        Ok(p)
    }
}

/// Where a number literal ends whose first digit is just before `p`: more
/// digits, then `.` and digits where a digit follows the dot.
pub open spec fn number_rest_end(s: Seq<char>, p: int) -> int {
    let e = digits_end(s, p);
    if e + 1 < s.len() && s[e] == '.' && is_digit_spec(s[e + 1]) {
        digits_end(s, e + 1)
    } else {
        e
    }
}

/// Whether `c` may start an identifier.
pub open spec fn ident_start_spec(c: char) -> bool {
    c == '_' || char_is_alphabetic(c)
}

/// Whether `c` may continue an identifier.
pub open spec fn ident_continue_spec(c: char) -> bool {
    c == '_' || char_is_alphanumeric(c)
}

/// The first index from `i` on whose character cannot continue an identifier.
pub open spec fn ident_end(s: Seq<char>, i: int) -> int
    decreases s.len() - i,
{
    if i >= s.len() || !ident_continue_spec(s[i]) {
        i
    } else {
        ident_end(s, i + 1)
    }
}

/// The first index from `i` on that holds `c`.
pub open spec fn find_char(s: Seq<char>, i: int, c: char) -> Option<int>
    decreases s.len() - i,
{
    if i >= s.len() {
        None
    } else if s[i] == c {
        Some(i)
    } else {
        find_char(s, i + 1, c)
    }
}

/// The type that a type name stands for: `i8` to `i64`, `u8` to `u64`, `f32`,
/// `f64`, `string` and `bool`.
pub open spec fn named_type(w: Seq<char>) -> Option<TypeKind> {
    if w == seq!['i', '8'] {
        Some(TypeKind::I8)
    } else if w == seq!['i', '1', '6'] {
        Some(TypeKind::I16)
    } else if w == seq!['i', '3', '2'] {
        Some(TypeKind::I32)
    } else if w == seq!['i', '6', '4'] {
        Some(TypeKind::I64)
    } else if w == seq!['u', '8'] {
        Some(TypeKind::U8)
    } else if w == seq!['u', '1', '6'] {
        Some(TypeKind::U16)
    } else if w == seq!['u', '3', '2'] {
        Some(TypeKind::U32)
    } else if w == seq!['u', '6', '4'] {
        Some(TypeKind::U64)
    } else if w == seq!['f', '3', '2'] {
        Some(TypeKind::F32)
    } else if w == seq!['f', '6', '4'] {
        Some(TypeKind::F64)
    } else if w == seq!['s', 't', 'r', 'i', 'n', 'g'] {
        Some(TypeKind::String)
    } else if w == seq!['b', 'o', 'o', 'l'] {
        Some(TypeKind::Bool)
    } else {
        None
    }
}

/// The token that a word stands for: a keyword, a boolean, a type name, or an
/// identifier.
pub open spec fn word_token(w: Seq<char>) -> TokenV {
    if w == seq!['l', 'e', 't'] {
        TokenV::Let
    } else if w == seq!['m', 'u', 't'] {
        TokenV::Mut
    } else if w == seq!['t', 'r', 'u', 'e'] {
        TokenV::Bool(true)
    } else if w == seq!['f', 'a', 'l', 's', 'e'] {
        TokenV::Bool(false)
    } else if w == seq!['p', 'r', 'i', 'n', 't'] {
        TokenV::Print
    } else if w == seq!['i', 'f'] {
        TokenV::If
    } else if w == seq!['e', 'l', 's', 'e'] {
        TokenV::Else
    } else if w == seq!['r', 'e', 't', 'u', 'r', 'n'] {
        TokenV::Return
    } else {
        match named_type(w) {
            Some(t) => TokenV::Type(t),
            None => TokenV::Ident(w),
        }
    }
}

/// The token of one punctuation character.
pub open spec fn punct_token(c: char) -> Option<TokenV> {
    if c == '+' {
        Some(TokenV::Plus)
    } else if c == '-' {
        Some(TokenV::Minus)
    } else if c == '*' {
        Some(TokenV::Star)
    } else if c == '/' {
        Some(TokenV::Slash)
    } else if c == '=' {
        Some(TokenV::Assign)
    } else if c == '(' {
        Some(TokenV::LParen)
    } else if c == ')' {
        Some(TokenV::RParen)
    } else if c == '{' {
        Some(TokenV::LBrace)
    } else if c == '}' {
        Some(TokenV::RBrace)
    } else if c == '[' {
        Some(TokenV::LBracket)
    } else if c == ']' {
        Some(TokenV::RBracket)
    } else if c == ':' {
        Some(TokenV::Colon)
    } else if c == ',' {
        Some(TokenV::Comma)
    } else {
        None
    }
}

/// The token that starts at `q` (no whitespace or comment is there).
pub open spec fn token_at(s: Seq<char>, q: int) -> Result<LexStep, LexError> {
    if q < 0 || q >= s.len() {
        Ok(LexStep::End(q))
    } else {
        let c = s[q];
        if punct_token(c) is Some {
            Ok(LexStep::Token(punct_token(c).unwrap(), q + 1))
        } else if c == '"' {
            match find_char(s, q + 1, '"') {
                Some(e) => Ok(LexStep::Token(TokenV::Str(s.subrange(q + 1, e)), e + 1)),
                None => Err(LexError::UnterminatedString),
            }
        } else if is_digit_spec(c) {
            let e = number_rest_end(s, q + 1);
            Ok(LexStep::Token(TokenV::NumberLiteral(s.subrange(q, e)), e))
        } else if ident_start_spec(c) {
            let e = ident_end(s, q + 1);
            Ok(LexStep::Token(word_token(s.subrange(q, e)), e))
        } else {
            Ok(LexStep::Unknown(c, q + 1))
        }
    }
}

/// Reading one token from position `p` of `s`.
pub open spec fn lex_step(s: Seq<char>, p: int) -> Result<LexStep, LexError> {
    match skip_trivia(s, p) {
        Ok(q) => token_at(s, q),
        Err(e) => Err(e),
    }
}

proof fn lemma_find_char_bounds(s: Seq<char>, i: int, c: char)
    requires
        0 <= i,
    ensures
        find_char(s, i, c) matches Some(j) ==> i <= j < s.len() && s[j] == c,
    decreases s.len() - i,
{
    if i < s.len() && s[i] != c {
        lemma_find_char_bounds(s, i + 1, c);
    }
}

proof fn lemma_ident_end_bounds(s: Seq<char>, i: int)
    requires
        0 <= i <= s.len(),
    ensures
        i <= ident_end(s, i) <= s.len(),
    decreases s.len() - i,
{
    if i < s.len() && ident_continue_spec(s[i]) {
        lemma_ident_end_bounds(s, i + 1);
    }
}

proof fn lemma_skip_trivia_bounds(s: Seq<char>, p: int)
    requires
        0 <= p <= s.len(),
    ensures
        skip_trivia(s, p) matches Ok(q) ==> p <= q <= s.len(),
    decreases s.len() - p,
{
    if p < s.len() {
        if char_is_whitespace(s[p]) {
            lemma_skip_trivia_bounds(s, p + 1);
        } else if s[p] == '/' && p + 1 < s.len() && s[p + 1] == '/' {
            lemma_line_end_bounds(s, p + 2);
            lemma_skip_trivia_bounds(s, line_end(s, p + 2));
        } else if s[p] == '/' && p + 1 < s.len() && s[p + 1] == '*' {
            lemma_block_comment_end_bounds(s, p + 2, false);
            if let Some(q) = block_comment_end(s, p + 2, false) {
                lemma_skip_trivia_bounds(s, q);
            }
        }
    }
}

/// Reading a token moves forward, and stays within the input.
pub proof fn lemma_lex_step_advances(s: Seq<char>, p: int)
    ensures
        lex_step(s, p) matches Ok(LexStep::Token(_, e)) ==> 0 <= p < e <= s.len(),
{
    if 0 <= p <= s.len() {
        lemma_skip_trivia_bounds(s, p);
        if let Ok(q) = skip_trivia(s, p) {
            if 0 <= q < s.len() {
                lemma_find_char_bounds(s, q + 1, '"');
                lemma_digits_end_bounds(s, q + 1);
                lemma_digits_end_bounds(s, q + 1);
                let e = digits_end(s, q + 1);
                if e + 1 < s.len() {
                    lemma_digits_end_bounds(s, e + 1);
                }
                lemma_ident_end_bounds(s, q + 1);
            }
        }
    }
}

#[via_fn]
proof fn lex_all_decreases(s: Seq<char>, p: int) {
    lemma_lex_step_advances(s, p);
}

/// Reading tokens from position `p` until the input ends or a character starts
/// no token: the tokens, and that character if there was one.
pub open spec fn lex_all(s: Seq<char>, p: int) -> Result<(Seq<TokenV>, Option<char>), LexError>
    decreases s.len() - p,
    via lex_all_decreases
{
    match lex_step(s, p) {
        Err(e) => Err(e),
        Ok(LexStep::End(_)) => Ok((seq![], None)),
        Ok(LexStep::Unknown(c, _)) => Ok((seq![], Some(c))),
        Ok(LexStep::Token(t, e)) => match lex_all(s, e) {
            Ok((ts, u)) => Ok((seq![t] + ts, u)),
            Err(err) => Err(err),
        },
    }
}

/// The views of a sequence of tokens.
pub open spec fn token_views(ts: Seq<Token>) -> Seq<TokenV> {
    ts.map_values(|t: Token| t@)
}

/// What reading one token gave, short of an error.
pub enum Scanned {
    Token(Token),
    End,
    Unknown(char),
}

/// `r`, with the cursor left at `pos`, is what `step` describes.
pub open spec fn scan_matches(r: Scanned, pos: int, step: LexStep) -> bool {
    match step {
        LexStep::Token(tv, e) => r matches Scanned::Token(t) && t@ == tv && pos == e,
        LexStep::End(e) => r is End && pos == e,
        LexStep::Unknown(c, e) => r == Scanned::Unknown(c) && pos == e,
    }
}

/// Whether `c` may start an identifier: `_` or an alphabetic character.
pub fn is_ident_start(c: char) -> (r: bool)
    ensures
        r == ident_start_spec(c),
{
    c == '_' || is_alphabetic(c)
}

/// Whether `c` may continue an identifier: `_` or an alphanumeric character.
pub fn is_ident_continue(c: char) -> (r: bool)
    ensures
        r == ident_continue_spec(c),
{
    c == '_' || is_alphanumeric(c)
}

/// Appends to `out` the ASCII digits that start at the cursor, and moves past them.
fn take_digits(chars: &mut CharCursor, out: &mut String)
    requires
        old(chars).pos <= old(chars).chars.len(),
    ensures
        final(chars).chars@ == old(chars).chars@,
        final(chars).pos == digits_end(old(chars).chars@, old(chars).pos as int),
        old(chars).pos <= final(chars).pos <= final(chars).chars.len(),
        final(out)@ == old(out)@ + old(chars).chars@.subrange(
            old(chars).pos as int,
            final(chars).pos as int,
        ),
{
    let ghost s = chars.chars@;
    let ghost p0 = chars.pos as int;
    let ghost out0 = out@;
    while chars.pos < chars.chars.len() && is_ascii_digit(chars.chars[chars.pos])
        invariant
            chars.chars@ == s,
            s == old(chars).chars@,
            p0 == old(chars).pos,
            out0 == old(out)@,
            p0 <= chars.pos <= s.len(),
            digits_end(s, chars.pos as int) == digits_end(s, p0),
            out@ == out0 + s.subrange(p0, chars.pos as int),
        decreases s.len() - chars.pos,
    {
        let c = chars.chars[chars.pos];
        assert(c == s[chars.pos as int]);
        push_char(out, c);
        assert(s.subrange(p0, chars.pos + 1) =~= s.subrange(p0, chars.pos as int).push(c));
        chars.pos = chars.pos + 1;
    }
}

/// Reads the rest of a number literal whose first digit `first` was just read:
/// more digits, then a `.` and digits where a digit follows the dot.
pub fn lex_number(first: char, chars: &mut CharCursor) -> (r: String)
    requires
        old(chars).pos <= old(chars).chars.len(),
    ensures
        final(chars).chars@ == old(chars).chars@,
        old(chars).pos <= final(chars).pos <= final(chars).chars.len(),
        final(chars).pos == number_rest_end(old(chars).chars@, old(chars).pos as int),
        r@ == seq![first] + old(chars).chars@.subrange(
            old(chars).pos as int,
            final(chars).pos as int,
        ),
{
    let ghost s = chars.chars@;
    let ghost p0 = chars.pos as int;
    let mut num_str = String::new();
    push_char(&mut num_str, first);
    take_digits(chars, &mut num_str);
    proof {
        lemma_digits_end_bounds(s, p0);
    }
    let e = chars.pos;
    let n = chars.chars.len();
    if n > 0 && e < n - 1 && chars.chars[e] == '.' && is_ascii_digit(chars.chars[e + 1]) {
        push_char(&mut num_str, '.');
        chars.pos = e + 1;
        take_digits(chars, &mut num_str);
        proof {
            lemma_digits_end_bounds(s, e + 1);
        }
        assert(s.subrange(p0, chars.pos as int) =~= s.subrange(p0, e as int).push('.')
            + s.subrange(e + 1, chars.pos as int));
    }
    assert(num_str@ =~= seq![first] + s.subrange(p0, chars.pos as int));
    num_str
}

/// Where the block comment whose text starts at `start` ends: just past its `*/`.
fn block_comment_close(s: &Vec<char>, start: usize) -> (r: Option<usize>)
    requires
        start <= s.len(),
    ensures
        r matches Some(q) ==> block_comment_end(s@, start as int, false) == Some(q as int) && start
            < q <= s.len(),
        r is None ==> block_comment_end(s@, start as int, false) is None,
{
    let n = s.len();
    let mut i = start;
    let mut prev_star = false;
    proof {
        lemma_block_comment_end_bounds(s@, start as int, false);
    }
    while i < n
        invariant
            n == s.len(),
            start <= i <= n,
            block_comment_end(s@, i as int, prev_star) == block_comment_end(s@, start as int, false),
        decreases n - i,
    {
        let ch = s[i];
        if prev_star && ch == '/' {
            return Some(i + 1);
        }
        prev_star = ch == '*';
        i = i + 1;
    }
    None
}

/// Moves the cursor past whitespace and comments.
fn skip_trivia_exec(chars: &mut CharCursor) -> (r: Result<(), LexError>)
    requires
        old(chars).pos <= old(chars).chars.len(),
    ensures
        final(chars).chars@ == old(chars).chars@,
        final(chars).pos <= final(chars).chars.len(),
        match skip_trivia(old(chars).chars@, old(chars).pos as int) {
            Ok(q) => r is Ok && final(chars).pos == q,
            Err(e) => r == Err::<(), LexError>(e),
        },
{
    let ghost s = chars.chars@;
    let ghost p0 = chars.pos as int;
    let n = chars.chars.len();
    loop
        invariant
            chars.chars@ == s,
            s == old(chars).chars@,
            p0 == old(chars).pos,
            n == s.len(),
            chars.pos <= n,
            skip_trivia(s, chars.pos as int) == skip_trivia(s, p0),
        decreases n - chars.pos,
    {
        let p = chars.pos;
        if p >= n {
            return Ok(());
        }
        let c = chars.chars[p];
        if is_whitespace(c) {
            chars.pos = p + 1;
        } else if c == '/' && p + 1 < n && chars.chars[p + 1] == '/' {
            let mut i = p + 2;
            while i < n && chars.chars[i] != '\n'
                invariant
                    chars.chars@ == s,
                    n == s.len(),
                    p + 2 <= i <= n,
                    line_end(s, i as int) == line_end(s, p + 2),
                decreases n - i,
            {
                i = i + 1;
            }
            chars.pos = i;
        } else if c == '/' && p + 1 < n && chars.chars[p + 1] == '*' {
            match block_comment_close(&chars.chars, p + 2) {
                Some(q) => {
                    chars.pos = q;
                },
                None => {
                    return Err(LexError::UnterminatedComment);
                },
            }
        } else {
            return Ok(());
        }
    }
}

/// Reads the token at the cursor, after whitespace and comments, and moves past
/// it. At the end of the input nothing is read; a character that starts no token
/// is read and handed back.
pub fn scan_token(chars: &mut CharCursor) -> (r: Result<Scanned, LexError>)
    requires
        old(chars).pos <= old(chars).chars.len(),
    ensures
        final(chars).chars@ == old(chars).chars@,
        final(chars).pos <= final(chars).chars.len(),
        match lex_step(old(chars).chars@, old(chars).pos as int) {
            Ok(step) => r matches Ok(sc) && scan_matches(sc, final(chars).pos as int, step),
            Err(e) => r matches Err(e2) && e2 == e,
        },
{
    let ghost s = chars.chars@;
    skip_trivia_exec(chars)?;
    let q = chars.pos;
    let n = chars.chars.len();
    if q >= n {
        return Ok(Scanned::End);
    }
    let c = chars.chars[q];
    chars.pos = q + 1;
    let tok = if c == '+' {
        Token::Plus
    } else if c == '-' {
        Token::Minus
    } else if c == '*' {
        Token::Star
    } else if c == '/' {
        Token::Slash
    } else if c == '=' {
        Token::Assign
    } else if c == '(' {
        Token::LParen
    } else if c == ')' {
        Token::RParen
    } else if c == '{' {
        Token::LBrace
    } else if c == '}' {
        Token::RBrace
    } else if c == '[' {
        Token::LBracket
    } else if c == ']' {
        Token::RBracket
    } else if c == ':' {
        Token::Colon
    } else if c == ',' {
        Token::Comma
    } else if c == '"' {
        let mut value = String::new();
        let mut i = q + 1;
        while i < n && chars.chars[i] != '"'
            invariant
                chars.chars@ == s,
                n == s.len(),
                q + 1 <= i <= n,
                find_char(s, i as int, '"') == find_char(s, q + 1, '"'),
                value@ == s.subrange(q + 1, i as int),
            decreases n - i,
        {
            push_char(&mut value, chars.chars[i]);
            assert(s.subrange(q + 1, i + 1) =~= s.subrange(q + 1, i as int).push(s[i as int]));
            i = i + 1;
        }
        if i >= n {
            chars.pos = n;
            return Err(LexError::UnterminatedString);
        }
        chars.pos = i + 1;
        Token::String(value)
    } else if is_ascii_digit(c) {
        Token::NumberLiteral(lex_number(c, chars))
    } else if is_ident_start(c) {
        let mut word = String::new();
        push_char(&mut word, c);
        while chars.pos < n && is_ident_continue(chars.chars[chars.pos])
            invariant
                chars.chars@ == s,
                n == s.len(),
                q + 1 <= chars.pos <= n,
                ident_end(s, chars.pos as int) == ident_end(s, q + 1),
                word@ == s.subrange(q as int, chars.pos as int),
            decreases n - chars.pos,
        {
            let ch = chars.chars[chars.pos];
            push_char(&mut word, ch);
            assert(s.subrange(q as int, chars.pos + 1) =~= s.subrange(q as int, chars.pos as int).push(ch));
            chars.pos = chars.pos + 1;
        }
        word_to_token(word)
    } else {
        return Ok(Scanned::Unknown(c));
    };
    proof {
        if is_digit_spec(c) {
            assert(seq![c] + s.subrange(q + 1, chars.pos as int) =~= s.subrange(q as int, chars.pos as int));
        }
    }
    Ok(Scanned::Token(tok))
}

/// The type that the word `w` names, if it is a type name.
fn type_of_name(w: &str) -> (r: Option<TypeKind>)
    ensures
        r == named_type(w@),
{
    proof {
        reveal_strlit("i8");
        assert("i8"@ =~= seq!['i', '8']);
        reveal_strlit("i16");
        assert("i16"@ =~= seq!['i', '1', '6']);
        reveal_strlit("i32");
        assert("i32"@ =~= seq!['i', '3', '2']);
        reveal_strlit("i64");
        assert("i64"@ =~= seq!['i', '6', '4']);
        reveal_strlit("u8");
        assert("u8"@ =~= seq!['u', '8']);
        reveal_strlit("u16");
        assert("u16"@ =~= seq!['u', '1', '6']);
        reveal_strlit("u32");
        assert("u32"@ =~= seq!['u', '3', '2']);
        reveal_strlit("u64");
        assert("u64"@ =~= seq!['u', '6', '4']);
        reveal_strlit("f32");
        assert("f32"@ =~= seq!['f', '3', '2']);
        reveal_strlit("f64");
        assert("f64"@ =~= seq!['f', '6', '4']);
        reveal_strlit("string");
        assert("string"@ =~= seq!['s', 't', 'r', 'i', 'n', 'g']);
        reveal_strlit("bool");
        assert("bool"@ =~= seq!['b', 'o', 'o', 'l']);
    }
    if str_eq(w, "i8") {
        Some(TypeKind::I8)
    } else if str_eq(w, "i16") {
        Some(TypeKind::I16)
    } else if str_eq(w, "i32") {
        Some(TypeKind::I32)
    } else if str_eq(w, "i64") {
        Some(TypeKind::I64)
    } else if str_eq(w, "u8") {
        Some(TypeKind::U8)
    } else if str_eq(w, "u16") {
        Some(TypeKind::U16)
    } else if str_eq(w, "u32") {
        Some(TypeKind::U32)
    } else if str_eq(w, "u64") {
        Some(TypeKind::U64)
    } else if str_eq(w, "f32") {
        Some(TypeKind::F32)
    } else if str_eq(w, "f64") {
        Some(TypeKind::F64)
    } else if str_eq(w, "string") {
        Some(TypeKind::String)
    } else if str_eq(w, "bool") {
        Some(TypeKind::Bool)
    } else {
        None
    }
}

/// The token for a word: a keyword, a boolean, a type name, or else an identifier.
fn word_to_token(word: String) -> (t: Token)
    ensures
        t@ == word_token(word@),
{
    proof {
        reveal_strlit("let");
        reveal_strlit("mut");
        reveal_strlit("true");
        reveal_strlit("false");
        reveal_strlit("print");
        reveal_strlit("if");
        reveal_strlit("else");
        reveal_strlit("return");
        assert("let"@ =~= seq!['l', 'e', 't']);
        assert("mut"@ =~= seq!['m', 'u', 't']);
        assert("true"@ =~= seq!['t', 'r', 'u', 'e']);
        assert("false"@ =~= seq!['f', 'a', 'l', 's', 'e']);
        assert("print"@ =~= seq!['p', 'r', 'i', 'n', 't']);
        assert("if"@ =~= seq!['i', 'f']);
        assert("else"@ =~= seq!['e', 'l', 's', 'e']);
        assert("return"@ =~= seq!['r', 'e', 't', 'u', 'r', 'n']);
    }
    let w = word.as_str();
    if str_eq(w, "let") {
        assert(w@ =~= seq!['l', 'e', 't']);
        Token::Let
    } else if str_eq(w, "mut") {
        assert(w@ =~= seq!['m', 'u', 't']);
        Token::Mut
    } else if str_eq(w, "true") {
        assert(w@ =~= seq!['t', 'r', 'u', 'e']);
        Token::Bool(true)
    } else if str_eq(w, "false") {
        assert(w@ =~= seq!['f', 'a', 'l', 's', 'e']);
        Token::Bool(false)
    } else if str_eq(w, "print") {
        assert(w@ =~= seq!['p', 'r', 'i', 'n', 't']);
        Token::Print
    } else if str_eq(w, "if") {
        assert(w@ =~= seq!['i', 'f']);
        Token::If
    } else if str_eq(w, "else") {
        assert(w@ =~= seq!['e', 'l', 's', 'e']);
        Token::Else
    } else if str_eq(w, "return") {
        assert(w@ =~= seq!['r', 'e', 't', 'u', 'r', 'n']);
        Token::Return
    } else {
        match type_of_name(w) {
            Some(t) => Token::Type(t),
            None => Token::Ident(word),
        }
    }
}

/// Reads the next token at the cursor, after whitespace and comments, and moves
/// past it. Gives `None` at the end of the input, and also where a character
/// starts no token (that character is read).
pub fn get_next_token(chars: &mut CharCursor) -> (r: Option<Token>)
    requires
        old(chars).pos <= old(chars).chars.len(),
        lex_step(old(chars).chars@, old(chars).pos as int) is Ok,
    ensures
        final(chars).chars@ == old(chars).chars@,
        final(chars).pos <= final(chars).chars.len(),
        match lex_step(old(chars).chars@, old(chars).pos as int) {
            Ok(LexStep::Token(tv, e)) => r matches Some(t) && t@ == tv && final(chars).pos == e,
            Ok(LexStep::End(e)) => r is None && final(chars).pos == e,
            Ok(LexStep::Unknown(_, e)) => r is None && final(chars).pos == e,
            Err(_) => false,
        },
{
    match scan_token(chars) {
        Ok(Scanned::Token(t)) => Some(t),
        _ => None,
    }
}

/// Reads all tokens of `chars`, until the input ends or a character starts no
/// token; gives the tokens and that character, if there was one.
pub fn tokenize(chars: Vec<char>) -> (r: Result<(Vec<Token>, Option<char>), LexError>)
    ensures
        match lex_all(chars@, 0) {
            Ok((ts, u)) => r matches Ok((v, u2)) && token_views(v@) == ts && u2 == u,
            Err(e) => r matches Err(e2) && e2 == e,
        },
{
    let ghost s = chars@;
    let mut cursor = CharCursor::new(chars);
    let mut tokens: Vec<Token> = Vec::new();
    loop
        invariant
            cursor.chars@ == s,
            s == chars@,
            cursor.pos <= s.len(),
            match lex_all(s, cursor.pos as int) {
                Ok((ts, u)) => lex_all(s, 0) == Ok::<(Seq<TokenV>, Option<char>), LexError>(
                    (token_views(tokens@) + ts, u),
                ),
                Err(e) => lex_all(s, 0) == Err::<(Seq<TokenV>, Option<char>), LexError>(e),
            },
        decreases s.len() - cursor.pos,
    {
        let ghost p = cursor.pos as int;
        proof {
            lemma_lex_step_advances(s, p);
        }
        match scan_token(&mut cursor) {
            Err(e) => {
                assert(lex_step(s, p) == Err::<LexStep, LexError>(e));
                assert(lex_all(s, p) == Err::<(Seq<TokenV>, Option<char>), LexError>(e));
                return Err(e);
            },
            Ok(Scanned::End) => {
                assert(lex_step(s, p) is Ok);
                assert(lex_step(s, p).unwrap() is End);
                assert(lex_all(s, p) == Ok::<(Seq<TokenV>, Option<char>), LexError>((seq![], None)));
                assert(token_views(tokens@) + seq![] =~= token_views(tokens@));
                return Ok((tokens, None));
            },
            Ok(Scanned::Unknown(c)) => {
                assert(token_views(tokens@) + seq![] =~= token_views(tokens@));
                return Ok((tokens, Some(c)));
            },
            Ok(Scanned::Token(t)) => {
                let ghost old_tokens = tokens@;
                tokens.push(t);
                proof {
                    assert(token_views(tokens@) =~= token_views(old_tokens) + seq![t@]);
                    match lex_all(s, cursor.pos as int) {
                        Ok((ts, u)) => {
                            assert(token_views(old_tokens) + (seq![t@] + ts) =~= token_views(
                                tokens@,
                            ) + ts);
                        },
                        Err(_) => {},
                    }
                }
            },
        }
    }
}

} // verus!
