use velocity::grammar::{Token, TypeKind};
use velocity::lexer::{
    get_next_token, is_ident_continue, is_ident_start, lex_number, scan_token, tokenize,
    CharCursor, LexError, Scanned,
};

fn lex(src: &str) -> Vec<Token> {
    let (tokens, unknown) = tokenize(src.chars().collect()).unwrap();
    assert_eq!(unknown, None);
    tokens
}

fn ident(s: &str) -> Token {
    Token::Ident(String::from(s))
}

fn num(s: &str) -> Token {
    Token::NumberLiteral(String::from(s))
}

#[test]
fn lexes_a_let_statement() {
    assert_eq!(
        lex("let x = 5"),
        vec![Token::Let, ident("x"), Token::Assign, num("5")]
    );
}

#[test]
fn lexes_keywords_and_booleans() {
    assert_eq!(
        lex("let mut if else print return true false"),
        vec![
            Token::Let,
            Token::Mut,
            Token::If,
            Token::Else,
            Token::Print,
            Token::Return,
            Token::Bool(true),
            Token::Bool(false),
        ]
    );
}

#[test]
fn keyword_prefixes_are_identifiers() {
    assert_eq!(lex("letter iffy truex"), vec![ident("letter"), ident("iffy"), ident("truex")]);
}

#[test]
fn type_names_lex_as_type_tokens() {
    assert_eq!(
        lex("i8 i16 i32 i64 u8 u16 u32 u64 f32 f64 string bool"),
        vec![
            Token::Type(TypeKind::I8),
            Token::Type(TypeKind::I16),
            Token::Type(TypeKind::I32),
            Token::Type(TypeKind::I64),
            Token::Type(TypeKind::U8),
            Token::Type(TypeKind::U16),
            Token::Type(TypeKind::U32),
            Token::Type(TypeKind::U64),
            Token::Type(TypeKind::F32),
            Token::Type(TypeKind::F64),
            Token::Type(TypeKind::String),
            Token::Type(TypeKind::Bool),
        ]
    );
    assert_eq!(lex("i128 i8x unit"), vec![ident("i128"), ident("i8x"), ident("unit")]);
}

#[test]
fn lexes_a_typed_let() {
    assert_eq!(
        lex("let x: i8 = 3"),
        vec![
            Token::Let,
            ident("x"),
            Token::Colon,
            Token::Type(TypeKind::I8),
            Token::Assign,
            num("3"),
        ]
    );
}

#[test]
fn get_next_token_reads_a_type_name() {
    let mut cursor = CharCursor::new("i8 = 3".chars().collect());
    assert_eq!(get_next_token(&mut cursor), Some(Token::Type(TypeKind::I8)));
    assert_eq!(cursor.pos, 2);
}

#[test]
fn all_white_space_characters_are_skipped() {
    let src = "\t\n\u{b}\u{c}\r \u{85}\u{a0}\u{1680}\u{2000}\u{200a}\u{2028}\u{2029}\u{202f}\u{205f}\u{3000}x";
    assert_eq!(lex(src), vec![ident("x")]);
    for c in src.chars().filter(|c| *c != 'x') {
        assert!(c.is_whitespace());
    }
    let (tokens, unknown) = tokenize("\u{200b}".chars().collect()).unwrap();
    assert!(tokens.is_empty());
    assert_eq!(unknown, Some('\u{200b}'));
}

#[test]
fn lexes_punctuation() {
    assert_eq!(
        lex("+-*/=(){}[]:,"),
        vec![
            Token::Plus,
            Token::Minus,
            Token::Star,
            Token::Slash,
            Token::Assign,
            Token::LParen,
            Token::RParen,
            Token::LBrace,
            Token::RBrace,
            Token::LBracket,
            Token::RBracket,
            Token::Colon,
            Token::Comma,
        ]
    );
}

#[test]
fn skips_line_and_block_comments() {
    assert_eq!(
        lex("// a comment\nlet /* inside * here */ x // end"),
        vec![Token::Let, ident("x")]
    );
}

#[test]
fn block_comment_closes_after_stars() {
    assert_eq!(lex("/***/ 1"), vec![num("1")]);
}

#[test]
fn single_slash_is_division() {
    assert_eq!(lex("6 / 2"), vec![num("6"), Token::Slash, num("2")]);
}

#[test]
fn unterminated_block_comment_is_an_error() {
    assert_eq!(
        tokenize("let /* never closed".chars().collect()),
        Err(LexError::UnterminatedComment)
    );
}

#[test]
fn lexes_string_literals() {
    assert_eq!(
        lex("print(\"Hello Velocity!\")"),
        vec![
            Token::Print,
            Token::LParen,
            Token::String(String::from("Hello Velocity!")),
            Token::RParen,
        ]
    );
}

#[test]
fn unterminated_string_is_an_error() {
    assert_eq!(
        tokenize("\"open".chars().collect()),
        Err(LexError::UnterminatedString)
    );
}

#[test]
fn lexes_numbers_with_a_fraction() {
    assert_eq!(lex("3.14 42"), vec![num("3.14"), num("42")]);
}

#[test]
fn a_dot_without_digits_is_not_part_of_a_number() {
    let (tokens, unknown) = tokenize("3.x".chars().collect()).unwrap();
    assert_eq!(tokens, vec![num("3")]);
    assert_eq!(unknown, Some('.'));
}

#[test]
fn lexing_stops_at_an_unknown_character() {
    let (tokens, unknown) = tokenize("let x @ 1".chars().collect()).unwrap();
    assert_eq!(tokens, vec![Token::Let, ident("x")]);
    assert_eq!(unknown, Some('@'));
}

#[test]
fn unicode_letters_and_spaces() {
    // U+00A0 is white space; 'é' is alphabetic.
    assert_eq!(lex("\u{00A0}é1 _a"), vec![ident("é1"), ident("_a")]);
}

#[test]
fn empty_input_has_no_tokens() {
    assert_eq!(lex("   \n\t "), Vec::<Token>::new());
}

#[test]
fn identifier_start_and_continue() {
    assert!(is_ident_start('_'));
    assert!(is_ident_start('a'));
    assert!(is_ident_start('é'));
    assert!(!is_ident_start('1'));
    assert!(!is_ident_start('-'));
    assert!(is_ident_continue('1'));
    assert!(is_ident_continue('_'));
    assert!(is_ident_continue('Z'));
    assert!(!is_ident_continue('-'));
    assert!(!is_ident_continue(' '));
}

#[test]
fn lex_number_reads_digits_and_fraction() {
    let mut cursor = CharCursor::new("23.5x".chars().collect());
    cursor.pos = 1;
    assert_eq!(lex_number('2', &mut cursor), "23.5");
    assert_eq!(cursor.pos, 4);
}

#[test]
fn lex_number_leaves_a_trailing_dot() {
    let mut cursor = CharCursor::new("7.".chars().collect());
    cursor.pos = 1;
    assert_eq!(lex_number('7', &mut cursor), "7");
    assert_eq!(cursor.pos, 1);
}

#[test]
fn get_next_token_reads_one_token() {
    let mut cursor = CharCursor::new("  let y".chars().collect());
    assert_eq!(get_next_token(&mut cursor), Some(Token::Let));
    assert_eq!(get_next_token(&mut cursor), Some(ident("y")));
    assert_eq!(get_next_token(&mut cursor), None);
}

#[test]
fn get_next_token_gives_none_on_unknown_character() {
    let mut cursor = CharCursor::new("#".chars().collect());
    assert_eq!(get_next_token(&mut cursor), None);
}

#[test]
fn scan_token_outcomes() {
    let mut cursor = CharCursor::new("@".chars().collect());
    assert!(matches!(scan_token(&mut cursor), Ok(Scanned::Unknown('@'))));
    let mut cursor = CharCursor::new("".chars().collect());
    assert!(matches!(scan_token(&mut cursor), Ok(Scanned::End)));
    let mut cursor = CharCursor::new("/*".chars().collect());
    assert!(matches!(scan_token(&mut cursor), Err(LexError::UnterminatedComment)));
    let mut cursor = CharCursor::new("x".chars().collect());
    assert!(matches!(scan_token(&mut cursor), Ok(Scanned::Token(Token::Ident(_)))));
}

#[test]
fn type_token_compares_by_kind() {
    assert_eq!(Token::Type(TypeKind::I8), Token::Type(TypeKind::I8));
    assert_ne!(Token::Type(TypeKind::I8), Token::Type(TypeKind::U8));
}
