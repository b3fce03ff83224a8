use lox_lexer::lexemes::{
    lexeme_to_token, token_to_lexeme, DoubleCharacterToken, Keyword, SingleCharacterToken,
};
use lox_lexer::lexer::{Cursor, Lexer, LexerError, Literal, Location, Token};

fn scan(source: &str) -> Result<Vec<Token>, Vec<LexerError>> {
    let mut lexer = Lexer::new(source.to_string());
    lexer.lex().map(|stream| stream.into_tokens())
}

fn tokens(source: &str) -> Vec<Token> {
    scan(source).expect("the source should scan without errors")
}

fn number(text: &str) -> Token {
    Token::LiteralToken(Literal::Number(text.to_string()))
}

fn identifier(text: &str) -> Token {
    Token::LiteralToken(Literal::Identifier(text.to_string()))
}

fn string(text: &str) -> Token {
    Token::LiteralToken(Literal::StringLiteral(text.to_string()))
}

fn number_value(token: &Token) -> f32 {
    match token {
        Token::LiteralToken(Literal::Number(text)) => text.parse().unwrap(),
        other => panic!("not a number: {:?}", other),
    }
}

fn unexpected(character: char, line: u16, column: u16) -> LexerError {
    LexerError::UnexpectedCharacter { character, location: Location::from((line, column)) }
}

#[test]
fn test_one_step_look_ahead() {
    let mut code = Cursor::new("!=");
    assert_eq!(code.next_char(), Some('!'));
    assert!(!Lexer::one_step_look_ahead('!', &mut code));
    assert_eq!(code.peek(), Some('='));
    assert!(Lexer::one_step_look_ahead('=', &mut code));
    assert_eq!(code.peek(), None);
    assert!(!Lexer::one_step_look_ahead('=', &mut code));
}

#[test]
fn test_consume_comment() {
    assert_eq!(tokens("// comment\n1"), vec![number("1"), Token::Eof]);
    assert_eq!(tokens("// only a comment"), vec![Token::Eof]);
    assert_eq!(tokens("1 / 2"), vec![number("1"), Token::Single(SingleCharacterToken::Slash), number("2"), Token::Eof]);
    assert_eq!(tokens("a // b @ #\nc"), vec![identifier("a"), identifier("c"), Token::Eof]);
}

#[test]
fn test_add_double_token() {
    assert_eq!(tokens("!="), vec![Token::Double(DoubleCharacterToken::NotEqual), Token::Eof]);
    assert_eq!(tokens("=="), vec![Token::Double(DoubleCharacterToken::EqualEqualSign), Token::Eof]);
    assert_eq!(tokens("<="), vec![Token::Double(DoubleCharacterToken::LessThanOrEqual), Token::Eof]);
    assert_eq!(tokens(">="), vec![Token::Double(DoubleCharacterToken::GreaterThanOrEqual), Token::Eof]);
    assert_eq!(tokens("!"), vec![Token::Single(SingleCharacterToken::Not), Token::Eof]);
    assert_eq!(
        tokens("!a"),
        vec![Token::Single(SingleCharacterToken::Not), identifier("a"), Token::Eof]
    );
    assert_eq!(
        tokens("<<="),
        vec![
            Token::Single(SingleCharacterToken::LessThan),
            Token::Double(DoubleCharacterToken::LessThanOrEqual),
            Token::Eof
        ]
    );
}

#[test]
fn test_add_string_literal() {
    assert_eq!(tokens("\"hello world\""), vec![string("hello world"), Token::Eof]);
    assert_eq!(tokens("\"a\nb\" x"), vec![string("a\nb"), identifier("x"), Token::Eof]);
    assert_eq!(tokens("\"\""), vec![string(""), Token::Eof]);
    assert_eq!(tokens("\"@\\n\""), vec![string("@\\n"), Token::Eof]);
    // an unterminated literal is dropped
    assert_eq!(tokens("x \"never closed"), vec![identifier("x"), Token::Eof]);
}

#[test]
fn test_add_number_literal() {
    let ts = tokens("123.");
    assert_eq!(ts, vec![number("123."), Token::Eof]);
    assert_eq!(number_value(&ts[0]), 123.0);
    let ts = tokens("3.25+1");
    assert_eq!(ts, vec![number("3.25"), Token::Single(SingleCharacterToken::Plus), number("1"), Token::Eof]);
    assert_eq!(number_value(&ts[0]), 3.25);
    assert_eq!(tokens("1.2.3"), vec![number("1.2.3"), Token::Eof]);
    assert_eq!(tokens("7"), vec![number("7"), Token::Eof]);
}

#[test]
fn test_add_identifier_or_keyword() {
    assert_eq!(tokens("foobar"), vec![identifier("foobar"), Token::Eof]);
    assert_eq!(tokens("class"), vec![Token::KeywordToken(Keyword::Class), Token::Eof]);
    assert_eq!(tokens("classy"), vec![identifier("classy"), Token::Eof]);
    assert_eq!(tokens("_x1 or"), vec![identifier("_x1"), Token::KeywordToken(Keyword::Or), Token::Eof]);
}

#[test]
fn end_marker_is_last_and_alone() {
    for source in ["", "   ", "var x = 1;", "// c", "\"open", "a\nb\nc"] {
        let ts = tokens(source);
        assert_eq!(ts.last(), Some(&Token::Eof));
        assert_eq!(ts.iter().filter(|t| **t == Token::Eof).count(), 1);
    }
}

#[test]
fn every_table_lexeme_scans_to_its_token() {
    let lexemes = [
        "and", "class", "if", "else", "true", "false", "fun", "for", "while", "var", "nil", "or",
        "print", "return", "super", "this", "(", ")", "{", "}", "+", "-", ",", ".", ";", "*", "!",
        "/", "!=", "=", "==", "<", "<=", ">", ">=",
    ];
    for lexeme in lexemes {
        let token = lexeme_to_token(lexeme).expect("a lexeme of the table");
        assert_eq!(tokens(lexeme), vec![token.clone(), Token::Eof]);
        assert_eq!(token_to_lexeme(&token), Some(lexeme));
        assert_eq!(token.to_text(), lexeme);
    }
}

#[test]
fn table_maps_parentheses_and_braces() {
    assert_eq!(lexeme_to_token("("), Some(Token::Single(SingleCharacterToken::LeftParenthesis)));
    assert_eq!(lexeme_to_token("}"), Some(Token::Single(SingleCharacterToken::RightBrace)));
    assert_eq!(lexeme_to_token("while"), Some(Token::KeywordToken(Keyword::While)));
    assert_eq!(lexeme_to_token("foo"), None);
    assert_eq!(lexeme_to_token(""), None);
    assert_eq!(lexeme_to_token("=!"), None);
    assert_eq!(token_to_lexeme(&Token::Eof), None);
    assert_eq!(token_to_lexeme(&identifier("x")), None);
}

#[test]
fn token_text_of_literals_and_end() {
    assert_eq!(Token::Eof.to_text(), "END_OF_FILE");
    assert_eq!(identifier("abc").to_text(), "abc");
    assert_eq!(string("a b").to_text(), "a b");
    assert_eq!(number("4.5").to_text(), "4.5");
    assert_eq!(Token::Double(DoubleCharacterToken::NotEqual).to_text(), "!=");
}

#[test]
fn comment_yields_one_number() {
    let ts = tokens("// comment\n1");
    assert_eq!(ts.len(), 2);
    assert_eq!(number_value(&ts[0]), 1.0);
    assert_eq!(ts[1], Token::Eof);
}

#[test]
fn newline_moves_to_next_line_first_column() {
    assert_eq!(scan("\nfoo@").unwrap_err(), vec![unexpected('@', 1, 3)]);
    assert_eq!(scan("\n@").unwrap_err(), vec![unexpected('@', 1, 0)]);
    let mut lexer = Lexer::new("\nfoo".to_string());
    assert!(lexer.lex().is_ok());
    assert_eq!(lexer.current_location(), Location::from((1, 3)));
}

#[test]
fn errors_accumulate_in_order() {
    assert_eq!(
        scan("@#$").unwrap_err(),
        vec![unexpected('@', 0, 0), unexpected('#', 0, 1), unexpected('$', 0, 2)]
    );
}

#[test]
fn errors_carry_columns_after_operators_and_strings() {
    assert_eq!(scan("a != b ~").unwrap_err(), vec![unexpected('~', 0, 7)]);
    assert_eq!(scan("\"x\ny\" ^").unwrap_err(), vec![unexpected('^', 1, 3)]);
    assert_eq!(scan("é").unwrap_err(), vec![unexpected('é', 0, 0)]);
}

#[test]
fn whitespace_only_gives_end_marker() {
    assert_eq!(tokens(" \t\r\n"), vec![Token::Eof]);
    assert_eq!(tokens(""), vec![Token::Eof]);
}

#[test]
fn location_from_pair() {
    let l = Location::from((3, 9));
    assert_eq!(l.line_number, 3);
    assert_eq!(l.column_number, 9);
}

#[test]
fn full_statement() {
    assert_eq!(
        tokens("var x = (1 + y) * 2;"),
        vec![
            Token::KeywordToken(Keyword::Var),
            identifier("x"),
            Token::Single(SingleCharacterToken::EqualSign),
            Token::Single(SingleCharacterToken::LeftParenthesis),
            number("1"),
            Token::Single(SingleCharacterToken::Plus),
            identifier("y"),
            Token::Single(SingleCharacterToken::RightParenthesis),
            Token::Single(SingleCharacterToken::Star),
            number("2"),
            Token::Single(SingleCharacterToken::SemiColon),
            Token::Eof
        ]
    );
}
