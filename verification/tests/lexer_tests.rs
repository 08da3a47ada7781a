use nrc::lexer::token::Token;
use nrc::lexer::Lexer;

#[test]
fn test_lexer_basic() {
    let source = "func main() { return 42; }".to_string();
    let mut lexer = Lexer::new(source);

    let tokens = lexer.tokenize();
    let tokens = tokens.unwrap();

    assert_eq!(tokens.len(), 9);
    assert_eq!(tokens[0].token, Token::Fn);
    assert_eq!(tokens[1].token, Token::Identifier("main".to_string()));
    assert_eq!(tokens[2].token, Token::LeftParen);
    assert_eq!(tokens[3].token, Token::RightParen);
    assert_eq!(tokens[4].token, Token::LeftBrace);
    assert_eq!(tokens[5].token, Token::Return);
    assert_eq!(tokens[6].token, Token::Integer(42));
    assert_eq!(tokens[7].token, Token::Semicolon);
    assert_eq!(tokens[8].token, Token::RightBrace);
}

#[test]
fn test_lexer_peek() {
    let source = "func main()".to_string();
    let mut lexer = Lexer::new(source);

    let peeked = lexer.peek_token().unwrap().unwrap();
    assert_eq!(peeked.token, Token::Fn);

    let next = lexer.next_token().unwrap().unwrap();
    assert_eq!(next.token, Token::Fn);
}

#[test]
fn test_lexer_multiline() {
    let source = "func main() {\n    return 42;\n}".to_string();
    let mut lexer = Lexer::new(source);

    let tokens = lexer.tokenize();
    let tokens = tokens.unwrap();

    for (i, token) in tokens.iter().enumerate() {
        println!("Token {}: {:?} at line {}", i, token.token, token.line);
    }

    assert_eq!(tokens[0].line, 1);
    assert_eq!(tokens[4].line, 1);
    assert_eq!(tokens[5].line, 2);
    assert_eq!(tokens[7].line, 2);
    assert_eq!(tokens[8].line, 3);
}

#[test]
fn test_token_parsing() {
    let mut lexer = Token::lexer("func main() { return 42; }");

    assert_eq!(lexer.next(), Some(Ok(Token::Fn)));
    assert_eq!(lexer.next(), Some(Ok(Token::Identifier("main".to_string()))));
    assert_eq!(lexer.next(), Some(Ok(Token::LeftParen)));
    assert_eq!(lexer.next(), Some(Ok(Token::RightParen)));
    assert_eq!(lexer.next(), Some(Ok(Token::LeftBrace)));
    assert_eq!(lexer.next(), Some(Ok(Token::Return)));
    assert_eq!(lexer.next(), Some(Ok(Token::Integer(42))));
    assert_eq!(lexer.next(), Some(Ok(Token::Semicolon)));
    assert_eq!(lexer.next(), Some(Ok(Token::RightBrace)));
    assert_eq!(lexer.next(), None);
}

#[test]
fn test_string_literal() {
    let mut lexer = Token::lexer(r#""hello world""#);
    assert_eq!(lexer.next(), Some(Ok(Token::String("hello world".to_string()))));
}

#[test]
fn test_float_literal() {
    let mut lexer = Token::lexer("3.14159");
    let expected: f64 = 3.14159;
    match lexer.next() {
        Some(Ok(Token::Float(text))) => {
            assert_eq!(text, "3.14159".to_string());
            assert_eq!(text.parse::<f64>().unwrap(), expected);
        }
        other => panic!("expected a float token, got {:?}", other),
    }
}

#[test]
fn lexer_reports_unexpected_character() {
    let mut lexer = Lexer::new("x $ y".to_string());
    let err = lexer.tokenize().unwrap_err();
    match err {
        nrc::error::CompilerError::Lexical { line, column, message } => {
            assert_eq!(line, 1);
            assert_eq!(column, 3);
            assert_eq!(message, "Unexpected character: '$'");
        }
        other => panic!("expected a lexical error, got {:?}", other),
    }
}

#[test]
fn token_stream_skips_bad_character() {
    let mut stream = Token::lexer("a $ b");
    assert_eq!(stream.next(), Some(Ok(Token::Identifier("a".to_string()))));
    assert_eq!(stream.next(), Some(Err(())));
    assert_eq!(stream.next(), Some(Ok(Token::Identifier("b".to_string()))));
    assert_eq!(stream.next(), None);
}

#[test]
fn lexer_keywords_and_operators() {
    let mut lexer = Lexer::new("var x = 1 << 2 >= 3 && !y".to_string());
    let tokens = lexer.tokenize().unwrap();
    let kinds: Vec<Token> = tokens.into_iter().map(|t| t.token).collect();
    assert_eq!(kinds[0], Token::Var);
    assert_eq!(kinds[1], Token::Identifier("x".to_string()));
    assert_eq!(kinds[2], Token::Assign);
    assert_eq!(kinds[3], Token::Integer(1));
    assert_eq!(kinds[4], Token::LeftShift);
    assert_eq!(kinds[5], Token::Integer(2));
    assert_eq!(kinds[6], Token::GreaterEqual);
    assert_eq!(kinds[7], Token::Integer(3));
    assert_eq!(kinds[8], Token::LogicalAnd);
    assert_eq!(kinds[9], Token::Not);
}

#[test]
fn peeking_consumes_nothing() {
    let mut lexer = Lexer::new("fn main()".to_string());
    let peeked = lexer.peek_token().unwrap().unwrap().clone();
    let again = lexer.peek_token().unwrap().unwrap().clone();
    assert_eq!(peeked.token, again.token);
    let first = lexer.next_token().unwrap().unwrap();
    assert_eq!(first.token, peeked.token);
    assert_eq!((first.line, first.column), (peeked.line, peeked.column));
    let second = lexer.next_token().unwrap().unwrap();
    assert_eq!(second.token, Token::Identifier("main".to_string()));
}
