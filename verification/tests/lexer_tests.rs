use rstn_front::lexer::{LexError, LexErrorKind, Lexer, Number, Token};
use rstn_front::order::Order;
use rstn_front::text::{decimal_text, digits_text};

fn tokens_of(source: &str) -> Vec<Token> {
    let mut lexer = Lexer::new(source.to_string());
    let mut tokens = Vec::new();
    loop {
        let token = lexer.get_next_token().unwrap();
        if token == Token::EOF {
            return tokens;
        }
        tokens.push(token);
    }
}

fn first_error(source: &str) -> LexError {
    let mut lexer = Lexer::new(source.to_string());
    loop {
        match lexer.get_next_token() {
            Ok(Token::EOF) => panic!("no error in {:?}", source),
            Ok(_) => {}
            Err(e) => return e,
        }
    }
}

fn op_token(text: &str) -> Token {
    Token::Operator(text.to_string())
}

fn logical_token(text: &str) -> Token {
    Token::LogicalOperator(text.to_string())
}

fn int_token(value: i32) -> Token {
    Token::Number(Number::Integer(value))
}

fn float_token(text: &str) -> Token {
    Token::Number(Number::Float(text.to_string()))
}

fn name_token(name: &str) -> Token {
    Token::Identifier(name.to_string())
}

#[test]
fn lexes_a_declaration() {
    assert_eq!(
        tokens_of("let x = 1 + 2.5;"),
        vec![Token::Let, name_token("x"), Token::Equal, int_token(1), op_token("+"), float_token("2.5"), Token::Semicolon]
    );
}

#[test]
fn empty_source_is_eof_forever() {
    let mut lexer = Lexer::new(String::new());
    assert_eq!(lexer.get_next_token().unwrap(), Token::EOF);
    assert_eq!(lexer.get_next_token().unwrap(), Token::EOF);
    assert_eq!(lexer.save_position(), 0);
}

#[test]
fn lexes_every_keyword() {
    assert_eq!(
        tokens_of("fn if else for in loop let const return true false int string float bool"),
        vec![
            Token::Function,
            Token::If,
            Token::Else,
            Token::For,
            Token::In,
            Token::Loop,
            Token::Let,
            Token::Const,
            Token::Return,
            Token::True,
            Token::False,
            Token::TypeInt,
            Token::TypeString,
            Token::TypeFloat,
            Token::TypeBool,
        ]
    );
}

#[test]
fn keyword_inside_a_word_is_an_identifier() {
    assert_eq!(tokens_of("iffy _let fn1 in_"), vec![name_token("iffy"), name_token("_let"), name_token("fn1"), name_token("in_")]);
}

#[test]
fn lexes_punctuation() {
    assert_eq!(
        tokens_of("( ) { } [ ] , ; : ."),
        vec![
            Token::LeftParen,
            Token::RightParen,
            Token::LeftBrace,
            Token::RightBrace,
            Token::LeftBracket,
            Token::RightBracket,
            Token::Comma,
            Token::Semicolon,
            Token::Colon,
            Token::Dot,
        ]
    );
}

#[test]
fn lexes_arithmetic_operators() {
    assert_eq!(
        tokens_of("+ - * / % ** & | !"),
        vec![op_token("+"), op_token("-"), op_token("*"), op_token("/"), op_token("%"), op_token("**"), op_token("&"), op_token("|"), op_token("!")]
    );
}

#[test]
fn lexes_logical_operators() {
    assert_eq!(
        tokens_of("&& || == != < > <= >= ="),
        vec![
            logical_token("&&"),
            logical_token("||"),
            logical_token("=="),
            logical_token("!="),
            logical_token("<"),
            logical_token(">"),
            logical_token("<="),
            logical_token(">="),
            Token::Equal,
        ]
    );
}

#[test]
fn lexes_arrow_and_ranges() {
    assert_eq!(tokens_of("-> .. ..="), vec![Token::ArrowType, Token::Range, Token::RangeInclusive]);
}

#[test]
fn integer_before_a_range_is_not_a_float() {
    assert_eq!(tokens_of("1..5"), vec![int_token(1), Token::Range, int_token(5)]);
    assert_eq!(tokens_of("1..=5"), vec![int_token(1), Token::RangeInclusive, int_token(5)]);
}

#[test]
fn float_literals_keep_their_text() {
    assert_eq!(tokens_of("1.5"), vec![float_token("1.5")]);
    assert_eq!(tokens_of("1."), vec![float_token("1.")]);
    assert_eq!(tokens_of("3e5"), vec![float_token("3e5")]);
    assert_eq!(tokens_of("3E-2"), vec![float_token("3E-2")]);
    assert_eq!(tokens_of("2.5e+10"), vec![float_token("2.5e+10")]);
    assert_eq!(tokens_of("-0.25"), vec![float_token("-0.25")]);
}

#[test]
fn second_point_ends_a_float() {
    assert_eq!(tokens_of("1.5.3"), vec![float_token("1.5"), Token::Dot, int_token(3)]);
    assert_eq!(tokens_of("1.5..3"), vec![float_token("1.5"), Token::Range, int_token(3)]);
}

#[test]
fn minus_before_a_digit_is_part_of_the_number() {
    assert_eq!(tokens_of("-5"), vec![int_token(-5)]);
    assert_eq!(tokens_of("a-5"), vec![name_token("a"), int_token(-5)]);
    assert_eq!(tokens_of("a - 5"), vec![name_token("a"), op_token("-"), int_token(5)]);
    assert_eq!(tokens_of("-x"), vec![op_token("-"), name_token("x")]);
    assert_eq!(tokens_of("-"), vec![op_token("-")]);
}

#[test]
fn integers_at_the_edges_of_32_bits() {
    assert_eq!(tokens_of("2147483647"), vec![int_token(2147483647)]);
    assert_eq!(tokens_of("-2147483648"), vec![int_token(-2147483648)]);
    assert_eq!(tokens_of("0000000000000000000000012"), vec![int_token(12)]);
    assert_eq!(first_error("2147483648").kind, LexErrorKind::InvalidNumber);
    assert_eq!(first_error("-2147483649").kind, LexErrorKind::InvalidNumber);
    assert_eq!(first_error("99999999999999999999999999999").kind, LexErrorKind::InvalidNumber);
}

#[test]
fn exponent_without_digits_is_an_invalid_number() {
    assert_eq!(
        first_error("1e;"),
        LexError { kind: LexErrorKind::InvalidNumber, line: 1, col: 3 }
    );
    assert_eq!(first_error("7e+ ").kind, LexErrorKind::InvalidNumber);
}

#[test]
fn number_that_runs_into_a_letter_is_zero() {
    assert_eq!(tokens_of("12abc;"), vec![int_token(0), Token::Semicolon]);
    assert_eq!(tokens_of("1e5x + 2"), vec![int_token(0), op_token("+"), int_token(2)]);
    assert_eq!(tokens_of("3.5z9 7"), vec![int_token(0), int_token(7)]);
    assert_eq!(tokens_of("1_000"), vec![int_token(1), name_token("_000")]);
}

#[test]
fn lexes_strings_verbatim() {
    assert_eq!(tokens_of("\"hi there\""), vec![Token::String("hi there".to_string())]);
    assert_eq!(tokens_of("\"\""), vec![Token::String(String::new())]);
    assert_eq!(
        tokens_of("\"a // b /* c\" x"),
        vec![Token::String("a // b /* c".to_string()), name_token("x")]
    );
    assert_eq!(tokens_of("\"día\" ñ"), vec![Token::String("día".to_string()), name_token("ñ")]);
}

#[test]
fn unclosed_string_is_an_error_at_the_end() {
    assert_eq!(
        first_error("\"abc"),
        LexError { kind: LexErrorKind::UnclosedString, line: 1, col: 5 }
    );
}

#[test]
fn skips_comments_and_white_space() {
    assert_eq!(tokens_of("// nothing\nlet"), vec![Token::Let]);
    assert_eq!(tokens_of("let // to the end"), vec![Token::Let]);
    assert_eq!(tokens_of("/* a\n b */ let /**/ x"), vec![Token::Let, name_token("x")]);
    assert_eq!(tokens_of(" \t\r\n let \n"), vec![Token::Let]);
    assert_eq!(tokens_of("a / b"), vec![name_token("a"), op_token("/"), name_token("b")]);
}

#[test]
fn unclosed_comment_is_an_error_at_the_end() {
    assert_eq!(
        first_error("let /* never"),
        LexError { kind: LexErrorKind::UnclosedComment, line: 1, col: 13 }
    );
    assert_eq!(first_error("/*/").kind, LexErrorKind::UnclosedComment);
}

#[test]
fn unexpected_character_is_an_error_where_it_stands() {
    assert_eq!(
        first_error("a #"),
        LexError { kind: LexErrorKind::UnexpectedCharacter, line: 1, col: 3 }
    );
    assert_eq!(first_error("@").kind, LexErrorKind::UnexpectedCharacter);
}

#[test]
fn peek_then_next_returns_the_same_token_twice() {
    let sources = [
        "let x = 1 + 2.5;",
        "fn foo(x: int, y: bool) -> int { return x; }",
        "/* c */ a[0].1 = (1, 2); // end",
        "for (i in 1..=5) { \"s\" }",
        "",
        "  ",
        "\"open",
        "#",
    ];
    for source in sources {
        let mut lexer = Lexer::new(source.to_string());
        loop {
            let before = lexer.save_position();
            let peeked = lexer.peek_token();
            assert_eq!(lexer.save_position(), before);
            let read = lexer.get_next_token();
            assert_eq!(peeked, read);
            match read {
                Ok(Token::EOF) | Err(_) => break,
                Ok(_) => {}
            }
        }
    }
}

#[test]
fn position_counts_lines_and_columns() {
    let mut lexer = Lexer::new("a\nbc".to_string());
    assert_eq!(lexer.get_current_position(), (1, 1));
    assert_eq!(lexer.get_next_token().unwrap(), name_token("a"));
    assert_eq!(lexer.get_current_position(), (2, 1));
    assert_eq!(lexer.get_next_token().unwrap(), name_token("bc"));
    assert_eq!(lexer.get_current_position(), (2, 4));
    assert_eq!(lexer.remaining(), 0);
}

#[test]
fn restore_goes_back_to_a_saved_position() {
    let mut lexer = Lexer::new("one two three".to_string());
    assert_eq!(lexer.get_next_token().unwrap(), name_token("one"));
    let mark = lexer.save_position();
    assert_eq!(mark, 3);
    assert_eq!(lexer.get_next_token().unwrap(), name_token("two"));
    assert_eq!(lexer.get_next_token().unwrap(), name_token("three"));
    lexer.restore_position(mark);
    assert_eq!(lexer.save_position(), 3);
    assert_eq!(lexer.get_current_position(), (1, 4));
    assert_eq!(lexer.get_next_token().unwrap(), name_token("two"));
}

#[test]
fn restore_beyond_the_text_goes_to_its_end() {
    let mut lexer = Lexer::new("abc".to_string());
    lexer.restore_position(1000);
    assert_eq!(lexer.save_position(), 3);
    assert_eq!(lexer.get_next_token().unwrap(), Token::EOF);
}

#[test]
fn characters_at_and_after_the_cursor() {
    let mut lexer = Lexer::new("xy".to_string());
    assert_eq!(lexer.current_char(), Some('x'));
    assert_eq!(lexer.peek(), Some('y'));
    assert_eq!(lexer.advance(), Some('y'));
    assert_eq!(lexer.peek(), None);
    assert_eq!(lexer.advance(), None);
    assert_eq!(lexer.advance(), None);
    assert_eq!(lexer.save_position(), 2);
}

#[test]
fn scans_a_word_on_its_own() {
    let mut lexer = Lexer::new("name_1 + 2".to_string());
    assert_eq!(lexer.scan_identifier_keyword(), "name_1");
    assert_eq!(lexer.save_position(), 6);
    assert_eq!(lexer.scan_identifier_keyword(), "");
    assert_eq!(lexer.save_position(), 6);
}

#[test]
fn a_copy_of_a_lexer_reads_on_its_own() {
    let mut lexer = Lexer::new("a b".to_string());
    let mut copy = lexer.clone();
    assert_eq!(copy.get_next_token().unwrap(), name_token("a"));
    assert_eq!(copy.get_next_token().unwrap(), name_token("b"));
    assert_eq!(lexer.get_next_token().unwrap(), name_token("a"));
}

#[test]
fn tokens_have_their_text() {
    assert_eq!(Token::Function.text(), "fn");
    assert_eq!(Token::RangeInclusive.text(), "..=");
    assert_eq!(Token::EOF.text(), "EOF");
    assert_eq!(Token::LeftBrace.text(), "{");
    assert_eq!(name_token("abc").text(), "abc");
    assert_eq!(op_token("**").text(), "**");
    assert_eq!(logical_token("<=").text(), "<=");
    assert_eq!(Token::String("a b".to_string()).text(), "a b");
    assert_eq!(float_token("2.50").text(), "2.50");
    let texts: Vec<String> = tokens_of("fn f(a: int) -> bool { return a >= -12; }")
        .iter()
        .map(|t| t.text())
        .collect();
    assert_eq!(
        texts,
        vec!["fn", "f", "(", "a", ":", "int", ")", "->", "bool", "{", "return", "a", ">=", "-12",
             ";", "}"]
    );
}

#[test]
fn integers_have_their_decimal_text() {
    assert_eq!(int_token(0).text(), "0");
    assert_eq!(int_token(7).text(), "7");
    assert_eq!(int_token(10).text(), "10");
    assert_eq!(int_token(-1).text(), "-1");
    assert_eq!(int_token(120034).text(), "120034");
    assert_eq!(int_token(2147483647).text(), "2147483647");
    assert_eq!(int_token(-2147483648).text(), "-2147483648");
    assert_eq!(decimal_text(-905), "-905");
    assert_eq!(digits_text(4294967295), "4294967295");
}

#[test]
fn floats_sort_after_integers() {
    let one = Number::Integer(1);
    let two = Number::Integer(2);
    let half = Number::Float("0.5".to_string());
    assert_eq!(one.order(&two), Some(Order::Less));
    assert_eq!(two.order(&one), Some(Order::Greater));
    assert_eq!(two.order(&two), Some(Order::Equal));
    assert_eq!(two.order(&half), Some(Order::Less));
    assert_eq!(half.order(&two), Some(Order::Greater));
    assert_eq!(half.order(&half), None);
}

#[test]
fn invalid_numbers_are_reported_where_they_run_into_a_letter() {
    let mut lexer = Lexer::new("let a = 12abc;\nlet b = 7;\nlet c = 1.5e3x + 2z;".to_string());
    assert_eq!(
        lexer.invalid_numbers(),
        vec![
            LexError { kind: LexErrorKind::InvalidNumber, line: 1, col: 11 },
            LexError { kind: LexErrorKind::InvalidNumber, line: 3, col: 15 },
            LexError { kind: LexErrorKind::InvalidNumber, line: 3, col: 20 },
        ]
    );
    assert_eq!(lexer.remaining(), 0);
    assert_eq!(Lexer::new("let a = 1 + 2.5;".to_string()).invalid_numbers(), vec![]);
    assert_eq!(Lexer::new("1x # 2y".to_string()).invalid_numbers().len(), 1);
}

#[test]
fn reading_tells_the_token_and_the_complaint() {
    let mut lexer = Lexer::new("5 6q".to_string());
    let first = lexer.read_token().unwrap();
    assert_eq!(first.token, int_token(5));
    assert_eq!(first.warning, None);
    let second = lexer.read_token().unwrap();
    assert_eq!(second.token, int_token(0));
    assert_eq!(
        second.warning,
        Some(LexError { kind: LexErrorKind::InvalidNumber, line: 1, col: 4 })
    );
    assert_eq!(lexer.read_token().unwrap().token, Token::EOF);
}
