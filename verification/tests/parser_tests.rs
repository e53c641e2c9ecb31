use rstn_front::lexer::{LexErrorKind, Lexer, Number, Token};
use rstn_front::grammar::{SyntaxError, SyntaxErrorKind};
use rstn_front::sintax::{float_slots, DataType, Expresion, Sintax, Statement};
use rstn_front::table::SymbolKind;

fn parsed(source: &str) -> Sintax {
    let mut parser = Sintax::new(Lexer::new(source.to_string()));
    parser.parse().unwrap();
    parser
}

fn program_of(source: &str) -> String {
    format!("{:?}", parsed(source).program)
}

fn error_of(source: &str) -> SyntaxError {
    let mut parser = Sintax::new(Lexer::new(source.to_string()));
    parser.parse().unwrap_err()
}

fn declared_type(parser: &Sintax, name: &str) -> Option<DataType> {
    match &parser.table.read_symbol(name).unwrap().kind {
        SymbolKind::Variable { data_type, .. } => data_type.clone(),
        SymbolKind::Function { data_type, .. } => data_type.clone(),
    }
}

#[test]
fn empty_program_parses_to_nothing() {
    assert_eq!(program_of(""), "[]");
    assert_eq!(program_of("  // only a comment\n"), "[]");
}

#[test]
fn parses_a_declaration_with_a_float_sum() {
    assert_eq!(
        program_of("let x = 1 + 2.5;"),
        "[Declaration(\"x\", Some(Binary(Literal(Number(Integer(1))), Operator(\"+\"), \
         Literal(Number(Float(\"2.5\"))))))]"
    );
}

#[test]
fn declaration_puts_the_variable_into_the_table() {
    let parser = parsed("let x: int = 1;\nlet y;\nlet z: string;");
    assert_eq!(declared_type(&parser, "x"), Some(DataType::Integer));
    assert_eq!(declared_type(&parser, "y"), None);
    assert_eq!(declared_type(&parser, "z"), Some(DataType::String));
    let x = parser.table.lookup("x").unwrap();
    assert_eq!(x.occurrence, 1);
    assert!(matches!(x.kind, SymbolKind::Variable { assigned: false, .. }));
    assert_eq!(parser.table.lookup("y").unwrap().occurrence, 2);
    assert_eq!(program_of("let y;"), "[Declaration(\"y\", None)]");
}

#[test]
fn parses_nested_array_and_tuple_types() {
    let parser = parsed("let a: [(int, float); 4];\nlet b: ([bool; 2], string);\nlet c: ();");
    assert_eq!(
        declared_type(&parser, "a"),
        Some(DataType::Array(
            Box::new(DataType::Tuple(vec![DataType::Integer, DataType::Float])),
            4
        ))
    );
    assert_eq!(
        declared_type(&parser, "b"),
        Some(DataType::Tuple(vec![
            DataType::Array(Box::new(DataType::Boolean), 2),
            DataType::String
        ]))
    );
    assert_eq!(declared_type(&parser, "c"), Some(DataType::Tuple(vec![])));
}

#[test]
fn const_needs_a_type_and_a_value() {
    assert_eq!(
        error_of("const x = 1;"),
        SyntaxError { kind: SyntaxErrorKind::ConstIncomplete, line: 1, col: 12 }
    );
    assert_eq!(error_of("const x: int;").kind, SyntaxErrorKind::ConstIncomplete);
    assert_eq!(error_of("const x;").kind, SyntaxErrorKind::ConstIncomplete);
    assert_eq!(error_of("const x: int = 1 let").kind, SyntaxErrorKind::ExpectedSemicolon);
    assert_eq!(
        program_of("const x: int = 1;"),
        "[Declaration(\"x\", Some(Literal(Number(Integer(1)))))]"
    );
}

#[test]
fn binary_operators_bind_by_their_level() {
    assert_eq!(
        program_of("1 + 2 * 3;"),
        "[ExpressionStatement(Binary(Literal(Number(Integer(1))), Operator(\"+\"), \
         Binary(Literal(Number(Integer(2))), Operator(\"*\"), Literal(Number(Integer(3))))))]"
    );
    assert_eq!(
        program_of("a || b && c;"),
        "[ExpressionStatement(Binary(Identifier(\"a\"), LogicalOperator(\"||\"), \
         Binary(Identifier(\"b\"), LogicalOperator(\"&&\"), Identifier(\"c\"))))]"
    );
    assert_eq!(
        program_of("a < b + c ** d;"),
        "[ExpressionStatement(Binary(Identifier(\"a\"), LogicalOperator(\"<\"), \
         Binary(Identifier(\"b\"), Operator(\"+\"), Binary(Identifier(\"c\"), Operator(\"**\"), \
         Identifier(\"d\")))))]"
    );
}

#[test]
fn binary_operators_join_from_the_left() {
    assert_eq!(
        program_of("a - b - c;"),
        "[ExpressionStatement(Binary(Binary(Identifier(\"a\"), Operator(\"-\"), \
         Identifier(\"b\")), Operator(\"-\"), Identifier(\"c\")))]"
    );
    assert_eq!(
        program_of("a / b % c * d;"),
        "[ExpressionStatement(Binary(Binary(Binary(Identifier(\"a\"), Operator(\"/\"), \
         Identifier(\"b\")), Operator(\"%\"), Identifier(\"c\")), Operator(\"*\"), \
         Identifier(\"d\")))]"
    );
}

#[test]
fn unary_operators_nest_to_the_right() {
    assert_eq!(
        program_of("!!a;"),
        "[ExpressionStatement(Unary(Operator(\"!\"), Unary(Operator(\"!\"), Identifier(\"a\"))))]"
    );
    assert_eq!(
        program_of("- a * b;"),
        "[ExpressionStatement(Binary(Unary(Operator(\"-\"), Identifier(\"a\")), \
         Operator(\"*\"), Identifier(\"b\")))]"
    );
}

#[test]
fn parentheses_group_and_commas_make_tuples() {
    assert_eq!(
        program_of("(1 + 2) * 3;"),
        "[ExpressionStatement(Binary(Binary(Literal(Number(Integer(1))), Operator(\"+\"), \
         Literal(Number(Integer(2)))), Operator(\"*\"), Literal(Number(Integer(3)))))]"
    );
    assert_eq!(
        program_of("(1, true);"),
        "[ExpressionStatement(Tuple([Literal(Number(Integer(1))), Literal(Boolean(true))]))]"
    );
    assert_eq!(
        program_of("(1,);"),
        "[ExpressionStatement(Tuple([Literal(Number(Integer(1)))]))]"
    );
    assert_eq!(
        program_of("((1, 2), 3);"),
        "[ExpressionStatement(Tuple([Tuple([Literal(Number(Integer(1))), \
         Literal(Number(Integer(2)))]), Literal(Number(Integer(3)))]))]"
    );
}

#[test]
fn comma_inside_an_inner_group_makes_no_tuple() {
    assert_eq!(
        program_of("(f(a, b));"),
        "[ExpressionStatement(FnCall(\"f\", [Identifier(\"a\"), Identifier(\"b\")]))]"
    );
    assert_eq!(
        program_of("([1, 2]);"),
        "[ExpressionStatement(Array([Literal(Number(Integer(1))), Literal(Number(Integer(2)))]))]"
    );
}

#[test]
fn parses_arrays_calls_and_strings() {
    assert_eq!(program_of("[];"), "[ExpressionStatement(Array([]))]");
    assert_eq!(
        program_of("[1, \"a\",];"),
        "[ExpressionStatement(Array([Literal(Number(Integer(1))), Literal(String(\"a\"))]))]"
    );
    assert_eq!(program_of("f();"), "[ExpressionStatement(FnCall(\"f\", []))]");
    assert_eq!(
        program_of("f(1, g(false));"),
        "[ExpressionStatement(FnCall(\"f\", [Literal(Number(Integer(1))), FnCall(\"g\", \
         [Literal(Boolean(false))])]))]"
    );
}

#[test]
fn parses_ranges_after_a_number() {
    assert_eq!(
        program_of("1..5;"),
        "[ExpressionStatement(Range(Literal(Number(Integer(1))), Literal(Number(Integer(5))), \
         false))]"
    );
    assert_eq!(
        program_of("0..=n + 1;"),
        "[ExpressionStatement(Range(Literal(Number(Integer(0))), Binary(Identifier(\"n\"), \
         Operator(\"+\"), Literal(Number(Integer(1)))), true))]"
    );
}

#[test]
fn assignment_to_a_name() {
    assert_eq!(
        program_of("x = y + 1;"),
        "[Assignment(Identifier(\"x\"), Binary(Identifier(\"y\"), Operator(\"+\"), \
         Literal(Number(Integer(1)))))]"
    );
}

#[test]
fn assignment_through_a_chain_of_accesses() {
    assert_eq!(
        program_of("a.b[0] = 1;"),
        "[Assignment(Index(Member(Identifier(\"a\"), \"b\"), Literal(Number(Integer(0)))), \
         Literal(Number(Integer(1))))]"
    );
    assert_eq!(
        program_of("t.0 = 2;"),
        "[Assignment(TupleIndex(Identifier(\"t\"), 0), Literal(Number(Integer(2))))]"
    );
    assert_eq!(
        program_of("t.1.12 = 2;"),
        "[Assignment(TupleIndex(TupleIndex(Identifier(\"t\"), 1), 12), \
         Literal(Number(Integer(2))))]"
    );
    assert_eq!(
        program_of("m[i][j] = 0;"),
        "[Assignment(Index(Index(Identifier(\"m\"), Identifier(\"i\")), Identifier(\"j\")), \
         Literal(Number(Integer(0))))]"
    );
}

#[test]
fn access_chain_inside_an_expression() {
    assert_eq!(
        program_of("let v = a[1].x;"),
        "[Declaration(\"v\", Some(Member(Index(Identifier(\"a\"), Literal(Number(Integer(1)))), \
         \"x\")))]"
    );
}

#[test]
fn access_chain_statement_needs_an_assignment() {
    assert_eq!(
        error_of("a.b;"),
        SyntaxError { kind: SyntaxErrorKind::ExpectedEqual, line: 1, col: 4 }
    );
    assert_eq!(error_of("a[0] + 1;").kind, SyntaxErrorKind::ExpectedEqual);
}

#[test]
fn two_positions_written_as_a_float() {
    assert_eq!(float_slots(&"1.2".to_string()), Some((1, 2)));
    assert_eq!(float_slots(&"10.007".to_string()), Some((10, 7)));
    assert_eq!(float_slots(&"1.".to_string()), None);
    assert_eq!(float_slots(&"1e5".to_string()), None);
    assert_eq!(float_slots(&"1.5e3".to_string()), None);
    assert_eq!(float_slots(&"-1.5".to_string()), None);
    assert_eq!(float_slots(&"1.99999999999999999999999999".to_string()), None);
    assert_eq!(error_of("x = t.1e5;").kind, SyntaxErrorKind::ExpectedIndexOrMember);
    assert_eq!(error_of("x = t.-1;").kind, SyntaxErrorKind::ExpectedIndexOrMember);
    assert_eq!(error_of("x = t.(;").kind, SyntaxErrorKind::ExpectedIndexOrMember);
}

#[test]
fn if_gets_a_scope_and_else_becomes_an_if_on_true() {
    let parser = parsed("if (a) { x = 1; } else { x = 2; }");
    assert_eq!(
        format!("{:?}", parser.program),
        "[If(Identifier(\"a\"), [Assignment(Identifier(\"x\"), Literal(Number(Integer(1))))], \
         Some(If(Literal(Boolean(true)), [Assignment(Identifier(\"x\"), \
         Literal(Number(Integer(2))))], None, 1)), 1)]"
    );
    assert_eq!(parser.current_scope_id, 1);
    assert_eq!(parser.table.active_scopes, vec![0]);
    assert_eq!(parser.table.all_scopes.len(), 2);
}

#[test]
fn else_if_is_an_if_with_its_own_scope() {
    assert_eq!(
        program_of("if (a) { } else if (b) { } else { }"),
        "[If(Identifier(\"a\"), [], Some(If(Identifier(\"b\"), [], Some(If(Literal(Boolean(true)), \
         [], None, 2)), 2)), 1)]"
    );
}

#[test]
fn scope_ids_grow_block_by_block() {
    let parser = parsed("loop { loop { } } loop { } if (c) { }");
    assert_eq!(
        format!("{:?}", parser.program),
        "[Loop([Loop([], 2)], 1), Loop([], 3), If(Identifier(\"c\"), [], None, 4)]"
    );
    assert_eq!(parser.current_scope_id, 4);
    assert_eq!(parser.table.all_scopes.len(), 5);
}

#[test]
fn declarations_go_into_the_scope_of_their_block() {
    let parser = parsed("let g = 1; loop { let inner = 2; }");
    assert!(parser.table.lookup("g").is_some());
    assert!(parser.table.lookup("inner").is_none());
    assert!(parser.table.read_symbol("inner").is_some());
    assert_eq!(parser.table.all_scopes[1].id, 1);
    assert_eq!(parser.table.all_scopes[1].entries[0].key, "inner");
}

#[test]
fn parses_a_for_loop() {
    assert_eq!(
        program_of("for (i in 1..=5) { f(i); }"),
        "[For(\"i\", Range(Literal(Number(Integer(1))), Literal(Number(Integer(5))), true), \
         [ExpressionStatement(FnCall(\"f\", [Identifier(\"i\")]))], 1)]"
    );
}

#[test]
fn function_goes_into_the_enclosing_scope_with_its_parameters() {
    let parser = parsed("fn foo(x: int, y: bool) -> int { return x; }");
    assert_eq!(
        format!("{:?}", parser.program),
        "[FnDeclaration(\"foo\", [\"x\", \"y\"], [Return(Some(Identifier(\"x\")))], 1)]"
    );
    match &parser.table.lookup("foo").unwrap().kind {
        SymbolKind::Function { data_type, parameters, param_types } => {
            assert_eq!(*data_type, Some(DataType::Integer));
            assert_eq!(*parameters, vec!["x".to_string(), "y".to_string()]);
            assert_eq!(*param_types, vec![DataType::Integer, DataType::Boolean]);
        }
        _ => panic!("not a function"),
    }
    assert!(parser.table.read_symbol("x").is_none());
}

#[test]
fn function_without_parameters_and_empty_return() {
    assert_eq!(
        program_of("fn f() -> bool { return; }"),
        "[FnDeclaration(\"f\", [], [Return(None)], 1)]"
    );
}

#[test]
fn statements_need_their_semicolon() {
    assert_eq!(
        error_of("let x = 1"),
        SyntaxError { kind: SyntaxErrorKind::ExpectedSemicolon, line: 1, col: 10 }
    );
    assert_eq!(error_of("x = 1 y").kind, SyntaxErrorKind::ExpectedSemicolon);
    assert_eq!(error_of("f(1)").kind, SyntaxErrorKind::ExpectedSemicolon);
    assert_eq!(error_of("return 1 }").kind, SyntaxErrorKind::ExpectedSemicolon);
}

#[test]
fn every_syntax_error_has_an_input() {
    assert_eq!(error_of("let 1 = 2;").kind, SyntaxErrorKind::ExpectedIdentifier);
    assert_eq!(error_of("fn (x: int) -> int { }").kind, SyntaxErrorKind::ExpectedIdentifier);
    assert_eq!(error_of("for (1 in x) { }").kind, SyntaxErrorKind::ExpectedIdentifier);
    assert_eq!(error_of("fn f(1) -> int { }").kind, SyntaxErrorKind::ExpectedIdentifier);
    assert_eq!(error_of("let x: 5;").kind, SyntaxErrorKind::ExpectedType);
    assert_eq!(error_of("fn f(x) -> int { }").kind, SyntaxErrorKind::ExpectedType);
    assert_eq!(error_of("fn f() -> [int; 2] { }").kind, SyntaxErrorKind::ExpectedType);
    assert_eq!(error_of("fn f() { }").kind, SyntaxErrorKind::ExpectedReturnType);
    assert_eq!(error_of("let x: [int; n];").kind, SyntaxErrorKind::ExpectedArraySize);
    assert_eq!(error_of("let x: [int; 2.5];").kind, SyntaxErrorKind::ExpectedArraySize);
    assert_eq!(error_of("let x: [int, 2];").kind, SyntaxErrorKind::ExpectedSemicolon);
    assert_eq!(error_of("let x: [int; 2);").kind, SyntaxErrorKind::ExpectedRightBracket);
    assert_eq!(error_of("if a { }").kind, SyntaxErrorKind::ExpectedLeftParen);
    assert_eq!(error_of("for i in x { }").kind, SyntaxErrorKind::ExpectedLeftParen);
    assert_eq!(error_of("fn f { }").kind, SyntaxErrorKind::ExpectedLeftParen);
    assert_eq!(error_of("if (a { }").kind, SyntaxErrorKind::ExpectedRightParen);
    assert_eq!(error_of("x = (1 + 2;").kind, SyntaxErrorKind::ExpectedRightParen);
    assert_eq!(error_of("for (i in x { }").kind, SyntaxErrorKind::ExpectedRightParen);
    assert_eq!(error_of("x = a[1;").kind, SyntaxErrorKind::ExpectedRightBracket);
    assert_eq!(error_of("loop x = 1; }").kind, SyntaxErrorKind::ExpectedLeftBrace);
    assert_eq!(error_of("if (a) x = 1;").kind, SyntaxErrorKind::ExpectedLeftBrace);
    assert_eq!(error_of("loop { x = 1;").kind, SyntaxErrorKind::ExpectedRightBrace);
    assert_eq!(error_of("x = (1, 2 3);").kind, SyntaxErrorKind::ExpectedCommaOrRightParen);
    assert_eq!(error_of("fn f(x: int y: int) -> int { }").kind, SyntaxErrorKind::ExpectedCommaOrRightParen);
    assert_eq!(error_of("x = [1 2];").kind, SyntaxErrorKind::ExpectedCommaOrRightBracket);
    assert_eq!(error_of("for (i of x) { }").kind, SyntaxErrorKind::ExpectedIn);
    assert_eq!(error_of("x = ;").kind, SyntaxErrorKind::ExpectedExpression);
    assert_eq!(error_of("x = 1 + ;").kind, SyntaxErrorKind::ExpectedExpression);
    assert_eq!(error_of("();").kind, SyntaxErrorKind::ExpectedExpression);
    assert_eq!(error_of("f(a,);").kind, SyntaxErrorKind::ExpectedExpression);
    assert_eq!(error_of("f(a b);").kind, SyntaxErrorKind::BadCall);
    assert_eq!(error_of("x = t.;").kind, SyntaxErrorKind::ExpectedIndexOrMember);
    assert_eq!(error_of("a. = 1;").kind, SyntaxErrorKind::ExpectedIndexOrMember);
}

#[test]
fn lexical_errors_come_through_the_parser() {
    assert_eq!(
        error_of("let s = \"open;"),
        SyntaxError {
            kind: SyntaxErrorKind::Lexical(LexErrorKind::UnclosedString),
            line: 1,
            col: 15
        }
    );
    assert_eq!(
        error_of("let x = 1 # 2;").kind,
        SyntaxErrorKind::Lexical(LexErrorKind::UnexpectedCharacter)
    );
    assert_eq!(
        error_of("x = (1 /* ").kind,
        SyntaxErrorKind::Lexical(LexErrorKind::UnclosedComment)
    );
    assert_eq!(
        error_of("x = 99999999999;").kind,
        SyntaxErrorKind::Lexical(LexErrorKind::InvalidNumber)
    );
}

#[test]
fn error_carries_line_and_column() {
    assert_eq!(
        error_of("let a = 1;\nlet b = ;"),
        SyntaxError { kind: SyntaxErrorKind::ExpectedExpression, line: 2, col: 11 }
    );
}

#[test]
fn scope_ids_run_out_at_the_largest() {
    let mut parser = Sintax::new(Lexer::new("loop { }".to_string()));
    parser.current_scope_id = u32::MAX;
    assert_eq!(parser.generate_scope_id().unwrap_err().kind, SyntaxErrorKind::TooManyScopes);
    assert_eq!(parser.parse().unwrap_err().kind, SyntaxErrorKind::TooManyScopes);
    let mut parser = Sintax::new(Lexer::new("loop { }".to_string()));
    assert_eq!(parser.generate_scope_id().unwrap(), 1);
    assert_eq!(parser.generate_scope_id().unwrap(), 2);
}

#[test]
fn levels_can_be_parsed_on_their_own() {
    let mut parser = Sintax::new(Lexer::new("a * b + c".to_string()));
    assert_eq!(
        format!("{:?}", parser.parse_factor().unwrap()),
        "Binary(Identifier(\"a\"), Operator(\"*\"), Identifier(\"b\"))"
    );
    let mut parser = Sintax::new(Lexer::new("a * b + c < d && e || f".to_string()));
    assert_eq!(
        format!("{:?}", parser.parse_term().unwrap()),
        "Binary(Binary(Identifier(\"a\"), Operator(\"*\"), Identifier(\"b\")), Operator(\"+\"), \
         Identifier(\"c\"))"
    );
    let mut parser = Sintax::new(Lexer::new("a ** b * c".to_string()));
    assert_eq!(
        format!("{:?}", parser.parse_expoperator().unwrap()),
        "Binary(Identifier(\"a\"), Operator(\"**\"), Identifier(\"b\"))"
    );
    let mut parser = Sintax::new(Lexer::new("a < b && c".to_string()));
    assert_eq!(
        format!("{:?}", parser.parse_comparison().unwrap()),
        "Binary(Identifier(\"a\"), LogicalOperator(\"<\"), Identifier(\"b\"))"
    );
    let mut parser = Sintax::new(Lexer::new("a && b || c".to_string()));
    assert_eq!(
        format!("{:?}", parser.parse_logical_and().unwrap()),
        "Binary(Identifier(\"a\"), LogicalOperator(\"&&\"), Identifier(\"b\"))"
    );
    let mut parser = Sintax::new(Lexer::new("a || b".to_string()));
    assert_eq!(
        format!("{:?}", parser.parse_logical_or().unwrap()),
        "Binary(Identifier(\"a\"), LogicalOperator(\"||\"), Identifier(\"b\"))"
    );
}

#[test]
fn a_copy_of_a_statement_prints_the_same() {
    let parser = parsed("fn f(a: int) -> int { if (a < 1) { return (a, t.0, [1, 2]); } else { a[0] = -a; } }");
    let copy: Vec<Statement> = parser.program.iter().map(|s| s.clone()).collect();
    assert_eq!(format!("{:?}", copy), format!("{:?}", parser.program));
}

#[test]
fn literal_tokens_write_literals() {
    let literal = |token: Token| Expresion::get_literal(token).map(|l| format!("{:?}", l));
    assert_eq!(literal(Token::Number(Number::Integer(3))), Some("Number(Integer(3))".to_string()));
    assert_eq!(
        literal(Token::Number(Number::Float("1.5".to_string()))),
        Some("Number(Float(\"1.5\"))".to_string())
    );
    assert_eq!(literal(Token::String("s".to_string())), Some("String(\"s\")".to_string()));
    assert_eq!(literal(Token::True), Some("Boolean(true)".to_string()));
    assert_eq!(literal(Token::False), Some("Boolean(false)".to_string()));
    assert_eq!(literal(Token::Identifier("x".to_string())), None);
    assert_eq!(literal(Token::EOF), None);
}

#[test]
fn symbols_carry_the_scope_that_declares_them() {
    let parser = parsed("let g = 1;\nloop {\n let inner = 2;\n fn f() -> int { let deep = 1; }\n}");
    let scope_of = |name: &str| parser.table.read_symbol(name).unwrap().scope;
    let line_of = |name: &str| parser.table.read_symbol(name).unwrap().occurrence;
    assert_eq!(scope_of("g"), 0);
    assert_eq!(scope_of("inner"), 1);
    assert_eq!(scope_of("f"), 1);
    assert_eq!(scope_of("deep"), 2);
    assert_eq!(line_of("g"), 1);
    assert_eq!(line_of("inner"), 3);
    assert_eq!(line_of("f"), 4);
    assert_eq!(parser.table.current_scope(), 0);
}
