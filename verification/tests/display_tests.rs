use rstn_front::lexer::{LexErrorKind, Lexer, Number, Token};
use rstn_front::sintax::{DataType, Sintax};
use rstn_front::table::{Symbol, SymbolKind, UseType};
use rstn_front::text::{get_type_and_value, type_debug_text};
use rstn_front::tree_display::{
    display_tree, literal_debug_text, print_expression, token_debug_text,
};
use rstn_front::sintax::{Expresion, Literal, Statement};

fn program_of(source: &str) -> Vec<Statement> {
    let mut parser = Sintax::new(Lexer::new(source.to_string()));
    parser.parse().unwrap();
    parser.program
}

fn expression_of(source: &str) -> Expresion {
    match program_of(source).remove(0) {
        Statement::ExpressionStatement(e) => e,
        Statement::Declaration(_, Some(e)) => e,
        other => panic!("no expression in {:?}", other),
    }
}

#[test]
fn tree_of_a_declaration() {
    assert_eq!(
        display_tree(&program_of("let x = 1 + 2.5;")),
        "Program:\n\
         └── Declaration: x\n\
         \x20   └── Binary Expression:\n\
         \x20       ├── Literal: Number(Integer(1))\n\
         \x20       Operator: Operator(\"+\")\n\
         \x20       └── Literal: Number(Float(\"2.5\"))\n"
    );
    assert_eq!(display_tree(&program_of("")), "Program:\n");
}

#[test]
fn tree_of_control_flow() {
    assert_eq!(
        display_tree(&program_of("if (a) { x = 1; y = 2; } else { return; }")),
        "Program:\n\
         └── If:\n\
         \x20   ├── Identifier: a\n\
         \x20   Body:\n\
         \x20       ├── Assignment:\n\
         \x20           ├── Identifier: x\n\
         \x20           └── Literal: Number(Integer(1))\n\
         \x20       └── Assignment:\n\
         \x20           ├── Identifier: y\n\
         \x20           └── Literal: Number(Integer(2))\n\
         \x20   Else:\n\
         \x20   └── If:\n\
         \x20       ├── Literal: Boolean(true)\n\
         \x20       Body:\n\
         \x20           └── Return:\n"
    );
    assert_eq!(
        display_tree(&program_of("fn f(a: int, b: bool) -> int { loop { } }\nfor (i in 1..2) { }")),
        "Program:\n\
         └── Function Declaration: f\n\
         \x20   Parameters: [\"a\", \"b\"]\n\
         \x20       └── Loop:\n\
         └── For: i\n\
         \x20   ├── Range:\n\
         \x20       ├── Literal: Number(Integer(1))\n\
         \x20       ├── Literal: Number(Integer(2))\n\
         \x20       Inclusive: false\n"
    );
}

#[test]
fn tree_of_accesses_and_lists() {
    assert_eq!(
        display_tree(&program_of("f(t.1, a[0].m, [1], (2, !b));")),
        "Program:\n\
         └── ExpressionStatement:\n\
         \x20   └── Function Call: f\n\
         \x20       ├── Tuple Index: 1\n\
         \x20           └── Identifier: t\n\
         \x20       ├── Member Access: m\n\
         \x20           └── Index:\n\
         \x20               ├── Identifier: a\n\
         \x20               └── Literal: Number(Integer(0))\n\
         \x20       ├── Array:\n\
         \x20           └── Literal: Number(Integer(1))\n\
         \x20       └── Tuple:\n\
         \x20           ├── Literal: Number(Integer(2))\n\
         \x20           └── Unary Expression:\n\
         \x20               Operator: Operator(\"!\")\n\
         \x20               └── Identifier: b\n"
    );
}

#[test]
fn expression_on_one_line() {
    assert_eq!(print_expression(&expression_of("1 + x * 2.5;")), "1 + x * 2.5 ");
    assert_eq!(print_expression(&expression_of("f(a, 1);")), "f a 1 ");
    assert_eq!(print_expression(&expression_of("(1, true);")), "(1 , true , ) ");
    assert_eq!(print_expression(&expression_of("[\"s\"];")), "[s , ] ");
    assert_eq!(print_expression(&expression_of("let v = a[1].m.2;")), "a 1 .m [2] ");
    assert_eq!(print_expression(&expression_of("!a;")), "! a ");
    assert_eq!(print_expression(&expression_of("1..=5;")), "1 ..=5 ");
    assert_eq!(print_expression(&expression_of("1..n;")), "1 ..n ");
}

#[test]
fn debug_texts_are_those_of_the_derived_impls() {
    let literals = [
        Literal::Number(Number::Integer(-7)),
        Literal::Number(Number::Float("2.5".to_string())),
        Literal::String("plain text".to_string()),
        Literal::Boolean(true),
        Literal::Boolean(false),
    ];
    for literal in &literals {
        assert_eq!(literal_debug_text(literal), format!("{:?}", literal));
    }
    let mut lexer = Lexer::new(
        "fn if else x 1 1.5 \"s\" for in loop let const return + && = ( ) { } [ ] , ; : . \
         int string float bool true false -> .. ..="
            .to_string(),
    );
    let mut tokens = lexer.all_tokens().unwrap();
    assert_eq!(tokens.len(), 35);
    tokens.push(Token::EOF);
    for token in &tokens {
        assert_eq!(token_debug_text(token), format!("{:?}", token));
    }
    let types = [
        DataType::Integer,
        DataType::Void,
        DataType::Undefined,
        DataType::Identifier("name".to_string()),
        DataType::Array(Box::new(DataType::Tuple(vec![DataType::Float, DataType::String])), -3),
        DataType::Tuple(vec![]),
        DataType::Tuple(vec![DataType::Boolean]),
    ];
    for t in &types {
        assert_eq!(type_debug_text(t), format!("{:?}", t));
    }
}

#[test]
fn symbol_kinds_in_words() {
    let kind_of = |symbol: Symbol| symbol.kind.text();
    let variable = |t: Option<DataType>| Symbol::variable("v".to_string(), 1, 0, UseType::Declaration, t);
    assert_eq!(kind_of(variable(None)), "no defined");
    assert_eq!(kind_of(variable(Some(DataType::Float))), "Float - Assigned: false");
    let assigned = SymbolKind::Variable { data_type: Some(DataType::Integer), assigned: true };
    assert_eq!(assigned.text(), "Integer - Assigned: true");
    let function = Symbol::function(
        "f".to_string(),
        1,
        0,
        UseType::Declaration,
        Some(DataType::Integer),
        vec!["x".to_string(), "y".to_string()],
        vec![DataType::Integer, DataType::Array(Box::new(DataType::Boolean), 2)],
    );
    assert_eq!(
        kind_of(function),
        "Function: Some(Integer) with parameters [(\"x\", Integer), (\"y\", Array(Boolean, 2))]"
    );
    let bare = SymbolKind::Function { data_type: None, parameters: vec![], param_types: vec![] };
    assert_eq!(bare.text(), "Function: None with parameters []");
    let uneven = SymbolKind::Function {
        data_type: None,
        parameters: vec!["a".to_string(), "b".to_string()],
        param_types: vec![DataType::String],
    };
    assert_eq!(uneven.text(), "Function: None with parameters [(\"a\", String)]");
}

#[test]
fn tokens_are_listed_with_kind_and_value() {
    let listed = |token: Token| {
        let (kind, value) = get_type_and_value(&token);
        (kind.to_string(), value)
    };
    let pair = |kind: &str, value: &str| (kind.to_string(), value.to_string());
    assert_eq!(listed(Token::ArrowType), pair("ArrowType", "->"));
    assert_eq!(listed(Token::EOF), pair("EOF", ""));
    assert_eq!(listed(Token::Identifier("x".to_string())), pair("Identifier", "x"));
    assert_eq!(listed(Token::Number(Number::Integer(-4))), pair("Number:Integer", "-4"));
    assert_eq!(listed(Token::Number(Number::Float("4.5".to_string()))), pair("Number:Float", "4.5"));
    assert_eq!(listed(Token::LogicalOperator("<=".to_string())), pair("LogicalOperator", "<="));
    assert_eq!(listed(Token::TypeBool), pair("TypeBool", "bool"));
    assert_eq!(listed(Token::RangeInclusive), pair("RangeInclusive", "..="));
}

#[test]
fn all_tokens_stop_at_the_end_or_at_an_error() {
    assert_eq!(
        Lexer::new("let x = 1;".to_string()).all_tokens().unwrap(),
        vec![
            Token::Let,
            Token::Identifier("x".to_string()),
            Token::Equal,
            Token::Number(Number::Integer(1)),
            Token::Semicolon
        ]
    );
    assert_eq!(Lexer::new("  ".to_string()).all_tokens().unwrap(), vec![]);
    let error = Lexer::new("let x = #;".to_string()).all_tokens().unwrap_err();
    assert_eq!(error.kind, LexErrorKind::UnexpectedCharacter);
    assert_eq!((error.line, error.col), (1, 9));
}

#[test]
fn errors_have_their_messages() {
    let lexical = Lexer::new("a #".to_string()).all_tokens().unwrap_err();
    assert_eq!(lexical.message(), "Error: Unexpected character at line: 1, col: 3");
    let mut parser = Sintax::new(Lexer::new("let a = 1;\nlet b = 2".to_string()));
    assert_eq!(parser.parse().unwrap_err().message(), "Expected semicolon at line 2 col 11");
    let mut parser = Sintax::new(Lexer::new("let s = \"open".to_string()));
    assert_eq!(parser.parse().unwrap_err().message(), "Error: Unclosed string at line: 1, col: 14");
    let mut parser = Sintax::new(Lexer::new("const c;".to_string()));
    assert_eq!(
        parser.parse().unwrap_err().message(),
        "Const declarations must include both a type annotation and an initial value at line 1 col 8"
    );
}
