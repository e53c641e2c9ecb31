use rstn_front::compile::compile;
use rstn_front::lexer::{Lexer, Number, Token};
use rstn_front::semantic::Semantic;
use rstn_front::sintax::{DataType, Expresion, Literal, Sintax};
use rstn_front::table::{Symbol, SymbolKind, SymbolTable, UseType};

fn checks(source: &str) -> bool {
    compile(source.to_string()).unwrap().checked
}

fn variable_of(source: &str, name: &str) -> (Option<DataType>, bool) {
    let compiled = compile(source.to_string()).unwrap();
    match &compiled.table.read_symbol(name).unwrap().kind {
        SymbolKind::Variable { data_type, assigned } => (data_type.clone(), *assigned),
        _ => panic!("not a variable"),
    }
}

fn types_of(table: &SymbolTable, expr: &Expresion) -> Vec<DataType> {
    Semantic::collect_types(table, expr, Vec::new())
}

fn int_literal(value: i32) -> Expresion {
    Expresion::Literal(Literal::Number(Number::Integer(value)))
}

fn float_literal(text: &str) -> Expresion {
    Expresion::Literal(Literal::Number(Number::Float(text.to_string())))
}

fn binary(left: Expresion, operator: &str, right: Expresion) -> Expresion {
    Expresion::Binary(Box::new(left), Token::Operator(operator.to_string()), Box::new(right))
}

#[test]
fn float_sum_infers_float_and_marks_assigned() {
    assert!(checks("let x = 1 + 2.5;"));
    assert_eq!(variable_of("let x = 1 + 2.5;", "x"), (Some(DataType::Float), true));
}

#[test]
fn comparison_fits_a_bool_annotation() {
    assert!(checks("let y: bool = 1 == 2;"));
    assert_eq!(variable_of("let y: bool = 1 == 2;", "y"), (Some(DataType::Boolean), true));
}

#[test]
fn return_must_fit_the_return_type() {
    assert!(!checks("fn f() -> int { return true; }"));
    assert!(checks("fn f() -> int { return 1; }"));
    assert!(checks("fn f() -> bool { return 1 < 2; }"));
    assert!(!checks("fn f() -> int { if (true) { return 1.5; } }"));
    assert!(checks("fn f() -> int { return; }"));
    assert!(checks("return true;"));
}

#[test]
fn integer_arithmetic_is_integer() {
    let table = SymbolTable::new();
    let e = binary(binary(int_literal(1), "+", int_literal(2)), "*", int_literal(3));
    assert_eq!(types_of(&table, &e), vec![DataType::Integer]);
}

#[test]
fn a_float_anywhere_makes_arithmetic_float() {
    let table = SymbolTable::new();
    let e = binary(binary(int_literal(1), "+", float_literal("2.0")), "*", int_literal(3));
    assert_eq!(types_of(&table, &e), vec![DataType::Float]);
    let e = binary(int_literal(1), "-", binary(int_literal(2), "/", float_literal("4.5")));
    assert_eq!(types_of(&table, &e), vec![DataType::Float]);
    assert_eq!(variable_of("let z = 1 + 2 * 3.0;", "z"), (Some(DataType::Float), true));
    assert_eq!(variable_of("let z = 1 + 2 * 3;", "z"), (Some(DataType::Integer), true));
}

#[test]
fn arithmetic_on_a_boolean_is_void() {
    let table = SymbolTable::new();
    let e = binary(int_literal(1), "+", Expresion::Literal(Literal::Boolean(true)));
    assert_eq!(types_of(&table, &e), vec![DataType::Void]);
    assert!(!checks("1 + true;"));
    assert!(!checks("\"a\" + 1;"));
}

#[test]
fn collected_types_go_after_those_seen_so_far() {
    let table = SymbolTable::new();
    let seen = vec![DataType::Boolean];
    let e = binary(int_literal(1), "+", int_literal(2));
    assert_eq!(
        Semantic::collect_types(&table, &e, seen),
        vec![DataType::Boolean, DataType::Integer]
    );
}

#[test]
fn logical_operators_take_booleans() {
    assert!(checks("true && false;"));
    assert!(checks("let b: bool = (1 < 2) || (2.5 >= 1.5);"));
    assert!(!checks("1 && true;"));
    assert!(!checks("true || 0;"));
}

#[test]
fn comparison_takes_two_numbers_of_one_type() {
    assert!(checks("1 < 2;"));
    assert!(checks("1.5 != 2.5;"));
    assert!(!checks("1 < 2.5;"));
    assert!(!checks("true == false;"));
    assert!(!checks("\"a\" == \"a\";"));
}

#[test]
fn unary_operators_take_their_kind() {
    assert!(checks("let a = 1; let b = - a;"));
    assert!(checks("let a = true; let b: bool = !a;"));
    assert!(!checks("let a = true; let b = - a;"));
    assert!(!checks("let a = 1; let b = !a;"));
}

#[test]
fn uniform_array_has_an_array_type() {
    assert!(checks("[1, 2, 3];"));
    assert_eq!(
        variable_of("let a = [1, 2, 3];", "a"),
        (Some(DataType::Array(Box::new(DataType::Integer), 3)), true)
    );
    assert_eq!(
        variable_of("let a = [1.5];", "a"),
        (Some(DataType::Array(Box::new(DataType::Float), 1)), true)
    );
    assert!(checks("let a: [bool; 2] = [true, false];"));
    assert!(!checks("let a: [bool; 3] = [true, false];"));
}

#[test]
fn mixed_array_fails() {
    assert!(!checks("[1, 2, 3, true];"));
    assert!(!checks("let a = [1, 2.5];"));
    assert!(!checks("[];"));
}

#[test]
fn tuple_keeps_the_types_in_order() {
    assert_eq!(
        variable_of("let t = (1, true, \"s\");", "t"),
        (Some(DataType::Tuple(vec![DataType::Integer, DataType::Boolean, DataType::String])), true)
    );
    assert!(checks("let t: (int, bool) = (1, true);"));
    assert!(!checks("let t: (bool, int) = (1, true);"));
    assert!(!checks("let t = (1, 2 + true);"));
}

#[test]
fn for_takes_integer_ranges_and_integer_arrays() {
    assert!(checks("for (x in 1..=5) { }"));
    assert!(checks("for (x in 0..10) { 1 + 1; }"));
    assert!(checks("for (x in [1, 2, 3]) { }"));
    assert!(!checks("for (x in [true, false]) { }"));
    assert!(!checks("for (x in 1.5..3) { }"));
    assert!(!checks("for (x in 1..true) { }"));
    assert!(!checks("let a = [1, 2]; for (x in a) { }"));
    assert!(!checks("for (x in 1..2) { 1 + true; }"));
}

#[test]
fn call_must_match_the_parameters() {
    let declaration = "fn foo(x: int, y: bool) -> int { return 1; }\n";
    assert!(checks(&format!("{}foo(1, true);", declaration)));
    assert!(checks(&format!("{}let r: int = foo(1 + 2, 1 < 2);", declaration)));
    assert!(!checks(&format!("{}foo(true, 1);", declaration)));
    assert!(!checks(&format!("{}foo(1);", declaration)));
    assert!(!checks(&format!("{}foo(1, true, 2);", declaration)));
    assert!(!checks(&format!("{}let r: bool = foo(1, true);", declaration)));
    assert!(!checks("bar(1);"));
    assert!(!checks("let v = 1; v(1);"));
}

#[test]
fn parameters_have_their_types_in_the_body() {
    assert!(checks("fn inc(x: int) -> int { return x + 1; }"));
    assert!(!checks("fn bad(x: bool) -> int { return x + 1; }"));
    assert!(!checks("fn foo(x: int, y: bool) -> int { x + y; }"));
}

#[test]
fn reading_an_unassigned_variable_fails() {
    assert!(!checks("let x: int; return x;"));
    assert!(!checks("let x: int; x + 1;"));
    assert!(checks("let x: int; x = 5; return x;"));
    assert!(checks("let x: int = 5; return x;"));
    assert!(!checks("return nothing;"));
}

#[test]
fn declaration_must_fit_its_annotation() {
    assert!(checks("let x: int = 1;"));
    assert!(!checks("let x: int = 1.5;"));
    assert!(!checks("let x: bool = 1 + 2;"));
    assert!(checks("let x: int;"));
    assert_eq!(variable_of("let x: int;", "x"), (Some(DataType::Integer), false));
    assert_eq!(variable_of("let x;", "x"), (None, false));
}

#[test]
fn assignment_must_fit_the_variable() {
    assert!(checks("let x: int = 1; x = 2;"));
    assert!(!checks("let x: int = 1; x = true;"));
    assert!(!checks("x = 1;"));
    assert!(!checks("fn f() -> int { return 1; } f = 1;"));
    assert!(!checks("let x; x = 1;"));
    assert_eq!(variable_of("let x: int; x = 2;", "x"), (Some(DataType::Integer), true));
    assert_eq!(variable_of("let x: int; x = true;", "x"), (Some(DataType::Integer), false));
}

#[test]
fn assignment_through_an_index_must_fit_the_element() {
    assert!(checks("let a = [1, 2]; a[0] = 5;"));
    assert!(!checks("let a = [1, 2]; a[0] = true;"));
    assert!(!checks("let a = [1, 2]; a[true] = 1;"));
    assert!(checks("let t = (1, true); t.1 = false;"));
    assert!(!checks("let t = (1, true); t.0 = false;"));
    assert!(!checks("let t = (1, true); t.2 = false;"));
}

#[test]
fn index_yields_the_element_type() {
    assert_eq!(variable_of("let a = [1.5, 2.5]; let e = a[0];", "e"), (Some(DataType::Float), true));
    assert!(!checks("let n = 1; let e = n[0];"));
    assert_eq!(
        variable_of("let t = (1, true); let e = t.1;", "e"),
        (Some(DataType::Boolean), true)
    );
}

#[test]
fn condition_must_be_a_boolean() {
    assert!(checks("if (true) { }"));
    assert!(checks("if (1 < 2) { let a = 1; } else { let b = 2; }"));
    assert!(!checks("if (1) { }"));
    assert!(!checks("if (true) { 1 + true; }"));
    assert!(!checks("if (true) { } else { 1 + true; }"));
    assert!(!checks("if (true) { } else if (2) { }"));
    assert!(checks("loop { }"));
    assert!(!checks("loop { 1 + true; }"));
}

#[test]
fn check_stops_at_the_first_failure() {
    let compiled = compile("let a = 1; let b: int = true; let c = 2;".to_string()).unwrap();
    assert!(!compiled.checked);
    assert_eq!(compiled.program.len(), 3);
    let kind = |name: &str| match &compiled.table.read_symbol(name).unwrap().kind {
        SymbolKind::Variable { data_type, assigned } => (data_type.clone(), *assigned),
        _ => panic!("not a variable"),
    };
    assert_eq!(kind("a"), (Some(DataType::Integer), true));
    assert_eq!(kind("b"), (Some(DataType::Integer), false));
    assert_eq!(kind("c"), (None, false));
}

#[test]
fn empty_and_single_lists_are_coherent() {
    assert!(Semantic::check_collection(&vec![]));
    assert!(Semantic::check_collection(&vec![DataType::Integer]));
    assert!(Semantic::check_collection(&vec![DataType::Float, DataType::Float]));
    assert!(!Semantic::check_collection(&vec![DataType::Void]));
    assert!(!Semantic::check_collection(&vec![DataType::Integer, DataType::Float]));
    assert!(!Semantic::check_collection(&vec![DataType::Integer, DataType::Void]));
    assert_eq!(Semantic::sole_type(&vec![]), DataType::Void);
    assert_eq!(Semantic::sole_type(&vec![DataType::String]), DataType::String);
}

#[test]
fn names_resolve_through_the_table() {
    let mut table = SymbolTable::new();
    table.insert(Symbol::variable("v".to_string(), 1, 0, UseType::Declaration, Some(DataType::Float)));
    table.insert(Symbol::function(
        "f".to_string(),
        2,
        0,
        UseType::Declaration,
        Some(DataType::Boolean),
        vec!["p".to_string(), "q".to_string()],
        vec![DataType::Integer, DataType::String],
    ));
    let name = |s: &str| s.to_string();
    assert_eq!(Semantic::collect_id_type(&table, &name("v")), DataType::Float);
    assert_eq!(Semantic::collect_id_type(&table, &name("f")), DataType::Boolean);
    assert_eq!(Semantic::collect_id_type(&table, &name("none")), DataType::Undefined);
    assert_eq!(Semantic::collect_param_type(&table, &name("q")), DataType::String);
    assert_eq!(Semantic::collect_param_type(&table, &name("v")), DataType::Undefined);
    assert!(!Semantic::check_assignment(&table, &name("v")));
    table.update_var_assigned("v");
    assert!(Semantic::check_assignment(&table, &name("v")));
    assert!(!Semantic::check_assignment(&table, &name("f")));
    assert_eq!(Semantic::identifier_result(&table, &name("v")), DataType::Float);
    assert_eq!(Semantic::identifier_result(&table, &name("p")), DataType::Integer);
    assert_eq!(Semantic::identifier_result(&table, &name("f")), DataType::Void);
    assert_eq!(Semantic::identifier_result(&table, &name("none")), DataType::Void);
}

#[test]
fn syntax_error_stops_compiling() {
    assert!(compile("let x = ;".to_string()).is_err());
    assert!(compile("".to_string()).unwrap().checked);
}

#[test]
fn first_failing_statement_is_reported() {
    let compiled = compile("let a = 1; let b: int = true; let c = 1 + true;".to_string()).unwrap();
    assert_eq!(compiled.failed, Some(1));
    assert!(!compiled.checked);
    let compiled = compile("let a = 1; let b: int = a;".to_string()).unwrap();
    assert_eq!(compiled.failed, None);
    assert!(compiled.checked);
    let compiled = compile("1 + true;".to_string()).unwrap();
    assert_eq!(compiled.failed, Some(0));
}

#[test]
fn checker_reports_the_same_as_its_verdict() {
    let sources = ["let x = 1; x = 2;", "let x = 1; x = true; x = 3;", ""];
    for source in sources {
        let mut parser = Sintax::new(Lexer::new(source.to_string()));
        parser.parse().unwrap();
        let mut first = Semantic::new(parser.program.clone(), parser.table.clone());
        let mut second = Semantic::new(parser.program, parser.table);
        let ok = first.semantic_check();
        let failed = second.failing_statement();
        assert_eq!(ok, failed.is_none());
        assert_eq!(format!("{:?}", first.table), format!("{:?}", second.table));
    }
}
