use rstn_front::generator::{spaces_text, to_python_operator, PythonGenerator, PythonVisitor};
use rstn_front::lexer::{Lexer, Token};
use rstn_front::sintax::{Expresion, Literal, Sintax};
use rstn_front::visitor::{Visitable, Visitor};

fn generated(source: &str) -> String {
    let mut parser = Sintax::new(Lexer::new(source.to_string()));
    parser.parse().unwrap();
    let mut generator = PythonGenerator::new(parser.program, parser.table);
    generator.generate()
}

#[test]
fn generates_declarations_and_assignments() {
    assert_eq!(generated("let x = 1 + 2.5;"), "x = (1 + 2.5)\n");
    assert_eq!(generated("let y;"), "y = None\n");
    assert_eq!(generated("x = -3; t.1 = y;"), "x = -3\nt[1] = y\n");
    assert_eq!(generated("a.b[0] = \"s\";"), "a.b[0] = \"s\"\n");
    assert_eq!(generated(""), "");
}

#[test]
fn generates_logical_operators_as_words() {
    assert_eq!(generated("a && !b || c;"), "((a and not b) or c)\n");
    assert_eq!(generated("- a ** 2 != 1;"), "((-a ** 2) != 1)\n");
    assert_eq!(to_python_operator(&Token::LogicalOperator("&&".to_string())), "and");
    assert_eq!(to_python_operator(&Token::LogicalOperator("||".to_string())), "or");
    assert_eq!(to_python_operator(&Token::Operator("!".to_string())), "not ");
    assert_eq!(to_python_operator(&Token::Operator("%".to_string())), "%");
}

#[test]
fn generates_calls_lists_and_ranges() {
    assert_eq!(generated("f();"), "f()\n");
    assert_eq!(generated("f(1, g(true), [1, 2], (3, false));"), "f(1, g(true), [1, 2], (3, false))\n");
    assert_eq!(generated("1..5;"), "range(1, 5)\n");
    assert_eq!(generated("1..=n;"), "range(1, n + 1)\n");
    assert_eq!(generated("[];"), "[]\n");
}

#[test]
fn generates_blocks_four_spaces_further_in() {
    assert_eq!(
        generated("if (a < 1) { x = 1; } else { x = 2; }"),
        "if (a < 1):\n    x = 1\nelse:\n    if true:\n        x = 2\n\n"
    );
    assert_eq!(
        generated("loop { for (i in 1..=5) { f(i); } }"),
        "while True:\n    for i in range(1, 5 + 1):\n        f(i)\n\n\n"
    );
    assert_eq!(
        generated("fn foo(x: int, y: bool) -> int { return x; }\nfn g() -> int { return; }"),
        "def foo(x, y):\n    return x\n\ndef g():\n    return\n\n"
    );
}

#[test]
fn generator_starts_at_its_indent() {
    let mut parser = Sintax::new(Lexer::new("x = 1; loop { y = 2; }".to_string()));
    parser.parse().unwrap();
    let mut generator = PythonGenerator::new(parser.program, parser.table);
    generator.indent = 2;
    assert_eq!(generator.generate(), "  x = 1\n  while True:\n      y = 2\n\n");
}

#[test]
fn visitor_keeps_its_indent() {
    let mut visitor = PythonVisitor::new(4);
    visitor.increment_indent();
    assert_eq!(visitor.indent, 8);
    visitor.decrement_indent();
    visitor.decrement_indent();
    assert_eq!(visitor.indent, 0);
    assert_eq!(spaces_text(3), "   ");
    assert_eq!(spaces_text(0), "");
}

#[test]
fn statements_accept_a_visitor() {
    let mut parser = Sintax::new(Lexer::new("if (a) { x = f(1, [2]); } let y = t.0;".to_string()));
    parser.parse().unwrap();
    let mut visitor = PythonVisitor::new(0);
    assert_eq!(parser.program[0].accept(&mut visitor), "if a:\n    x = f(1, [2])\n");
    assert_eq!(parser.program[1].accept(&mut visitor), "y = t[0]");
    let mut indented = PythonVisitor::new(2);
    assert_eq!(parser.program[1].accept(&mut indented), "  y = t[0]");
    assert_eq!(indented.statement_text(&parser.program[1]), "  y = t[0]");
    assert_eq!(Literal::Boolean(true).accept(&mut visitor), "true");
    assert_eq!(
        Expresion::Identifier("n".to_string()).accept(&mut visitor),
        indented.visit_identifier(&"n".to_string())
    );
}
