use rstn_front::compile::compile;
use rstn_front::lexer::LexErrorKind;
use rstn_front::grammar::SyntaxErrorKind;
use rstn_front::table::SymbolKind;

const PROGRAM: &str = "
// a small program
let total: int = 0;
let scale = 2.5;
let flags = [true, false, true];
let pair = (1, \"one\");

fn double(x: int) -> int {
    return x * 2;
}

fn ready(a: bool, b: bool) -> bool {
    if (a && b) {
        return true;
    } else {
        return a || b;
    }
}

/* the main part */
for (i in 1..=10) {
    total = total + double(1);
}

loop {
    if (total > 100) {
        total = 0;
    } else if (total == 50) {
        total = total - 1;
    } else {
        total = total + 1;
    }
}

let first: bool = flags[0];
let name: string = pair.1;
let ok: bool = ready(first, 1 < 2);
";

#[test]
fn a_whole_program_compiles_and_checks() {
    let compiled = compile(PROGRAM.to_string()).unwrap();
    assert_eq!(compiled.failed, None);
    assert!(compiled.checked);
    assert_eq!(compiled.program.len(), 11);
    assert_eq!(compiled.table.all_scopes.len(), 8);
    assert_eq!(compiled.table.active_scopes, vec![0]);
    let names: Vec<&str> =
        compiled.table.all_scopes[0].entries.iter().map(|e| e.key.as_str()).collect();
    assert_eq!(
        names,
        vec!["total", "scale", "flags", "pair", "double", "ready", "first", "name", "ok"]
    );
    for entry in &compiled.table.all_scopes[0].entries {
        if let SymbolKind::Variable { data_type, assigned } = &entry.symbol.kind {
            assert!(data_type.is_some());
            assert!(*assigned);
        }
    }
}

#[test]
fn a_long_program_compiles_in_time() {
    let mut source = String::new();
    for i in 0..300 {
        source.push_str(&format!("let v{} = {} + {} * 2; // line {}\n", i, i, i + 1, i));
    }
    let compiled = compile(source).unwrap();
    assert!(compiled.checked);
    assert_eq!(compiled.program.len(), 300);
    assert_eq!(compiled.table.get_all_symbols().len(), 300);
    assert_eq!(compiled.table.read_symbol("v299").unwrap().occurrence, 300);
}

#[test]
fn first_error_of_a_program_is_reported() {
    let error = compile("let a = 1;\nlet b = (1, 2;\nlet c = #;".to_string()).unwrap_err();
    assert_eq!(error.kind, SyntaxErrorKind::ExpectedCommaOrRightParen);
    assert_eq!(error.line, 2);
    let error = compile("let a = 1;\nlet c = #;".to_string()).unwrap_err();
    assert_eq!(error.kind, SyntaxErrorKind::Lexical(LexErrorKind::UnexpectedCharacter));
    assert_eq!((error.line, error.col), (2, 10));
}

#[test]
fn invalid_numbers_do_not_stop_compiling() {
    let compiled = compile("let a = 12abc;\nlet b = a + 1;".to_string()).unwrap();
    assert!(compiled.checked);
    assert_eq!(compiled.warnings.len(), 1);
    assert_eq!(compiled.warnings[0].kind, LexErrorKind::InvalidNumber);
    assert_eq!((compiled.warnings[0].line, compiled.warnings[0].col), (1, 11));
    assert_eq!(
        format!("{:?}", compiled.program[0]),
        "Declaration(\"a\", Some(Literal(Number(Integer(0)))))"
    );
}
