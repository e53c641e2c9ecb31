use rstn_front::gramatic::{Gramatic, TypeErr};
use rstn_front::lexer::{Lexer, Number, Token};
use rstn_front::grammar::SyntaxErrorKind;
use rstn_front::sintax::{DataType, Expresion, Literal, Sintax, Statement};
use rstn_front::table::{SymbolKind, SymbolTable};

fn float_literal(text: &str) -> Expresion {
    Expresion::Literal(Literal::Number(Number::Float(text.to_string())))
}

fn int_literal(value: i32) -> Expresion {
    Expresion::Literal(Literal::Number(Number::Integer(value)))
}

#[test]
fn infer_float_types() {
    let exp = Expresion::Binary(
        Box::new(float_literal("1.2")),
        Token::Operator("+".to_string()),
        Box::new(float_literal("1.5")),
    );
    let table = SymbolTable::new();
    let mut gramatic = Gramatic::new(table, vec![]);
    let result = gramatic.infer_type(&exp).expect("Type mismatch");
    assert_eq!(result, DataType::Float);
}

#[test]
fn infer_boolean_types() {
    let exp = Expresion::Binary(
        Box::new(float_literal("1.2")),
        Token::LogicalOperator("==".to_string()),
        Box::new(float_literal("1.4")),
    );
    let table = SymbolTable::new();
    let mut gramatic = Gramatic::new(table, vec![]);
    let result = gramatic.infer_type(&exp).expect("Type mismatch");
    assert_eq!(result, DataType::Boolean);
}

#[test]
fn infer_boolean_types_2() {
    let lexer = Lexer::new("((1 + 2) < 5) && (1 == 2);".to_string());
    let mut parser = Sintax::new(lexer);
    parser.parse().unwrap();
    let exp = match &parser.program[0] {
        Statement::ExpressionStatement(exp) => exp,
        _ => panic!("Invalid expresion"),
    };
    let table = SymbolTable::new();
    let mut gramatic = Gramatic::new(table, vec![]);
    let result = gramatic.infer_type(exp).expect("Type mismatch");
    assert_eq!(result, DataType::Boolean);
}

#[test]
fn infer_arr_types() {
    let exp = Expresion::Array(vec![
        float_literal("1.2"),
        float_literal("1.5"),
        float_literal("1.5"),
        float_literal("1.5"),
    ]);
    let table = SymbolTable::new();
    let mut gramatic = Gramatic::new(table, vec![]);
    let result = gramatic.infer_type(&exp).expect("Type mismatch");
    assert_eq!(result, DataType::Array(Box::new(DataType::Float), 4));
}

#[test]
fn infer_bad_arr_types() {
    let exp = Expresion::Array(vec![
        float_literal("1.2"),
        float_literal("1.5"),
        float_literal("1.5"),
        float_literal("1.5"),
        Expresion::Literal(Literal::Boolean(true)),
    ]);
    let table = SymbolTable::new();
    let mut gramatic = Gramatic::new(table, vec![]);
    let result = gramatic.infer_type(&exp).unwrap_err();
    assert_eq!(result, TypeErr::TypeMismatch);
}

#[test]
fn infer_and_comp_simbol_table() {
    let pair = || Expresion::Tuple(vec![int_literal(1), int_literal(2)]);
    let exp = Expresion::Array(vec![pair(), pair(), pair(), pair()]);

    // A comma in the place of the semicolon of an array type is a syntax error.
    let mut parser = Sintax::new(Lexer::new("let x : [(int,int),4];".to_string()));
    assert_eq!(parser.parse().unwrap_err().kind, SyntaxErrorKind::ExpectedSemicolon);

    let mut parser = Sintax::new(Lexer::new("let x : [(int,int);4];".to_string()));
    parser.parse().unwrap();
    let table = parser.table;
    let x_data = table.lookup("x").expect("Symbol not found");
    let mut gramatic = Gramatic::new(table.clone(), parser.program);
    match &x_data.kind {
        SymbolKind::Variable { data_type, .. } => {
            let final_data = data_type.as_ref().unwrap();
            let result = gramatic.infer_type(&exp).expect("Type mismatch");
            assert_eq!(result, *final_data);
        }
        _ => panic!("Invalid data type"),
    }
}

#[test]
fn infer_and_comp_fncall() {
    let call = Expresion::FnCall(
        "foo".to_string(),
        vec![int_literal(1), Expresion::Literal(Literal::Boolean(true))],
    );
    let lexer = Lexer::new("fn foo(x:int,y:bool) -> int { x + y;}".to_string());
    let mut parser = Sintax::new(lexer);
    parser.parse().unwrap();
    let table = parser.table;
    let funtion_definiton = table.lookup("foo").expect("Symbol not found");
    let mut gramatic = Gramatic::new(table.clone(), parser.program);
    match &funtion_definiton.kind {
        SymbolKind::Function { data_type: _, parameters, param_types } => {
            if let Expresion::FnCall(_, args) = call {
                assert_eq!(args.len(), parameters.len());
                for (arg, param) in args.iter().zip(param_types.iter()) {
                    let arg_type = gramatic.infer_type(arg).expect("Type mismatch");
                    assert_eq!(arg_type, *param);
                }
            }
        }
        _ => panic!("Invalid data type"),
    }
}

#[test]
fn infers_integer_unless_a_float_is_there() {
    let plus = |l: Expresion, r: Expresion| {
        Expresion::Binary(Box::new(l), Token::Operator("+".to_string()), Box::new(r))
    };
    assert_eq!(
        Gramatic::infer(&plus(int_literal(1), plus(int_literal(2), int_literal(3)))),
        Ok(DataType::Integer)
    );
    assert_eq!(
        Gramatic::infer(&plus(int_literal(1), plus(float_literal("2.0"), int_literal(3)))),
        Ok(DataType::Float)
    );
    assert_eq!(
        Gramatic::infer(&plus(int_literal(1), Expresion::Literal(Literal::Boolean(true)))),
        Err(TypeErr::TypeMismatch)
    );
}

#[test]
fn infers_logical_operations_and_tuples() {
    let logical = |l: Expresion, op: &str, r: Expresion| {
        Expresion::Binary(Box::new(l), Token::LogicalOperator(op.to_string()), Box::new(r))
    };
    let yes = || Expresion::Literal(Literal::Boolean(true));
    assert_eq!(Gramatic::infer(&logical(yes(), "&&", yes())), Ok(DataType::Boolean));
    assert_eq!(Gramatic::infer(&logical(yes(), "||", int_literal(1))), Err(TypeErr::TypeMismatch));
    assert_eq!(Gramatic::infer(&logical(int_literal(1), "<", int_literal(2))), Ok(DataType::Boolean));
    assert_eq!(
        Gramatic::infer(&logical(int_literal(1), "<", float_literal("2.5"))),
        Err(TypeErr::TypeMismatch)
    );
    assert_eq!(
        Gramatic::infer(&Expresion::Tuple(vec![int_literal(1), yes(), Expresion::Literal(Literal::String("s".to_string()))])),
        Ok(DataType::Tuple(vec![DataType::Integer, DataType::Boolean, DataType::String]))
    );
}

#[test]
fn other_expressions_have_no_inferred_type() {
    assert_eq!(Gramatic::infer(&Expresion::Identifier("x".to_string())), Err(TypeErr::Unsupported));
    assert_eq!(Gramatic::infer(&Expresion::Array(vec![])), Err(TypeErr::Unsupported));
    assert_eq!(
        Gramatic::infer(&Expresion::Binary(
            Box::new(int_literal(1)),
            Token::Comma,
            Box::new(int_literal(2))
        )),
        Err(TypeErr::Unsupported)
    );
    assert_eq!(
        Gramatic::infer(&Expresion::Array(vec![
            int_literal(1),
            Expresion::Literal(Literal::Boolean(true)),
            Expresion::Identifier("x".to_string()),
        ])),
        Err(TypeErr::TypeMismatch)
    );
    assert_eq!(
        Gramatic::infer(&Expresion::Tuple(vec![int_literal(1), Expresion::Identifier("x".to_string())])),
        Err(TypeErr::Unsupported)
    );
}
