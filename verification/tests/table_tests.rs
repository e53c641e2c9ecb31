use rstn_front::sintax::DataType;
use rstn_front::table::{Symbol, SymbolKind, SymbolTable, UseType};

fn variable(name: &str, data_type: Option<DataType>) -> Symbol {
    Symbol::variable(name.to_string(), 1, 0, UseType::Declaration, data_type)
}

fn function(name: &str, parameters: &[(&str, DataType)], returned: DataType) -> Symbol {
    Symbol::function(
        name.to_string(),
        1,
        0,
        UseType::Declaration,
        Some(returned),
        parameters.iter().map(|p| p.0.to_string()).collect(),
        parameters.iter().map(|p| p.1.clone()).collect(),
    )
}

#[test]
fn new_table_has_the_global_scope_active() {
    let table = SymbolTable::new();
    assert_eq!(table.all_scopes.len(), 1);
    assert_eq!(table.all_scopes[0].id, 0);
    assert!(table.all_scopes[0].entries.is_empty());
    assert_eq!(table.active_scopes, vec![0]);
}

#[test]
fn variable_starts_without_a_value() {
    let symbol = variable("x", Some(DataType::Integer));
    assert_eq!(symbol.value, "x");
    assert_eq!(symbol.occurrence, 1);
    assert_eq!(symbol.scope, 0);
    assert_eq!(symbol.use_type, UseType::Declaration);
    match symbol.kind {
        SymbolKind::Variable { data_type, assigned } => {
            assert_eq!(data_type, Some(DataType::Integer));
            assert!(!assigned);
        }
        _ => panic!("not a variable"),
    }
}

#[test]
fn insert_then_lookup_finds_the_symbol() {
    let mut table = SymbolTable::new();
    table.insert(variable("x", Some(DataType::Float)));
    let found = table.lookup("x").unwrap();
    assert_eq!(found.value, "x");
    assert!(table.lookup("y").is_none());
}

#[test]
fn insert_overwrites_the_same_name_in_the_same_scope() {
    let mut table = SymbolTable::new();
    table.insert(variable("x", Some(DataType::Float)));
    table.insert(variable("y", None));
    table.insert(variable("x", Some(DataType::Boolean)));
    assert_eq!(table.all_scopes[0].entries.len(), 2);
    assert_eq!(table.get_all_symbols().len(), 2);
    match &table.lookup("x").unwrap().kind {
        SymbolKind::Variable { data_type, .. } => assert_eq!(*data_type, Some(DataType::Boolean)),
        _ => panic!("not a variable"),
    }
}

#[test]
fn inner_scope_shadows_and_is_gone_after_exit() {
    let mut table = SymbolTable::new();
    table.insert(variable("x", Some(DataType::Integer)));
    table.create_scope(1);
    table.enter_scope(1);
    table.insert(variable("x", Some(DataType::Boolean)));
    table.insert(variable("inner", Some(DataType::String)));
    match &table.lookup("x").unwrap().kind {
        SymbolKind::Variable { data_type, .. } => assert_eq!(*data_type, Some(DataType::Boolean)),
        _ => panic!("not a variable"),
    }
    table.exit_scope();
    match &table.lookup("x").unwrap().kind {
        SymbolKind::Variable { data_type, .. } => assert_eq!(*data_type, Some(DataType::Integer)),
        _ => panic!("not a variable"),
    }
    assert!(table.lookup("inner").is_none());
    assert!(table.read_symbol("inner").is_some());
}

#[test]
fn entering_a_scope_that_does_not_exist_does_nothing() {
    let mut table = SymbolTable::new();
    table.enter_scope(7);
    assert_eq!(table.active_scopes, vec![0]);
    table.create_scope(7);
    table.enter_scope(7);
    assert_eq!(table.active_scopes, vec![0, 7]);
}

#[test]
fn global_scope_is_never_left() {
    let mut table = SymbolTable::new();
    table.exit_scope();
    table.exit_scope();
    assert_eq!(table.active_scopes, vec![0]);
    table.insert(variable("x", None));
    assert!(table.lookup("x").is_some());
}

#[test]
fn creating_a_scope_again_empties_it() {
    let mut table = SymbolTable::new();
    table.create_scope(2);
    table.enter_scope(2);
    table.insert(variable("x", None));
    table.create_scope(2);
    assert_eq!(table.all_scopes.len(), 2);
    assert!(table.lookup("x").is_none());
}

#[test]
fn whole_table_scans_see_inactive_scopes() {
    let mut table = SymbolTable::new();
    table.insert(variable("a", None));
    table.create_scope(1);
    table.enter_scope(1);
    table.insert(variable("b", None));
    table.exit_scope();
    table.create_scope(2);
    table.enter_scope(2);
    table.insert(variable("c", None));
    table.exit_scope();
    let names: Vec<String> = table.get_all_symbols().iter().map(|s| s.value.clone()).collect();
    assert_eq!(names, vec!["a", "b", "c"]);
    assert_eq!(table.read_symbol("c").unwrap().value, "c");
    assert!(table.read_symbol("d").is_none());
}

#[test]
fn read_symbol_takes_the_first_scope_that_binds_the_name() {
    let mut table = SymbolTable::new();
    table.create_scope(1);
    table.enter_scope(1);
    table.insert(variable("x", Some(DataType::Integer)));
    table.exit_scope();
    table.create_scope(2);
    table.enter_scope(2);
    table.insert(variable("x", Some(DataType::Boolean)));
    table.exit_scope();
    match &table.read_symbol("x").unwrap().kind {
        SymbolKind::Variable { data_type, .. } => assert_eq!(*data_type, Some(DataType::Integer)),
        _ => panic!("not a variable"),
    }
}

#[test]
fn update_var_type_sets_the_type_and_clears_the_mark() {
    let mut table = SymbolTable::new();
    table.insert(variable("x", None));
    table.update_var_assigned("x");
    table.update_var_type("x", DataType::Float);
    match &table.read_symbol("x").unwrap().kind {
        SymbolKind::Variable { data_type, assigned } => {
            assert_eq!(*data_type, Some(DataType::Float));
            assert!(!*assigned);
        }
        _ => panic!("not a variable"),
    }
    table.update_var_type("missing", DataType::Float);
    assert_eq!(table.get_all_symbols().len(), 1);
}

#[test]
fn update_var_assigned_marks_variables_only() {
    let mut table = SymbolTable::new();
    table.insert(variable("x", Some(DataType::Integer)));
    table.insert(function("f", &[], DataType::Integer));
    table.update_var_assigned("x");
    table.update_var_assigned("f");
    table.update_var_assigned("missing");
    match &table.read_symbol("x").unwrap().kind {
        SymbolKind::Variable { data_type, assigned } => {
            assert_eq!(*data_type, Some(DataType::Integer));
            assert!(*assigned);
        }
        _ => panic!("not a variable"),
    }
    assert!(matches!(table.read_symbol("f").unwrap().kind, SymbolKind::Function { .. }));
}

#[test]
fn get_symbol_gives_the_symbol_to_change() {
    let mut table = SymbolTable::new();
    table.insert(variable("x", None));
    table.get_symbol("x").unwrap().occurrence = 9;
    assert_eq!(table.read_symbol("x").unwrap().occurrence, 9);
    assert!(table.get_symbol("y").is_none());
}

#[test]
fn get_params_gives_the_types_of_a_function() {
    let mut table = SymbolTable::new();
    table.insert(function(
        "foo",
        &[("x", DataType::Integer), ("y", DataType::Boolean)],
        DataType::Integer,
    ));
    table.insert(variable("v", None));
    assert_eq!(table.get_params("foo").unwrap(), &vec![DataType::Integer, DataType::Boolean]);
    assert!(table.get_params("v").is_none());
    assert!(table.get_params("missing").is_none());
}

#[test]
fn a_copy_of_a_table_is_independent() {
    let mut table = SymbolTable::new();
    table.insert(variable("x", None));
    let copy = table.clone();
    table.insert(variable("y", None));
    assert_eq!(copy.get_all_symbols().len(), 1);
    assert_eq!(table.get_all_symbols().len(), 2);
}

#[test]
fn types_compare_by_structure() {
    let a = DataType::Array(Box::new(DataType::Tuple(vec![DataType::Integer, DataType::Float])), 4);
    let b = DataType::Array(Box::new(DataType::Tuple(vec![DataType::Integer, DataType::Float])), 4);
    let c = DataType::Array(Box::new(DataType::Tuple(vec![DataType::Integer, DataType::Float])), 5);
    let d = DataType::Array(Box::new(DataType::Tuple(vec![DataType::Integer])), 4);
    assert_eq!(a, b);
    assert_eq!(a, a.clone());
    assert_ne!(a, c);
    assert_ne!(a, d);
    assert_ne!(DataType::Identifier("a".to_string()), DataType::Identifier("b".to_string()));
    assert_ne!(DataType::Void, DataType::Undefined);
}
