use toy_compiler::code_attrs::CodeAttrs;
use toy_compiler::grammar::const_type::VarType;
use toy_compiler::scope_stack::{ScopeStack, ScopeType, SymbolEntry, SymbolTable};
use toy_compiler::semantic_error::{SemanticError, SemanticErrorKind};

fn entry(line: usize, column: usize, var_type: VarType) -> SymbolEntry {
    SymbolEntry {
        appearances: vec![(line, column)],
        var_type: vec![var_type],
        const_index: vec![],
        is_function: false,
    }
}

#[test]
fn new_stack_holds_the_global_scope() {
    let scopes = ScopeStack::new();
    assert_eq!(scopes.stack.len(), 1);
    assert_eq!(scopes.stack[0].kind, ScopeType::Any);
    assert!(scopes.stack[0].symbols.pairs().is_empty());
    assert!(scopes.contains(ScopeType::Any));
    assert!(!scopes.contains(ScopeType::Loop));
}

#[test]
fn scopes_are_pushed_and_popped_in_order() {
    let mut scopes = ScopeStack::new();
    scopes.push_scope(ScopeType::Function);
    scopes.push_scope(ScopeType::LoopInit);
    scopes.push_scope(ScopeType::Loop);
    scopes.push_scope(ScopeType::If);
    assert!(scopes.contains(ScopeType::Loop));
    assert!(scopes.contains(ScopeType::Function));
    assert!(!scopes.contains(ScopeType::Else));
    scopes
        .insert_symbol("x".to_string(), entry(1, 1, VarType::Int))
        .unwrap();
    let popped = scopes.pop_scope().unwrap();
    assert_eq!(popped.kind, ScopeType::If);
    assert!(popped.symbols.contains_key("x"));
    assert_eq!(scopes.pop_scope().unwrap().kind, ScopeType::Loop);
    assert!(!scopes.contains(ScopeType::Loop));
    assert_eq!(scopes.pop_scope().unwrap().kind, ScopeType::LoopInit);
    assert_eq!(scopes.pop_scope().unwrap().kind, ScopeType::Function);
    assert_eq!(scopes.pop_scope().unwrap().kind, ScopeType::Any);
    assert_eq!(scopes.pop_scope(), None);
    assert!(!scopes.contains(ScopeType::Any));
    let closed: Vec<ScopeType> = scopes.closed.iter().map(|scope| scope.kind).collect();
    assert_eq!(
        closed,
        [
            ScopeType::If,
            ScopeType::Loop,
            ScopeType::LoopInit,
            ScopeType::Function,
            ScopeType::Any
        ]
    );
    assert!(scopes.closed[0].symbols.contains_key("x"));
    assert!(!scopes.close_scope());
    scopes.push_scope(ScopeType::Else);
    assert!(scopes.close_scope());
    assert_eq!(scopes.closed.len(), 6);
    assert!(scopes.stack.is_empty());
}

#[test]
fn entries_are_reported_with_their_lists() {
    let function = SymbolEntry {
        appearances: vec![],
        var_type: vec![VarType::Int, VarType::Float],
        const_index: vec![],
        is_function: true,
    };
    let mut line = String::from(">");
    function.append_report_line("@f", &mut line);
    assert_eq!(
        line,
        ">\n  Símbolo: @f, Tipo: [Int, Float], Índices: [], Aparições: []"
    );
    let matrix = SymbolEntry {
        appearances: vec![(2, 5), (10, 11), (12, 1)],
        var_type: vec![VarType::String],
        const_index: vec![3, 40],
        is_function: false,
    };
    let mut line = String::new();
    matrix.append_report_line("m", &mut line);
    assert_eq!(
        line,
        "\n  Símbolo: m, Tipo: String, Índices: [3, 40], Aparições: [(2, 5), (10, 11), (12, 1)]"
    );
    let none = SymbolEntry {
        appearances: vec![(1, 1)],
        var_type: vec![],
        const_index: vec![7],
        is_function: false,
    };
    let mut line = String::new();
    none.append_report_line("g", &mut line);
    assert_eq!(
        line,
        "\n  Símbolo: g, Tipo: [], Índices: [7], Aparições: [(1, 1)]"
    );
    let mut scopes = ScopeStack::new();
    scopes.insert_symbol("m".to_string(), matrix).unwrap();
    let mut report = String::new();
    scopes.stack[0].append_report(&mut report);
    assert_eq!(
        report,
        "Escopo: Any\n  Símbolo: m, Tipo: String, Índices: [3, 40], Aparições: [(2, 5), (10, 11), (12, 1)]\n\n"
    );
    assert_eq!(ScopeType::LoopInit.as_variant_name(), "LoopInit");
}

#[test]
fn names_are_unique_within_a_scope() {
    let mut scopes = ScopeStack::new();
    assert_eq!(
        scopes.insert_symbol("x".to_string(), entry(1, 5, VarType::Int)),
        Ok(())
    );
    assert_eq!(
        scopes.insert_symbol("y".to_string(), entry(2, 5, VarType::Float)),
        Ok(())
    );
    let error = scopes
        .insert_symbol("x".to_string(), entry(3, 8, VarType::String))
        .unwrap_err();
    assert_eq!(
        error,
        SemanticError::Redefinition {
            name: "x".to_string(),
            line: 3,
            column: 8
        }
    );
    assert_eq!(scopes.get_symbol("x").unwrap().var_type, [VarType::Int]);
    let without_place = SymbolEntry {
        appearances: vec![],
        var_type: vec![VarType::Int],
        const_index: vec![],
        is_function: false,
    };
    assert_eq!(
        scopes.insert_symbol("y".to_string(), without_place),
        Err(SemanticError::Redefinition {
            name: "y".to_string(),
            line: 0,
            column: 0
        })
    );
}

#[test]
fn lookup_finds_the_innermost_declaration() {
    let mut scopes = ScopeStack::new();
    scopes
        .insert_symbol("x".to_string(), entry(1, 1, VarType::Int))
        .unwrap();
    scopes
        .insert_symbol("y".to_string(), entry(1, 2, VarType::Int))
        .unwrap();
    scopes.push_scope(ScopeType::Function);
    scopes
        .insert_symbol("x".to_string(), entry(2, 1, VarType::String))
        .unwrap();
    scopes.push_scope(ScopeType::Any);
    assert_eq!(scopes.get_symbol("x"), Some(entry(2, 1, VarType::String)));
    assert_eq!(scopes.get_symbol("y"), Some(entry(1, 2, VarType::Int)));
    assert_eq!(scopes.get_symbol("z"), None);
    scopes.pop_scope();
    scopes.pop_scope();
    assert_eq!(scopes.get_symbol("x"), Some(entry(1, 1, VarType::Int)));
}

#[test]
fn uses_are_counted_in_the_innermost_declaration() {
    let mut scopes = ScopeStack::new();
    scopes
        .insert_symbol("x".to_string(), entry(1, 1, VarType::Int))
        .unwrap();
    scopes.push_scope(ScopeType::If);
    scopes
        .insert_symbol("x".to_string(), entry(2, 1, VarType::Int))
        .unwrap();
    assert_eq!(scopes.count_appearance("x", 3, 4), Ok(()));
    assert_eq!(scopes.count_appearance("x", 3, 9), Ok(()));
    assert_eq!(
        scopes.get_symbol("x").unwrap().appearances,
        [(2, 1), (3, 4), (3, 9)]
    );
    assert_eq!(scopes.stack.len(), 2);
    scopes.pop_scope();
    assert_eq!(scopes.get_symbol("x").unwrap().appearances, [(1, 1)]);
    let error = scopes.count_appearance("y", 7, 2).unwrap_err();
    assert_eq!(
        error,
        SemanticError::SymbolNotFound {
            name: "y".to_string(),
            line: 7,
            column: 2
        }
    );
    assert_eq!(error.kind(), SemanticErrorKind::UndeclaredSymbol);
    assert_eq!(error.position(), Some((7, 2)));
}

#[test]
fn symbol_table_is_a_map() {
    let mut table = SymbolTable::new();
    assert!(!table.contains_key("a"));
    assert_eq!(table.get("a"), None);
    assert!(!table.record("a", 1, 1));
    table.insert("a".to_string(), entry(1, 1, VarType::Int));
    table.insert("b".to_string(), entry(2, 1, VarType::Float));
    table.insert("a".to_string(), entry(3, 1, VarType::String));
    assert!(table.contains_key("a"));
    assert_eq!(table.get("a"), Some(&entry(3, 1, VarType::String)));
    assert_eq!(table.get("b"), Some(&entry(2, 1, VarType::Float)));
    assert!(table.record("a", 4, 4));
    assert_eq!(table.get("a").unwrap().appearances, [(3, 1), (4, 4)]);
    assert_eq!(table.get("b").unwrap().appearances, [(2, 1)]);
    assert_eq!(entry(1, 2, VarType::Int).clone(), entry(1, 2, VarType::Int));
}

#[test]
fn temporaries_and_labels_count_from_one() {
    let mut state = CodeAttrs::new();
    assert_eq!(state.create_temp(), "t1");
    assert_eq!(state.create_temp(), "t2");
    assert_eq!(state.create_label(), "L1");
    assert_eq!(state.create_temp(), "t3");
    assert_eq!(state.create_label(), "L2");
    for _ in 0..7 {
        state.create_temp();
    }
    assert_eq!(state.create_temp(), "t11");
    assert!(state.has_temp());
    assert!(state.has_label());
    assert_eq!(CodeAttrs::new().create_label(), "L1");
}

#[test]
fn break_label_and_code_are_kept() {
    let mut state = CodeAttrs::new();
    assert_eq!(state.get_scope_label(), "");
    assert_eq!(state.code, "");
    state.set_scope_end("L7".to_string());
    assert_eq!(state.get_scope_label(), "L7");
    state.emit("a = b\n");
    state.emit("goto L7\n");
    assert_eq!(state.code(), "a = b\ngoto L7\n");
    state.set_scope_end("L9".to_string());
    assert_eq!(state.get_scope_label(), "L9");
    assert_eq!(state.code, "a = b\ngoto L7\n");
}

#[test]
fn every_error_has_its_kind() {
    let name = || "n".to_string();
    let errors = [
        (
            SemanticError::Redefinition {
                name: name(),
                line: 1,
                column: 2,
            },
            SemanticErrorKind::Redefinition,
        ),
        (
            SemanticError::SymbolNotFound {
                name: name(),
                line: 1,
                column: 2,
            },
            SemanticErrorKind::UndeclaredSymbol,
        ),
        (
            SemanticError::UndefinedFunction {
                name: name(),
                line: 1,
                column: 2,
            },
            SemanticErrorKind::UndeclaredSymbol,
        ),
        (
            SemanticError::UndefinedArgument {
                name: name(),
                line: 1,
                column: 2,
            },
            SemanticErrorKind::UndeclaredSymbol,
        ),
        (
            SemanticError::AssignmentMismatch {
                name: name(),
                line: 1,
                column: 2,
            },
            SemanticErrorKind::TypeMismatch,
        ),
        (
            SemanticError::ExpressionMismatch { line: 1, column: 2 },
            SemanticErrorKind::TypeMismatch,
        ),
        (
            SemanticError::NumericMismatch { line: 1, column: 2 },
            SemanticErrorKind::TypeMismatch,
        ),
        (
            SemanticError::ArgumentMismatch {
                name: name(),
                line: 1,
                column: 2,
            },
            SemanticErrorKind::TypeMismatch,
        ),
        (
            SemanticError::FunctionAsValue {
                name: name(),
                line: 1,
                column: 2,
            },
            SemanticErrorKind::TypeMismatch,
        ),
        (
            SemanticError::ReadNotString {
                found: VarType::Int,
                line: 1,
                column: 2,
            },
            SemanticErrorKind::TypeMismatch,
        ),
        (
            SemanticError::IndexNotInt {
                found: VarType::Float,
                line: 1,
                column: 2,
            },
            SemanticErrorKind::TypeMismatch,
        ),
        (
            SemanticError::TooManyIndices {
                name: name(),
                line: 1,
                column: 2,
            },
            SemanticErrorKind::ArityOrBounds,
        ),
        (
            SemanticError::IllegalBreak { line: 1, column: 2 },
            SemanticErrorKind::IllegalBreak,
        ),
        (
            SemanticError::IllegalReturn { line: 1, column: 2 },
            SemanticErrorKind::IllegalReturn,
        ),
    ];
    for (error, kind) in errors {
        assert_eq!(error.kind(), kind);
        assert_eq!(error.position(), Some((1, 2)));
        assert!(error.message().starts_with("Erro"));
    }
    assert_eq!(SemanticError::MalformedTree.position(), None);
    assert_eq!(
        SemanticError::FunctionAsArgument { name: name() }.kind(),
        SemanticErrorKind::TypeMismatch
    );
}
