//! The stack discipline of the semantic analysis, as a law of the
//! analysis itself: whatever the tree and whatever the scopes, an
//! analysis closes no scope that was open when it began and takes no
//! name from one of them, and where it goes through it has closed as
//! many scopes as it opened. Every push
//! adds one scope on top, and every pop takes the top one away and
//! hands it to the record of the closed scopes: scopes are closed in
//! the reverse of the order in which they were opened.

use vstd::prelude::*;
use crate::grammar::const_type::VarType;
use crate::grammar::semantic_node::Ast;
use crate::scope_stack::{
    declared,
    keeps_below,
    lemma_same_scopes,
    popped,
    pushed,
    used,
    ScopeType,
    Scopes,
};
use crate::semantic::{
    analyze,
    analyze_all,
    analyze_allocexpression,
    analyze_arguments,
    analyze_atribstat,
    analyze_atribstatevalue,
    analyze_elsestat,
    analyze_expression,
    analyze_factor,
    analyze_forstat,
    analyze_funccall,
    analyze_funcdef,
    analyze_ifstat,
    analyze_indices,
    analyze_lvalue,
    analyze_numexpression,
    analyze_program,
    analyze_readstat,
    analyze_right_operand,
    analyze_statement,
    analyze_term,
    analyze_terminal,
    analyze_use,
    analyze_vardecl,
    declare_parameters,
    disciplined,
    identifier,
    Outcome,
    Parameter,
};

verus! {

/// A scope pushed and the scopes above it popped leave what was below.
pub proof fn lemma_push_pop(before: Scopes, kind: ScopeType, after: Scopes)
    requires
        keeps_below(pushed(before, kind), after),
    ensures
        keeps_below(before, popped(after)),
        after.len() == before.len() + 1 ==> popped(after).len() == before.len(),
{
    let opened = pushed(before, kind);
    assert forall|i: int| 0 <= i < before.len() implies #[trigger] popped(after)[i].kind
        == before[i].kind by {
        assert(opened[i] == before[i]);
        assert(after[i].kind == opened[i].kind);
    }
}

/// What lies below stays below over two steps.
pub proof fn lemma_keeps_below_twice(
    first: Scopes,
    second: Scopes,
    third: Scopes,
)
    requires
        keeps_below(first, second),
        keeps_below(second, third),
    ensures
        keeps_below(first, third),
{
    assert forall|i: int| 0 <= i < first.len() implies #[trigger] third[i].kind
        == first[i].kind by {
        assert(second[i].kind == first[i].kind);
        assert(third[i].kind == second[i].kind);
    }
}

/// A step that goes through and keeps the height, followed by a
/// disciplined step, is disciplined.
proof fn lemma_then(before: Scopes, first: Outcome, second: Outcome)
    requires
        disciplined(before, first),
        first.result.is_ok(),
        disciplined(first.scopes, second),
    ensures
        disciplined(before, second),
{
    lemma_keeps_below_twice(before, first.scopes, second.scopes);
}

/// Scope discipline: the analysis of any tree with any scopes closes
/// no scope that was open when it began and takes no name from one of
/// them, and where it goes through, the stack is as high as it was: it
/// has closed every scope that it opened.
pub proof fn lemma_scope_discipline(node: Ast, scopes: Scopes)
    ensures
        disciplined(scopes, analyze(node, scopes)),
    decreases node, 1nat,
{
    match node {
        Ast::Allocexpression { .. } => lemma_allocexpression(node, scopes),
        Ast::Atribstat { .. } => lemma_atribstat(node, scopes),
        Ast::Atribstatevalue { .. } => lemma_atribstatevalue(node, scopes),
        Ast::ConstIndex { index } => lemma_all(index, 0, scopes),
        Ast::Elsestat { .. } => lemma_elsestat(node, scopes),
        Ast::Expression { .. } => lemma_expression(node, scopes),
        Ast::Factor { .. } => lemma_factor(node, scopes),
        Ast::Forstat { .. } => lemma_forstat(node, scopes),
        Ast::Funccall { .. } => lemma_funccall(node, scopes),
        Ast::Funcdef { .. } => lemma_funcdef(node, scopes),
        Ast::Funclist { funclist } => lemma_all(funclist, 0, scopes),
        Ast::Ifstat { .. } => lemma_ifstat(node, scopes),
        Ast::Lvalue { .. } => lemma_lvalue(node, scopes),
        Ast::Numexpression { .. } => lemma_numexpression(node, scopes),
        Ast::Paramlistcall { paramlist } => lemma_all(paramlist, 0, scopes),
        Ast::Printstat { expression } => lemma_scope_discipline(*expression, scopes),
        Ast::Program { .. } => lemma_program(node, scopes),
        Ast::Readstat { .. } => lemma_readstat(node, scopes),
        Ast::Statelist { statelist } => lemma_all(statelist, 0, scopes),
        Ast::Statement { .. } => lemma_statement(node, scopes),
        Ast::Term { .. } => lemma_term(node, scopes),
        Ast::Unaryexpression { op, factor } => lemma_scope_discipline(*factor, scopes),
        Ast::Vardecl { .. } => lemma_vardecl(node, scopes),
        Ast::VarIndex { index } => lemma_indices(index, 0, scopes),
        Ast::Terminal { .. } => lemma_terminal(node, scopes),
        _ => {},
    }
}

proof fn lemma_all(nodes: Seq<Ast>, from: int, scopes: Scopes)
    ensures
        disciplined(scopes, analyze_all(nodes, from, scopes)),
    decreases nodes, nodes.len() - from,
{
    if 0 <= from < nodes.len() {
        lemma_scope_discipline(nodes[from], scopes);
        let first = analyze(nodes[from], scopes);
        if first.result.is_ok() {
            lemma_all(nodes, from + 1, first.scopes);
            lemma_then(scopes, first, analyze_all(nodes, from + 1, first.scopes));
        }
    }
}

proof fn lemma_use(name: Seq<char>, line: usize, column: usize, scopes: Scopes)
    ensures
        disciplined(scopes, analyze_use(name, line, column, scopes)),
{
    lemma_same_scopes(scopes, name);
}

proof fn lemma_terminal(node: Ast, scopes: Scopes)
    ensures
        disciplined(scopes, analyze_terminal(node, scopes)),
{
    match node {
        Ast::Terminal { value } => match identifier(node) {
            Some((name, line, column)) => lemma_use(name, line, column, scopes),
            None => {},
        },
        _ => {},
    }
}

proof fn lemma_readstat(node: Ast, scopes: Scopes)
    ensures
        disciplined(scopes, analyze_readstat(node, scopes)),
    decreases node, 0nat,
{
    match node {
        Ast::Readstat { lvalue } => match *lvalue {
            Ast::Lvalue { id, var_index } => match identifier(*id) {
                Some((name, line, column)) => {
                    lemma_use(name, line, column, scopes);
                    let variable = analyze_use(name, line, column, scopes);
                    match var_index {
                        Some(var_index) => match *var_index {
                            Ast::VarIndex { index } => {
                                lemma_indices(index, 0, variable.scopes);
                                lemma_keeps_below_twice(
                                    scopes,
                                    variable.scopes,
                                    analyze_indices(index, 0, variable.scopes).scopes,
                                );
                            },
                            _ => {},
                        },
                        None => {},
                    }
                },
                None => {},
            },
            _ => {},
        },
        _ => {},
    }
}

proof fn lemma_vardecl(node: Ast, scopes: Scopes)
    ensures
        disciplined(scopes, analyze_vardecl(node, scopes)),
{
    match node {
        Ast::Vardecl { var_type, id, const_index } => match identifier(*id) {
            Some((name, line, column)) => lemma_same_scopes(scopes, name),
            None => {},
        },
        _ => {},
    }
}

proof fn lemma_allocexpression(node: Ast, scopes: Scopes)
    ensures
        disciplined(scopes, analyze_allocexpression(node, scopes)),
    decreases node, 0nat,
{
    match node {
        Ast::Allocexpression { var_type, dimensions } => {
            lemma_scope_discipline(*var_type, scopes);
            let named = analyze(*var_type, scopes);
            if named.result.is_ok() {
                lemma_scope_discipline(*dimensions, named.scopes);
                lemma_then(scopes, named, analyze(*dimensions, named.scopes));
            }
        },
        _ => {},
    }
}

proof fn lemma_indices(index: Seq<Ast>, from: int, scopes: Scopes)
    ensures
        disciplined(scopes, analyze_indices(index, from, scopes)),
    decreases index, index.len() - from,
{
    if 0 <= from < index.len() {
        lemma_scope_discipline(index[from], scopes);
        let first = analyze(index[from], scopes);
        if first.result.is_ok() {
            lemma_indices(index, from + 1, first.scopes);
            lemma_then(scopes, first, analyze_indices(index, from + 1, first.scopes));
        }
    }
}

proof fn lemma_atribstat(node: Ast, scopes: Scopes)
    ensures
        disciplined(scopes, analyze_atribstat(node, scopes)),
    decreases node, 0nat,
{
    match node {
        Ast::Atribstat { lvalue, value } => match *lvalue {
            Ast::Lvalue { id, var_index } => match identifier(*id) {
                Some((name, line, column)) => {
                    lemma_same_scopes(scopes, name);
                    let seen = used(scopes, name, line, column);
                    lemma_scope_discipline(*value, seen);
                    let right = analyze(*value, seen);
                    lemma_keeps_below_twice(scopes, seen, right.scopes);
                    if right.result.is_ok() {
                        match var_index {
                            Some(var_index) => match *var_index {
                                Ast::VarIndex { index } => {
                                    lemma_indices(index, 0, right.scopes);
                                    lemma_keeps_below_twice(
                                        scopes,
                                        right.scopes,
                                        analyze_indices(index, 0, right.scopes).scopes,
                                    );
                                },
                                _ => {},
                            },
                            None => {},
                        }
                    }
                },
                None => {},
            },
            _ => {},
        },
        _ => {},
    }
}

proof fn lemma_atribstatevalue(node: Ast, scopes: Scopes)
    ensures
        disciplined(scopes, analyze_atribstatevalue(node, scopes)),
    decreases node, 0nat,
{
    match node {
        Ast::Atribstatevalue { expression, allocexpression, funccall } => match expression {
            Some(expression) => lemma_scope_discipline(*expression, scopes),
            None => match allocexpression {
                Some(allocexpression) => lemma_scope_discipline(*allocexpression, scopes),
                None => match funccall {
                    Some(funccall) => lemma_scope_discipline(*funccall, scopes),
                    None => {},
                },
            },
        },
        _ => {},
    }
}

proof fn lemma_elsestat(node: Ast, scopes: Scopes)
    ensures
        disciplined(scopes, analyze_elsestat(node, scopes)),
    decreases node, 0nat,
{
    match node {
        Ast::Elsestat { statement } => {
            lemma_scope_discipline(*statement, pushed(scopes, ScopeType::Else));
            lemma_push_pop(
                scopes,
                ScopeType::Else,
                analyze(*statement, pushed(scopes, ScopeType::Else)).scopes,
            );
        },
        _ => {},
    }
}

proof fn lemma_right_operand(
    left_type: VarType,
    left_place: Option<(usize, usize)>,
    right: Option<Box<Ast>>,
    scopes: Scopes,
)
    ensures
        disciplined(scopes, analyze_right_operand(left_type, left_place, right, scopes)),
    decreases right, 0nat,
{
    match right {
        Some(right) => lemma_scope_discipline(*right, scopes),
        None => {},
    }
}

proof fn lemma_expression(node: Ast, scopes: Scopes)
    ensures
        disciplined(scopes, analyze_expression(node, scopes)),
    decreases node, 0nat,
{
    match node {
        Ast::Expression { numexpression, op_expression, numexpression2 } => {
            lemma_scope_discipline(*numexpression, scopes);
            let left = analyze(*numexpression, scopes);
            if left.result.is_ok() {
                match numexpression2 {
                    Some(numexpression2) => {
                        lemma_scope_discipline(*numexpression2, left.scopes);
                        lemma_keeps_below_twice(
                            scopes,
                            left.scopes,
                            analyze(*numexpression2, left.scopes).scopes,
                        );
                    },
                    None => {},
                }
            }
        },
        _ => {},
    }
}

proof fn lemma_numexpression(node: Ast, scopes: Scopes)
    ensures
        disciplined(scopes, analyze_numexpression(node, scopes)),
    decreases node, 0nat,
{
    match node {
        Ast::Numexpression { term, op_numexpression, term2 } => {
            lemma_scope_discipline(*term, scopes);
            let left = analyze(*term, scopes);
            match left.result {
                Ok(Some(crate::semantic::Attribute::Data { var_type, place })) => {
                    match op_numexpression {
                        None => {
                            lemma_right_operand(var_type, place, term2, left.scopes);
                            lemma_then(
                                scopes,
                                left,
                                analyze_right_operand(var_type, place, term2, left.scopes),
                            );
                        },
                        Some(op_numexpression) => {
                            lemma_scope_discipline(*op_numexpression, left.scopes);
                            let operator = analyze(*op_numexpression, left.scopes);
                            lemma_then(scopes, left, operator);
                            if operator.result.is_ok() {
                                lemma_right_operand(var_type, place, term2, operator.scopes);
                                lemma_then(
                                    scopes,
                                    operator,
                                    analyze_right_operand(var_type, place, term2, operator.scopes),
                                );
                            }
                        },
                    }
                },
                _ => {},
            }
        },
        _ => {},
    }
}

proof fn lemma_term(node: Ast, scopes: Scopes)
    ensures
        disciplined(scopes, analyze_term(node, scopes)),
    decreases node, 0nat,
{
    match node {
        Ast::Term { unaryexpression, op_term, unaryexpression2 } => {
            lemma_scope_discipline(*unaryexpression, scopes);
            let left = analyze(*unaryexpression, scopes);
            match left.result {
                Ok(Some(crate::semantic::Attribute::Data { var_type, place })) => {
                    lemma_right_operand(var_type, place, unaryexpression2, left.scopes);
                    lemma_then(
                        scopes,
                        left,
                        analyze_right_operand(var_type, place, unaryexpression2, left.scopes),
                    );
                },
                _ => {},
            }
        },
        _ => {},
    }
}

proof fn lemma_factor(node: Ast, scopes: Scopes)
    ensures
        disciplined(scopes, analyze_factor(node, scopes)),
    decreases node, 0nat,
{
    match node {
        Ast::Factor { expression, lvalue, constant } => match expression {
            Some(expression) => lemma_scope_discipline(*expression, scopes),
            None => match lvalue {
                Some(lvalue) => lemma_scope_discipline(*lvalue, scopes),
                None => match constant {
                    Some(constant) => lemma_scope_discipline(*constant, scopes),
                    None => {},
                },
            },
        },
        _ => {},
    }
}

proof fn lemma_forstat(node: Ast, scopes: Scopes)
    ensures
        disciplined(scopes, analyze_forstat(node, scopes)),
    decreases node, 0nat,
{
    match node {
        Ast::Forstat { init, condition, increment, body } => {
            let opened = pushed(scopes, ScopeType::LoopInit);
            assert(keeps_below(scopes, opened));
            lemma_scope_discipline(*init, opened);
            let first = analyze(*init, opened);
            lemma_keeps_below_twice(scopes, opened, first.scopes);
            if first.result.is_ok() {
                lemma_scope_discipline(*condition, first.scopes);
                let second = analyze(*condition, first.scopes);
                lemma_then(opened, first, second);
                lemma_keeps_below_twice(scopes, opened, second.scopes);
                if second.result.is_ok() {
                    lemma_scope_discipline(*increment, second.scopes);
                    let third = analyze(*increment, second.scopes);
                    lemma_then(opened, second, third);
                    lemma_keeps_below_twice(scopes, opened, third.scopes);
                    if third.result.is_ok() {
                        let inner = pushed(third.scopes, ScopeType::Loop);
                        assert(keeps_below(third.scopes, inner));
                        lemma_scope_discipline(*body, inner);
                        let fourth = analyze(*body, inner);
                        lemma_keeps_below_twice(third.scopes, inner, fourth.scopes);
                        lemma_keeps_below_twice(scopes, third.scopes, fourth.scopes);
                        if fourth.result.is_ok() {
                            lemma_push_pop(third.scopes, ScopeType::Loop, fourth.scopes);
                            lemma_keeps_below_twice(opened, third.scopes, popped(fourth.scopes));
                            lemma_push_pop(scopes, ScopeType::LoopInit, popped(fourth.scopes));
                        }
                    }
                }
            }
        },
        _ => {},
    }
}

proof fn lemma_arguments(
    arguments: Seq<Ast>,
    from: int,
    types: Seq<VarType>,
    scopes: Scopes,
)
    ensures
        keeps_below(scopes, analyze_arguments(arguments, from, types, scopes).scopes),
        analyze_arguments(arguments, from, types, scopes).scopes.len() == scopes.len(),
    decreases arguments.len() - from,
{
    if 0 <= from < arguments.len() {
        match identifier(arguments[from]) {
            Some((name, line, column)) => {
                lemma_same_scopes(scopes, name);
                let seen = used(scopes, name, line, column);
                match crate::scope_stack::lookup(scopes, name) {
                    Some(entry) => match entry.value_type() {
                        Some(var_type) => {
                            lemma_arguments(arguments, from + 1, types.push(var_type), seen);
                            lemma_keeps_below_twice(
                                scopes,
                                seen,
                                analyze_arguments(
                                    arguments,
                                    from + 1,
                                    types.push(var_type),
                                    seen,
                                ).scopes,
                            );
                        },
                        None => {},
                    },
                    None => {},
                }
            },
            None => {},
        }
    }
}

proof fn lemma_funccall(node: Ast, scopes: Scopes)
    ensures
        disciplined(scopes, analyze_funccall(node, scopes)),
{
    match node {
        Ast::Funccall { id, paramlistcall } => match identifier(*id) {
            Some((name, line, column)) => {
                match paramlistcall {
                    Some(paramlistcall) => match *paramlistcall {
                        Ast::Paramlistcall { paramlist } => {
                            lemma_arguments(paramlist, 0, Seq::empty(), scopes);
                            let passed = analyze_arguments(paramlist, 0, Seq::empty(), scopes);
                            lemma_same_scopes(passed.scopes, name);
                            lemma_keeps_below_twice(
                                scopes,
                                passed.scopes,
                                used(passed.scopes, name, line, column),
                            );
                        },
                        _ => {},
                    },
                    None => {
                        lemma_same_scopes(scopes, name);
                    },
                }
            },
            None => {},
        },
        _ => {},
    }
}

proof fn lemma_declare_parameters(found: Seq<Parameter>, from: int, scopes: Scopes)
    ensures
        keeps_below(scopes, declare_parameters(found, from, scopes).scopes),
        declare_parameters(found, from, scopes).scopes.len() == scopes.len(),
    decreases found.len() - from,
{
    if 0 <= from < found.len() {
        let parameter = found[from];
        lemma_same_scopes(scopes, parameter.name);
        if !crate::scope_stack::declared_here(scopes, parameter.name) {
            let next = declared(
                scopes,
                parameter.name,
                crate::semantic::declaration(
                    parameter.line,
                    parameter.column,
                    seq![parameter.var_type],
                    Seq::empty(),
                    false,
                ),
            );
            lemma_declare_parameters(found, from + 1, next);
            lemma_keeps_below_twice(
                scopes,
                next,
                declare_parameters(found, from + 1, next).scopes,
            );
        }
    }
}

proof fn lemma_funcdef(node: Ast, scopes: Scopes)
    ensures
        disciplined(scopes, analyze_funcdef(node, scopes)),
    decreases node, 0nat,
{
    match node {
        Ast::Funcdef { func_id, paramlist, statelist } => match identifier(*func_id) {
            Some((name, line, column)) => {
                let signature = match paramlist {
                    None => Some((Seq::<VarType>::empty(), Seq::<Parameter>::empty())),
                    Some(paramlist) => match *paramlist {
                        Ast::Paramlist { paramlist } => crate::semantic::parameters(
                            paramlist,
                            0,
                            None,
                            Seq::empty(),
                            Seq::empty(),
                        ),
                        _ => None,
                    },
                };
                match signature {
                    Some((types, found)) => {
                        lemma_same_scopes(scopes, name);
                        let outer = declared(
                            scopes,
                            name,
                            crate::semantic::declaration(line, column, types, Seq::empty(), true),
                        );
                        let opened = pushed(outer, ScopeType::Function);
                        lemma_declare_parameters(found, 0, opened);
                        let inner = declare_parameters(found, 0, opened);
                        assert(keeps_below(outer, opened));
                        lemma_keeps_below_twice(outer, opened, inner.scopes);
                        lemma_keeps_below_twice(scopes, outer, inner.scopes);
                        lemma_scope_discipline(*statelist, inner.scopes);
                        let body = analyze(*statelist, inner.scopes);
                        lemma_keeps_below_twice(opened, inner.scopes, body.scopes);
                        lemma_keeps_below_twice(scopes, inner.scopes, body.scopes);
                        if inner.error.is_none() && body.result.is_ok() {
                            lemma_push_pop(outer, ScopeType::Function, body.scopes);
                            lemma_keeps_below_twice(scopes, outer, popped(body.scopes));
                        }
                    },
                    None => {},
                }
            },
            None => {},
        },
        _ => {},
    }
}

proof fn lemma_ifstat(node: Ast, scopes: Scopes)
    ensures
        disciplined(scopes, analyze_ifstat(node, scopes)),
    decreases node, 0nat,
{
    match node {
        Ast::Ifstat { condition, then_branch, else_branch } => {
            lemma_scope_discipline(*condition, scopes);
            let first = analyze(*condition, scopes);
            if first.result.is_ok() {
                let opened = pushed(first.scopes, ScopeType::If);
                assert(keeps_below(first.scopes, opened));
                lemma_scope_discipline(*then_branch, opened);
                let second = analyze(*then_branch, opened);
                lemma_keeps_below_twice(first.scopes, opened, second.scopes);
                lemma_keeps_below_twice(scopes, first.scopes, second.scopes);
                if second.result.is_ok() {
                    lemma_push_pop(first.scopes, ScopeType::If, second.scopes);
                    let closed = popped(second.scopes);
                    lemma_keeps_below_twice(scopes, first.scopes, closed);
                    match else_branch {
                        Some(else_branch) => {
                            lemma_scope_discipline(*else_branch, closed);
                            lemma_keeps_below_twice(
                                scopes,
                                closed,
                                analyze(*else_branch, closed).scopes,
                            );
                        },
                        None => {},
                    }
                }
            }
        },
        _ => {},
    }
}

proof fn lemma_lvalue(node: Ast, scopes: Scopes)
    ensures
        disciplined(scopes, analyze_lvalue(node, scopes)),
    decreases node, 0nat,
{
    match node {
        Ast::Lvalue { id, var_index } => {
            lemma_scope_discipline(*id, scopes);
            let named = analyze(*id, scopes);
            if named.result.is_ok() {
                match var_index {
                    Some(var_index) => match *var_index {
                        Ast::VarIndex { index } => {
                            lemma_indices(index, 0, named.scopes);
                            lemma_keeps_below_twice(
                                scopes,
                                named.scopes,
                                analyze_indices(index, 0, named.scopes).scopes,
                            );
                        },
                        _ => {},
                    },
                    None => {},
                }
            }
        },
        _ => {},
    }
}

proof fn lemma_program(node: Ast, scopes: Scopes)
    ensures
        disciplined(scopes, analyze_program(node, scopes)),
    decreases node, 0nat,
{
    match node {
        Ast::Program { funclist, statement } => match funclist {
            Some(funclist) => lemma_scope_discipline(*funclist, scopes),
            None => match statement {
                Some(statement) => lemma_scope_discipline(*statement, scopes),
                None => {},
            },
        },
        _ => {},
    }
}

proof fn lemma_statement(node: Ast, scopes: Scopes)
    ensures
        disciplined(scopes, analyze_statement(node, scopes)),
    decreases node, 0nat,
{
    match node {
        Ast::Statement { vardecl, atribstat, ifstat, forstat, statelist, commandstat } => {
            match vardecl {
                Some(vardecl) => lemma_scope_discipline(*vardecl, scopes),
                None => match atribstat {
                    Some(atribstat) => lemma_scope_discipline(*atribstat, scopes),
                    None => match ifstat {
                        Some(ifstat) => lemma_scope_discipline(*ifstat, scopes),
                        None => match forstat {
                            Some(forstat) => lemma_scope_discipline(*forstat, scopes),
                            None => match statelist {
                                Some(statelist) => {
                                    let opened = pushed(scopes, ScopeType::Any);
                                    assert(keeps_below(scopes, opened));
                                    lemma_scope_discipline(*statelist, opened);
                                    let block = analyze(*statelist, opened);
                                    lemma_keeps_below_twice(scopes, opened, block.scopes);
                                    if block.result.is_ok() {
                                        lemma_push_pop(scopes, ScopeType::Any, block.scopes);
                                    }
                                },
                                None => match commandstat {
                                    Some(commandstat) => lemma_scope_discipline(
                                        *commandstat,
                                        scopes,
                                    ),
                                    None => {},
                                },
                            },
                        },
                    },
                },
            }
        },
        _ => {},
    }
}

/// No name leaves its scope: a scope that is open when an analysis
/// begins is, when the analysis ends, still open where it was and of
/// the kind it was, and it declares every name that it declared,
/// whether the analysis went through or failed.
pub proof fn lemma_names_stay(node: Ast, scopes: Scopes, i: int, name: Seq<char>)
    requires
        0 <= i < scopes.open.len(),
        scopes.open[i].symbols.dom().contains(name),
    ensures
        i < analyze(node, scopes).scopes.open.len(),
        analyze(node, scopes).scopes.open[i].kind == scopes.open[i].kind,
        analyze(node, scopes).scopes.open[i].symbols.dom().contains(name),
{
    lemma_scope_discipline(node, scopes);
}

} // verus!
