//! Where a `break` jumps: the code generation leaves the target of
//! `break` as it found it. A loop sets the target to its own end for
//! its body and sets it back behind the body, so that a `break` always
//! jumps to the end of the innermost loop around it, also where another
//! loop comes before it in the same body.

use vstd::prelude::*;
use crate::code_attrs::CodeAttrsView;
use crate::code_generation::{
    assign,
    branch_if,
    branch_if_zero,
    call_head,
    fresh_label,
    fresh_temp,
    generate,
    generate_allocexpression,
    generate_arguments,
    generate_atribstat,
    generate_bounds,
    generate_dimensions,
    generate_each,
    generate_expression,
    generate_factor,
    generate_forstat,
    generate_funccall,
    generate_funcdef,
    generate_ifstat,
    generate_indices,
    generate_lvalue,
    generate_numexpression,
    generate_statement,
    generate_statements,
    generate_term,
    generate_unaryexpression,
    goto_line,
    label_line,
    operation_head,
    scale,
    unary_head,
    Emission,
};
use crate::grammar::semantic_node::Ast;
use crate::grammar::token_type::TokenType;
use crate::token::TokenView;

verus! {

/// Whether a `break` jumps to the same label after the emission
/// `result` as in the state `state`. Where nothing was generated there
/// is nothing to keep.
pub open spec fn keeps_target(result: Option<Emission>, state: CodeAttrsView) -> bool {
    match result {
        Some(emission) => emission.state.break_label == state.break_label,
        None => true,
    }
}

proof fn lemma_each(nodes: Seq<Ast>, from: int, state: CodeAttrsView)
    ensures
        keeps_target(generate_each(nodes, from, state), state),
    decreases nodes, nodes.len() - from,
{
    if 0 <= from < nodes.len() {
        lemma_break_target(nodes[from], state);
        match generate(nodes[from], state) {
            Some(first) => lemma_each(nodes, from + 1, first.state),
            None => {},
        }
    }
}

proof fn lemma_dimensions(nodes: Seq<Ast>, from: int, size: Seq<char>, state: CodeAttrsView)
    ensures
        keeps_target(generate_dimensions(nodes, from, size, state), state),
    decreases nodes, nodes.len() - from,
{
    if 0 <= from < nodes.len() {
        lemma_break_target(nodes[from], state);
        match generate(nodes[from], state) {
            Some(first) => lemma_dimensions(nodes, from + 1, size, first.state.emit(scale(size, first.text))),
            None => {},
        }
    }
}

proof fn lemma_bounds(nodes: Seq<Ast>, from: int, state: CodeAttrsView)
    ensures
        keeps_target(generate_bounds(nodes, from, state), state),
    decreases nodes, nodes.len() - from,
{
    if 0 <= from < nodes.len() {
        lemma_break_target(nodes[from], state.emit("["@));
        match generate(nodes[from], state.emit("["@)) {
            Some(first) => lemma_bounds(nodes, from + 1, first.state.emit("]"@)),
            None => {},
        }
    }
}

proof fn lemma_arguments(nodes: Seq<Ast>, from: int, state: CodeAttrsView)
    ensures
        keeps_target(generate_arguments(nodes, from, state), state),
    decreases nodes, nodes.len() - from,
{
    if 0 <= from < nodes.len() {
        lemma_break_target(nodes[from], state.emit("param "@));
        match generate(nodes[from], state.emit("param "@)) {
            Some(first) => lemma_arguments(nodes, from + 1, first.state.emit("\n"@)),
            None => {},
        }
    }
}

proof fn lemma_statements(nodes: Seq<Ast>, from: int, last: Seq<char>, state: CodeAttrsView)
    ensures
        keeps_target(generate_statements(nodes, from, last, state), state),
    decreases nodes, nodes.len() - from,
{
    if 0 <= from < nodes.len() {
        lemma_break_target(nodes[from], state);
        match generate(nodes[from], state) {
            Some(first) => lemma_statements(nodes, from + 1, first.text, first.state),
            None => {},
        }
    }
}

proof fn lemma_indices(nodes: Seq<Ast>, from: int, output: Seq<char>, state: CodeAttrsView)
    ensures
        keeps_target(generate_indices(nodes, from, output, state), state),
    decreases nodes, nodes.len() - from,
{
    if 0 <= from < nodes.len() {
        lemma_break_target(nodes[from], state);
        match generate(nodes[from], state) {
            Some(first) => lemma_indices(nodes, from + 1, output + "["@ + first.text + "]"@, first.state),
            None => {},
        }
    }
}

proof fn lemma_allocexpression(node: Ast, state: CodeAttrsView)
    ensures
        keeps_target(generate_allocexpression(node, state), state),
    decreases node, 0nat,
{
    match node {
        Ast::Allocexpression { var_type, dimensions } => match *dimensions {
            Ast::VarIndex { index } => match fresh_temp(state) {
                Some(size) => {
                    let begun = size.state.emit(assign(size.text, "1"@));
                    lemma_dimensions(index, 0, size.text, begun);
                    match generate_dimensions(index, 0, size.text, begun) {
                        Some(sized) => lemma_break_target(*var_type, sized.state),
                        None => {},
                    }
                },
                None => {},
            },
            _ => {},
        },
        _ => {},
    }
}

proof fn lemma_atribstat(node: Ast, state: CodeAttrsView)
    ensures
        keeps_target(generate_atribstat(node, state), state),
    decreases node, 0nat,
{
    match node {
        Ast::Atribstat { lvalue, value } => {
            lemma_break_target(*lvalue, state);
            match generate(*lvalue, state) {
                Some(target) => lemma_break_target(*value, target.state),
                None => {},
            }
        },
        _ => {},
    }
}

proof fn lemma_expression(node: Ast, state: CodeAttrsView)
    ensures
        keeps_target(generate_expression(node, state), state),
    decreases node, 0nat,
{
    match node {
        Ast::Expression { numexpression, op_expression, numexpression2 } => {
            lemma_break_target(*numexpression, state);
            match generate(*numexpression, state) {
                Some(left) => match numexpression2 {
                    Some(numexpression2) => {
                        lemma_break_target(*numexpression2, left.state);
                        match generate(*numexpression2, left.state) {
                            Some(right) => match op_expression {
                                Some(op_expression) => lemma_break_target(
                                    *op_expression,
                                    right.state.emit(operation_head(left.text)),
                                ),
                                None => {},
                            },
                            None => {},
                        }
                    },
                    None => {},
                },
                None => {},
            }
        },
        _ => {},
    }
}

proof fn lemma_numexpression(node: Ast, state: CodeAttrsView)
    ensures
        keeps_target(generate_numexpression(node, state), state),
    decreases node, 0nat,
{
    match node {
        Ast::Numexpression { term, op_numexpression, term2 } => {
            lemma_break_target(*term, state);
            match generate(*term, state) {
                Some(left) => match term2 {
                    Some(term2) => {
                        lemma_break_target(*term2, left.state);
                        match generate(*term2, left.state) {
                            Some(right) => match op_numexpression {
                                Some(op_numexpression) => lemma_break_target(
                                    *op_numexpression,
                                    right.state.emit(operation_head(left.text)),
                                ),
                                None => {},
                            },
                            None => {},
                        }
                    },
                    None => {},
                },
                None => {},
            }
        },
        _ => {},
    }
}

proof fn lemma_term(node: Ast, state: CodeAttrsView)
    ensures
        keeps_target(generate_term(node, state), state),
    decreases node, 0nat,
{
    match node {
        Ast::Term { unaryexpression, op_term, unaryexpression2 } => {
            lemma_break_target(*unaryexpression, state);
            match generate(*unaryexpression, state) {
                Some(left) => match unaryexpression2 {
                    Some(unaryexpression2) => {
                        lemma_break_target(*unaryexpression2, left.state);
                        match generate(*unaryexpression2, left.state) {
                            Some(right) => match op_term {
                                Some(op_term) => lemma_break_target(
                                    *op_term,
                                    right.state.emit(operation_head(left.text)),
                                ),
                                None => {},
                            },
                            None => {},
                        }
                    },
                    None => {},
                },
                None => {},
            }
        },
        _ => {},
    }
}

proof fn lemma_factor(node: Ast, state: CodeAttrsView)
    ensures
        keeps_target(generate_factor(node, state), state),
    decreases node, 0nat,
{
    match node {
        Ast::Factor { expression, lvalue, constant } => match expression {
            Some(expression) => lemma_break_target(*expression, state),
            None => match lvalue {
                Some(lvalue) => lemma_break_target(*lvalue, state),
                None => match constant {
                    Some(constant) => lemma_break_target(*constant, state),
                    None => {},
                },
            },
        },
        _ => {},
    }
}

/// A loop sets the target back behind its body, whatever its parts
/// did to it.
proof fn lemma_forstat(node: Ast, state: CodeAttrsView)
    ensures
        keeps_target(generate_forstat(node, state), state),
{
}

proof fn lemma_funccall(node: Ast, state: CodeAttrsView)
    ensures
        keeps_target(generate_funccall(node, state), state),
    decreases node, 0nat,
{
    match node {
        Ast::Funccall { id, paramlistcall } => {
            let after = match paramlistcall {
                None => Some(state),
                Some(paramlistcall) => {
                    lemma_break_target(*paramlistcall, state);
                    match generate(*paramlistcall, state) {
                        Some(arguments) => Some(arguments.state),
                        None => None,
                    }
                },
            };
            match after {
                Some(after) => match fresh_temp(after) {
                    Some(temp) => lemma_break_target(*id, temp.state.emit(call_head(temp.text))),
                    None => {},
                },
                None => {},
            }
        },
        _ => {},
    }
}

proof fn lemma_funcdef(node: Ast, state: CodeAttrsView)
    ensures
        keeps_target(generate_funcdef(node, state), state),
    decreases node, 0nat,
{
    match node {
        Ast::Funcdef { func_id, paramlist, statelist } => {
            lemma_break_target(*func_id, state);
            match generate(*func_id, state) {
                Some(name) => {
                    let named = name.state.emit(":\n"@);
                    match paramlist {
                        None => lemma_break_target(*statelist, named),
                        Some(paramlist) => {
                            lemma_break_target(*paramlist, named);
                            match generate(*paramlist, named) {
                                Some(parameters) => lemma_break_target(
                                    *statelist,
                                    parameters.state,
                                ),
                                None => {},
                            }
                        },
                    }
                },
                None => {},
            }
        },
        _ => {},
    }
}

proof fn lemma_ifstat(node: Ast, state: CodeAttrsView)
    ensures
        keeps_target(generate_ifstat(node, state), state),
    decreases node, 0nat,
{
    match node {
        Ast::Ifstat { condition, then_branch, else_branch } => {
            lemma_break_target(*condition, state);
            match generate(*condition, state) {
                Some(test) => match fresh_label(test.state) {
                    Some(skip) => {
                        let guarded = skip.state.emit(branch_if_zero(test.text, skip.text));
                        lemma_break_target(*then_branch, guarded);
                        match generate(*then_branch, guarded) {
                            Some(taken) => match else_branch {
                                Some(else_branch) => match fresh_label(
                                    taken.state.emit(label_line(skip.text)),
                                ) {
                                    Some(end) => lemma_break_target(
                                        *else_branch,
                                        end.state.emit(branch_if(test.text, end.text)),
                                    ),
                                    None => {},
                                },
                                None => {},
                            },
                            None => {},
                        }
                    },
                    None => {},
                },
                None => {},
            }
        },
        _ => {},
    }
}

proof fn lemma_lvalue(node: Ast, state: CodeAttrsView)
    ensures
        keeps_target(generate_lvalue(node, state), state),
    decreases node, 0nat,
{
    match node {
        Ast::Lvalue { id, var_index } => match var_index {
            Some(var_index) => lemma_break_target(*var_index, state),
            None => {},
        },
        _ => {},
    }
}

proof fn lemma_statement(node: Ast, state: CodeAttrsView)
    ensures
        keeps_target(generate_statement(node, state), state),
    decreases node, 0nat,
{
    match node {
        Ast::Statement { vardecl, atribstat, ifstat, forstat, statelist, commandstat } => {
            match vardecl {
                Some(vardecl) => lemma_break_target(*vardecl, state),
                None => match atribstat {
                    Some(atribstat) => lemma_break_target(*atribstat, state),
                    None => match ifstat {
                        Some(ifstat) => lemma_break_target(*ifstat, state),
                        None => match forstat {
                            Some(forstat) => lemma_break_target(*forstat, state),
                            None => match statelist {
                                Some(statelist) => lemma_break_target(*statelist, state),
                                None => match commandstat {
                                    Some(commandstat) => lemma_break_target(*commandstat, state),
                                    None => {},
                                },
                            },
                        },
                    },
                },
            }
        },
        _ => {},
    }
}

proof fn lemma_unaryexpression(node: Ast, state: CodeAttrsView)
    ensures
        keeps_target(generate_unaryexpression(node, state), state),
    decreases node, 0nat,
{
    match node {
        Ast::Unaryexpression { op, factor } => {
            lemma_break_target(*factor, state);
            match generate(*factor, state) {
                Some(value) => match op {
                    Some(op) => match fresh_temp(value.state) {
                        Some(temp) => lemma_break_target(
                            *op,
                            temp.state.emit(unary_head(temp.text)),
                        ),
                        None => {},
                    },
                    None => {},
                },
                None => {},
            }
        },
        _ => {},
    }
}

/// The target of `break` is kept: after the code of any tree, generated
/// in any state, a `break` jumps to the label to which it jumped
/// before. A loop is no exception: in its body a `break` jumps to the
/// end of the loop, and behind it to where it jumped before the loop.
pub proof fn lemma_break_target(node: Ast, state: CodeAttrsView)
    ensures
        keeps_target(generate(node, state), state),
    decreases node, 1nat,
{
    match node {
        Ast::Allocexpression { .. } => lemma_allocexpression(node, state),
        Ast::Atribstat { .. } => lemma_atribstat(node, state),
        Ast::Atribstatevalue { expression, allocexpression, funccall } => match expression {
            Some(expression) => lemma_break_target(*expression, state),
            None => match allocexpression {
                Some(allocexpression) => lemma_break_target(*allocexpression, state),
                None => match funccall {
                    Some(funccall) => lemma_break_target(*funccall, state),
                    None => {},
                },
            },
        },
        Ast::ConstIndex { index } => lemma_bounds(index, 0, state),
        Ast::Elsestat { statement } => lemma_break_target(*statement, state),
        Ast::Expression { .. } => lemma_expression(node, state),
        Ast::Factor { .. } => lemma_factor(node, state),
        Ast::Forstat { .. } => lemma_forstat(node, state),
        Ast::Funccall { .. } => lemma_funccall(node, state),
        Ast::Funcdef { .. } => lemma_funcdef(node, state),
        Ast::Funclist { funclist } => lemma_each(funclist, 0, state),
        Ast::Ifstat { .. } => lemma_ifstat(node, state),
        Ast::Lvalue { .. } => lemma_lvalue(node, state),
        Ast::Numexpression { .. } => lemma_numexpression(node, state),
        Ast::Paramlistcall { paramlist } => lemma_arguments(paramlist, 0, state),
        Ast::Printstat { expression } => lemma_break_target(*expression, state),
        Ast::Program { funclist, statement } => match funclist {
            Some(funclist) => lemma_break_target(*funclist, state),
            None => match statement {
                Some(statement) => lemma_break_target(*statement, state),
                None => {},
            },
        },
        Ast::Readstat { lvalue } => lemma_break_target(*lvalue, state),
        Ast::Statelist { statelist } => lemma_statements(statelist, 0, Seq::empty(), state),
        Ast::Statement { .. } => lemma_statement(node, state),
        Ast::Term { .. } => lemma_term(node, state),
        Ast::Unaryexpression { .. } => lemma_unaryexpression(node, state),
        Ast::VarIndex { index } => lemma_indices(index, 0, Seq::empty(), state),
        _ => {},
    }
}

/// A `break` behind the code of any tree jumps where a `break` before
/// that code would have jumped: behind a loop, to the end of the loop
/// around it and not to the end of the loop that was just left.
pub proof fn lemma_break_behind(node: Ast, token: TokenView, state: CodeAttrsView)
    requires
        token.token_type == TokenType::KwBreak,
    ensures
        match generate(node, state) {
            Some(before) => generate(Ast::Terminal { value: token }, before.state) == Some(
                Emission {
                    text: Seq::empty(),
                    state: before.state.emit(goto_line(state.break_label)),
                },
            ),
            None => true,
        },
{
    lemma_break_target(node, state);
}

} // verus!
