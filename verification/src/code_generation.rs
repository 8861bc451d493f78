//! Code generation: three-address code from the abstract syntax tree.
//!
//! Every node leaves its code in the state and hands up the text that
//! holds its result: the name of a temporary, or the text of an
//! l-value. A generation gives no code for a tree that no parse tree
//! gives, nor when a counter is used up.

use vstd::prelude::*;
use vstd::string::*;
use crate::code_attrs::{counter_limit, CodeAttrs, CodeAttrsView};
use crate::grammar::semantic_node::{Ast, SemanticNodeData};
use crate::grammar::token_type::TokenType;
use crate::semantic::{SemanticNode, SemanticTree};
use crate::text::{append_decimal, decimal};

verus! {

/// `dst = src`: a copy.
pub open spec fn assign(dst: Seq<char>, src: Seq<char>) -> Seq<char> {
    dst + " = "@ + src + "\n"@
}

fn emit_assign(inh: &mut CodeAttrs, dst: &str, src: &str)
    ensures
        final(inh)@ == old(inh)@.emit(assign(dst@, src@)),
{
    let mut line = String::new();
    line.append(dst);
    line.append(" = ");
    line.append(src);
    line.append("\n");
    assert(line@ =~= assign(dst@, src@));
    inh.emit(line.as_str());
}

/// `dst = dst * factor`: one more factor of a size.
pub open spec fn scale(dst: Seq<char>, factor: Seq<char>) -> Seq<char> {
    dst + " = "@ + dst + " * "@ + factor + "\n"@
}

fn emit_scale(inh: &mut CodeAttrs, dst: &str, factor: &str)
    ensures
        final(inh)@ == old(inh)@.emit(scale(dst@, factor@)),
{
    let mut line = String::new();
    line.append(dst);
    line.append(" = ");
    line.append(dst);
    line.append(" * ");
    line.append(factor);
    line.append("\n");
    assert(line@ =~= scale(dst@, factor@));
    inh.emit(line.as_str());
}

/// `param value`: an argument of the call that follows.
pub open spec fn param(value: Seq<char>) -> Seq<char> {
    "param "@ + value + "\n"@
}

fn emit_param(inh: &mut CodeAttrs, value: &str)
    ensures
        final(inh)@ == old(inh)@.emit(param(value@)),
{
    let mut line = String::new();
    line.append("param ");
    line.append(value);
    line.append("\n");
    assert(line@ =~= param(value@));
    inh.emit(line.as_str());
}

/// `label:`: the place that jumps to `label` go to.
pub open spec fn label_line(label: Seq<char>) -> Seq<char> {
    label + ":\n"@
}

fn emit_label_line(inh: &mut CodeAttrs, label: &str)
    ensures
        final(inh)@ == old(inh)@.emit(label_line(label@)),
{
    let mut line = String::new();
    line.append(label);
    line.append(":\n");
    assert(line@ =~= label_line(label@));
    inh.emit(line.as_str());
}

/// `goto label`: a jump.
pub open spec fn goto_line(label: Seq<char>) -> Seq<char> {
    "goto "@ + label + "\n"@
}

fn emit_goto_line(inh: &mut CodeAttrs, label: &str)
    ensures
        final(inh)@ == old(inh)@.emit(goto_line(label@)),
{
    let mut line = String::new();
    line.append("goto ");
    line.append(label);
    line.append("\n");
    assert(line@ =~= goto_line(label@));
    inh.emit(line.as_str());
}

/// `if condition == 0 goto label`: a jump taken where the condition does not hold.
pub open spec fn branch_if_zero(condition: Seq<char>, label: Seq<char>) -> Seq<char> {
    "if "@ + condition + " == 0 goto "@ + label + "\n"@
}

fn emit_branch_if_zero(inh: &mut CodeAttrs, condition: &str, label: &str)
    ensures
        final(inh)@ == old(inh)@.emit(branch_if_zero(condition@, label@)),
{
    let mut line = String::new();
    line.append("if ");
    line.append(condition);
    line.append(" == 0 goto ");
    line.append(label);
    line.append("\n");
    assert(line@ =~= branch_if_zero(condition@, label@));
    inh.emit(line.as_str());
}

/// `if condition goto label`: a jump taken where the condition holds.
pub open spec fn branch_if(condition: Seq<char>, label: Seq<char>) -> Seq<char> {
    "if "@ + condition + " goto "@ + label + "\n"@
}

fn emit_branch_if(inh: &mut CodeAttrs, condition: &str, label: &str)
    ensures
        final(inh)@ == old(inh)@.emit(branch_if(condition@, label@)),
{
    let mut line = String::new();
    line.append("if ");
    line.append(condition);
    line.append(" goto ");
    line.append(label);
    line.append("\n");
    assert(line@ =~= branch_if(condition@, label@));
    inh.emit(line.as_str());
}

/// `left = left `: the start of an operation that keeps its result in its
/// left operand; the operator comes next.
pub open spec fn operation_head(left: Seq<char>) -> Seq<char> {
    left + " = "@ + left + " "@
}

fn emit_operation_head(inh: &mut CodeAttrs, left: &str)
    ensures
        final(inh)@ == old(inh)@.emit(operation_head(left@)),
{
    let mut line = String::new();
    line.append(left);
    line.append(" = ");
    line.append(left);
    line.append(" ");
    assert(line@ =~= operation_head(left@));
    inh.emit(line.as_str());
}

/// ` right`: the right operand, which ends an operation.
pub open spec fn operation_tail(right: Seq<char>) -> Seq<char> {
    " "@ + right + "\n"@
}

fn emit_operation_tail(inh: &mut CodeAttrs, right: &str)
    ensures
        final(inh)@ == old(inh)@.emit(operation_tail(right@)),
{
    let mut line = String::new();
    line.append(" ");
    line.append(right);
    line.append("\n");
    assert(line@ =~= operation_tail(right@));
    inh.emit(line.as_str());
}

/// `dst = `: the start of a signed value; the sign comes next.
pub open spec fn unary_head(dst: Seq<char>) -> Seq<char> {
    dst + " = "@
}

fn emit_unary_head(inh: &mut CodeAttrs, dst: &str)
    ensures
        final(inh)@ == old(inh)@.emit(unary_head(dst@)),
{
    let mut line = String::new();
    line.append(dst);
    line.append(" = ");
    assert(line@ =~= unary_head(dst@));
    inh.emit(line.as_str());
}

/// `dst = call `: the start of a call; the name of the function comes next.
pub open spec fn call_head(dst: Seq<char>) -> Seq<char> {
    dst + " = call "@
}

fn emit_call_head(inh: &mut CodeAttrs, dst: &str)
    ensures
        final(inh)@ == old(inh)@.emit(call_head(dst@)),
{
    let mut line = String::new();
    line.append(dst);
    line.append(" = call ");
    assert(line@ =~= call_head(dst@));
    inh.emit(line.as_str());
}

/// `dst = call alloc, 2`: the allocation of an array.
pub open spec fn alloc_call(dst: Seq<char>) -> Seq<char> {
    dst + " = call alloc, 2\n"@
}

fn emit_alloc_call(inh: &mut CodeAttrs, dst: &str)
    ensures
        final(inh)@ == old(inh)@.emit(alloc_call(dst@)),
{
    let mut line = String::new();
    line.append(dst);
    line.append(" = call alloc, 2\n");
    assert(line@ =~= alloc_call(dst@));
    inh.emit(line.as_str());
}

/// `dst = call read, 0`: the reading of a value.
pub open spec fn read_call(dst: Seq<char>) -> Seq<char> {
    dst + " = call read, 0\n"@
}

fn emit_read_call(inh: &mut CodeAttrs, dst: &str)
    ensures
        final(inh)@ == old(inh)@.emit(read_call(dst@)),
{
    let mut line = String::new();
    line.append(dst);
    line.append(" = call read, 0\n");
    assert(line@ =~= read_call(dst@));
    inh.emit(line.as_str());
}

/// `, count`: the number of arguments, which ends a call.
pub open spec fn call_tail(count: nat) -> Seq<char> {
    ", "@ + decimal(count) + "\n"@
}

fn emit_call_tail(inh: &mut CodeAttrs, count: usize)
    ensures
        final(inh)@ == old(inh)@.emit(call_tail(count as nat)),
{
    let mut line = String::new();
    line.append(", ");
    append_decimal(&mut line, count as u64);
    line.append("\n");
    assert(line@ =~= call_tail(count as nat));
    inh.emit(line.as_str());
}

/// What a node gives: the text that holds its result, and the state
/// with the code of the node.
pub struct Emission {
    pub text: Seq<char>,
    pub state: CodeAttrsView,
}

/// A new temporary, if the counter allows one more.
pub open spec fn fresh_temp(state: CodeAttrsView) -> Option<Emission> {
    if state.register_counter < counter_limit() {
        Some(Emission { text: state.next_temp(), state: state.with_temp() })
    } else {
        None
    }
}

/// A new label, if the counter allows one more.
pub open spec fn fresh_label(state: CodeAttrsView) -> Option<Emission> {
    if state.label_counter < counter_limit() {
        Some(Emission { text: state.next_label(), state: state.with_label() })
    } else {
        None
    }
}

/// The code of a node, generated in the state `state`.
pub open spec fn generate(node: Ast, state: CodeAttrsView) -> Option<Emission>
    decreases node, 1nat,
{
    match node {
        Ast::Allocexpression { .. } => generate_allocexpression(node, state),
        Ast::Atribstat { .. } => generate_atribstat(node, state),
        Ast::Atribstatevalue { expression, allocexpression, funccall } => match expression {
            Some(expression) => generate(*expression, state),
            None => match allocexpression {
                Some(allocexpression) => generate(*allocexpression, state),
                None => match funccall {
                    Some(funccall) => generate(*funccall, state),
                    None => None,
                },
            },
        },
        Ast::Constant { value, .. } => match fresh_temp(state) {
            Some(temp) => Some(
                Emission {
                    text: temp.text,
                    state: temp.state.emit(assign(temp.text, value.code_text())),
                },
            ),
            None => None,
        },
        Ast::ConstIndex { index } => generate_bounds(index, 0, state),
        Ast::Elsestat { statement } => generate(*statement, state),
        Ast::Expression { .. } => generate_expression(node, state),
        Ast::Factor { .. } => generate_factor(node, state),
        Ast::Forstat { .. } => generate_forstat(node, state),
        Ast::Funccall { .. } => generate_funccall(node, state),
        Ast::Funcdef { .. } => generate_funcdef(node, state),
        Ast::Funclist { funclist } => generate_each(funclist, 0, state),
        Ast::Ifstat { .. } => generate_ifstat(node, state),
        Ast::Lvalue { .. } => generate_lvalue(node, state),
        Ast::Numexpression { .. } => generate_numexpression(node, state),
        Ast::OpExpression { op } => generate_operator(op, state),
        Ast::OpNumexpression { op } => generate_operator(op, state),
        Ast::OpTerm { op } => generate_operator(op, state),
        Ast::Paramlist { .. } => Some(Emission { text: Seq::empty(), state }),
        Ast::Paramlistcall { paramlist } => generate_arguments(paramlist, 0, state),
        Ast::Printstat { expression } => match generate(*expression, state) {
            Some(value) => Some(
                Emission {
                    text: value.text,
                    state: value.state.emit(param(value.text)).emit("call print, 1\n"@),
                },
            ),
            None => None,
        },
        Ast::Program { funclist, statement } => match funclist {
            Some(funclist) => generate(*funclist, state),
            None => match statement {
                Some(statement) => generate(*statement, state),
                None => None,
            },
        },
        Ast::Readstat { lvalue } => match generate(*lvalue, state) {
            Some(target) => Some(
                Emission { text: target.text, state: target.state.emit(read_call(target.text)) },
            ),
            None => None,
        },
        Ast::Returnstat { .. } => Some(
            Emission { text: Seq::empty(), state: state.emit("return\n"@) },
        ),
        Ast::Statelist { statelist } => generate_statements(statelist, 0, Seq::empty(), state),
        Ast::Statement { .. } => generate_statement(node, state),
        Ast::Term { .. } => generate_term(node, state),
        Ast::Unaryexpression { .. } => generate_unaryexpression(node, state),
        Ast::Vardecl { .. } => Some(Emission { text: Seq::empty(), state }),
        Ast::VarIndex { index } => generate_indices(index, 0, Seq::empty(), state),
        Ast::Terminal { .. } => generate_terminal(node, state),
    }
}

/// An allocation computes the product of its dimensions into a
/// temporary that starts at 1, and calls `alloc` with the type and the
/// product. Its result is a second temporary.
pub open spec fn generate_allocexpression(node: Ast, state: CodeAttrsView) -> Option<Emission>
    decreases node, 0nat,
{
    match node {
        Ast::Allocexpression { var_type, dimensions } => match *dimensions {
            Ast::VarIndex { index } => match fresh_temp(state) {
                Some(size) => match generate_dimensions(
                    index,
                    0,
                    size.text,
                    size.state.emit(assign(size.text, "1"@)),
                ) {
                    Some(sized) => match generate(*var_type, sized.state) {
                        Some(unit) => match fresh_temp(unit.state.emit(param(unit.text))) {
                            Some(result) => Some(
                                Emission {
                                    text: result.text,
                                    state: result.state.emit(param(size.text)).emit(
                                        alloc_call(result.text),
                                    ),
                                },
                            ),
                            None => None,
                        },
                        None => None,
                    },
                    None => None,
                },
                None => None,
            },
            _ => None,
        },
        _ => None,
    }
}

/// The dimensions of an allocation from the one at `from` on: each is
/// computed and multiplied into `size`.
pub open spec fn generate_dimensions(
    index: Seq<Ast>,
    from: int,
    size: Seq<char>,
    state: CodeAttrsView,
) -> Option<Emission>
    decreases index, index.len() - from,
{
    if 0 <= from < index.len() {
        match generate(index[from], state) {
            Some(factor) => generate_dimensions(
                index,
                from + 1,
                size,
                factor.state.emit(scale(size, factor.text)),
            ),
            None => None,
        }
    } else {
        Some(Emission { text: size, state })
    }
}

/// An assignment computes its target, then its value, and copies the
/// value to the target. Its result is the target.
pub open spec fn generate_atribstat(node: Ast, state: CodeAttrsView) -> Option<Emission>
    decreases node, 0nat,
{
    match node {
        Ast::Atribstat { lvalue, value } => match generate(*lvalue, state) {
            Some(target) => match generate(*value, target.state) {
                Some(source) => Some(
                    Emission {
                        text: target.text,
                        state: source.state.emit(assign(target.text, source.text)),
                    },
                ),
                None => None,
            },
            None => None,
        },
        _ => None,
    }
}

/// The bounds of a declaration from the one at `from` on, each between
/// brackets.
pub open spec fn generate_bounds(index: Seq<Ast>, from: int, state: CodeAttrsView) -> Option<
    Emission,
>
    decreases index, index.len() - from,
{
    if 0 <= from < index.len() {
        match generate(index[from], state.emit("["@)) {
            Some(bound) => generate_bounds(index, from + 1, bound.state.emit("]"@)),
            None => None,
        }
    } else {
        Some(Emission { text: Seq::empty(), state })
    }
}

/// A comparison computes its two sides and keeps the outcome in the
/// temporary of its left side. An expression without both an operator
/// and a right side is its left side alone.
pub open spec fn generate_expression(node: Ast, state: CodeAttrsView) -> Option<Emission>
    decreases node, 0nat,
{
    match node {
        Ast::Expression { numexpression, op_expression, numexpression2 } => match generate(
            *numexpression,
            state,
        ) {
            Some(left) => match numexpression2 {
                Some(numexpression2) => match op_expression {
                    Some(op_expression) => match generate(*numexpression2, left.state) {
                        Some(right) => match generate(
                            *op_expression,
                            right.state.emit(operation_head(left.text)),
                        ) {
                            Some(operator) => Some(
                                Emission {
                                    text: left.text,
                                    state: operator.state.emit(operation_tail(right.text)),
                                },
                            ),
                            None => None,
                        },
                        None => None,
                    },
                    None => Some(left),
                },
                None => Some(left),
            },
            None => None,
        },
        _ => None,
    }
}

/// A parenthesised expression and a constant are what they hold; an
/// l-value is copied to a new temporary.
pub open spec fn generate_factor(node: Ast, state: CodeAttrsView) -> Option<Emission>
    decreases node, 0nat,
{
    match node {
        Ast::Factor { expression, lvalue, constant } => match expression {
            Some(expression) => generate(*expression, state),
            None => match lvalue {
                Some(lvalue) => match generate(*lvalue, state) {
                    Some(source) => match fresh_temp(source.state) {
                        Some(temp) => Some(
                            Emission {
                                text: temp.text,
                                state: temp.state.emit(assign(temp.text, source.text)),
                            },
                        ),
                        None => None,
                    },
                    None => None,
                },
                None => match constant {
                    Some(constant) => generate(*constant, state),
                    None => None,
                },
            },
        },
        _ => None,
    }
}

/// A loop: the initialisation, the label of the start, the condition,
/// a jump behind the loop where the condition does not hold, the body,
/// the increment, a jump to the start, and the label behind the loop.
/// A `break` in the body jumps to that last label. Behind the loop a
/// `break` jumps where it did before the loop: to the end of the loop
/// that encloses this one. The result is the condition.
pub open spec fn generate_forstat(node: Ast, state: CodeAttrsView) -> Option<Emission>
    decreases node, 0nat,
{
    match node {
        Ast::Forstat { init, condition, increment, body } => match fresh_label(state) {
            Some(start) => match generate(*init, start.state) {
                Some(first) => match generate(
                    *condition,
                    first.state.emit(label_line(start.text)),
                ) {
                    Some(test) => match fresh_label(test.state) {
                        Some(end) => match generate(
                            *body,
                            end.state.emit(branch_if_zero(test.text, end.text)).with_scope_end(
                                end.text,
                            ),
                        ) {
                            Some(inner) => match generate(*increment, inner.state) {
                                Some(step) => Some(
                                    Emission {
                                        text: test.text,
                                        state: step.state.emit(goto_line(start.text)).emit(
                                            label_line(end.text),
                                        ).with_scope_end(state.break_label),
                                    },
                                ),
                                None => None,
                            },
                            None => None,
                        },
                        None => None,
                    },
                    None => None,
                },
                None => None,
            },
            None => None,
        },
        _ => None,
    }
}

/// A call: one `param` line for each argument, then the call with the
/// name of the function and the number of arguments. Its result is a
/// new temporary.
pub open spec fn generate_funccall(node: Ast, state: CodeAttrsView) -> Option<Emission>
    decreases node, 0nat,
{
    match node {
        Ast::Funccall { id, paramlistcall } => {
            let passed = match paramlistcall {
                None => Some((0nat, state)),
                Some(paramlistcall) => match *paramlistcall {
                    Ast::Paramlistcall { paramlist } => match generate(*paramlistcall, state) {
                        Some(arguments) => Some((paramlist.len(), arguments.state)),
                        None => None,
                    },
                    _ => None,
                },
            };
            match passed {
                Some((count, after)) => match fresh_temp(after) {
                    Some(temp) => match generate(*id, temp.state.emit(call_head(temp.text))) {
                        Some(name) => Some(
                            Emission { text: temp.text, state: name.state.emit(call_tail(count)) },
                        ),
                        None => None,
                    },
                    None => None,
                },
                None => None,
            }
        },
        _ => None,
    }
}

/// A function definition: the name of the function as a label, then
/// the body. The parameters give no code.
pub open spec fn generate_funcdef(node: Ast, state: CodeAttrsView) -> Option<Emission>
    decreases node, 0nat,
{
    match node {
        Ast::Funcdef { func_id, paramlist, statelist } => match generate(*func_id, state) {
            Some(name) => match paramlist {
                None => generate(*statelist, name.state.emit(":\n"@)),
                Some(paramlist) => match generate(*paramlist, name.state.emit(":\n"@)) {
                    Some(parameters) => generate(*statelist, parameters.state),
                    None => None,
                },
            },
            None => None,
        },
        _ => None,
    }
}

/// The nodes of `nodes` from the one at `from` on, one after the other.
pub open spec fn generate_each(nodes: Seq<Ast>, from: int, state: CodeAttrsView) -> Option<Emission>
    decreases nodes, nodes.len() - from,
{
    if 0 <= from < nodes.len() {
        match generate(nodes[from], state) {
            Some(first) => generate_each(nodes, from + 1, first.state),
            None => None,
        }
    } else {
        Some(Emission { text: Seq::empty(), state })
    }
}

/// A conditional: the condition, a jump behind the then-branch where
/// the condition does not hold, the then-branch and its label; with an
/// else-branch, a jump behind it where the condition holds, the
/// else-branch and its label. The result is the condition.
pub open spec fn generate_ifstat(node: Ast, state: CodeAttrsView) -> Option<Emission>
    decreases node, 0nat,
{
    match node {
        Ast::Ifstat { condition, then_branch, else_branch } => match generate(*condition, state) {
            Some(test) => match fresh_label(test.state) {
                Some(skip) => match generate(
                    *then_branch,
                    skip.state.emit(branch_if_zero(test.text, skip.text)),
                ) {
                    Some(taken) => match else_branch {
                        None => Some(
                            Emission {
                                text: test.text,
                                state: taken.state.emit(label_line(skip.text)),
                            },
                        ),
                        Some(else_branch) => match fresh_label(
                            taken.state.emit(label_line(skip.text)),
                        ) {
                            Some(end) => match generate(
                                *else_branch,
                                end.state.emit(branch_if(test.text, end.text)),
                            ) {
                                Some(other) => Some(
                                    Emission {
                                        text: test.text,
                                        state: other.state.emit(label_line(end.text)),
                                    },
                                ),
                                None => None,
                            },
                            None => None,
                        },
                    },
                    None => None,
                },
                None => None,
            },
            None => None,
        },
        _ => None,
    }
}

/// An l-value gives no code but that of its indices. Its result is its
/// name, followed by its indices.
pub open spec fn generate_lvalue(node: Ast, state: CodeAttrsView) -> Option<Emission>
    decreases node, 0nat,
{
    match node {
        Ast::Lvalue { id, var_index } => match *id {
            Ast::Terminal { value } => match value.value {
                Some(name) => match var_index {
                    None => Some(Emission { text: name.code_text(), state }),
                    Some(var_index) => match generate(*var_index, state) {
                        Some(indices) => Some(
                            Emission {
                                text: name.code_text() + indices.text,
                                state: indices.state,
                            },
                        ),
                        None => None,
                    },
                },
                None => None,
            },
            _ => None,
        },
        _ => None,
    }
}

/// A sum or difference computes its two operands and keeps the outcome
/// in the temporary of the left one.
pub open spec fn generate_numexpression(node: Ast, state: CodeAttrsView) -> Option<Emission>
    decreases node, 0nat,
{
    match node {
        Ast::Numexpression { term, op_numexpression, term2 } => match generate(*term, state) {
            Some(left) => match term2 {
                None => Some(left),
                Some(term2) => match generate(*term2, left.state) {
                    Some(right) => match op_numexpression {
                        None => Some(Emission { text: left.text, state: right.state }),
                        Some(op_numexpression) => match generate(
                            *op_numexpression,
                            right.state.emit(operation_head(left.text)),
                        ) {
                            Some(operator) => Some(
                                Emission {
                                    text: left.text,
                                    state: operator.state.emit(operation_tail(right.text)),
                                },
                            ),
                            None => None,
                        },
                    },
                    None => None,
                },
            },
            None => None,
        },
        _ => None,
    }
}

/// A product, quotient or remainder computes its two operands and
/// keeps the outcome in the temporary of the left one.
pub open spec fn generate_term(node: Ast, state: CodeAttrsView) -> Option<Emission>
    decreases node, 0nat,
{
    match node {
        Ast::Term { unaryexpression, op_term, unaryexpression2 } => match generate(
            *unaryexpression,
            state,
        ) {
            Some(left) => match unaryexpression2 {
                None => Some(left),
                Some(unaryexpression2) => match generate(*unaryexpression2, left.state) {
                    Some(right) => match op_term {
                        None => Some(Emission { text: left.text, state: right.state }),
                        Some(op_term) => match generate(
                            *op_term,
                            right.state.emit(operation_head(left.text)),
                        ) {
                            Some(operator) => Some(
                                Emission {
                                    text: left.text,
                                    state: operator.state.emit(operation_tail(right.text)),
                                },
                            ),
                            None => None,
                        },
                    },
                    None => None,
                },
            },
            None => None,
        },
        _ => None,
    }
}

/// An operator node writes its operator.
pub open spec fn generate_operator(op: TokenType, state: CodeAttrsView) -> Option<Emission> {
    match op.operator() {
        Some(operator) => Some(
            Emission { text: operator.text(), state: state.emit(operator.text()) },
        ),
        None => None,
    }
}

/// The arguments of a call from the one at `from` on: a `param` line
/// for each.
pub open spec fn generate_arguments(arguments: Seq<Ast>, from: int, state: CodeAttrsView)
    -> Option<Emission>
    decreases arguments, arguments.len() - from,
{
    if 0 <= from < arguments.len() {
        match generate(arguments[from], state.emit("param "@)) {
            Some(argument) => generate_arguments(arguments, from + 1, argument.state.emit("\n"@)),
            None => None,
        }
    } else {
        Some(Emission { text: Seq::empty(), state })
    }
}

/// The statements of a block from the one at `from` on. The result is
/// that of the last statement, `last` where there is none left.
pub open spec fn generate_statements(
    statelist: Seq<Ast>,
    from: int,
    last: Seq<char>,
    state: CodeAttrsView,
) -> Option<Emission>
    decreases statelist, statelist.len() - from,
{
    if 0 <= from < statelist.len() {
        match generate(statelist[from], state) {
            Some(first) => generate_statements(statelist, from + 1, first.text, first.state),
            None => None,
        }
    } else {
        Some(Emission { text: last, state })
    }
}

/// A statement is the part that it holds; the empty statement gives no
/// code.
pub open spec fn generate_statement(node: Ast, state: CodeAttrsView) -> Option<Emission>
    decreases node, 0nat,
{
    match node {
        Ast::Statement { vardecl, atribstat, ifstat, forstat, statelist, commandstat } => {
            match vardecl {
                Some(vardecl) => generate(*vardecl, state),
                None => match atribstat {
                    Some(atribstat) => generate(*atribstat, state),
                    None => match ifstat {
                        Some(ifstat) => generate(*ifstat, state),
                        None => match forstat {
                            Some(forstat) => generate(*forstat, state),
                            None => match statelist {
                                Some(statelist) => generate(*statelist, state),
                                None => match commandstat {
                                    Some(commandstat) => generate(*commandstat, state),
                                    None => Some(Emission { text: Seq::empty(), state }),
                                },
                            },
                        },
                    },
                },
            }
        },
        _ => None,
    }
}

/// A factor without a sign is the factor; with a sign, the signed
/// value goes to a new temporary.
pub open spec fn generate_unaryexpression(node: Ast, state: CodeAttrsView) -> Option<Emission>
    decreases node, 0nat,
{
    match node {
        Ast::Unaryexpression { op, factor } => match generate(*factor, state) {
            Some(value) => match op {
                None => Some(value),
                Some(op) => match fresh_temp(value.state) {
                    Some(temp) => match generate(*op, temp.state.emit(unary_head(temp.text))) {
                        Some(sign) => Some(
                            Emission {
                                text: temp.text,
                                state: sign.state.emit(operation_tail(value.text)),
                            },
                        ),
                        None => None,
                    },
                    None => None,
                },
            },
            None => None,
        },
        _ => None,
    }
}

/// The index expressions from the one at `from` on: each is computed,
/// and the result is `output` followed by the temporary of each
/// between brackets.
pub open spec fn generate_indices(
    index: Seq<Ast>,
    from: int,
    output: Seq<char>,
    state: CodeAttrsView,
) -> Option<Emission>
    decreases index, index.len() - from,
{
    if 0 <= from < index.len() {
        match generate(index[from], state) {
            Some(first) => generate_indices(
                index,
                from + 1,
                output + "["@ + first.text + "]"@,
                first.state,
            ),
            None => None,
        }
    } else {
        Some(Emission { text: output, state })
    }
}

/// A token: an identifier writes its name, a literal its value and a
/// line end, the null literal a zero, an operator itself and a blank,
/// `break` a jump behind the loop entered last. A type keyword writes
/// nothing and results in the name of its type. No other token can be
/// generated.
pub open spec fn generate_terminal(node: Ast, state: CodeAttrsView) -> Option<Emission> {
    match node {
        Ast::Terminal { value } => match value.token_type {
            TokenType::Id | TokenType::FuncId => match value.value {
                Some(name) => Some(
                    Emission { text: name.code_text(), state: state.emit(name.code_text()) },
                ),
                None => None,
            },
            TokenType::ConstInt | TokenType::ConstFloat | TokenType::ConstString => match value.value {
                Some(literal) => Some(
                    Emission {
                        text: literal.code_text() + "\n"@,
                        state: state.emit(literal.code_text() + "\n"@),
                    },
                ),
                None => None,
            },
            TokenType::ConstNull => Some(Emission { text: "0"@, state: state.emit("0\n"@) }),
            TokenType::VarType => match value.var_type() {
                Some(var_type) => Some(Emission { text: var_type.variant_name(), state }),
                None => None,
            },
            TokenType::KwBreak => Some(
                Emission { text: Seq::empty(), state: state.emit(goto_line(state.break_label)) },
            ),
            _ => match value.token_type.operator() {
                Some(operator) => Some(
                    Emission {
                        text: operator.text() + " "@,
                        state: state.emit(operator.text() + " "@),
                    },
                ),
                None => None,
            },
        },
        _ => None,
    }
}

/// The three-address code of a whole tree, generated from the state in
/// which nothing was generated yet.
pub open spec fn program_code(root: Ast) -> Option<Seq<char>> {
    match generate(root, CodeAttrsView::fresh()) {
        Some(emission) => Some(emission.state.code),
        None => None,
    }
}


/// The emission that a result and the state after it stand for.
pub open spec fn emission_of(result: Option<String>, state: CodeAttrsView) -> Option<Emission> {
    match result {
        Some(text) => Some(Emission { text: text@, state }),
        None => None,
    }
}

fn make_temp(inh: &mut CodeAttrs) -> (r: Option<String>)
    ensures
        emission_of(r, final(inh)@) == fresh_temp(old(inh)@),
{
    if inh.has_temp() {
        Some(inh.create_temp())
    } else {
        None
    }
}

fn make_label(inh: &mut CodeAttrs) -> (r: Option<String>)
    ensures
        emission_of(r, final(inh)@) == fresh_label(old(inh)@),
{
    if inh.has_label() {
        Some(inh.create_label())
    } else {
        None
    }
}

fn write_operator(op: TokenType, inh: &mut CodeAttrs) -> (r: Option<String>)
    ensures
        emission_of(r, final(inh)@) == generate_operator(op, old(inh)@),
{
    if op.is_operator() {
        let text = op.get_operator_type().to_string();
        inh.emit(text.as_str());
        Some(text)
    } else {
        None
    }
}

impl SemanticNode {
    fn generate_dimensions(index: &Vec<SemanticNode>, size: &String, inh: &mut CodeAttrs) -> (r:
        Option<String>)
        ensures
            emission_of(r, final(inh)@) == generate_dimensions(
                SemanticNode::models(*index),
                0,
                size@,
                old(inh)@,
            ),
        decreases index, 0nat,
    {
        let mut i: usize = 0;
        while i < index.len()
            invariant
                i <= index@.len(),
                generate_dimensions(SemanticNode::models(*index), 0, size@, old(inh)@)
                    == generate_dimensions(SemanticNode::models(*index), i as int, size@, inh@),
            decreases index@.len() - i,
        {
            let Some(factor) = index[i].generate_code(inh) else {
                return None;
            };
            emit_scale(inh, size.as_str(), factor.as_str());
            i = i + 1;
        }
        Some(size.clone())
    }

    fn generate_bounds(index: &Vec<SemanticNode>, inh: &mut CodeAttrs) -> (r: Option<String>)
        ensures
            emission_of(r, final(inh)@) == generate_bounds(
                SemanticNode::models(*index),
                0,
                old(inh)@,
            ),
        decreases index, 0nat,
    {
        let mut i: usize = 0;
        while i < index.len()
            invariant
                i <= index@.len(),
                generate_bounds(SemanticNode::models(*index), 0, old(inh)@) == generate_bounds(
                    SemanticNode::models(*index),
                    i as int,
                    inh@,
                ),
            decreases index@.len() - i,
        {
            inh.emit("[");
            let Some(bound) = index[i].generate_code(inh) else {
                return None;
            };
            inh.emit("]");
            i = i + 1;
        }
        Some(String::new())
    }

    fn generate_each(nodes: &Vec<SemanticNode>, inh: &mut CodeAttrs) -> (r: Option<String>)
        ensures
            emission_of(r, final(inh)@) == generate_each(
                SemanticNode::models(*nodes),
                0,
                old(inh)@,
            ),
        decreases nodes, 0nat,
    {
        let mut i: usize = 0;
        while i < nodes.len()
            invariant
                i <= nodes@.len(),
                generate_each(SemanticNode::models(*nodes), 0, old(inh)@) == generate_each(
                    SemanticNode::models(*nodes),
                    i as int,
                    inh@,
                ),
            decreases nodes@.len() - i,
        {
            let Some(first) = nodes[i].generate_code(inh) else {
                return None;
            };
            i = i + 1;
        }
        Some(String::new())
    }

    fn generate_arguments(arguments: &Vec<SemanticNode>, inh: &mut CodeAttrs) -> (r: Option<String>)
        ensures
            emission_of(r, final(inh)@) == generate_arguments(
                SemanticNode::models(*arguments),
                0,
                old(inh)@,
            ),
        decreases arguments, 0nat,
    {
        let mut i: usize = 0;
        while i < arguments.len()
            invariant
                i <= arguments@.len(),
                generate_arguments(SemanticNode::models(*arguments), 0, old(inh)@)
                    == generate_arguments(SemanticNode::models(*arguments), i as int, inh@),
            decreases arguments@.len() - i,
        {
            inh.emit("param ");
            let Some(argument) = arguments[i].generate_code(inh) else {
                return None;
            };
            inh.emit("\n");
            i = i + 1;
        }
        Some(String::new())
    }

    fn generate_statements(statelist: &Vec<SemanticNode>, inh: &mut CodeAttrs) -> (r: Option<
        String,
    >)
        ensures
            emission_of(r, final(inh)@) == generate_statements(
                SemanticNode::models(*statelist),
                0,
                Seq::empty(),
                old(inh)@,
            ),
        decreases statelist, 0nat,
    {
        let mut last = String::new();
        let mut i: usize = 0;
        while i < statelist.len()
            invariant
                i <= statelist@.len(),
                generate_statements(SemanticNode::models(*statelist), 0, Seq::empty(), old(inh)@)
                    == generate_statements(
                    SemanticNode::models(*statelist),
                    i as int,
                    last@,
                    inh@,
                ),
            decreases statelist@.len() - i,
        {
            let Some(first) = statelist[i].generate_code(inh) else {
                return None;
            };
            last = first;
            i = i + 1;
        }
        Some(last)
    }

    fn generate_indices(index: &Vec<SemanticNode>, inh: &mut CodeAttrs) -> (r: Option<String>)
        ensures
            emission_of(r, final(inh)@) == generate_indices(
                SemanticNode::models(*index),
                0,
                Seq::empty(),
                old(inh)@,
            ),
        decreases index, 0nat,
    {
        let mut output = String::new();
        let mut i: usize = 0;
        while i < index.len()
            invariant
                i <= index@.len(),
                generate_indices(SemanticNode::models(*index), 0, Seq::empty(), old(inh)@)
                    == generate_indices(SemanticNode::models(*index), i as int, output@, inh@),
            decreases index@.len() - i,
        {
            let Some(first) = index[i].generate_code(inh) else {
                return None;
            };
            let ghost before = output@;
            output.append("[");
            output.append(first.as_str());
            output.append("]");
            assert(output@ =~= before + "["@ + first@ + "]"@);
            i = i + 1;
        }
        Some(output)
    }

    fn generate_allocexpression(&self, inh: &mut CodeAttrs) -> (r: Option<String>)
        ensures
            emission_of(r, final(inh)@) == generate_allocexpression(self@, old(inh)@),
        decreases self, 0nat,
    {
        let SemanticNodeData::Allocexpression { var_type, dimensions } = &self.children else {
            return None;
        };
        proof {
            dimensions.lemma_view();
        }
        let SemanticNodeData::VarIndex { index } = &dimensions.children else {
            return None;
        };
        let Some(size) = make_temp(inh) else {
            return None;
        };
        emit_assign(inh, size.as_str(), "1");
        let Some(sized) = SemanticNode::generate_dimensions(index, &size, inh) else {
            return None;
        };
        let Some(unit) = var_type.generate_code(inh) else {
            return None;
        };
        emit_param(inh, unit.as_str());
        let Some(result) = make_temp(inh) else {
            return None;
        };
        emit_param(inh, size.as_str());
        emit_alloc_call(inh, result.as_str());
        Some(result)
    }

    fn generate_atribstat(&self, inh: &mut CodeAttrs) -> (r: Option<String>)
        ensures
            emission_of(r, final(inh)@) == generate_atribstat(self@, old(inh)@),
        decreases self, 0nat,
    {
        let SemanticNodeData::Atribstat { lvalue, value } = &self.children else {
            return None;
        };
        let Some(target) = lvalue.generate_code(inh) else {
            return None;
        };
        let Some(source) = value.generate_code(inh) else {
            return None;
        };
        emit_assign(inh, target.as_str(), source.as_str());
        Some(target)
    }

    fn generate_expression(&self, inh: &mut CodeAttrs) -> (r: Option<String>)
        ensures
            emission_of(r, final(inh)@) == generate_expression(self@, old(inh)@),
        decreases self, 0nat,
    {
        let SemanticNodeData::Expression { numexpression, op_expression, numexpression2 } =
            &self.children else {
            return None;
        };
        let Some(left) = numexpression.generate_code(inh) else {
            return None;
        };
        let Some(numexpression2) = numexpression2 else {
            return Some(left);
        };
        let Some(op_expression) = op_expression else {
            return Some(left);
        };
        let Some(right) = numexpression2.generate_code(inh) else {
            return None;
        };
        emit_operation_head(inh, left.as_str());
        let Some(operator) = op_expression.generate_code(inh) else {
            return None;
        };
        emit_operation_tail(inh, right.as_str());
        Some(left)
    }

    fn generate_factor(&self, inh: &mut CodeAttrs) -> (r: Option<String>)
        ensures
            emission_of(r, final(inh)@) == generate_factor(self@, old(inh)@),
        decreases self, 0nat,
    {
        let SemanticNodeData::Factor { expression, lvalue, constant } = &self.children else {
            return None;
        };
        if let Some(expression) = expression {
            return expression.generate_code(inh);
        }
        if let Some(lvalue) = lvalue {
            let Some(source) = lvalue.generate_code(inh) else {
                return None;
            };
            let Some(temp) = make_temp(inh) else {
                return None;
            };
            emit_assign(inh, temp.as_str(), source.as_str());
            return Some(temp);
        }
        if let Some(constant) = constant {
            return constant.generate_code(inh);
        }
        None
    }

    fn generate_forstat(&self, inh: &mut CodeAttrs) -> (r: Option<String>)
        ensures
            emission_of(r, final(inh)@) == generate_forstat(self@, old(inh)@),
        decreases self, 0nat,
    {
        let SemanticNodeData::Forstat { init, condition, increment, body } = &self.children else {
            return None;
        };
        let outer = inh.get_scope_label().clone();
        let Some(start) = make_label(inh) else {
            return None;
        };
        let Some(first) = init.generate_code(inh) else {
            return None;
        };
        emit_label_line(inh, start.as_str());
        let Some(test) = condition.generate_code(inh) else {
            return None;
        };
        let Some(end) = make_label(inh) else {
            return None;
        };
        emit_branch_if_zero(inh, test.as_str(), end.as_str());
        inh.set_scope_end(end.clone());
        let Some(inner) = body.generate_code(inh) else {
            return None;
        };
        let Some(step) = increment.generate_code(inh) else {
            return None;
        };
        emit_goto_line(inh, start.as_str());
        emit_label_line(inh, end.as_str());
        inh.set_scope_end(outer);
        Some(test)
    }

    fn generate_funccall(&self, inh: &mut CodeAttrs) -> (r: Option<String>)
        ensures
            emission_of(r, final(inh)@) == generate_funccall(self@, old(inh)@),
        decreases self, 0nat,
    {
        let SemanticNodeData::Funccall { id, paramlistcall } = &self.children else {
            return None;
        };
        let count = match paramlistcall {
            None => 0,
            Some(paramlistcall) => {
                proof {
                    paramlistcall.lemma_view();
                }
                let SemanticNodeData::Paramlistcall { paramlist } = &paramlistcall.children else {
                    return None;
                };
                let Some(arguments) = paramlistcall.generate_code(inh) else {
                    return None;
                };
                paramlist.len()
            },
        };
        let Some(temp) = make_temp(inh) else {
            return None;
        };
        emit_call_head(inh, temp.as_str());
        let Some(name) = id.generate_code(inh) else {
            return None;
        };
        emit_call_tail(inh, count);
        Some(temp)
    }

    fn generate_funcdef(&self, inh: &mut CodeAttrs) -> (r: Option<String>)
        ensures
            emission_of(r, final(inh)@) == generate_funcdef(self@, old(inh)@),
        decreases self, 0nat,
    {
        let SemanticNodeData::Funcdef { func_id, paramlist, statelist } = &self.children else {
            return None;
        };
        let Some(name) = func_id.generate_code(inh) else {
            return None;
        };
        inh.emit(":\n");
        if let Some(paramlist) = paramlist {
            let Some(parameters) = paramlist.generate_code(inh) else {
                return None;
            };
        }
        statelist.generate_code(inh)
    }

    fn generate_ifstat(&self, inh: &mut CodeAttrs) -> (r: Option<String>)
        ensures
            emission_of(r, final(inh)@) == generate_ifstat(self@, old(inh)@),
        decreases self, 0nat,
    {
        let SemanticNodeData::Ifstat { condition, then_branch, else_branch } = &self.children else {
            return None;
        };
        let Some(test) = condition.generate_code(inh) else {
            return None;
        };
        let Some(skip) = make_label(inh) else {
            return None;
        };
        emit_branch_if_zero(inh, test.as_str(), skip.as_str());
        let Some(taken) = then_branch.generate_code(inh) else {
            return None;
        };
        emit_label_line(inh, skip.as_str());
        if let Some(else_branch) = else_branch {
            let Some(end) = make_label(inh) else {
                return None;
            };
            emit_branch_if(inh, test.as_str(), end.as_str());
            let Some(other) = else_branch.generate_code(inh) else {
                return None;
            };
            emit_label_line(inh, end.as_str());
        }
        Some(test)
    }

    fn generate_lvalue(&self, inh: &mut CodeAttrs) -> (r: Option<String>)
        ensures
            emission_of(r, final(inh)@) == generate_lvalue(self@, old(inh)@),
        decreases self, 0nat,
    {
        let SemanticNodeData::Lvalue { id, var_index } = &self.children else {
            return None;
        };
        proof {
            id.lemma_view();
        }
        let SemanticNodeData::Terminal { value } = &id.children else {
            return None;
        };
        let Some(name) = &value.value else {
            return None;
        };
        let mut text = name.to_string();
        if let Some(var_index) = var_index {
            let Some(indices) = var_index.generate_code(inh) else {
                return None;
            };
            let ghost before = text@;
            text.append(indices.as_str());
        }
        Some(text)
    }

    fn generate_numexpression(&self, inh: &mut CodeAttrs) -> (r: Option<String>)
        ensures
            emission_of(r, final(inh)@) == generate_numexpression(self@, old(inh)@),
        decreases self, 0nat,
    {
        let SemanticNodeData::Numexpression { term, op_numexpression, term2 } = &self.children else {
            return None;
        };
        let Some(left) = term.generate_code(inh) else {
            return None;
        };
        let Some(term2) = term2 else {
            return Some(left);
        };
        let Some(right) = term2.generate_code(inh) else {
            return None;
        };
        if let Some(op_numexpression) = op_numexpression {
            emit_operation_head(inh, left.as_str());
            let Some(operator) = op_numexpression.generate_code(inh) else {
                return None;
            };
            emit_operation_tail(inh, right.as_str());
        }
        Some(left)
    }

    fn generate_term(&self, inh: &mut CodeAttrs) -> (r: Option<String>)
        ensures
            emission_of(r, final(inh)@) == generate_term(self@, old(inh)@),
        decreases self, 0nat,
    {
        let SemanticNodeData::Term { unaryexpression, op_term, unaryexpression2 } =
            &self.children else {
            return None;
        };
        let Some(left) = unaryexpression.generate_code(inh) else {
            return None;
        };
        let Some(unaryexpression2) = unaryexpression2 else {
            return Some(left);
        };
        let Some(right) = unaryexpression2.generate_code(inh) else {
            return None;
        };
        if let Some(op_term) = op_term {
            emit_operation_head(inh, left.as_str());
            let Some(operator) = op_term.generate_code(inh) else {
                return None;
            };
            emit_operation_tail(inh, right.as_str());
        }
        Some(left)
    }

    fn generate_statement(&self, inh: &mut CodeAttrs) -> (r: Option<String>)
        ensures
            emission_of(r, final(inh)@) == generate_statement(self@, old(inh)@),
        decreases self, 0nat,
    {
        let SemanticNodeData::Statement {
            vardecl,
            atribstat,
            ifstat,
            forstat,
            statelist,
            commandstat,
        } = &self.children else {
            return None;
        };
        if let Some(vardecl) = vardecl {
            return vardecl.generate_code(inh);
        }
        if let Some(atribstat) = atribstat {
            return atribstat.generate_code(inh);
        }
        if let Some(ifstat) = ifstat {
            return ifstat.generate_code(inh);
        }
        if let Some(forstat) = forstat {
            return forstat.generate_code(inh);
        }
        if let Some(statelist) = statelist {
            return statelist.generate_code(inh);
        }
        if let Some(commandstat) = commandstat {
            return commandstat.generate_code(inh);
        }
        Some(String::new())
    }

    fn generate_unaryexpression(&self, inh: &mut CodeAttrs) -> (r: Option<String>)
        ensures
            emission_of(r, final(inh)@) == generate_unaryexpression(self@, old(inh)@),
        decreases self, 0nat,
    {
        let SemanticNodeData::Unaryexpression { op, factor } = &self.children else {
            return None;
        };
        let Some(value) = factor.generate_code(inh) else {
            return None;
        };
        let Some(op) = op else {
            return Some(value);
        };
        let Some(temp) = make_temp(inh) else {
            return None;
        };
        emit_unary_head(inh, temp.as_str());
        let Some(sign) = op.generate_code(inh) else {
            return None;
        };
        emit_operation_tail(inh, value.as_str());
        Some(temp)
    }

    fn generate_terminal(&self, inh: &mut CodeAttrs) -> (r: Option<String>)
        ensures
            emission_of(r, final(inh)@) == generate_terminal(self@, old(inh)@),
    {
        let SemanticNodeData::Terminal { value } = &self.children else {
            return None;
        };
        match value.token_type {
            TokenType::Id | TokenType::FuncId => {
                let Some(name) = &value.value else {
                    return None;
                };
                let text = name.to_string();
                inh.emit(text.as_str());
                Some(text)
            },
            TokenType::ConstInt | TokenType::ConstFloat | TokenType::ConstString => {
                let Some(literal) = &value.value else {
                    return None;
                };
                let mut text = literal.to_string();
                text.append("\n");
                inh.emit(text.as_str());
                Some(text)
            },
            TokenType::ConstNull => {
                inh.emit("0\n");
                Some(String::from_str("0"))
            },
            TokenType::VarType => {
                if value.has_type() {
                    Some(value.get_type().as_variant_name().to_owned())
                } else {
                    None
                }
            },
            TokenType::KwBreak => {
                let label = inh.get_scope_label().clone();
                emit_goto_line(inh, label.as_str());
                Some(String::new())
            },
            _ => {
                if value.token_type.is_operator() {
                    let mut text = value.token_type.get_operator_type().to_string();
                    text.append(" ");
                    inh.emit(text.as_str());
                    Some(text)
                } else {
                    None
                }
            },
        }
    }

    /// Generates the code of the tree below this node into `inh` and
    /// returns the text that holds the result of the node; `None` where
    /// [`generate`] gives no code, and `inh` then holds the code of the
    /// part that was generated.
    pub fn generate_code(&self, inh: &mut CodeAttrs) -> (r: Option<String>)
        ensures
            emission_of(r, final(inh)@) == generate(self@, old(inh)@),
        decreases self, 1nat,
    {
        match &self.children {
            SemanticNodeData::Allocexpression { .. } => self.generate_allocexpression(inh),
            SemanticNodeData::Atribstat { .. } => self.generate_atribstat(inh),
            SemanticNodeData::Atribstatevalue { expression, allocexpression, funccall } => {
                if let Some(expression) = expression {
                    expression.generate_code(inh)
                } else if let Some(allocexpression) = allocexpression {
                    allocexpression.generate_code(inh)
                } else if let Some(funccall) = funccall {
                    funccall.generate_code(inh)
                } else {
                    None
                }
            },
            SemanticNodeData::Constant { value, .. } => {
                let Some(temp) = make_temp(inh) else {
                    return None;
                };
                let literal = value.to_string();
                emit_assign(inh, temp.as_str(), literal.as_str());
                Some(temp)
            },
            SemanticNodeData::ConstIndex { index } => SemanticNode::generate_bounds(index, inh),
            SemanticNodeData::Elsestat { statement } => statement.generate_code(inh),
            SemanticNodeData::Expression { .. } => self.generate_expression(inh),
            SemanticNodeData::Factor { .. } => self.generate_factor(inh),
            SemanticNodeData::Forstat { .. } => self.generate_forstat(inh),
            SemanticNodeData::Funccall { .. } => self.generate_funccall(inh),
            SemanticNodeData::Funcdef { .. } => self.generate_funcdef(inh),
            SemanticNodeData::Funclist { funclist } => SemanticNode::generate_each(funclist, inh),
            SemanticNodeData::Ifstat { .. } => self.generate_ifstat(inh),
            SemanticNodeData::Lvalue { .. } => self.generate_lvalue(inh),
            SemanticNodeData::Numexpression { .. } => self.generate_numexpression(inh),
            SemanticNodeData::OpExpression { op } => write_operator(*op, inh),
            SemanticNodeData::OpNumexpression { op } => write_operator(*op, inh),
            SemanticNodeData::OpTerm { op } => write_operator(*op, inh),
            SemanticNodeData::Paramlist { .. } => Some(String::new()),
            SemanticNodeData::Paramlistcall { paramlist } => SemanticNode::generate_arguments(
                paramlist,
                inh,
            ),
            SemanticNodeData::Printstat { expression } => {
                let Some(value) = expression.generate_code(inh) else {
                    return None;
                };
                emit_param(inh, value.as_str());
                inh.emit("call print, 1\n");
                Some(value)
            },
            SemanticNodeData::Program { funclist, statement } => {
                if let Some(funclist) = funclist {
                    funclist.generate_code(inh)
                } else if let Some(statement) = statement {
                    statement.generate_code(inh)
                } else {
                    None
                }
            },
            SemanticNodeData::Readstat { lvalue } => {
                let Some(target) = lvalue.generate_code(inh) else {
                    return None;
                };
                emit_read_call(inh, target.as_str());
                Some(target)
            },
            SemanticNodeData::Returnstat { .. } => {
                inh.emit("return\n");
                Some(String::new())
            },
            SemanticNodeData::Statelist { statelist } => SemanticNode::generate_statements(
                statelist,
                inh,
            ),
            SemanticNodeData::Statement { .. } => self.generate_statement(inh),
            SemanticNodeData::Term { .. } => self.generate_term(inh),
            SemanticNodeData::Unaryexpression { .. } => self.generate_unaryexpression(inh),
            SemanticNodeData::Vardecl { .. } => Some(String::new()),
            SemanticNodeData::VarIndex { index } => SemanticNode::generate_indices(index, inh),
            SemanticNodeData::Terminal { .. } => self.generate_terminal(inh),
        }
    }
}

impl SemanticTree {
    /// Generates the three-address code of the tree, from the state in
    /// which nothing was generated yet: temporaries and labels are
    /// numbered from 1.
    pub fn generate_code(&self) -> (r: Option<String>)
        ensures
            match r {
                Some(code) => program_code(self.root@) == Some(code@),
                None => program_code(self.root@).is_none(),
            },
    {
        let mut code_attrs = CodeAttrs::new();
        match self.root.generate_code(&mut code_attrs) {
            Some(_) => Some(code_attrs.code().clone()),
            None => None,
        }
    }
}

/// Code generation is deterministic: two trees with the same value
/// have the same code, whenever they are generated.
pub proof fn lemma_generation_deterministic(first: SemanticNode, second: SemanticNode)
    requires
        first@ == second@,
    ensures
        program_code(first@) == program_code(second@),
{
}

/// The numbering starts at 1: the first temporary of a generation is
/// `t1` and its first label is `L1`.
pub proof fn lemma_numbering_starts_at_one()
    ensures
        fresh_temp(CodeAttrsView::fresh()).unwrap().text == seq!['t', '1'],
        fresh_label(CodeAttrsView::fresh()).unwrap().text == seq!['L', '1'],
{
    assert(decimal(1) =~= seq!['1']);
    assert(CodeAttrsView::fresh().next_temp() =~= seq!['t', '1']);
    assert(CodeAttrsView::fresh().next_label() =~= seq!['L', '1']);
}

} // verus!
