//! The abstract syntax tree and the rules of its semantic analysis.
//!
//! The analysis walks the tree with the stack of the open scopes. It
//! declares names, resolves uses, checks types and checks that `break`
//! and `return` stand where they may. The first broken rule ends it.
//!
//! The name of a function is no value: it cannot be read, assigned to
//! or passed as an argument. Nor is a variable a function: it cannot be
//! called. Every expression in square brackets must
//! be an integer, behind a variable that is read or written and in an
//! allocation. Of the bounds of an array only their number is held
//! against a use: a variable that was declared with bounds takes at
//! most as many indices as it has bounds, whatever their values, and a
//! variable that was declared without bounds takes any number of them.
//!
//! A scope is opened for the body of a function, for the head of a
//! loop and inside it for the body of the loop, for the then-branch of
//! a conditional, for its else-branch, and for a block in braces that
//! stands as a statement; each has the kind of what opened it.

use vstd::prelude::*;
use crate::grammar::const_type::{ConstType, ConstValue, VarType};
use crate::grammar::semantic_node::{Ast, SemanticNodeData};
use crate::grammar::token_type::TokenType;
use crate::scope_stack::{
    closed_since,
    declared,
    declared_here,
    has_kind,
    keeps_below,
    lookup,
    opened_since,
    popped,
    pushed,
    used,
    ScopeStack,
    ScopeType,
    Scopes,
    SymbolEntry,
    SymbolEntryView,
};
use crate::semantic_error::{SemanticError, SemanticErrorKind, SemanticErrorView};
use crate::token::TokenView;

verus! {

/// A node of the abstract syntax tree.
#[derive(Debug, PartialEq)]
pub struct SemanticNode {
    pub children: SemanticNodeData,
}

impl SemanticNode {
    /// The mathematical value of the tree below this node.
    pub open spec fn model(&self) -> Ast
        decreases self,
    {
        self.children.model()
    }

    /// The mathematical value of an optional subtree.
    pub open spec fn model_of_option(node: Option<Box<SemanticNode>>) -> Option<Box<Ast>> {
        match node {
            Some(node) => Some(Box::new(node.model())),
            None => None,
        }
    }

    /// The mathematical values of a list of subtrees.
    pub open spec fn models(nodes: Vec<SemanticNode>) -> Seq<Ast>
        decreases nodes,
    {
        Seq::new(
            nodes.len() as nat,
            |i: int|
                if 0 <= i < nodes.len() {
                    nodes[i].model()
                } else {
                    arbitrary()
                },
        )
    }
}

impl View for SemanticNode {
    type V = Ast;

    open spec fn view(&self) -> Ast {
        self.model()
    }
}

impl SemanticNode {
    /// The value of a node is the value of what it holds.
    pub proof fn lemma_view(&self)
        ensures
            self@ == self.children.model(),
    {
    }
}

/// What the analysis of a node hands up: the type of a value with the
/// place it was written at, or the operator of an operator node.
#[derive(Debug, Clone, Copy, PartialEq, Eq)]
pub enum Attribute {
    Data { var_type: VarType, place: Option<(usize, usize)> },
    Operator(TokenType),
}

/// What an analysis comes to: the attribute of the node or the first
/// error, and the scopes as the analysis leaves them.
pub struct Outcome {
    pub result: Result<Option<Attribute>, SemanticErrorView>,
    pub scopes: Scopes,
}

/// The analysis went through.
pub open spec fn done(attribute: Option<Attribute>, scopes: Scopes) -> Outcome {
    Outcome { result: Ok(attribute), scopes }
}

/// The analysis ended with an error.
pub open spec fn failed(error: SemanticErrorView, scopes: Scopes) -> Outcome {
    Outcome { result: Err(error), scopes }
}

/// The analysis met a tree that no parse tree gives.
pub open spec fn malformed(scopes: Scopes) -> Outcome {
    failed(SemanticErrorView::MalformedTree, scopes)
}

/// The name, line and column of an identifier node.
pub open spec fn identifier(node: Ast) -> Option<(Seq<char>, usize, usize)> {
    match node {
        Ast::Terminal { value } => match value.value {
            Some(ConstValue::String(name)) => Some((name, value.line, value.column)),
            _ => None,
        },
        _ => None,
    }
}

/// The place of an operand, line 0 and column 0 where it has none.
pub open spec fn place_or_origin(place: Option<(usize, usize)>) -> (usize, usize) {
    match place {
        Some(place) => place,
        None => (0, 0),
    }
}

/// The entry that a declaration at line and column makes: that of a
/// variable with its type and bounds, or that of a function with the
/// types of its parameters.
pub open spec fn declaration(
    line: usize,
    column: usize,
    var_type: Seq<VarType>,
    bounds: Seq<u32>,
    is_function: bool,
) -> SymbolEntryView {
    SymbolEntryView { appearances: seq![(line, column)], var_type, const_index: bounds, is_function }
}

/// A parameter of a function: its type, its name, and the line and
/// column of the name.
pub struct Parameter {
    pub var_type: VarType,
    pub name: Seq<char>,
    pub line: usize,
    pub column: usize,
}

/// The analysis of a node with the scopes `scopes`.
pub open spec fn analyze(node: Ast, scopes: Scopes) -> Outcome
    decreases node, 1nat,
{
    match node {
        Ast::Allocexpression { .. } => analyze_allocexpression(node, scopes),
        Ast::Atribstat { .. } => analyze_atribstat(node, scopes),
        Ast::Atribstatevalue { .. } => analyze_atribstatevalue(node, scopes),
        Ast::Constant { value, line, column } => done(
            Some(Attribute::Data { var_type: value.var_type(), place: Some((line, column)) }),
            scopes,
        ),
        Ast::ConstIndex { index } => analyze_all(index, 0, scopes),
        Ast::Elsestat { .. } => analyze_elsestat(node, scopes),
        Ast::Expression { .. } => analyze_expression(node, scopes),
        Ast::Factor { .. } => analyze_factor(node, scopes),
        Ast::Forstat { .. } => analyze_forstat(node, scopes),
        Ast::Funccall { .. } => analyze_funccall(node, scopes),
        Ast::Funcdef { .. } => analyze_funcdef(node, scopes),
        Ast::Funclist { funclist } => analyze_all(funclist, 0, scopes),
        Ast::Ifstat { .. } => analyze_ifstat(node, scopes),
        Ast::Lvalue { .. } => analyze_lvalue(node, scopes),
        Ast::Numexpression { .. } => analyze_numexpression(node, scopes),
        Ast::OpExpression { op } => done(Some(Attribute::Operator(op)), scopes),
        Ast::OpNumexpression { op } => done(Some(Attribute::Operator(op)), scopes),
        Ast::OpTerm { op } => done(Some(Attribute::Operator(op)), scopes),
        Ast::Paramlist { .. } => malformed(scopes),
        Ast::Paramlistcall { paramlist } => analyze_all(paramlist, 0, scopes),
        Ast::Printstat { expression } => analyze(*expression, scopes),
        Ast::Program { .. } => analyze_program(node, scopes),
        Ast::Readstat { .. } => analyze_readstat(node, scopes),
        Ast::Returnstat { .. } => done(None, scopes),
        Ast::Statelist { statelist } => analyze_all(statelist, 0, scopes),
        Ast::Statement { .. } => analyze_statement(node, scopes),
        Ast::Term { .. } => analyze_term(node, scopes),
        Ast::Unaryexpression { op, factor } => analyze(*factor, scopes),
        Ast::Vardecl { .. } => analyze_vardecl(node, scopes),
        Ast::VarIndex { index } => analyze_indices(index, 0, scopes),
        Ast::Terminal { .. } => analyze_terminal(node, scopes),
    }
}

/// The analysis of the nodes of `nodes` from the one at `from` on, one
/// after the other. It ends at the first error.
pub open spec fn analyze_all(nodes: Seq<Ast>, from: int, scopes: Scopes) -> Outcome
    decreases nodes, nodes.len() - from,
{
    if 0 <= from < nodes.len() {
        let first = analyze(nodes[from], scopes);
        if first.result.is_err() {
            first
        } else {
            analyze_all(nodes, from + 1, first.scopes)
        }
    } else {
        done(None, scopes)
    }
}

/// An allocation has the type that it names; its dimensions are
/// analysed after the type, and each of them must be an integer.
pub open spec fn analyze_allocexpression(node: Ast, scopes: Scopes) -> Outcome
    decreases node, 0nat,
{
    match node {
        Ast::Allocexpression { var_type, dimensions } => {
            let named = analyze(*var_type, scopes);
            if named.result.is_err() {
                named
            } else {
                let sized = analyze(*dimensions, named.scopes);
                if sized.result.is_err() {
                    sized
                } else {
                    Outcome { result: named.result, scopes: sized.scopes }
                }
            }
        },
        _ => malformed(scopes),
    }
}

/// An assignment uses the variable on its left, which must be declared,
/// and the value on its right must have the type of the variable. Each
/// index of the variable must be an integer, and the variable takes no
/// more indices than its bounds allow.
pub open spec fn analyze_atribstat(node: Ast, scopes: Scopes) -> Outcome
    decreases node, 0nat,
{
    match node {
        Ast::Atribstat { lvalue, value } => match *lvalue {
            Ast::Lvalue { id, var_index } => match identifier(*id) {
                Some((name, line, column)) => {
                    let seen = used(scopes, name, line, column);
                    if lookup(scopes, name).is_none() {
                        failed(SemanticErrorView::SymbolNotFound { name, line, column }, scopes)
                    } else {
                        match lookup(seen, name) {
                            None => failed(
                                SemanticErrorView::SymbolNotFound { name, line, column },
                                seen,
                            ),
                            Some(entry) => {
                                let right = analyze(*value, seen);
                                match right.result {
                                    Err(_) => right,
                                    Ok(
                                        Some(Attribute::Data { var_type, place: Some(place) }),
                                    ) => match entry.value_type() {
                                        None => failed(
                                            SemanticErrorView::FunctionAsValue {
                                                name,
                                                line,
                                                column,
                                            },
                                            right.scopes,
                                        ),
                                        Some(declared_type) => if declared_type != var_type {
                                            failed(
                                                SemanticErrorView::AssignmentMismatch {
                                                    name,
                                                    line: place.0,
                                                    column: place.1,
                                                },
                                                right.scopes,
                                            )
                                        } else {
                                            match var_index {
                                                None => done(None, right.scopes),
                                                Some(var_index) => match *var_index {
                                                    Ast::VarIndex { index } => analyze_indexed(
                                                        Some((name, line, column)),
                                                        index,
                                                        right.scopes,
                                                    ),
                                                    _ => malformed(right.scopes),
                                                },
                                            }
                                        },
                                    },
                                    Ok(_) => malformed(right.scopes),
                                }
                            },
                        }
                    }
                },
                None => malformed(scopes),
            },
            _ => malformed(scopes),
        },
        _ => malformed(scopes),
    }
}

/// The analysis of the expressions in square brackets behind a
/// variable or in an allocation, from the one at `from` on: each must
/// be an integer.
pub open spec fn analyze_indices(index: Seq<Ast>, from: int, scopes: Scopes) -> Outcome
    decreases index, index.len() - from,
{
    if 0 <= from < index.len() {
        let first = analyze(index[from], scopes);
        match first.result {
            Err(_) => first,
            Ok(Some(Attribute::Data { var_type, place: Some(place) })) => if var_type
                != VarType::Int {
                failed(
                    SemanticErrorView::IndexNotInt {
                        found: var_type,
                        line: place.0,
                        column: place.1,
                    },
                    first.scopes,
                )
            } else {
                analyze_indices(index, from + 1, first.scopes)
            },
            Ok(_) => malformed(first.scopes),
        }
    } else {
        done(None, scopes)
    }
}

/// Whether `count` indices are more than a variable with the entry
/// `entry` takes. A variable that was declared with bounds takes at
/// most as many indices as it has bounds. One that was declared without
/// bounds takes any number of them: its dimensions are those of the
/// array that was allocated for it. Only the number of the indices is
/// held against the declaration, not their values.
pub open spec fn exceeds_bounds(entry: Option<SymbolEntryView>, count: nat) -> bool {
    match entry {
        Some(entry) => 0 < entry.const_index.len() < count,
        None => false,
    }
}

/// The analysis of the indices `index` of a variable: each must be an
/// integer, and where `owner` gives the variable's name and place, the
/// indices must then be no more than the variable takes.
pub open spec fn analyze_indexed(
    owner: Option<(Seq<char>, usize, usize)>,
    index: Seq<Ast>,
    scopes: Scopes,
) -> Outcome
    decreases index, index.len() + 1,
{
    let indexed = analyze_indices(index, 0, scopes);
    if indexed.result.is_err() {
        indexed
    } else {
        match owner {
            Some((name, line, column)) => if exceeds_bounds(
                lookup(indexed.scopes, name),
                index.len(),
            ) {
                failed(SemanticErrorView::TooManyIndices { name, line, column }, indexed.scopes)
            } else {
                done(None, indexed.scopes)
            },
            None => done(None, indexed.scopes),
        }
    }
}

/// The right-hand side of an assignment has the type of the part that
/// it holds.
pub open spec fn analyze_atribstatevalue(node: Ast, scopes: Scopes) -> Outcome
    decreases node, 0nat,
{
    match node {
        Ast::Atribstatevalue { expression, allocexpression, funccall } => match expression {
            Some(expression) => analyze(*expression, scopes),
            None => match allocexpression {
                Some(allocexpression) => analyze(*allocexpression, scopes),
                None => match funccall {
                    Some(funccall) => analyze(*funccall, scopes),
                    None => done(None, scopes),
                },
            },
        },
        _ => malformed(scopes),
    }
}

/// An else-branch is analysed in a scope of its own, which is closed
/// where the analysis of the branch went through. As in every other
/// construct, an error leaves the scopes as they were when it was
/// found.
pub open spec fn analyze_elsestat(node: Ast, scopes: Scopes) -> Outcome
    decreases node, 0nat,
{
    match node {
        Ast::Elsestat { statement } => {
            let inner = analyze(*statement, pushed(scopes, ScopeType::Else));
            if inner.result.is_err() {
                inner
            } else {
                Outcome { result: inner.result, scopes: popped(inner.scopes) }
            }
        },
        _ => malformed(scopes),
    }
}

/// The two sides of a comparison must have the same type, and the
/// comparison is an integer. An expression without a comparison has the
/// type of its one side.
pub open spec fn analyze_expression(node: Ast, scopes: Scopes) -> Outcome
    decreases node, 0nat,
{
    match node {
        Ast::Expression { numexpression, op_expression, numexpression2 } => {
            let left = analyze(*numexpression, scopes);
            match left.result {
                Err(_) => left,
                Ok(Some(Attribute::Data { var_type, place })) => match numexpression2 {
                    None => done(Some(Attribute::Data { var_type, place }), left.scopes),
                    Some(numexpression2) => {
                        let right = analyze(*numexpression2, left.scopes);
                        match right.result {
                            Err(_) => right,
                            Ok(
                                Some(Attribute::Data { var_type: right_type, place: right_place }),
                            ) => if var_type != right_type {
                                failed(
                                    SemanticErrorView::ExpressionMismatch {
                                        line: place_or_origin(right_place).0,
                                        column: place_or_origin(right_place).1,
                                    },
                                    right.scopes,
                                )
                            } else {
                                done(
                                    Some(Attribute::Data { var_type: VarType::Int, place }),
                                    right.scopes,
                                )
                            },
                            Ok(_) => malformed(right.scopes),
                        }
                    },
                },
                Ok(_) => malformed(left.scopes),
            }
        },
        _ => malformed(scopes),
    }
}

/// A factor has the type of the part that it holds.
pub open spec fn analyze_factor(node: Ast, scopes: Scopes) -> Outcome
    decreases node, 0nat,
{
    match node {
        Ast::Factor { expression, lvalue, constant } => match expression {
            Some(expression) => analyze(*expression, scopes),
            None => match lvalue {
                Some(lvalue) => analyze(*lvalue, scopes),
                None => match constant {
                    Some(constant) => analyze(*constant, scopes),
                    None => malformed(scopes),
                },
            },
        },
        _ => malformed(scopes),
    }
}

/// A loop opens one scope for its initialisation, condition and
/// increment and, inside it, one for its body.
pub open spec fn analyze_forstat(node: Ast, scopes: Scopes) -> Outcome
    decreases node, 0nat,
{
    match node {
        Ast::Forstat { init, condition, increment, body } => {
            let first = analyze(*init, pushed(scopes, ScopeType::LoopInit));
            if first.result.is_err() {
                first
            } else {
                let second = analyze(*condition, first.scopes);
                if second.result.is_err() {
                    second
                } else {
                    let third = analyze(*increment, second.scopes);
                    if third.result.is_err() {
                        third
                    } else {
                        let fourth = analyze(*body, pushed(third.scopes, ScopeType::Loop));
                        if fourth.result.is_err() {
                            fourth
                        } else {
                            done(None, popped(popped(fourth.scopes)))
                        }
                    }
                }
            }
        },
        _ => malformed(scopes),
    }
}

/// What the arguments of a call come to: their types in order, or the
/// first error, and the scopes with the uses of the arguments.
pub struct Arguments {
    pub result: Result<Seq<VarType>, SemanticErrorView>,
    pub scopes: Scopes,
}

/// The arguments of a call from the one at `from` on, where `types`
/// holds the types of those before it. Each argument is the name of a
/// declared variable; the name of a function is refused, however many
/// parameters the function has.
pub open spec fn analyze_arguments(
    arguments: Seq<Ast>,
    from: int,
    types: Seq<VarType>,
    scopes: Scopes,
) -> Arguments
    decreases arguments.len() - from,
{
    if 0 <= from < arguments.len() {
        match identifier(arguments[from]) {
            Some((name, line, column)) => match lookup(scopes, name) {
                Some(entry) => match entry.value_type() {
                    None => Arguments {
                        result: Err(SemanticErrorView::FunctionAsArgument { name }),
                        scopes,
                    },
                    Some(var_type) => analyze_arguments(
                        arguments,
                        from + 1,
                        types.push(var_type),
                        used(scopes, name, line, column),
                    ),
                },
                None => Arguments {
                    result: Err(SemanticErrorView::UndefinedArgument { name, line, column }),
                    scopes,
                },
            },
            None => Arguments { result: Err(SemanticErrorView::MalformedTree), scopes },
        }
    } else {
        Arguments { result: Ok(types), scopes }
    }
}

/// The function that a call of `name` calls: what the name resolves
/// to, if that is a function. A variable cannot be called, also where
/// it hides a function of the same name.
pub open spec fn callee(scopes: Scopes, name: Seq<char>) -> Option<SymbolEntryView> {
    match lookup(scopes, name) {
        Some(entry) => if entry.is_function {
            Some(entry)
        } else {
            None
        },
        None => None,
    }
}

/// A call names a declared function, and its arguments must have the
/// types of the parameters of the function, one for one. A call is an
/// integer.
pub open spec fn analyze_funccall(node: Ast, scopes: Scopes) -> Outcome {
    match node {
        Ast::Funccall { id, paramlistcall } => match identifier(*id) {
            Some((name, line, column)) => match callee(scopes, name) {
                None => failed(SemanticErrorView::UndefinedFunction { name, line, column }, scopes),
                Some(function) => {
                    let arguments = match paramlistcall {
                        None => Arguments { result: Ok(Seq::empty()), scopes },
                        Some(paramlistcall) => match *paramlistcall {
                            Ast::Paramlistcall { paramlist } => analyze_arguments(
                                paramlist,
                                0,
                                Seq::empty(),
                                scopes,
                            ),
                            _ => Arguments {
                                result: Err(SemanticErrorView::MalformedTree),
                                scopes,
                            },
                        },
                    };
                    match arguments.result {
                        Err(error) => failed(error, arguments.scopes),
                        Ok(types) => if function.var_type != types {
                            failed(
                                SemanticErrorView::ArgumentMismatch { name, line, column },
                                arguments.scopes,
                            )
                        } else if lookup(arguments.scopes, name).is_none() {
                            failed(
                                SemanticErrorView::SymbolNotFound { name, line, column },
                                arguments.scopes,
                            )
                        } else {
                            done(
                                Some(
                                    Attribute::Data {
                                        var_type: VarType::Int,
                                        place: Some((line, column)),
                                    },
                                ),
                                used(arguments.scopes, name, line, column),
                            )
                        },
                    }
                },
            },
            None => malformed(scopes),
        },
        _ => malformed(scopes),
    }
}

/// The parameters that a parameter list declares, from the node at
/// `from` on: a type keyword sets the type of the names that follow it.
/// `None` where a node is neither a type keyword nor a name, or where a
/// name comes before any type.
pub open spec fn parameters(
    paramlist: Seq<Ast>,
    from: int,
    last_type: Option<VarType>,
    types: Seq<VarType>,
    found: Seq<Parameter>,
) -> Option<(Seq<VarType>, Seq<Parameter>)>
    decreases paramlist.len() - from,
{
    if 0 <= from < paramlist.len() {
        match paramlist[from] {
            Ast::Terminal { value } => match value.token_type {
                TokenType::VarType => match value.value {
                    Some(ConstValue::VarType(var_type)) => parameters(
                        paramlist,
                        from + 1,
                        Some(var_type),
                        types.push(var_type),
                        found,
                    ),
                    _ => None,
                },
                TokenType::Id => match (value.value, last_type) {
                    (Some(ConstValue::String(name)), Some(var_type)) => parameters(
                        paramlist,
                        from + 1,
                        last_type,
                        types,
                        found.push(
                            Parameter { var_type, name, line: value.line, column: value.column },
                        ),
                    ),
                    _ => None,
                },
                _ => None,
            },
            _ => None,
        }
    } else {
        Some((types, found))
    }
}

/// What the declaration of a list of names comes to.
pub struct Declarations {
    pub error: Option<SemanticErrorView>,
    pub scopes: Scopes,
}

/// The declaration of the parameters from the one at `from` on in the
/// innermost scope. A name that the scope holds already is a
/// redefinition.
pub open spec fn declare_parameters(found: Seq<Parameter>, from: int, scopes: Scopes)
    -> Declarations
    decreases found.len() - from,
{
    if 0 <= from < found.len() {
        let parameter = found[from];
        if declared_here(scopes, parameter.name) {
            Declarations {
                error: Some(
                    SemanticErrorView::Redefinition {
                        name: parameter.name,
                        line: parameter.line,
                        column: parameter.column,
                    },
                ),
                scopes,
            }
        } else {
            declare_parameters(
                found,
                from + 1,
                declared(
                    scopes,
                    parameter.name,
                    declaration(
                        parameter.line,
                        parameter.column,
                        seq![parameter.var_type],
                        Seq::empty(),
                        false,
                    ),
                ),
            )
        }
    } else {
        Declarations { error: None, scopes }
    }
}

/// A function definition declares the function in the scope it stands
/// in, with the types of its parameters, and opens a scope for the body
/// in which it declares the parameters.
pub open spec fn analyze_funcdef(node: Ast, scopes: Scopes) -> Outcome
    decreases node, 0nat,
{
    match node {
        Ast::Funcdef { func_id, paramlist, statelist } => match identifier(*func_id) {
            Some((name, line, column)) => {
                let signature = match paramlist {
                    None => Some((Seq::<VarType>::empty(), Seq::<Parameter>::empty())),
                    Some(paramlist) => match *paramlist {
                        Ast::Paramlist { paramlist } => parameters(
                            paramlist,
                            0,
                            None,
                            Seq::empty(),
                            Seq::empty(),
                        ),
                        _ => None,
                    },
                };
                match signature {
                    None => malformed(scopes),
                    Some((types, found)) => if declared_here(scopes, name) {
                        failed(SemanticErrorView::Redefinition { name, line, column }, scopes)
                    } else {
                        let outer = declared(
                            scopes,
                            name,
                            declaration(line, column, types, Seq::empty(), true),
                        );
                        let inner = declare_parameters(
                            found,
                            0,
                            pushed(outer, ScopeType::Function),
                        );
                        match inner.error {
                            Some(error) => failed(error, inner.scopes),
                            None => {
                                let body = analyze(*statelist, inner.scopes);
                                if body.result.is_err() {
                                    body
                                } else {
                                    done(None, popped(body.scopes))
                                }
                            },
                        }
                    },
                }
            },
            None => malformed(scopes),
        },
        _ => malformed(scopes),
    }
}

/// A conditional analyses its condition, then its then-branch in a
/// scope of its own, then its else-branch if it has one.
pub open spec fn analyze_ifstat(node: Ast, scopes: Scopes) -> Outcome
    decreases node, 0nat,
{
    match node {
        Ast::Ifstat { condition, then_branch, else_branch } => {
            let first = analyze(*condition, scopes);
            if first.result.is_err() {
                first
            } else {
                let second = analyze(*then_branch, pushed(first.scopes, ScopeType::If));
                if second.result.is_err() {
                    second
                } else {
                    match else_branch {
                        Some(else_branch) => {
                            let third = analyze(*else_branch, popped(second.scopes));
                            if third.result.is_err() {
                                third
                            } else {
                                done(None, third.scopes)
                            }
                        },
                        None => done(None, popped(second.scopes)),
                    }
                }
            }
        },
        _ => malformed(scopes),
    }
}

/// An l-value has the attribute of its name. Its indices are analysed
/// after the name: each of them must be an integer, and they must be
/// no more than the variable takes.
pub open spec fn analyze_lvalue(node: Ast, scopes: Scopes) -> Outcome
    decreases node, 0nat,
{
    match node {
        Ast::Lvalue { id, var_index } => {
            let named = analyze(*id, scopes);
            match named.result {
                Err(_) => named,
                Ok(None) => malformed(named.scopes),
                Ok(Some(attribute)) => match var_index {
                    None => done(Some(attribute), named.scopes),
                    Some(var_index) => match *var_index {
                        Ast::VarIndex { index } => {
                            let indexed = analyze_indexed(identifier(*id), index, named.scopes);
                            if indexed.result.is_err() {
                                indexed
                            } else {
                                done(Some(attribute), indexed.scopes)
                            }
                        },
                        _ => malformed(named.scopes),
                    },
                },
            }
        },
        _ => malformed(scopes),
    }
}

/// The check of the right operand of an arithmetic operator against the
/// type and place of the left one: both must have the same type, and
/// the operation has the type and place of the left operand.
pub open spec fn analyze_right_operand(
    left_type: VarType,
    left_place: Option<(usize, usize)>,
    right: Option<Box<Ast>>,
    scopes: Scopes,
) -> Outcome
    decreases right, 0nat,
{
    match right {
        None => done(Some(Attribute::Data { var_type: left_type, place: left_place }), scopes),
        Some(right) => {
            let second = analyze(*right, scopes);
            match second.result {
                Err(_) => second,
                Ok(Some(Attribute::Data { var_type, place })) => if left_type != var_type {
                    failed(
                        SemanticErrorView::NumericMismatch {
                            line: place_or_origin(place).0,
                            column: place_or_origin(place).1,
                        },
                        second.scopes,
                    )
                } else {
                    done(
                        Some(Attribute::Data { var_type: left_type, place: left_place }),
                        second.scopes,
                    )
                },
                Ok(_) => malformed(second.scopes),
            }
        },
    }
}

/// A sum or difference has the type of its left operand, which the
/// right operand must share.
pub open spec fn analyze_numexpression(node: Ast, scopes: Scopes) -> Outcome
    decreases node, 0nat,
{
    match node {
        Ast::Numexpression { term, op_numexpression, term2 } => {
            let left = analyze(*term, scopes);
            match left.result {
                Err(_) => left,
                Ok(Some(Attribute::Data { var_type, place })) => match op_numexpression {
                    None => analyze_right_operand(var_type, place, term2, left.scopes),
                    Some(op_numexpression) => {
                        let operator = analyze(*op_numexpression, left.scopes);
                        if operator.result.is_err() {
                            operator
                        } else {
                            analyze_right_operand(var_type, place, term2, operator.scopes)
                        }
                    },
                },
                Ok(_) => malformed(left.scopes),
            }
        },
        _ => malformed(scopes),
    }
}

/// A program is its function definitions or its one statement.
pub open spec fn analyze_program(node: Ast, scopes: Scopes) -> Outcome
    decreases node, 0nat,
{
    match node {
        Ast::Program { funclist, statement } => match funclist {
            Some(funclist) => analyze(*funclist, scopes),
            None => match statement {
                Some(statement) => analyze(*statement, scopes),
                None => malformed(scopes),
            },
        },
        _ => malformed(scopes),
    }
}

/// The use of a variable at line and column: the name must be declared
/// and must not be that of a function. The outcome holds the type of
/// the variable.
pub open spec fn analyze_use(name: Seq<char>, line: usize, column: usize, scopes: Scopes)
    -> Outcome {
    let seen = used(scopes, name, line, column);
    if lookup(scopes, name).is_none() {
        failed(SemanticErrorView::SymbolNotFound { name, line, column }, scopes)
    } else {
        match lookup(seen, name) {
            None => failed(SemanticErrorView::SymbolNotFound { name, line, column }, seen),
            Some(entry) => match entry.value_type() {
                None => failed(SemanticErrorView::FunctionAsValue { name, line, column }, seen),
                Some(var_type) => done(
                    Some(Attribute::Data { var_type, place: Some((line, column)) }),
                    seen,
                ),
            },
        }
    }
}

/// A read statement uses its variable, which must be a string. Each
/// index of the variable must be an integer, and the variable takes no
/// more indices than its bounds allow.
pub open spec fn analyze_readstat(node: Ast, scopes: Scopes) -> Outcome
    decreases node, 0nat,
{
    match node {
        Ast::Readstat { lvalue } => match *lvalue {
            Ast::Lvalue { id, var_index } => match identifier(*id) {
                Some((name, line, column)) => {
                    let variable = analyze_use(name, line, column, scopes);
                    match variable.result {
                        Ok(Some(Attribute::Data { var_type, place })) => if var_type
                            != VarType::String {
                            failed(
                                SemanticErrorView::ReadNotString { found: var_type, line, column },
                                variable.scopes,
                            )
                        } else {
                            match var_index {
                                None => done(None, variable.scopes),
                                Some(var_index) => match *var_index {
                                    Ast::VarIndex { index } => {
                                        let indexed = analyze_indexed(
                                            Some((name, line, column)),
                                            index,
                                            variable.scopes,
                                        );
                                        if indexed.result.is_err() {
                                            indexed
                                        } else {
                                            done(None, indexed.scopes)
                                        }
                                    },
                                    _ => malformed(variable.scopes),
                                },
                            }
                        },
                        _ => variable,
                    }
                },
                None => malformed(scopes),
            },
            _ => malformed(scopes),
        },
        _ => malformed(scopes),
    }
}

/// A statement is analysed as the part that it holds. A block in braces
/// gets a scope of its own. A `return` needs an open function scope and
/// a `break` an open loop scope, anywhere in the stack.
pub open spec fn analyze_statement(node: Ast, scopes: Scopes) -> Outcome
    decreases node, 0nat,
{
    match node {
        Ast::Statement { vardecl, atribstat, ifstat, forstat, statelist, commandstat } => {
            match vardecl {
                Some(vardecl) => analyze(*vardecl, scopes),
                None => match atribstat {
                    Some(atribstat) => analyze(*atribstat, scopes),
                    None => match ifstat {
                        Some(ifstat) => analyze(*ifstat, scopes),
                        None => match forstat {
                            Some(forstat) => analyze(*forstat, scopes),
                            None => match statelist {
                                Some(statelist) => {
                                    let block = analyze(
                                        *statelist,
                                        pushed(scopes, ScopeType::Any),
                                    );
                                    if block.result.is_err() {
                                        block
                                    } else {
                                        done(None, popped(block.scopes))
                                    }
                                },
                                None => match commandstat {
                                    Some(commandstat) => match illegal_command(
                                        *commandstat,
                                        scopes,
                                    ) {
                                        Some(error) => failed(error, scopes),
                                        None => analyze(*commandstat, scopes),
                                    },
                                    None => done(None, scopes),
                                },
                            },
                        },
                    },
                },
            }
        },
        _ => malformed(scopes),
    }
}

/// The error of a `return` with no function scope open or of a `break`
/// with no loop scope open; `None` for any other command and where the
/// scope is open.
pub open spec fn illegal_command(command: Ast, scopes: Scopes) -> Option<
    SemanticErrorView,
> {
    match command {
        Ast::Returnstat { token } => if !has_kind(scopes, ScopeType::Function) {
            Some(SemanticErrorView::IllegalReturn { line: token.line, column: token.column })
        } else {
            None
        },
        Ast::Terminal { value } => if value.token_type == TokenType::KwBreak && !has_kind(
            scopes,
            ScopeType::Loop,
        ) {
            Some(SemanticErrorView::IllegalBreak { line: value.line, column: value.column })
        } else {
            None
        },
        _ => None,
    }
}

/// A product, quotient or remainder has the type of its left operand,
/// which the right operand must share.
pub open spec fn analyze_term(node: Ast, scopes: Scopes) -> Outcome
    decreases node, 0nat,
{
    match node {
        Ast::Term { unaryexpression, op_term, unaryexpression2 } => {
            let left = analyze(*unaryexpression, scopes);
            match left.result {
                Err(_) => left,
                Ok(Some(Attribute::Data { var_type, place })) => analyze_right_operand(
                    var_type,
                    place,
                    unaryexpression2,
                    left.scopes,
                ),
                Ok(_) => malformed(left.scopes),
            }
        },
        _ => malformed(scopes),
    }
}

/// The bounds that the nodes of a declaration give, from the node at
/// `from` on: each is an integer literal, kept at 32 bits. `None` where
/// a node is no integer literal.
pub open spec fn bounds(index: Seq<Ast>, from: int, found: Seq<u32>) -> Option<Seq<u32>>
    decreases index.len() - from,
{
    if 0 <= from < index.len() {
        match index[from] {
            Ast::Terminal { value } => match value.value {
                Some(ConstValue::Int(bound)) => bounds(index, from + 1, found.push(bound as u32)),
                _ => None,
            },
            _ => None,
        }
    } else {
        Some(found)
    }
}

/// A declaration declares its name in the innermost scope, with its
/// type and bounds. A name that this scope holds already is a
/// redefinition.
pub open spec fn analyze_vardecl(node: Ast, scopes: Scopes) -> Outcome {
    match node {
        Ast::Vardecl { var_type, id, const_index } => match *var_type {
            Ast::Terminal { value: keyword } => match keyword.value {
                Some(ConstValue::VarType(declared_type)) => match identifier(*id) {
                    Some((name, line, column)) => {
                        let dimensions = match const_index {
                            None => Some(Seq::<u32>::empty()),
                            Some(const_index) => match *const_index {
                                Ast::ConstIndex { index } => bounds(index, 0, Seq::empty()),
                                _ => None,
                            },
                        };
                        match dimensions {
                            None => malformed(scopes),
                            Some(dimensions) => if declared_here(scopes, name) {
                                failed(
                                    SemanticErrorView::Redefinition { name, line, column },
                                    scopes,
                                )
                            } else {
                                done(
                                    None,
                                    declared(
                                        scopes,
                                        name,
                                        declaration(
                                            line,
                                            column,
                                            seq![declared_type],
                                            dimensions,
                                            false,
                                        ),
                                    ),
                                )
                            },
                        }
                    },
                    None => malformed(scopes),
                },
                _ => malformed(scopes),
            },
            _ => malformed(scopes),
        },
        _ => malformed(scopes),
    }
}

/// A literal has its type, a type keyword the type that it names, and
/// an identifier is a use of a variable. The end-of-input marker may
/// stand only where the global scope alone is open. Any other token has
/// no attribute.
pub open spec fn analyze_terminal(node: Ast, scopes: Scopes) -> Outcome {
    match node {
        Ast::Terminal { value } => {
            let place = Some((value.line, value.column));
            match value.token_type {
                TokenType::Eof => if scopes.len() == 1 {
                    done(Some(Attribute::Operator(TokenType::Eof)), scopes)
                } else {
                    malformed(scopes)
                },
                TokenType::ConstInt => match value.value {
                    Some(ConstValue::Int(_)) => done(
                        Some(Attribute::Data { var_type: VarType::Int, place }),
                        scopes,
                    ),
                    _ => malformed(scopes),
                },
                TokenType::ConstFloat => match value.value {
                    Some(ConstValue::Float(_)) => done(
                        Some(Attribute::Data { var_type: VarType::Float, place }),
                        scopes,
                    ),
                    _ => malformed(scopes),
                },
                TokenType::ConstString => match value.value {
                    Some(ConstValue::String(_)) => done(
                        Some(Attribute::Data { var_type: VarType::String, place }),
                        scopes,
                    ),
                    _ => malformed(scopes),
                },
                TokenType::Id => match value.value {
                    Some(ConstValue::String(name)) => analyze_use(
                        name,
                        value.line,
                        value.column,
                        scopes,
                    ),
                    _ => malformed(scopes),
                },
                TokenType::VarType => match value.var_type() {
                    Some(var_type) => done(Some(Attribute::Data { var_type, place }), scopes),
                    None => malformed(scopes),
                },
                _ => done(None, scopes),
            }
        },
        _ => malformed(scopes),
    }
}

/// The outcome that a result and the scopes after it stand for.
pub open spec fn outcome_of(
    result: Result<Option<Attribute>, SemanticError>,
    scopes: Scopes,
) -> Outcome {
    Outcome {
        result: match result {
            Ok(attribute) => Ok(attribute),
            Err(error) => Err(error@),
        },
        scopes,
    }
}

/// The stack discipline of an analysis: it closes no scope that was
/// open when it began, takes no name from one of them and forgets no
/// scope that was closed, and where it goes through it has closed as
/// many scopes as it opened, so that the stack is as high as it was.
pub open spec fn disciplined(before: Scopes, outcome: Outcome) -> bool {
    &&& keeps_below(before, outcome.scopes)
    &&& outcome.result.is_ok() ==> outcome.scopes.open.len() == before.open.len()
    &&& outcome.result.is_ok() ==> opened_since(before, outcome.scopes) == closed_since(
        before,
        outcome.scopes,
    )
}

fn identifier_of(node: &SemanticNode) -> (r: Option<(String, usize, usize)>)
    ensures
        match r {
            Some((name, line, column)) => identifier(node@) == Some((name@, line, column)),
            None => identifier(node@).is_none(),
        },
{
    match &node.children {
        SemanticNodeData::Terminal { value } => match &value.value {
            Some(ConstType::String(name)) => Some((name.clone(), value.line, value.column)),
            _ => None,
        },
        _ => None,
    }
}

fn same_types(a: &Vec<VarType>, b: &Vec<VarType>) -> (r: bool)
    ensures
        r == (a@ == b@),
{
    if a.len() != b.len() {
        return false;
    }
    let mut i: usize = 0;
    while i < a.len()
        invariant
            i <= a@.len(),
            a@.len() == b@.len(),
            forall|j: int| 0 <= j < i ==> a@[j] == b@[j],
        decreases a@.len() - i,
    {
        if a[i] != b[i] {
            return false;
        }
        i = i + 1;
    }
    assert(a@ =~= b@);
    true
}

fn illegal_command_of(command: &SemanticNode, scopes: &ScopeStack) -> (r: Option<SemanticError>)
    ensures
        match r {
            Some(error) => illegal_command(command@, scopes@) == Some(error@),
            None => illegal_command(command@, scopes@).is_none(),
        },
{
    match &command.children {
        SemanticNodeData::Returnstat { token } => {
            if !scopes.contains(ScopeType::Function) {
                Some(SemanticError::IllegalReturn { line: token.line, column: token.column })
            } else {
                None
            }
        },
        SemanticNodeData::Terminal { value } => {
            if value.token_type == TokenType::KwBreak && !scopes.contains(ScopeType::Loop) {
                Some(SemanticError::IllegalBreak { line: value.line, column: value.column })
            } else {
                None
            }
        },
        _ => None,
    }
}

fn use_variable(name: String, line: usize, column: usize, scopes: &mut ScopeStack) -> (r: Result<
    Option<Attribute>,
    SemanticError,
>)
    ensures
        outcome_of(r, final(scopes)@) == analyze_use(name@, line, column, old(scopes)@),
        disciplined(old(scopes)@, outcome_of(r, final(scopes)@)),
{
    scopes.count_appearance(name.as_str(), line, column)?;
    let Some(entry) = scopes.get_symbol(name.as_str()) else {
        return Err(SemanticError::SymbolNotFound { name, line, column });
    };
    let Some(var_type) = entry.value_type() else {
        return Err(SemanticError::FunctionAsValue { name, line, column });
    };
    Ok(Some(Attribute::Data { var_type, place: Some((line, column)) }))
}

fn parameters_of(paramlist: &Vec<SemanticNode>) -> (r: Option<
    (Vec<VarType>, Vec<(VarType, String, usize, usize)>),
>)
    ensures
        match r {
            Some((types, found)) => parameters(
                SemanticNode::models(*paramlist),
                0,
                None,
                Seq::empty(),
                Seq::empty(),
            ) == Some((types@, parameter_views(found@))),
            None => parameters(
                SemanticNode::models(*paramlist),
                0,
                None,
                Seq::empty(),
                Seq::empty(),
            ).is_none(),
        },
{
    let mut types: Vec<VarType> = Vec::new();
    let mut found: Vec<(VarType, String, usize, usize)> = Vec::new();
    let mut last_type: Option<VarType> = None;
    let mut i: usize = 0;
    assert(parameter_views(found@) =~= Seq::<Parameter>::empty());
    while i < paramlist.len()
        invariant
            i <= paramlist@.len(),
            parameters(SemanticNode::models(*paramlist), 0, None, Seq::empty(), Seq::empty())
                == parameters(
                SemanticNode::models(*paramlist),
                i as int,
                last_type,
                types@,
                parameter_views(found@),
            ),
        decreases paramlist@.len() - i,
    {
        let SemanticNodeData::Terminal { value } = &paramlist[i].children else {
            return None;
        };
        match value.token_type {
            TokenType::VarType => {
                let Some(ConstType::VarType(var_type)) = &value.value else {
                    return None;
                };
                types.push(*var_type);
                last_type = Some(*var_type);
            },
            TokenType::Id => {
                let Some(ConstType::String(name)) = &value.value else {
                    return None;
                };
                let Some(var_type) = last_type else {
                    return None;
                };
                let ghost before = parameter_views(found@);
                found.push((var_type, name.clone(), value.line, value.column));
                assert(parameter_views(found@) =~= before.push(
                    Parameter { var_type, name: name@, line: value.line, column: value.column },
                ));
            },
            _ => {
                return None;
            },
        }
        i = i + 1;
    }
    Some((types, found))
}

/// The parameters that a list of executable parameters stands for.
pub open spec fn parameter_views(found: Seq<(VarType, String, usize, usize)>) -> Seq<Parameter> {
    Seq::new(
        found.len(),
        |i: int|
            Parameter {
                var_type: found[i].0,
                name: found[i].1@,
                line: found[i].2,
                column: found[i].3,
            },
    )
}

fn single_place(line: usize, column: usize) -> (r: Vec<(usize, usize)>)
    ensures
        r@ == seq![(line, column)],
{
    let mut r: Vec<(usize, usize)> = Vec::new();
    r.push((line, column));
    r
}

fn single_type(var_type: VarType) -> (r: Vec<VarType>)
    ensures
        r@ == seq![var_type],
{
    let mut r: Vec<VarType> = Vec::new();
    r.push(var_type);
    r
}

fn declare_parameters_in(found: Vec<(VarType, String, usize, usize)>, scopes: &mut ScopeStack) -> (r:
    Result<(), SemanticError>)
    requires
        old(scopes)@.len() > 0,
    ensures
        declare_parameters(parameter_views(found@), 0, old(scopes)@) == (Declarations {
            error: match r {
                Ok(()) => None,
                Err(error) => Some(error@),
            },
            scopes: final(scopes)@,
        }),
        keeps_below(old(scopes)@, final(scopes)@),
        final(scopes)@.len() == old(scopes)@.len(),
{
    let mut i: usize = 0;
    while i < found.len()
        invariant
            i <= found@.len(),
            scopes@.len() > 0,
            keeps_below(old(scopes)@, scopes@),
            scopes@.len() == old(scopes)@.len(),
            declare_parameters(parameter_views(found@), 0, old(scopes)@) == declare_parameters(
                parameter_views(found@),
                i as int,
                scopes@,
            ),
        decreases found@.len() - i,
    {
        let entry = SymbolEntry {
            appearances: single_place(found[i].2, found[i].3),
            var_type: single_type(found[i].0),
            const_index: Vec::new(),
            is_function: false,
        };
        assert(entry@ == declaration(
            found@[i as int].2,
            found@[i as int].3,
            seq![found@[i as int].0],
            Seq::empty(),
            false,
        ));
        scopes.insert_symbol(found[i].1.clone(), entry)?;
        i = i + 1;
    }
    Ok(())
}

fn bounds_of(index: &Vec<SemanticNode>) -> (r: Option<Vec<u32>>)
    ensures
        match r {
            Some(found) => bounds(SemanticNode::models(*index), 0, Seq::empty()) == Some(found@),
            None => bounds(SemanticNode::models(*index), 0, Seq::empty()).is_none(),
        },
{
    let mut found: Vec<u32> = Vec::new();
    let mut i: usize = 0;
    while i < index.len()
        invariant
            i <= index@.len(),
            bounds(SemanticNode::models(*index), 0, Seq::empty()) == bounds(
                SemanticNode::models(*index),
                i as int,
                found@,
            ),
        decreases index@.len() - i,
    {
        let SemanticNodeData::Terminal { value } = &index[i].children else {
            return None;
        };
        let Some(ConstType::Int(bound)) = &value.value else {
            return None;
        };
        found.push(#[verifier::truncate] (*bound as u32));
        i = i + 1;
    }
    Some(found)
}

fn arguments_of(arguments: &Vec<SemanticNode>, scopes: &mut ScopeStack) -> (r: Result<
    Vec<VarType>,
    SemanticError,
>)
    ensures
        analyze_arguments(SemanticNode::models(*arguments), 0, Seq::empty(), old(scopes)@)
            == (Arguments {
            result: match r {
                Ok(types) => Ok(types@),
                Err(error) => Err(error@),
            },
            scopes: final(scopes)@,
        }),
        keeps_below(old(scopes)@, final(scopes)@),
        final(scopes)@.len() == old(scopes)@.len(),
{
    let mut types: Vec<VarType> = Vec::new();
    let mut i: usize = 0;
    while i < arguments.len()
        invariant
            i <= arguments@.len(),
            keeps_below(old(scopes)@, scopes@),
            scopes@.len() == old(scopes)@.len(),
            analyze_arguments(SemanticNode::models(*arguments), 0, Seq::empty(), old(scopes)@)
                == analyze_arguments(SemanticNode::models(*arguments), i as int, types@, scopes@),
        decreases arguments@.len() - i,
    {
        let Some((name, line, column)) = identifier_of(&arguments[i]) else {
            return Err(SemanticError::MalformedTree);
        };
        let Some(entry) = scopes.get_symbol(name.as_str()) else {
            return Err(SemanticError::UndefinedArgument { name, line, column });
        };
        let Some(var_type) = entry.value_type() else {
            return Err(SemanticError::FunctionAsArgument { name });
        };
        types.push(var_type);
        let counted = scopes.count_appearance(name.as_str(), line, column);
        i = i + 1;
    }
    Ok(types)
}

impl SemanticNode {
    /// Analyses the nodes of a list one after the other. See
    /// [`analyze_all`].
    fn analyze_nodes(nodes: &Vec<SemanticNode>, scopes: &mut ScopeStack) -> (r: Result<
        Option<Attribute>,
        SemanticError,
    >)
        requires
            old(scopes)@.len() > 0,
        ensures
            outcome_of(r, final(scopes)@) == analyze_all(
                SemanticNode::models(*nodes),
                0,
                old(scopes)@,
            ),
            disciplined(old(scopes)@, outcome_of(r, final(scopes)@)),
        decreases nodes, 0nat,
    {
        let mut i: usize = 0;
        while i < nodes.len()
            invariant
                i <= nodes@.len(),
                scopes@.len() == old(scopes)@.len(),
                scopes@.len() > 0,
                keeps_below(old(scopes)@, scopes@),
                analyze_all(SemanticNode::models(*nodes), 0, old(scopes)@) == analyze_all(
                    SemanticNode::models(*nodes),
                    i as int,
                    scopes@,
                ),
            decreases nodes@.len() - i,
        {
            nodes[i].semantic_analysis(scopes)?;
            i = i + 1;
        }
        Ok(None)
    }

    /// Analyses the index expressions of an array element. See
    /// [`analyze_indices`].
    fn analyze_index_nodes(index: &Vec<SemanticNode>, scopes: &mut ScopeStack) -> (r: Result<
        Option<Attribute>,
        SemanticError,
    >)
        requires
            old(scopes)@.len() > 0,
        ensures
            outcome_of(r, final(scopes)@) == analyze_indices(
                SemanticNode::models(*index),
                0,
                old(scopes)@,
            ),
            disciplined(old(scopes)@, outcome_of(r, final(scopes)@)),
        decreases index, 0nat,
    {
        let mut i: usize = 0;
        while i < index.len()
            invariant
                i <= index@.len(),
                scopes@.len() == old(scopes)@.len(),
                scopes@.len() > 0,
                keeps_below(old(scopes)@, scopes@),
                analyze_indices(SemanticNode::models(*index), 0, old(scopes)@) == analyze_indices(
                    SemanticNode::models(*index),
                    i as int,
                    scopes@,
                ),
            decreases index@.len() - i,
        {
            let found = index[i].semantic_analysis(scopes)?;
            let Some(Attribute::Data { var_type, place: Some(place) }) = found else {
                return Err(SemanticError::MalformedTree);
            };
            if var_type != VarType::Int {
                return Err(
                    SemanticError::IndexNotInt { found: var_type, line: place.0, column: place.1 },
                );
            }
            i = i + 1;
        }
        Ok(None)
    }

    /// Analyses the indices of a variable and holds their number
    /// against the variable's bounds. See [`analyze_indexed`].
    fn analyze_indexed_nodes(
        owner: Option<(String, usize, usize)>,
        index: &Vec<SemanticNode>,
        scopes: &mut ScopeStack,
    ) -> (r: Result<Option<Attribute>, SemanticError>)
        requires
            old(scopes)@.len() > 0,
        ensures
            outcome_of(r, final(scopes)@) == analyze_indexed(
                match owner {
                    Some((name, line, column)) => Some((name@, line, column)),
                    None => None,
                },
                SemanticNode::models(*index),
                old(scopes)@,
            ),
            disciplined(old(scopes)@, outcome_of(r, final(scopes)@)),
        decreases index, 1nat,
    {
        SemanticNode::analyze_index_nodes(index, scopes)?;
        if let Some((name, line, column)) = owner {
            if let Some(entry) = scopes.get_symbol(name.as_str()) {
                if entry.const_index.len() > 0 && index.len() > entry.const_index.len() {
                    return Err(SemanticError::TooManyIndices { name, line, column });
                }
            }
        }
        Ok(None)
    }

    fn analyze_allocexpression(&self, scopes: &mut ScopeStack) -> (r: Result<
        Option<Attribute>,
        SemanticError,
    >)
        requires
            old(scopes)@.len() > 0,
        ensures
            outcome_of(r, final(scopes)@) == analyze_allocexpression(self@, old(scopes)@),
            disciplined(old(scopes)@, outcome_of(r, final(scopes)@)),
        decreases self, 0nat,
    {
        let SemanticNodeData::Allocexpression { var_type, dimensions } = &self.children else {
            return Err(SemanticError::MalformedTree);
        };
        let named = var_type.semantic_analysis(scopes)?;
        dimensions.semantic_analysis(scopes)?;
        Ok(named)
    }

    fn analyze_atribstat(&self, scopes: &mut ScopeStack) -> (r: Result<
        Option<Attribute>,
        SemanticError,
    >)
        requires
            old(scopes)@.len() > 0,
        ensures
            outcome_of(r, final(scopes)@) == analyze_atribstat(self@, old(scopes)@),
            disciplined(old(scopes)@, outcome_of(r, final(scopes)@)),
        decreases self, 0nat,
    {
        let SemanticNodeData::Atribstat { lvalue, value } = &self.children else {
            return Err(SemanticError::MalformedTree);
        };
        proof {
            lvalue.lemma_view();
        }
        let SemanticNodeData::Lvalue { id, var_index } = &lvalue.children else {
            return Err(SemanticError::MalformedTree);
        };
        let Some((name, line, column)) = identifier_of(id) else {
            return Err(SemanticError::MalformedTree);
        };
        scopes.count_appearance(name.as_str(), line, column)?;
        let Some(entry) = scopes.get_symbol(name.as_str()) else {
            return Err(SemanticError::SymbolNotFound { name, line, column });
        };
        let right = value.semantic_analysis(scopes)?;
        let Some(Attribute::Data { var_type, place: Some(place) }) = right else {
            return Err(SemanticError::MalformedTree);
        };
        let Some(declared_type) = entry.value_type() else {
            return Err(SemanticError::FunctionAsValue { name, line, column });
        };
        if declared_type != var_type {
            return Err(
                SemanticError::AssignmentMismatch { name, line: place.0, column: place.1 },
            );
        }
        match var_index {
            None => Ok(None),
            Some(var_index) => {
                proof {
                    var_index.lemma_view();
                }
                let SemanticNodeData::VarIndex { index } = &var_index.children else {
                    return Err(SemanticError::MalformedTree);
                };
                SemanticNode::analyze_indexed_nodes(Some((name, line, column)), index, scopes)
            },
        }
    }

    fn analyze_atribstatevalue(&self, scopes: &mut ScopeStack) -> (r: Result<
        Option<Attribute>,
        SemanticError,
    >)
        requires
            old(scopes)@.len() > 0,
        ensures
            outcome_of(r, final(scopes)@) == analyze_atribstatevalue(self@, old(scopes)@),
            disciplined(old(scopes)@, outcome_of(r, final(scopes)@)),
        decreases self, 0nat,
    {
        let SemanticNodeData::Atribstatevalue { expression, allocexpression, funccall } =
            &self.children else {
            return Err(SemanticError::MalformedTree);
        };
        if let Some(expression) = expression {
            return expression.semantic_analysis(scopes);
        }
        if let Some(allocexpression) = allocexpression {
            return allocexpression.semantic_analysis(scopes);
        }
        if let Some(funccall) = funccall {
            return funccall.semantic_analysis(scopes);
        }
        Ok(None)
    }

    fn analyze_elsestat(&self, scopes: &mut ScopeStack) -> (r: Result<
        Option<Attribute>,
        SemanticError,
    >)
        requires
            old(scopes)@.len() > 0,
        ensures
            outcome_of(r, final(scopes)@) == analyze_elsestat(self@, old(scopes)@),
            disciplined(old(scopes)@, outcome_of(r, final(scopes)@)),
        decreases self, 0nat,
    {
        let SemanticNodeData::Elsestat { statement } = &self.children else {
            return Err(SemanticError::MalformedTree);
        };
        scopes.push_scope(ScopeType::Else);
        let result = statement.semantic_analysis(scopes)?;
        scopes.close_scope();
        Ok(result)
    }

    fn analyze_expression(&self, scopes: &mut ScopeStack) -> (r: Result<
        Option<Attribute>,
        SemanticError,
    >)
        requires
            old(scopes)@.len() > 0,
        ensures
            outcome_of(r, final(scopes)@) == analyze_expression(self@, old(scopes)@),
            disciplined(old(scopes)@, outcome_of(r, final(scopes)@)),
        decreases self, 0nat,
    {
        let SemanticNodeData::Expression { numexpression, op_expression, numexpression2 } =
            &self.children else {
            return Err(SemanticError::MalformedTree);
        };
        let left = numexpression.semantic_analysis(scopes)?;
        let Some(Attribute::Data { var_type, place }) = left else {
            return Err(SemanticError::MalformedTree);
        };
        let Some(numexpression2) = numexpression2 else {
            return Ok(Some(Attribute::Data { var_type, place }));
        };
        let right = numexpression2.semantic_analysis(scopes)?;
        let Some(Attribute::Data { var_type: right_type, place: right_place }) = right else {
            return Err(SemanticError::MalformedTree);
        };
        if var_type != right_type {
            let (line, column) = match right_place {
                Some(place) => place,
                None => (0, 0),
            };
            return Err(SemanticError::ExpressionMismatch { line, column });
        }
        Ok(Some(Attribute::Data { var_type: VarType::Int, place }))
    }

    fn analyze_factor(&self, scopes: &mut ScopeStack) -> (r: Result<
        Option<Attribute>,
        SemanticError,
    >)
        requires
            old(scopes)@.len() > 0,
        ensures
            outcome_of(r, final(scopes)@) == analyze_factor(self@, old(scopes)@),
            disciplined(old(scopes)@, outcome_of(r, final(scopes)@)),
        decreases self, 0nat,
    {
        let SemanticNodeData::Factor { expression, lvalue, constant } = &self.children else {
            return Err(SemanticError::MalformedTree);
        };
        if let Some(expression) = expression {
            return expression.semantic_analysis(scopes);
        }
        if let Some(lvalue) = lvalue {
            return lvalue.semantic_analysis(scopes);
        }
        if let Some(constant) = constant {
            return constant.semantic_analysis(scopes);
        }
        Err(SemanticError::MalformedTree)
    }

    fn analyze_forstat(&self, scopes: &mut ScopeStack) -> (r: Result<
        Option<Attribute>,
        SemanticError,
    >)
        requires
            old(scopes)@.len() > 0,
        ensures
            outcome_of(r, final(scopes)@) == analyze_forstat(self@, old(scopes)@),
            disciplined(old(scopes)@, outcome_of(r, final(scopes)@)),
        decreases self, 0nat,
    {
        let SemanticNodeData::Forstat { init, condition, increment, body } = &self.children else {
            return Err(SemanticError::MalformedTree);
        };
        scopes.push_scope(ScopeType::LoopInit);
        init.semantic_analysis(scopes)?;
        condition.semantic_analysis(scopes)?;
        increment.semantic_analysis(scopes)?;
        scopes.push_scope(ScopeType::Loop);
        body.semantic_analysis(scopes)?;
        scopes.close_scope();
        scopes.close_scope();
        Ok(None)
    }

    fn analyze_funccall(&self, scopes: &mut ScopeStack) -> (r: Result<
        Option<Attribute>,
        SemanticError,
    >)
        requires
            old(scopes)@.len() > 0,
        ensures
            outcome_of(r, final(scopes)@) == analyze_funccall(self@, old(scopes)@),
            disciplined(old(scopes)@, outcome_of(r, final(scopes)@)),
    {
        let SemanticNodeData::Funccall { id, paramlistcall } = &self.children else {
            return Err(SemanticError::MalformedTree);
        };
        let Some((name, line, column)) = identifier_of(id) else {
            return Err(SemanticError::MalformedTree);
        };
        let Some(function) = scopes.get_symbol(name.as_str()) else {
            return Err(SemanticError::UndefinedFunction { name, line, column });
        };
        if !function.is_function {
            return Err(SemanticError::UndefinedFunction { name, line, column });
        }
        let types = match paramlistcall {
            None => Vec::new(),
            Some(paramlistcall) => {
                proof {
                    paramlistcall.lemma_view();
                }
                let SemanticNodeData::Paramlistcall { paramlist } = &paramlistcall.children else {
                    return Err(SemanticError::MalformedTree);
                };
                arguments_of(paramlist, scopes)?
            },
        };
        if !same_types(&function.var_type, &types) {
            return Err(SemanticError::ArgumentMismatch { name, line, column });
        }
        scopes.count_appearance(name.as_str(), line, column)?;
        Ok(Some(Attribute::Data { var_type: VarType::Int, place: Some((line, column)) }))
    }

    fn analyze_funcdef(&self, scopes: &mut ScopeStack) -> (r: Result<
        Option<Attribute>,
        SemanticError,
    >)
        requires
            old(scopes)@.len() > 0,
        ensures
            outcome_of(r, final(scopes)@) == analyze_funcdef(self@, old(scopes)@),
            disciplined(old(scopes)@, outcome_of(r, final(scopes)@)),
        decreases self, 0nat,
    {
        let SemanticNodeData::Funcdef { func_id, paramlist, statelist } = &self.children else {
            return Err(SemanticError::MalformedTree);
        };
        let Some((name, line, column)) = identifier_of(func_id) else {
            return Err(SemanticError::MalformedTree);
        };
        let signature = match paramlist {
            None => {
                let found: Vec<(VarType, String, usize, usize)> = Vec::new();
                assert(parameter_views(found@) =~= Seq::<Parameter>::empty());
                Some((Vec::new(), found))
            },
            Some(paramlist) => {
                proof {
                    paramlist.lemma_view();
                }
                match &paramlist.children {
                    SemanticNodeData::Paramlist { paramlist } => parameters_of(paramlist),
                    _ => None,
                }
            },
        };
        let Some((types, found)) = signature else {
            return Err(SemanticError::MalformedTree);
        };
        let entry = SymbolEntry {
            appearances: single_place(line, column),
            var_type: types,
            const_index: Vec::new(),
            is_function: true,
        };
        scopes.insert_symbol(name, entry)?;
        scopes.push_scope(ScopeType::Function);
        declare_parameters_in(found, scopes)?;
        statelist.semantic_analysis(scopes)?;
        scopes.close_scope();
        Ok(None)
    }

    fn analyze_ifstat(&self, scopes: &mut ScopeStack) -> (r: Result<
        Option<Attribute>,
        SemanticError,
    >)
        requires
            old(scopes)@.len() > 0,
        ensures
            outcome_of(r, final(scopes)@) == analyze_ifstat(self@, old(scopes)@),
            disciplined(old(scopes)@, outcome_of(r, final(scopes)@)),
        decreases self, 0nat,
    {
        let SemanticNodeData::Ifstat { condition, then_branch, else_branch } = &self.children else {
            return Err(SemanticError::MalformedTree);
        };
        condition.semantic_analysis(scopes)?;
        scopes.push_scope(ScopeType::If);
        then_branch.semantic_analysis(scopes)?;
        scopes.close_scope();
        if let Some(else_branch) = else_branch {
            else_branch.semantic_analysis(scopes)?;
        }
        Ok(None)
    }

    fn analyze_lvalue(&self, scopes: &mut ScopeStack) -> (r: Result<
        Option<Attribute>,
        SemanticError,
    >)
        requires
            old(scopes)@.len() > 0,
        ensures
            outcome_of(r, final(scopes)@) == analyze_lvalue(self@, old(scopes)@),
            disciplined(old(scopes)@, outcome_of(r, final(scopes)@)),
        decreases self, 0nat,
    {
        let SemanticNodeData::Lvalue { id, var_index } = &self.children else {
            return Err(SemanticError::MalformedTree);
        };
        let named = id.semantic_analysis(scopes)?;
        let Some(attribute) = named else {
            return Err(SemanticError::MalformedTree);
        };
        if let Some(var_index) = var_index {
            proof {
                var_index.lemma_view();
            }
            let SemanticNodeData::VarIndex { index } = &var_index.children else {
                return Err(SemanticError::MalformedTree);
            };
            SemanticNode::analyze_indexed_nodes(identifier_of(id), index, scopes)?;
        }
        Ok(Some(attribute))
    }

    fn analyze_right_operand(
        left_type: VarType,
        left_place: Option<(usize, usize)>,
        right: &Option<Box<SemanticNode>>,
        scopes: &mut ScopeStack,
    ) -> (r: Result<Option<Attribute>, SemanticError>)
        requires
            old(scopes)@.len() > 0,
        ensures
            outcome_of(r, final(scopes)@) == analyze_right_operand(
                left_type,
                left_place,
                SemanticNode::model_of_option(*right),
                old(scopes)@,
            ),
            disciplined(old(scopes)@, outcome_of(r, final(scopes)@)),
        decreases right, 0nat,
    {
        let Some(right) = right else {
            return Ok(Some(Attribute::Data { var_type: left_type, place: left_place }));
        };
        let second = right.semantic_analysis(scopes)?;
        let Some(Attribute::Data { var_type, place }) = second else {
            return Err(SemanticError::MalformedTree);
        };
        if left_type != var_type {
            let (line, column) = match place {
                Some(place) => place,
                None => (0, 0),
            };
            return Err(SemanticError::NumericMismatch { line, column });
        }
        Ok(Some(Attribute::Data { var_type: left_type, place: left_place }))
    }

    fn analyze_numexpression(&self, scopes: &mut ScopeStack) -> (r: Result<
        Option<Attribute>,
        SemanticError,
    >)
        requires
            old(scopes)@.len() > 0,
        ensures
            outcome_of(r, final(scopes)@) == analyze_numexpression(self@, old(scopes)@),
            disciplined(old(scopes)@, outcome_of(r, final(scopes)@)),
        decreases self, 0nat,
    {
        let SemanticNodeData::Numexpression { term, op_numexpression, term2 } = &self.children else {
            return Err(SemanticError::MalformedTree);
        };
        let left = term.semantic_analysis(scopes)?;
        let Some(Attribute::Data { var_type, place }) = left else {
            return Err(SemanticError::MalformedTree);
        };
        if let Some(op_numexpression) = op_numexpression {
            op_numexpression.semantic_analysis(scopes)?;
        }
        SemanticNode::analyze_right_operand(var_type, place, term2, scopes)
    }

    fn analyze_program(&self, scopes: &mut ScopeStack) -> (r: Result<
        Option<Attribute>,
        SemanticError,
    >)
        requires
            old(scopes)@.len() > 0,
        ensures
            outcome_of(r, final(scopes)@) == analyze_program(self@, old(scopes)@),
            disciplined(old(scopes)@, outcome_of(r, final(scopes)@)),
        decreases self, 0nat,
    {
        let SemanticNodeData::Program { funclist, statement } = &self.children else {
            return Err(SemanticError::MalformedTree);
        };
        if let Some(funclist) = funclist {
            return funclist.semantic_analysis(scopes);
        }
        if let Some(statement) = statement {
            return statement.semantic_analysis(scopes);
        }
        Err(SemanticError::MalformedTree)
    }

    fn analyze_readstat(&self, scopes: &mut ScopeStack) -> (r: Result<
        Option<Attribute>,
        SemanticError,
    >)
        requires
            old(scopes)@.len() > 0,
        ensures
            outcome_of(r, final(scopes)@) == analyze_readstat(self@, old(scopes)@),
            disciplined(old(scopes)@, outcome_of(r, final(scopes)@)),
        decreases self, 0nat,
    {
        let SemanticNodeData::Readstat { lvalue } = &self.children else {
            return Err(SemanticError::MalformedTree);
        };
        proof {
            lvalue.lemma_view();
        }
        let SemanticNodeData::Lvalue { id, var_index } = &lvalue.children else {
            return Err(SemanticError::MalformedTree);
        };
        let Some((name, line, column)) = identifier_of(id) else {
            return Err(SemanticError::MalformedTree);
        };
        let variable = use_variable(name.clone(), line, column, scopes)?;
        match variable {
            Some(Attribute::Data { var_type, place }) => {
                if var_type != VarType::String {
                    return Err(SemanticError::ReadNotString { found: var_type, line, column });
                }
                if let Some(var_index) = var_index {
                    proof {
                        var_index.lemma_view();
                    }
                    let SemanticNodeData::VarIndex { index } = &var_index.children else {
                        return Err(SemanticError::MalformedTree);
                    };
                    SemanticNode::analyze_indexed_nodes(
                        Some((name, line, column)),
                        index,
                        scopes,
                    )?;
                }
                Ok(None)
            },
            _ => Ok(variable),
        }
    }

    fn analyze_statement(&self, scopes: &mut ScopeStack) -> (r: Result<
        Option<Attribute>,
        SemanticError,
    >)
        requires
            old(scopes)@.len() > 0,
        ensures
            outcome_of(r, final(scopes)@) == analyze_statement(self@, old(scopes)@),
            disciplined(old(scopes)@, outcome_of(r, final(scopes)@)),
        decreases self, 0nat,
    {
        let SemanticNodeData::Statement {
            vardecl,
            atribstat,
            ifstat,
            forstat,
            statelist,
            commandstat,
        } = &self.children else {
            return Err(SemanticError::MalformedTree);
        };
        if let Some(vardecl) = vardecl {
            return vardecl.semantic_analysis(scopes);
        }
        if let Some(atribstat) = atribstat {
            return atribstat.semantic_analysis(scopes);
        }
        if let Some(ifstat) = ifstat {
            return ifstat.semantic_analysis(scopes);
        }
        if let Some(forstat) = forstat {
            return forstat.semantic_analysis(scopes);
        }
        if let Some(statelist) = statelist {
            scopes.push_scope(ScopeType::Any);
            statelist.semantic_analysis(scopes)?;
            scopes.close_scope();
            return Ok(None);
        }
        if let Some(commandstat) = commandstat {
            if let Some(error) = illegal_command_of(commandstat, scopes) {
                return Err(error);
            }
            return commandstat.semantic_analysis(scopes);
        }
        Ok(None)
    }

    fn analyze_term(&self, scopes: &mut ScopeStack) -> (r: Result<Option<Attribute>, SemanticError>)
        requires
            old(scopes)@.len() > 0,
        ensures
            outcome_of(r, final(scopes)@) == analyze_term(self@, old(scopes)@),
            disciplined(old(scopes)@, outcome_of(r, final(scopes)@)),
        decreases self, 0nat,
    {
        let SemanticNodeData::Term { unaryexpression, op_term, unaryexpression2 } =
            &self.children else {
            return Err(SemanticError::MalformedTree);
        };
        let left = unaryexpression.semantic_analysis(scopes)?;
        let Some(Attribute::Data { var_type, place }) = left else {
            return Err(SemanticError::MalformedTree);
        };
        SemanticNode::analyze_right_operand(var_type, place, unaryexpression2, scopes)
    }

    fn analyze_vardecl(&self, scopes: &mut ScopeStack) -> (r: Result<
        Option<Attribute>,
        SemanticError,
    >)
        requires
            old(scopes)@.len() > 0,
        ensures
            outcome_of(r, final(scopes)@) == analyze_vardecl(self@, old(scopes)@),
            disciplined(old(scopes)@, outcome_of(r, final(scopes)@)),
    {
        let SemanticNodeData::Vardecl { var_type, id, const_index } = &self.children else {
            return Err(SemanticError::MalformedTree);
        };
        proof {
            var_type.lemma_view();
        }
        let SemanticNodeData::Terminal { value: keyword } = &var_type.children else {
            return Err(SemanticError::MalformedTree);
        };
        let Some(ConstType::VarType(declared_type)) = &keyword.value else {
            return Err(SemanticError::MalformedTree);
        };
        let Some((name, line, column)) = identifier_of(id) else {
            return Err(SemanticError::MalformedTree);
        };
        let dimensions = match const_index {
            None => Some(Vec::new()),
            Some(const_index) => {
                proof {
                    const_index.lemma_view();
                }
                match &const_index.children {
                    SemanticNodeData::ConstIndex { index } => bounds_of(index),
                    _ => None,
                }
            },
        };
        let Some(dimensions) = dimensions else {
            return Err(SemanticError::MalformedTree);
        };
        let entry = SymbolEntry {
            appearances: single_place(line, column),
            var_type: single_type(*declared_type),
            const_index: dimensions,
            is_function: false,
        };
        scopes.insert_symbol(name, entry)?;
        Ok(None)
    }

    fn analyze_terminal(&self, scopes: &mut ScopeStack) -> (r: Result<
        Option<Attribute>,
        SemanticError,
    >)
        requires
            old(scopes)@.len() > 0,
        ensures
            outcome_of(r, final(scopes)@) == analyze_terminal(self@, old(scopes)@),
            disciplined(old(scopes)@, outcome_of(r, final(scopes)@)),
    {
        let SemanticNodeData::Terminal { value } = &self.children else {
            return Err(SemanticError::MalformedTree);
        };
        let place = Some((value.line, value.column));
        match value.token_type {
            TokenType::Eof => {
                if scopes.stack.len() == 1 {
                    Ok(Some(Attribute::Operator(TokenType::Eof)))
                } else {
                    Err(SemanticError::MalformedTree)
                }
            },
            TokenType::ConstInt => match &value.value {
                Some(ConstType::Int(_)) => Ok(
                    Some(Attribute::Data { var_type: VarType::Int, place }),
                ),
                _ => Err(SemanticError::MalformedTree),
            },
            TokenType::ConstFloat => match &value.value {
                Some(ConstType::Float(_)) => Ok(
                    Some(Attribute::Data { var_type: VarType::Float, place }),
                ),
                _ => Err(SemanticError::MalformedTree),
            },
            TokenType::ConstString => match &value.value {
                Some(ConstType::String(_)) => Ok(
                    Some(Attribute::Data { var_type: VarType::String, place }),
                ),
                _ => Err(SemanticError::MalformedTree),
            },
            TokenType::Id => match &value.value {
                Some(ConstType::String(name)) => use_variable(
                    name.clone(),
                    value.line,
                    value.column,
                    scopes,
                ),
                _ => Err(SemanticError::MalformedTree),
            },
            TokenType::VarType => {
                if value.has_type() {
                    Ok(Some(Attribute::Data { var_type: value.get_type(), place }))
                } else {
                    Err(SemanticError::MalformedTree)
                }
            },
            _ => Ok(None),
        }
    }

    /// Analyses the tree below this node with the scopes `scopes`: the
    /// attribute of the node or the first error, and the scopes as
    /// [`analyze`] leaves them. The analysis closes no scope that was
    /// open when it began and takes no name from one of them; where it
    /// goes through, it has closed every scope that it opened.
    pub fn semantic_analysis(&self, scopes: &mut ScopeStack) -> (r: Result<
        Option<Attribute>,
        SemanticError,
    >)
        requires
            old(scopes)@.len() > 0,
        ensures
            outcome_of(r, final(scopes)@) == analyze(self@, old(scopes)@),
            disciplined(old(scopes)@, outcome_of(r, final(scopes)@)),
        decreases self, 1nat,
    {
        match &self.children {
            SemanticNodeData::Allocexpression { .. } => self.analyze_allocexpression(scopes),
            SemanticNodeData::Atribstat { .. } => self.analyze_atribstat(scopes),
            SemanticNodeData::Atribstatevalue { .. } => self.analyze_atribstatevalue(scopes),
            SemanticNodeData::Constant { value, line, column } => Ok(
                Some(Attribute::Data { var_type: value.get_type(), place: Some((*line, *column)) }),
            ),
            SemanticNodeData::ConstIndex { index } => SemanticNode::analyze_nodes(index, scopes),
            SemanticNodeData::Elsestat { .. } => self.analyze_elsestat(scopes),
            SemanticNodeData::Expression { .. } => self.analyze_expression(scopes),
            SemanticNodeData::Factor { .. } => self.analyze_factor(scopes),
            SemanticNodeData::Forstat { .. } => self.analyze_forstat(scopes),
            SemanticNodeData::Funccall { .. } => self.analyze_funccall(scopes),
            SemanticNodeData::Funcdef { .. } => self.analyze_funcdef(scopes),
            SemanticNodeData::Funclist { funclist } => SemanticNode::analyze_nodes(
                funclist,
                scopes,
            ),
            SemanticNodeData::Ifstat { .. } => self.analyze_ifstat(scopes),
            SemanticNodeData::Lvalue { .. } => self.analyze_lvalue(scopes),
            SemanticNodeData::Numexpression { .. } => self.analyze_numexpression(scopes),
            SemanticNodeData::OpExpression { op } => Ok(Some(Attribute::Operator(*op))),
            SemanticNodeData::OpNumexpression { op } => Ok(Some(Attribute::Operator(*op))),
            SemanticNodeData::OpTerm { op } => Ok(Some(Attribute::Operator(*op))),
            SemanticNodeData::Paramlist { .. } => Err(SemanticError::MalformedTree),
            SemanticNodeData::Paramlistcall { paramlist } => SemanticNode::analyze_nodes(
                paramlist,
                scopes,
            ),
            SemanticNodeData::Printstat { expression } => expression.semantic_analysis(scopes),
            SemanticNodeData::Program { .. } => self.analyze_program(scopes),
            SemanticNodeData::Readstat { .. } => self.analyze_readstat(scopes),
            SemanticNodeData::Returnstat { .. } => Ok(None),
            SemanticNodeData::Statelist { statelist } => SemanticNode::analyze_nodes(
                statelist,
                scopes,
            ),
            SemanticNodeData::Statement { .. } => self.analyze_statement(scopes),
            SemanticNodeData::Term { .. } => self.analyze_term(scopes),
            SemanticNodeData::Unaryexpression { op, factor } => factor.semantic_analysis(scopes),
            SemanticNodeData::Vardecl { .. } => self.analyze_vardecl(scopes),
            SemanticNodeData::VarIndex { index } => SemanticNode::analyze_index_nodes(
                index,
                scopes,
            ),
            SemanticNodeData::Terminal { .. } => self.analyze_terminal(scopes),
        }
    }
}

/// An abstract syntax tree with the scope stack of its analysis.
#[derive(Debug, PartialEq)]
pub struct SemanticTree {
    pub root: SemanticNode,
    pub scopes: ScopeStack,
}

impl SemanticTree {
    /// Analyses the tree with its scope stack. See
    /// [`SemanticNode::semantic_analysis`].
    pub fn semantic_analysis(&mut self) -> (r: Result<(), SemanticError>)
        requires
            old(self).scopes@.len() > 0,
        ensures
            final(self).root == old(self).root,
            final(self).scopes@ == analyze(old(self).root@, old(self).scopes@).scopes,
            match r {
                Ok(()) => analyze(old(self).root@, old(self).scopes@).result.is_ok(),
                Err(error) => analyze(old(self).root@, old(self).scopes@).result == Err::<
                    Option<Attribute>,
                    SemanticErrorView,
                >(error@),
            },
            disciplined(old(self).scopes@, analyze(old(self).root@, old(self).scopes@)),
    {
        match self.root.semantic_analysis(&mut self.scopes) {
            Ok(_) => Ok(()),
            Err(error) => Err(error),
        }
    }
}

/// Redefinition and shadowing: after a declaration went through, the
/// same declaration once more in the same scope is a redefinition, and
/// in a scope opened since it goes through again.
pub proof fn lemma_redefinition_and_shadowing(
    declaration: Ast,
    scopes: Scopes,
    kind: ScopeType,
)
    requires
        declaration is Vardecl,
        scopes.len() > 0,
        analyze(declaration, scopes).result.is_ok(),
    ensures
        analyze(declaration, analyze(declaration, scopes).scopes).result.is_err(),
        analyze(declaration, analyze(declaration, scopes).scopes).result.unwrap_err().kind()
            == SemanticErrorKind::Redefinition,
        analyze(declaration, pushed(analyze(declaration, scopes).scopes, kind)).result.is_ok(),
{
}

/// The statement that holds the command `command` and nothing else.
pub open spec fn command_statement(command: Ast) -> Ast {
    Ast::Statement {
        vardecl: None,
        atribstat: None,
        ifstat: None,
        forstat: None,
        statelist: None,
        commandstat: Some(Box::new(command)),
    }
}

/// Legality of `break`: a `break` statement goes through where a loop
/// scope is open, however many scopes were opened inside the loop, and
/// is an illegal break at its place where none is open.
pub proof fn lemma_break_legality(token: TokenView, scopes: Scopes, kind: ScopeType)
    requires
        token.token_type == TokenType::KwBreak,
    ensures
        has_kind(scopes, ScopeType::Loop) ==> analyze(
            command_statement(Ast::Terminal { value: token }),
            scopes,
        ) == done(None, scopes),
        !has_kind(scopes, ScopeType::Loop) ==> analyze(
            command_statement(Ast::Terminal { value: token }),
            scopes,
        ) == failed(
            SemanticErrorView::IllegalBreak { line: token.line, column: token.column },
            scopes,
        ),
        has_kind(scopes, ScopeType::Loop) ==> has_kind(pushed(scopes, kind), ScopeType::Loop),
        has_kind(pushed(scopes, ScopeType::Loop), ScopeType::Loop),
{
    let command = Ast::Terminal { value: token };
    let statement = command_statement(command);
    assert(analyze(statement, scopes) == analyze_statement(statement, scopes));
    assert(analyze(command, scopes) == analyze_terminal(command, scopes));
    if has_kind(scopes, ScopeType::Loop) {
        let i = choose|i: int|
            0 <= i < scopes.open.len() && #[trigger] scopes.open[i].kind == ScopeType::Loop;
        assert(pushed(scopes, kind).open[i].kind == ScopeType::Loop);
    }
    assert(pushed(scopes, ScopeType::Loop).open[scopes.open.len() as int].kind == ScopeType::Loop);
}

/// Legality of `return`: a `return` statement goes through where a
/// function scope is open, however many scopes were opened inside the
/// function, and is an illegal return at its place where none is open.
pub proof fn lemma_return_legality(token: TokenView, scopes: Scopes, kind: ScopeType)
    ensures
        has_kind(scopes, ScopeType::Function) ==> analyze(
            command_statement(Ast::Returnstat { token }),
            scopes,
        ) == done(None, scopes),
        !has_kind(scopes, ScopeType::Function) ==> analyze(
            command_statement(Ast::Returnstat { token }),
            scopes,
        ) == failed(
            SemanticErrorView::IllegalReturn { line: token.line, column: token.column },
            scopes,
        ),
        has_kind(scopes, ScopeType::Function) ==> has_kind(
            pushed(scopes, kind),
            ScopeType::Function,
        ),
{
    let command = Ast::Returnstat { token };
    let statement = command_statement(command);
    assert(analyze(statement, scopes) == analyze_statement(statement, scopes));
    assert(analyze(command, scopes) == done(None, scopes));
    if has_kind(scopes, ScopeType::Function) {
        let i = choose|i: int|
            0 <= i < scopes.open.len() && #[trigger] scopes.open[i].kind == ScopeType::Function;
        assert(pushed(scopes, kind).open[i].kind == ScopeType::Function);
    }
}

/// The assignment of `value` to the variable `name`, without indices.
pub open spec fn assignment(name: TokenView, value: Ast) -> Ast {
    Ast::Atribstat {
        lvalue: Box::new(
            Ast::Lvalue { id: Box::new(Ast::Terminal { value: name }), var_index: None },
        ),
        value: Box::new(value),
    }
}

/// Type check of an assignment: where the name is that of a declared
/// variable and the value has a type and a place, the assignment goes
/// through if the two types are equal, and else is a type mismatch at
/// the place of the value.
pub proof fn lemma_assignment_types(
    token: TokenView,
    name: Seq<char>,
    value: Ast,
    scopes: Scopes,
    value_type: VarType,
    place: (usize, usize),
)
    requires
        token.value == Some(ConstValue::String(name)),
        lookup(scopes, name).is_some(),
        lookup(scopes, name).unwrap().value_type().is_some(),
        analyze(value, used(scopes, name, token.line, token.column)).result == Ok::<
            Option<Attribute>,
            SemanticErrorView,
        >(Some(Attribute::Data { var_type: value_type, place: Some(place) })),
    ensures
        lookup(scopes, name).unwrap().value_type() == Some(value_type) ==> analyze(
            assignment(token, value),
            scopes,
        ).result == Ok::<Option<Attribute>, SemanticErrorView>(None),
        lookup(scopes, name).unwrap().value_type() != Some(value_type) ==> analyze(
            assignment(token, value),
            scopes,
        ).result == Err::<Option<Attribute>, SemanticErrorView>(
            SemanticErrorView::AssignmentMismatch { name, line: place.0, column: place.1 },
        ),
{
    crate::scope_stack::lemma_resolve(scopes.open, name);
    let seen = used(scopes, name, token.line, token.column);
    let at = crate::scope_stack::resolve(scopes.open, name).unwrap();
    crate::scope_stack::lemma_resolve_at(seen.open, name, at);
    let whole = assignment(token, value);
    assert(analyze(whole, scopes) == analyze_atribstat(whole, scopes));
    assert(lookup(seen, name).unwrap().value_type() == lookup(scopes, name).unwrap().value_type());
}

/// The name of a function is no value: the use of a name that
/// resolves to a function is refused, however many parameters the
/// function has.
pub proof fn lemma_function_is_no_value(name: Seq<char>, line: usize, column: usize, scopes: Scopes)
    requires
        lookup(scopes, name).is_some(),
        lookup(scopes, name).unwrap().is_function,
    ensures
        analyze_use(name, line, column, scopes).result == Err::<
            Option<Attribute>,
            SemanticErrorView,
        >(SemanticErrorView::FunctionAsValue { name, line, column }),
{
    crate::scope_stack::lemma_resolve(scopes.open, name);
    let seen = used(scopes, name, line, column);
    let at = crate::scope_stack::resolve(scopes.open, name).unwrap();
    crate::scope_stack::lemma_resolve_at(seen.open, name, at);
}

/// The name of a function is no argument: a call with an argument that
/// resolves to a function is refused, however many parameters that
/// function has and whatever the arguments behind it are.
pub proof fn lemma_function_is_no_argument(
    arguments: Seq<Ast>,
    from: int,
    types: Seq<VarType>,
    scopes: Scopes,
)
    requires
        0 <= from < arguments.len(),
        identifier(arguments[from]).is_some(),
        lookup(scopes, identifier(arguments[from]).unwrap().0).is_some(),
        lookup(scopes, identifier(arguments[from]).unwrap().0).unwrap().is_function,
    ensures
        analyze_arguments(arguments, from, types, scopes).result == Err::<
            Seq<VarType>,
            SemanticErrorView,
        >(SemanticErrorView::FunctionAsArgument { name: identifier(arguments[from]).unwrap().0 }),
{
}

/// The scopes with which the expression at `i` of `index` is analysed
/// when the analysis of the expressions begins at `from` with `scopes`
/// and those before `i` go through.
pub open spec fn scopes_before(index: Seq<Ast>, from: int, i: int, scopes: Scopes) -> Scopes
    decreases i - from,
{
    if 0 <= from < i && from < index.len() {
        scopes_before(index, from + 1, i, analyze(index[from], scopes).scopes)
    } else {
        scopes
    }
}

/// Every index is an integer: where the analysis of the expressions in
/// square brackets goes through, each of them was found to be an
/// integer. A variable with an index of another type, read or written,
/// and an allocation with such a dimension are refused.
pub proof fn lemma_indices_are_integers(index: Seq<Ast>, from: int, i: int, scopes: Scopes)
    requires
        0 <= from <= i < index.len(),
        analyze_indices(index, from, scopes).result.is_ok(),
    ensures
        match analyze(index[i], scopes_before(index, from, i, scopes)).result {
            Ok(Some(Attribute::Data { var_type, place })) => var_type == VarType::Int,
            _ => false,
        },
    decreases i - from,
{
    if from < i {
        lemma_indices_are_integers(index, from + 1, i, analyze(index[from], scopes).scopes);
    }
}

/// An l-value hands on the error of its indices: a variable that is
/// read with an index that is refused is refused with the same error.
pub proof fn lemma_indices_of_a_variable_that_is_read(id: Ast, index: Seq<Ast>, scopes: Scopes)
    requires
        match analyze(id, scopes).result {
            Ok(Some(_)) => true,
            _ => false,
        },
        analyze_indices(index, 0, analyze(id, scopes).scopes).result.is_err(),
    ensures
        analyze(
            Ast::Lvalue {
                id: Box::new(id),
                var_index: Some(Box::new(Ast::VarIndex { index })),
            },
            scopes,
        ) == analyze_indices(index, 0, analyze(id, scopes).scopes),
{
    let whole = Ast::Lvalue {
        id: Box::new(id),
        var_index: Some(Box::new(Ast::VarIndex { index })),
    };
    assert(analyze(whole, scopes) == analyze_lvalue(whole, scopes));
}

} // verus!
