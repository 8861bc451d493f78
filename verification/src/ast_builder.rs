//! The building of the abstract syntax tree from the parse tree, rule by
//! rule.
//!
//! The grammar writes lists and left-associative operators with
//! right-recursive rules. The builder hands the part built so far
//! down such a chain as an inherited value: a list grows by the piece
//! that each step parses, an operator chain folds the operand built so
//! far with the next one, and the empty rule at the end of the chain
//! turns the inherited value into the node that goes up.

use vstd::prelude::*;
use crate::cfg::NonTerminal;
use crate::grammar::semantic_node::{Ast, SemanticNodeData};
use crate::grammar::token_type::TokenType;
use crate::semantic::SemanticNode;
use crate::syntax::{Node, ParseTree, Symbol, SymbolView};

verus! {

/// The list that a chain has built so far; the empty list where nothing
/// was inherited.
pub open spec fn inherited_list(inh: Option<Seq<Ast>>) -> Seq<Ast> {
    match inh {
        Some(list) => list,
        None => Seq::empty(),
    }
}

/// The first of the inherited nodes: the operand that an operator chain
/// has built so far.
pub open spec fn inherited_operand(inh: Option<Seq<Ast>>) -> Option<Ast> {
    match inh {
        Some(list) => if list.len() > 0 {
            Some(list[0])
        } else {
            None
        },
        None => None,
    }
}

/// The statement in which at most one of the six fields is present.
pub open spec fn statement_of(field: int, node: Option<Ast>) -> Option<Ast> {
    match node {
        Some(node) => Some(
            Ast::Statement {
                vardecl: if field == 0 {
                    Some(Box::new(node))
                } else {
                    None
                },
                atribstat: if field == 1 {
                    Some(Box::new(node))
                } else {
                    None
                },
                ifstat: if field == 2 {
                    Some(Box::new(node))
                } else {
                    None
                },
                forstat: if field == 3 {
                    Some(Box::new(node))
                } else {
                    None
                },
                statelist: if field == 4 {
                    Some(Box::new(node))
                } else {
                    None
                },
                commandstat: if field == 5 {
                    Some(Box::new(node))
                } else {
                    None
                },
            },
        ),
        None => None,
    }
}

/// The abstract syntax tree of a node that was expanded by the rules
/// `PROGRAM -> FUNCLIST eof | STATEMENT eof`.
pub open spec fn visit_program(tree: ParseTree, inh: Option<Seq<Ast>>) -> Option<Ast>
    decreases tree, 0nat,
{
    let c = tree.children;
    if c.len() != 2 {
        None
    } else {
        match c[0].value {
            SymbolView::NonTerminal(NonTerminal::Funclist) => match visit(c[0], None) {
                Some(funclist) => Some(
                    Ast::Program { funclist: Some(Box::new(funclist)), statement: None },
                ),
                None => None,
            },
            SymbolView::NonTerminal(NonTerminal::Statement) => match visit(c[0], None) {
                Some(statement) => Some(
                    Ast::Program { funclist: None, statement: Some(Box::new(statement)) },
                ),
                None => None,
            },
            _ => None,
        }
    }
}

/// The abstract syntax tree of a node that was expanded by the rules
/// `FUNCLIST -> FUNCDEF FUNCLIST | ''`.
pub open spec fn visit_funclist(tree: ParseTree, inh: Option<Seq<Ast>>) -> Option<Ast>
    decreases tree, 0nat,
{
    let c = tree.children;
    if c.len() == 0 {
        match inh {
            Some(list) => Some(Ast::Funclist { funclist: list }),
            None => None,
        }
    } else if c.len() == 2 {
        match visit(c[0], None) {
            Some(funcdef) => visit(c[1], Some(inherited_list(inh).push(funcdef))),
            None => None,
        }
    } else {
        None
    }
}

/// The abstract syntax tree of a node that was expanded by the rules
/// `FUNCDEF -> kw_def func_id ( PARAMLIST ) { STATELIST }`.
pub open spec fn visit_funcdef(tree: ParseTree, inh: Option<Seq<Ast>>) -> Option<Ast>
    decreases tree, 0nat,
{
    let c = tree.children;
    if c.len() != 8 {
        None
    } else {
        match (visit(c[1], None), visit_optional(c[3]), visit(c[6], None)) {
            (Some(func_id), Some(paramlist), Some(statelist)) => Some(
                Ast::Funcdef {
                    func_id: Box::new(func_id),
                    paramlist,
                    statelist: Box::new(statelist),
                },
            ),
            _ => None,
        }
    }
}

/// The abstract syntax tree of a node that was expanded by the rules
/// `PARAMLIST -> var_type id PARAMLIST1`.
pub open spec fn visit_paramlist(tree: ParseTree, inh: Option<Seq<Ast>>) -> Option<Ast>
    decreases tree, 0nat,
{
    let c = tree.children;
    if c.len() != 3 {
        None
    } else {
        match (visit(c[0], None), visit(c[1], None)) {
            (Some(var_type), Some(id)) => visit(
                c[2],
                Some(inherited_list(inh).push(var_type).push(id)),
            ),
            _ => None,
        }
    }
}

/// The abstract syntax tree of a node that was expanded by the rules
/// `PARAMLIST1 -> , var_type id PARAMLIST1 | ''`.
pub open spec fn visit_paramlist1(tree: ParseTree, inh: Option<Seq<Ast>>) -> Option<Ast>
    decreases tree, 0nat,
{
    let c = tree.children;
    if c.len() == 0 {
        match inh {
            Some(list) => Some(Ast::Paramlist { paramlist: list }),
            None => None,
        }
    } else if c.len() == 4 {
        match (visit(c[1], None), visit(c[2], None)) {
            (Some(var_type), Some(id)) => visit(
                c[3],
                Some(inherited_list(inh).push(var_type).push(id)),
            ),
            _ => None,
        }
    } else {
        None
    }
}

/// The abstract syntax tree of a node that was expanded by the rules
/// `STATELIST -> STATEMENT STATELIST1`.
pub open spec fn visit_statelist(tree: ParseTree, inh: Option<Seq<Ast>>) -> Option<Ast>
    decreases tree, 0nat,
{
    let c = tree.children;
    if c.len() != 2 {
        None
    } else {
        match visit(c[0], None) {
            Some(statement) => visit(c[1], Some(seq![statement])),
            None => None,
        }
    }
}

/// The abstract syntax tree of a node that was expanded by the rules
/// `STATELIST1 -> STATEMENT STATELIST1 | ''`.
pub open spec fn visit_statelist1(tree: ParseTree, inh: Option<Seq<Ast>>) -> Option<Ast>
    decreases tree, 0nat,
{
    let c = tree.children;
    if c.len() == 0 {
        match inh {
            Some(list) => Some(Ast::Statelist { statelist: list }),
            None => None,
        }
    } else if c.len() == 2 {
        match visit(c[0], None) {
            Some(statement) => visit(c[1], Some(inherited_list(inh).push(statement))),
            None => None,
        }
    } else {
        None
    }
}

/// The abstract syntax tree of a node that was expanded by the rules
/// `STATEMENT -> VARDECL ; | ATRIBSTAT ; | PRINTSTAT ; | READSTAT ; | RETURNSTAT ;`
/// `           | kw_break ; | IFSTAT | FORSTAT | { STATELIST } | ;`.
pub open spec fn visit_statement(tree: ParseTree, inh: Option<Seq<Ast>>) -> Option<Ast>
    decreases tree, 0nat,
{
    let c = tree.children;
    if c.len() == 0 {
        None
    } else {
        match c[0].value {
            SymbolView::NonTerminal(NonTerminal::Vardecl) => statement_of(
                0,
                visit(c[0], None),
            ),
            SymbolView::NonTerminal(NonTerminal::Atribstat) => statement_of(
                1,
                visit(c[0], None),
            ),
            SymbolView::NonTerminal(NonTerminal::Ifstat) => statement_of(
                2,
                visit(c[0], None),
            ),
            SymbolView::NonTerminal(NonTerminal::Forstat) => statement_of(
                3,
                visit(c[0], None),
            ),
            SymbolView::Terminal(TokenType::Lbrace, _) => if c.len() < 2 {
                None
            } else {
                statement_of(4, visit(c[1], None))
            },
            SymbolView::NonTerminal(NonTerminal::Printstat)
            | SymbolView::NonTerminal(NonTerminal::Readstat)
            | SymbolView::NonTerminal(NonTerminal::Returnstat)
            | SymbolView::Terminal(TokenType::KwBreak, _) => statement_of(
                5,
                visit(c[0], None),
            ),
            SymbolView::Terminal(TokenType::Semicolon, _) => Some(
                Ast::Statement {
                    vardecl: None,
                    atribstat: None,
                    ifstat: None,
                    forstat: None,
                    statelist: None,
                    commandstat: None,
                },
            ),
            _ => None,
        }
    }
}

/// The abstract syntax tree of a node that was expanded by the rules
/// `VARDECL -> var_type id CONST_INDEX`.
pub open spec fn visit_vardecl(tree: ParseTree, inh: Option<Seq<Ast>>) -> Option<Ast>
    decreases tree, 0nat,
{
    let c = tree.children;
    if c.len() < 3 {
        None
    } else {
        match (visit(c[0], None), visit(c[1], None), visit_optional(c[2])) {
            (Some(var_type), Some(id), Some(const_index)) => Some(
                Ast::Vardecl { var_type: Box::new(var_type), id: Box::new(id), const_index },
            ),
            _ => None,
        }
    }
}

/// The abstract syntax tree of a node that was expanded by the rules
/// `CONST_INDEX -> [ const_int ] CONST_INDEX | ''`.
pub open spec fn visit_constindex(tree: ParseTree, inh: Option<Seq<Ast>>) -> Option<Ast>
    decreases tree, 0nat,
{
    let c = tree.children;
    if c.len() == 0 {
        match inh {
            Some(list) => Some(Ast::ConstIndex { index: list }),
            None => None,
        }
    } else if c.len() == 4 {
        match visit(c[1], None) {
            Some(bound) => visit(c[3], Some(inherited_list(inh).push(bound))),
            None => None,
        }
    } else {
        None
    }
}

/// The abstract syntax tree of a node that was expanded by the rules
/// `VAR_INDEX -> [ NUMEXPRESSION ] VAR_INDEX | ''`.
pub open spec fn visit_varindex(tree: ParseTree, inh: Option<Seq<Ast>>) -> Option<Ast>
    decreases tree, 0nat,
{
    let c = tree.children;
    if c.len() == 0 {
        match inh {
            Some(list) => Some(Ast::VarIndex { index: list }),
            None => None,
        }
    } else if c.len() == 4 {
        match visit(c[1], None) {
            Some(index) => visit(c[3], Some(inherited_list(inh).push(index))),
            None => None,
        }
    } else {
        None
    }
}

/// The abstract syntax tree of a node that was expanded by the rules
/// `ATRIBSTAT -> LVALUE = ATRIBSTATEVALUE`.
pub open spec fn visit_atribstat(tree: ParseTree, inh: Option<Seq<Ast>>) -> Option<Ast>
    decreases tree, 0nat,
{
    let c = tree.children;
    if c.len() < 3 {
        None
    } else {
        match (visit(c[0], None), visit(c[2], None)) {
            (Some(lvalue), Some(value)) => Some(
                Ast::Atribstat { lvalue: Box::new(lvalue), value: Box::new(value) },
            ),
            _ => None,
        }
    }
}

/// The abstract syntax tree of a node that was expanded by the rules
/// `ATRIBSTATEVALUE -> EXPRESSION | ALLOCEXPRESSION | FUNCCALL`.
pub open spec fn visit_atribstatevalue(tree: ParseTree, inh: Option<Seq<Ast>>) -> Option<Ast>
    decreases tree, 0nat,
{
    let c = tree.children;
    if c.len() == 0 {
        None
    } else {
        match c[0].value {
            SymbolView::NonTerminal(NonTerminal::Expression) => match visit(c[0], None) {
                Some(expression) => Some(
                    Ast::Atribstatevalue {
                        expression: Some(Box::new(expression)),
                        allocexpression: None,
                        funccall: None,
                    },
                ),
                None => None,
            },
            SymbolView::NonTerminal(NonTerminal::Allocexpression) => match visit(
                c[0],
                None,
            ) {
                Some(allocexpression) => Some(
                    Ast::Atribstatevalue {
                        expression: None,
                        allocexpression: Some(Box::new(allocexpression)),
                        funccall: None,
                    },
                ),
                None => None,
            },
            SymbolView::NonTerminal(NonTerminal::Funccall) => match visit(c[0], None) {
                Some(funccall) => Some(
                    Ast::Atribstatevalue {
                        expression: None,
                        allocexpression: None,
                        funccall: Some(Box::new(funccall)),
                    },
                ),
                None => None,
            },
            _ => None,
        }
    }
}

/// The abstract syntax tree of a node that was expanded by the rules
/// `FUNCCALL -> func_id ( PARAMLISTCALL )`.
pub open spec fn visit_funccall(tree: ParseTree, inh: Option<Seq<Ast>>) -> Option<Ast>
    decreases tree, 0nat,
{
    let c = tree.children;
    if c.len() < 3 {
        None
    } else {
        match (visit(c[0], None), visit_optional(c[2])) {
            (Some(id), Some(paramlistcall)) => Some(
                Ast::Funccall { id: Box::new(id), paramlistcall },
            ),
            _ => None,
        }
    }
}

/// The abstract syntax tree of a node that was expanded by the rules
/// `PARAMLISTCALL -> id PARAMLISTCALL1`.
pub open spec fn visit_paramlistcall(tree: ParseTree, inh: Option<Seq<Ast>>) -> Option<Ast>
    decreases tree, 0nat,
{
    let c = tree.children;
    if c.len() != 2 {
        None
    } else {
        match visit(c[0], None) {
            Some(argument) => visit(c[1], Some(seq![argument])),
            None => None,
        }
    }
}

/// The abstract syntax tree of a node that was expanded by the rules
/// `PARAMLISTCALL1 -> , id PARAMLISTCALL1 | ''`.
pub open spec fn visit_paramlistcall1(tree: ParseTree, inh: Option<Seq<Ast>>) -> Option<Ast>
    decreases tree, 0nat,
{
    let c = tree.children;
    if c.len() == 0 {
        match inh {
            Some(list) => Some(Ast::Paramlistcall { paramlist: list }),
            None => None,
        }
    } else if c.len() == 3 {
        match visit(c[1], None) {
            Some(argument) => visit(c[2], Some(inherited_list(inh).push(argument))),
            None => None,
        }
    } else {
        None
    }
}

/// The abstract syntax tree of a node that was expanded by the rules
/// `PRINTSTAT -> kw_print EXPRESSION`.
pub open spec fn visit_printstat(tree: ParseTree, inh: Option<Seq<Ast>>) -> Option<Ast>
    decreases tree, 0nat,
{
    let c = tree.children;
    if c.len() != 2 {
        None
    } else {
        match visit(c[1], None) {
            Some(expression) => Some(Ast::Printstat { expression: Box::new(expression) }),
            None => None,
        }
    }
}

/// The abstract syntax tree of a node that was expanded by the rules
/// `READSTAT -> kw_read LVALUE`.
pub open spec fn visit_readstat(tree: ParseTree, inh: Option<Seq<Ast>>) -> Option<Ast>
    decreases tree, 0nat,
{
    let c = tree.children;
    if c.len() != 2 {
        None
    } else {
        match visit(c[1], None) {
            Some(lvalue) => Some(Ast::Readstat { lvalue: Box::new(lvalue) }),
            None => None,
        }
    }
}

/// The abstract syntax tree of a node that was expanded by the rules
/// `RETURNSTAT -> kw_return`.
pub open spec fn visit_returnstat(tree: ParseTree, inh: Option<Seq<Ast>>) -> Option<Ast>
    decreases tree, 0nat,
{
    let c = tree.children;
    if c.len() == 0 {
        None
    } else {
        match c[0].value {
            SymbolView::Terminal(_, Some(token)) => Some(Ast::Returnstat { token }),
            _ => None,
        }
    }
}

/// The abstract syntax tree of a node that was expanded by the rules
/// `IFSTAT -> kw_if ( EXPRESSION ) { STATELIST } ELSESTAT`.
pub open spec fn visit_ifstat(tree: ParseTree, inh: Option<Seq<Ast>>) -> Option<Ast>
    decreases tree, 0nat,
{
    let c = tree.children;
    if c.len() != 8 {
        None
    } else {
        match (visit(c[2], None), visit(c[5], None), visit_optional(c[7])) {
            (Some(condition), Some(then_branch), Some(else_branch)) => Some(
                Ast::Ifstat {
                    condition: Box::new(condition),
                    then_branch: Box::new(then_branch),
                    else_branch,
                },
            ),
            _ => None,
        }
    }
}

/// The abstract syntax tree of a node that was expanded by the rules
/// `ELSESTAT -> kw_else ELSESTAT1 | ''`.
pub open spec fn visit_elsestat(tree: ParseTree, inh: Option<Seq<Ast>>) -> Option<Ast>
    decreases tree, 0nat,
{
    let c = tree.children;
    if c.len() != 2 {
        None
    } else {
        match visit(c[1], None) {
            Some(statement) => Some(Ast::Elsestat { statement: Box::new(statement) }),
            None => None,
        }
    }
}

/// The abstract syntax tree of a node that was expanded by the rules
/// `ELSESTAT1 -> { STATELIST } | IFSTAT`.
pub open spec fn visit_elsestat1(tree: ParseTree, inh: Option<Seq<Ast>>) -> Option<Ast>
    decreases tree, 0nat,
{
    let c = tree.children;
    if c.len() == 3 {
        visit(c[1], None)
    } else if c.len() == 1 {
        visit(c[0], None)
    } else {
        None
    }
}

/// The abstract syntax tree of a node that was expanded by the rules
/// `FORSTAT -> kw_for ( ATRIBSTAT ; EXPRESSION ; ATRIBSTAT ) { STATELIST }`.
pub open spec fn visit_forstat(tree: ParseTree, inh: Option<Seq<Ast>>) -> Option<Ast>
    decreases tree, 0nat,
{
    let c = tree.children;
    if c.len() != 11 {
        None
    } else {
        match (visit(c[2], None), visit(c[4], None), visit(c[6], None), visit(c[9], None)) {
            (Some(init), Some(condition), Some(increment), Some(body)) => Some(
                Ast::Forstat {
                    init: Box::new(init),
                    condition: Box::new(condition),
                    increment: Box::new(increment),
                    body: Box::new(body),
                },
            ),
            _ => None,
        }
    }
}

/// The abstract syntax tree of a node that was expanded by the rules
/// `ALLOCEXPRESSION -> kw_new var_type VAR_INDEX`.
pub open spec fn visit_allocexpression(tree: ParseTree, inh: Option<Seq<Ast>>) -> Option<Ast>
    decreases tree, 0nat,
{
    let c = tree.children;
    if c.len() != 3 {
        None
    } else {
        match (visit(c[1], None), visit(c[2], None)) {
            (Some(var_type), Some(dimensions)) => Some(
                Ast::Allocexpression {
                    var_type: Box::new(var_type),
                    dimensions: Box::new(dimensions),
                },
            ),
            _ => None,
        }
    }
}

/// The abstract syntax tree of a node that was expanded by the rules
/// `EXPRESSION -> NUMEXPRESSION EXPRESSION1`
/// `NUMEXPRESSION -> TERM NUMEXPRESSION1`
/// `TERM -> UNARYEXPRESSION TERM1`.
pub open spec fn visit_operand_chain(tree: ParseTree, inh: Option<Seq<Ast>>) -> Option<Ast>
    decreases tree, 0nat,
{
    let c = tree.children;
    if c.len()
        < 2 {
        None
    } else {
        match visit(c[0], None) {
            Some(operand) => visit(c[1], Some(seq![operand])),
            None => None,
        }
    }
}

/// The abstract syntax tree of a node that was expanded by the rules
/// `EXPRESSION1 -> OP_EXPRESSION NUMEXPRESSION | ''`.
pub open spec fn visit_expression1(tree: ParseTree, inh: Option<Seq<Ast>>) -> Option<Ast>
    decreases tree, 0nat,
{
    let c = tree.children;
    if c.len() == 0 {
        match inherited_operand(inh) {
            Some(left) => Some(
                Ast::Expression {
                    numexpression: Box::new(left),
                    op_expression: None,
                    numexpression2: None,
                },
            ),
            None => None,
        }
    } else if c.len() == 2 {
        match (inherited_operand(inh), visit(c[0], None), visit(c[1], None)) {
            (Some(left), Some(op), Some(right)) => Some(
                Ast::Expression {
                    numexpression: Box::new(left),
                    op_expression: Some(Box::new(op)),
                    numexpression2: Some(Box::new(right)),
                },
            ),
            _ => None,
        }
    } else {
        None
    }
}

/// The abstract syntax tree of a node that was expanded by the rules
/// `NUMEXPRESSION1 -> OP_NUMEXPRESSION TERM NUMEXPRESSION1 | ''`.
pub open spec fn visit_numexpression1(tree: ParseTree, inh: Option<Seq<Ast>>) -> Option<Ast>
    decreases tree, 0nat,
{
    let c = tree.children;
    if c.len() == 0 {
        match inherited_operand(inh) {
            Some(left) => match left {
                Ast::Numexpression { .. } => Some(left),
                Ast::Term { .. } => Some(
                    Ast::Numexpression {
                        term: Box::new(left),
                        op_numexpression: None,
                        term2: None,
                    },
                ),
                _ => None,
            },
            None => None,
        }
    } else if c.len() == 3 {
        match (inherited_operand(inh), visit(c[0], None), visit(c[1], None)) {
            (Some(left), Some(op), Some(right)) => visit(
                c[2],
                Some(
                    seq![
                        Ast::Numexpression {
                            term: Box::new(left),
                            op_numexpression: Some(Box::new(op)),
                            term2: Some(Box::new(right)),
                        },
                    ],
                ),
            ),
            _ => None,
        }
    } else {
        None
    }
}

/// The abstract syntax tree of a node that was expanded by the rules
/// `TERM1 -> OP_TERM UNARYEXPRESSION TERM1 | ''`.
pub open spec fn visit_term1(tree: ParseTree, inh: Option<Seq<Ast>>) -> Option<Ast>
    decreases tree, 0nat,
{
    let c = tree.children;
    if c.len() == 0 {
        match inherited_operand(inh) {
            Some(left) => match left {
                Ast::Term { .. } => Some(left),
                Ast::Unaryexpression { .. } => Some(
                    Ast::Term {
                        unaryexpression: Box::new(left),
                        op_term: None,
                        unaryexpression2: None,
                    },
                ),
                _ => None,
            },
            None => None,
        }
    } else if c.len() == 3 {
        match (inherited_operand(inh), visit(c[0], None), visit(c[1], None)) {
            (Some(left), Some(op), Some(right)) => visit(
                c[2],
                Some(
                    seq![
                        Ast::Term {
                            unaryexpression: Box::new(left),
                            op_term: Some(Box::new(op)),
                            unaryexpression2: Some(Box::new(right)),
                        },
                    ],
                ),
            ),
            _ => None,
        }
    } else {
        None
    }
}

/// The abstract syntax tree of a node that was expanded by the rules
/// `UNARYEXPRESSION -> FACTOR | OP_NUMEXPRESSION FACTOR`.
pub open spec fn visit_unaryexpression(tree: ParseTree, inh: Option<Seq<Ast>>) -> Option<Ast>
    decreases tree, 0nat,
{
    let c = tree.children;
    if c.len() == 1 {
        match visit(c[0], None) {
            Some(factor) => Some(Ast::Unaryexpression { op: None, factor: Box::new(factor) }),
            None => None,
        }
    } else if c.len() == 2 {
        match (visit(c[0], None), visit(c[1], None)) {
            (Some(op), Some(factor)) => Some(
                Ast::Unaryexpression { op: Some(Box::new(op)), factor: Box::new(factor) },
            ),
            _ => None,
        }
    } else {
        None
    }
}

/// The abstract syntax tree of a node that was expanded by the rules
/// `FACTOR -> ( EXPRESSION ) | LVALUE | CONSTANT`.
pub open spec fn visit_factor(tree: ParseTree, inh: Option<Seq<Ast>>) -> Option<Ast>
    decreases tree, 0nat,
{
    let c = tree.children;
    if c.len() == 0 {
        None
    } else {
        match c[0].value {
            SymbolView::Terminal(TokenType::Lparenthesis, _) => if c.len() < 2 {
                None
            } else {
                match visit(c[1], None) {
                    Some(expression) => Some(
                        Ast::Factor {
                            expression: Some(Box::new(expression)),
                            lvalue: None,
                            constant: None,
                        },
                    ),
                    None => None,
                }
            },
            SymbolView::NonTerminal(NonTerminal::Lvalue) => match visit(c[0], None) {
                Some(lvalue) => Some(
                    Ast::Factor {
                        expression: None,
                        lvalue: Some(Box::new(lvalue)),
                        constant: None,
                    },
                ),
                None => None,
            },
            SymbolView::NonTerminal(NonTerminal::Constant) => match visit(c[0], None) {
                Some(constant) => Some(
                    Ast::Factor {
                        expression: None,
                        lvalue: None,
                        constant: Some(Box::new(constant)),
                    },
                ),
                None => None,
            },
            _ => None,
        }
    }
}

/// The abstract syntax tree of a node that was expanded by the rules
/// `LVALUE -> id VAR_INDEX`.
pub open spec fn visit_lvalue(tree: ParseTree, inh: Option<Seq<Ast>>) -> Option<Ast>
    decreases tree, 0nat,
{
    let c = tree.children;
    if c.len() != 2 {
        None
    } else {
        match (visit(c[0], None), visit_optional(c[1])) {
            (Some(id), Some(var_index)) => Some(Ast::Lvalue { id: Box::new(id), var_index }),
            _ => None,
        }
    }
}

/// The abstract syntax tree of a node that was expanded by the rules
/// `CONSTANT -> const_int | const_float | const_string | const_null`.
pub open spec fn visit_constant(tree: ParseTree, inh: Option<Seq<Ast>>) -> Option<Ast>
    decreases tree, 0nat,
{
    let c = tree.children;
    if c.len() == 0 {
        None
    } else {
        match c[0].value {
            SymbolView::Terminal(_, Some(token)) => match token.value {
                Some(value) => Some(
                    Ast::Constant { value, line: token.line, column: token.column },
                ),
                None => None,
            },
            _ => None,
        }
    }
}

/// The abstract syntax tree of a node that was expanded by the rules
/// `OP_EXPRESSION -> == | != | > | >= | < | <=`.
pub open spec fn visit_opexpression(tree: ParseTree, inh: Option<Seq<Ast>>) -> Option<Ast>
    decreases tree, 0nat,
{
    let c = tree.children;
    if c.len() == 0 {
        None
    } else {
        match c[0].value {
            SymbolView::Terminal(op, _) => Some(Ast::OpExpression { op }),
            _ => None,
        }
    }
}

/// The abstract syntax tree of a node that was expanded by the rules
/// `OP_NUMEXPRESSION -> + | -`.
pub open spec fn visit_opnumexpression(tree: ParseTree, inh: Option<Seq<Ast>>) -> Option<Ast>
    decreases tree, 0nat,
{
    let c = tree.children;
    if c.len() == 0 {
        None
    } else {
        match c[0].value {
            SymbolView::Terminal(op, _) => Some(Ast::OpNumexpression { op }),
            _ => None,
        }
    }
}

/// The abstract syntax tree of a node that was expanded by the rules
/// `OP_TERM -> * | / | %`.
pub open spec fn visit_opterm(tree: ParseTree, inh: Option<Seq<Ast>>) -> Option<Ast>
    decreases tree, 0nat,
{
    let c = tree.children;
    if c.len() == 0 {
        None
    } else {
        match c[0].value {
            SymbolView::Terminal(op, _) => Some(Ast::OpTerm { op }),
            _ => None,
        }
    }
}
/// The abstract syntax tree of a parse tree, given what the node
/// inherits; `None` where the parse tree does not have the shape that
/// the grammar of the language gives it.
///
/// A terminal becomes a node that keeps its token. A non-terminal is
/// built by the rules that the grammar has for it.
pub open spec fn visit(tree: ParseTree, inh: Option<Seq<Ast>>) -> Option<Ast>
    decreases tree, 1nat,
{
    match tree.value {
        SymbolView::Terminal(_, token) => match token {
            Some(token) => Some(Ast::Terminal { value: token }),
            None => None,
        },
        SymbolView::NonTerminal(non_terminal) => match non_terminal {
            NonTerminal::Program => visit_program(tree, inh),
            NonTerminal::Funclist => visit_funclist(tree, inh),
            NonTerminal::Funcdef => visit_funcdef(tree, inh),
            NonTerminal::Paramlist => visit_paramlist(tree, inh),
            NonTerminal::Paramlist1 => visit_paramlist1(tree, inh),
            NonTerminal::Statelist => visit_statelist(tree, inh),
            NonTerminal::Statelist1 => visit_statelist1(tree, inh),
            NonTerminal::Statement => visit_statement(tree, inh),
            NonTerminal::Vardecl => visit_vardecl(tree, inh),
            NonTerminal::ConstIndex => visit_constindex(tree, inh),
            NonTerminal::VarIndex => visit_varindex(tree, inh),
            NonTerminal::Atribstat => visit_atribstat(tree, inh),
            NonTerminal::Atribstatevalue => visit_atribstatevalue(tree, inh),
            NonTerminal::Funccall => visit_funccall(tree, inh),
            NonTerminal::Paramlistcall => visit_paramlistcall(tree, inh),
            NonTerminal::Paramlistcall1 => visit_paramlistcall1(tree, inh),
            NonTerminal::Printstat => visit_printstat(tree, inh),
            NonTerminal::Readstat => visit_readstat(tree, inh),
            NonTerminal::Returnstat => visit_returnstat(tree, inh),
            NonTerminal::Ifstat => visit_ifstat(tree, inh),
            NonTerminal::Elsestat => visit_elsestat(tree, inh),
            NonTerminal::Elsestat1 => visit_elsestat1(tree, inh),
            NonTerminal::Forstat => visit_forstat(tree, inh),
            NonTerminal::Allocexpression => visit_allocexpression(tree, inh),
            NonTerminal::Expression | NonTerminal::Numexpression | NonTerminal::Term => visit_operand_chain(
                tree,
                inh,
            ),
            NonTerminal::Expression1 => visit_expression1(tree, inh),
            NonTerminal::Numexpression1 => visit_numexpression1(tree, inh),
            NonTerminal::Term1 => visit_term1(tree, inh),
            NonTerminal::Unaryexpression => visit_unaryexpression(tree, inh),
            NonTerminal::Factor => visit_factor(tree, inh),
            NonTerminal::Lvalue => visit_lvalue(tree, inh),
            NonTerminal::Constant => visit_constant(tree, inh),
            NonTerminal::OpExpression => visit_opexpression(tree, inh),
            NonTerminal::OpNumexpression => visit_opnumexpression(tree, inh),
            NonTerminal::OpTerm => visit_opterm(tree, inh),
        },
    }
}

/// The tree of an optional part of a construct: absent where the parse
/// tree of the part has no children, which is how the empty rule shows.
pub open spec fn visit_optional(tree: ParseTree) -> Option<Option<Box<Ast>>>
    decreases tree, 2nat,
{
    if tree.children.len() > 0 {
        match visit(tree, None) {
            Some(node) => Some(Some(Box::new(node))),
            None => None,
        }
    } else {
        Some(None)
    }
}

/// The mathematical value of what a node inherits.
pub open spec fn inherited_view(inh: Option<Vec<SemanticNode>>) -> Option<Seq<Ast>> {
    match inh {
        Some(list) => Some(SemanticNode::models(list)),
        None => None,
    }
}

/// The mathematical value of what a visit returns.
pub open spec fn outcome_view(outcome: Option<SemanticNode>) -> Option<Ast> {
    match outcome {
        Some(node) => Some(node@),
        None => None,
    }
}

/// The mathematical value of what the visit of an optional part
/// returns.
pub open spec fn optional_outcome_view(outcome: Option<Option<Box<SemanticNode>>>) -> Option<
    Option<Box<Ast>>,
> {
    match outcome {
        Some(node) => Some(SemanticNode::model_of_option(node)),
        None => None,
    }
}

fn wrap(children: SemanticNodeData) -> (r: SemanticNode)
    ensures
        r@ == children@,
{
    SemanticNode { children }
}

fn take_list(inh: Option<Vec<SemanticNode>>) -> (r: Vec<SemanticNode>)
    ensures
        SemanticNode::models(r) == inherited_list(inherited_view(inh)),
{
    match inh {
        Some(list) => list,
        None => {
            let list: Vec<SemanticNode> = Vec::new();
            assert(SemanticNode::models(list) =~= Seq::<Ast>::empty());
            list
        },
    }
}

fn take_operand(inh: Option<Vec<SemanticNode>>) -> (r: Option<SemanticNode>)
    ensures
        outcome_view(r) == inherited_operand(inherited_view(inh)),
{
    match inh {
        Some(list) => {
            let mut list = list;
            if list.len() > 0 {
                Some(list.remove(0))
            } else {
                None
            }
        },
        None => None,
    }
}

fn grown(list: Vec<SemanticNode>, node: SemanticNode) -> (r: Vec<SemanticNode>)
    ensures
        SemanticNode::models(r) == SemanticNode::models(list).push(node@),
{
    let mut list = list;
    let ghost before = SemanticNode::models(list);
    let ghost added = node@;
    list.push(node);
    assert(SemanticNode::models(list) =~= before.push(added));
    list
}

fn single(node: SemanticNode) -> (r: Vec<SemanticNode>)
    ensures
        SemanticNode::models(r) == seq![node@],
{
    let mut list: Vec<SemanticNode> = Vec::new();
    let ghost added = node@;
    list.push(node);
    assert(SemanticNode::models(list) =~= seq![added]);
    list
}

fn statement_with(field: u8, node: SemanticNode) -> (r: SemanticNode)
    requires
        field < 6,
    ensures
        Some(r@) == statement_of(field as int, Some(node@)),
{
    let mut vardecl: Option<Box<SemanticNode>> = None;
    let mut atribstat: Option<Box<SemanticNode>> = None;
    let mut ifstat: Option<Box<SemanticNode>> = None;
    let mut forstat: Option<Box<SemanticNode>> = None;
    let mut statelist: Option<Box<SemanticNode>> = None;
    let mut commandstat: Option<Box<SemanticNode>> = None;
    if field == 0 {
        vardecl = Some(Box::new(node));
    } else if field == 1 {
        atribstat = Some(Box::new(node));
    } else if field == 2 {
        ifstat = Some(Box::new(node));
    } else if field == 3 {
        forstat = Some(Box::new(node));
    } else if field == 4 {
        statelist = Some(Box::new(node));
    } else {
        commandstat = Some(Box::new(node));
    }
    wrap(
        SemanticNodeData::Statement { vardecl, atribstat, ifstat, forstat, statelist, commandstat },
    )
}

impl Node {
    /// The children of the parse tree of a node are the parse trees of
    /// its children.
    pub proof fn lemma_children(&self)
        ensures
            self@.value == self.value@,
            self@.children.len() == self.children@.len(),
            forall|i: int| 0 <= i < self.children@.len() ==> self@.children[i] == self.children@[i]@,
    {
    }

    /// Builds the tree of an optional part of a construct. See
    /// [`visit_optional`].
    pub fn visit_optional(&self) -> (r: Option<Option<Box<SemanticNode>>>)
        ensures
            optional_outcome_view(r) == visit_optional(self@),
        decreases self, 2nat,
    {
        proof {
            self.lemma_children();
        }
        if self.children.len() > 0 {
            match self.visit(None) {
                Some(node) => Some(Some(Box::new(node))),
                None => None,
            }
        } else {
            Some(None)
        }
    }

    /// See [`visit_program`].
    fn visit_program(&self, inh: Option<Vec<SemanticNode>>) -> (r: Option<SemanticNode>)
        ensures
            outcome_view(r) == visit_program(self@, inherited_view(inh)),
        decreases self, 0nat,
    {
        proof {
            self.lemma_children();
        }
        let c = &self.children;
        let n = c.len();
        if n != 2 {
            return None;
        }
        proof {
            c[0].lemma_children();
        }
        match &c[0].value {
            Symbol::NonTerminal(NonTerminal::Funclist) => {
                let Some(funclist) = c[0].visit(None) else {
                    return None;
                };
                Some(
                    wrap(
                        SemanticNodeData::Program {
                            funclist: Some(Box::new(funclist)),
                            statement: None,
                        },
                    ),
                )
            },
            Symbol::NonTerminal(NonTerminal::Statement) => {
                let Some(statement) = c[0].visit(None) else {
                    return None;
                };
                Some(
                    wrap(
                        SemanticNodeData::Program {
                            funclist: None,
                            statement: Some(Box::new(statement)),
                        },
                    ),
                )
            },
            _ => None,
        }
    }

    /// See [`visit_funclist`].
    fn visit_funclist(&self, inh: Option<Vec<SemanticNode>>) -> (r: Option<SemanticNode>)
        ensures
            outcome_view(r) == visit_funclist(self@, inherited_view(inh)),
        decreases self, 0nat,
    {
        proof {
            self.lemma_children();
        }
        let c = &self.children;
        let n = c.len();
        if n == 0 {
            match inh {
                Some(list) => Some(wrap(SemanticNodeData::Funclist { funclist: list })),
                None => None,
            }
        } else if n == 2 {
            let Some(funcdef) = c[0].visit(None) else {
                return None;
            };
            c[1].visit(Some(grown(take_list(inh), funcdef)))
        } else {
            None
        }
    }

    /// See [`visit_funcdef`].
    fn visit_funcdef(&self, inh: Option<Vec<SemanticNode>>) -> (r: Option<SemanticNode>)
        ensures
            outcome_view(r) == visit_funcdef(self@, inherited_view(inh)),
        decreases self, 0nat,
    {
        proof {
            self.lemma_children();
        }
        let c = &self.children;
        let n = c.len();
        if n != 8 {
            return None;
        }
        let Some(func_id) = c[1].visit(None) else {
            return None;
        };
        let Some(paramlist) = c[3].visit_optional() else {
            return None;
        };
        let Some(statelist) = c[6].visit(None) else {
            return None;
        };
        Some(
            wrap(
                SemanticNodeData::Funcdef {
                    func_id: Box::new(func_id),
                    paramlist,
                    statelist: Box::new(statelist),
                },
            ),
        )
    }

    /// See [`visit_paramlist`].
    fn visit_paramlist(&self, inh: Option<Vec<SemanticNode>>) -> (r: Option<SemanticNode>)
        ensures
            outcome_view(r) == visit_paramlist(self@, inherited_view(inh)),
        decreases self, 0nat,
    {
        proof {
            self.lemma_children();
        }
        let c = &self.children;
        let n = c.len();
        if n != 3 {
            return None;
        }
        let Some(var_type) = c[0].visit(None) else {
            return None;
        };
        let Some(id) = c[1].visit(None) else {
            return None;
        };
        c[2].visit(Some(grown(grown(take_list(inh), var_type), id)))
    }

    /// See [`visit_paramlist1`].
    fn visit_paramlist1(&self, inh: Option<Vec<SemanticNode>>) -> (r: Option<SemanticNode>)
        ensures
            outcome_view(r) == visit_paramlist1(self@, inherited_view(inh)),
        decreases self, 0nat,
    {
        proof {
            self.lemma_children();
        }
        let c = &self.children;
        let n = c.len();
        if n == 0 {
            match inh {
                Some(list) => Some(
                    wrap(SemanticNodeData::Paramlist { paramlist: list }),
                ),
                None => None,
            }
        } else if n == 4 {
            let Some(var_type) = c[1].visit(None) else {
                return None;
            };
            let Some(id) = c[2].visit(None) else {
                return None;
            };
            c[3].visit(Some(grown(grown(take_list(inh), var_type), id)))
        } else {
            None
        }
    }

    /// See [`visit_statelist`].
    fn visit_statelist(&self, inh: Option<Vec<SemanticNode>>) -> (r: Option<SemanticNode>)
        ensures
            outcome_view(r) == visit_statelist(self@, inherited_view(inh)),
        decreases self, 0nat,
    {
        proof {
            self.lemma_children();
        }
        let c = &self.children;
        let n = c.len();
        if n != 2 {
            return None;
        }
        let Some(statement) = c[0].visit(None) else {
            return None;
        };
        c[1].visit(Some(single(statement)))
    }

    /// See [`visit_statelist1`].
    fn visit_statelist1(&self, inh: Option<Vec<SemanticNode>>) -> (r: Option<SemanticNode>)
        ensures
            outcome_view(r) == visit_statelist1(self@, inherited_view(inh)),
        decreases self, 0nat,
    {
        proof {
            self.lemma_children();
        }
        let c = &self.children;
        let n = c.len();
        if n == 0 {
            match inh {
                Some(list) => Some(
                    wrap(SemanticNodeData::Statelist { statelist: list }),
                ),
                None => None,
            }
        } else if n == 2 {
            let Some(statement) = c[0].visit(None) else {
                return None;
            };
            c[1].visit(Some(grown(take_list(inh), statement)))
        } else {
            None
        }
    }

    /// See [`visit_statement`].
    fn visit_statement(&self, inh: Option<Vec<SemanticNode>>) -> (r: Option<SemanticNode>)
        ensures
            outcome_view(r) == visit_statement(self@, inherited_view(inh)),
        decreases self, 0nat,
    {
        proof {
            self.lemma_children();
        }
        let c = &self.children;
        let n = c.len();
        if n == 0 {
            return None;
        }
        proof {
            c[0].lemma_children();
        }
        let (field, from): (u8, usize) = match &c[0].value {
            Symbol::NonTerminal(NonTerminal::Vardecl) => (0, 0),
            Symbol::NonTerminal(NonTerminal::Atribstat) => (1, 0),
            Symbol::NonTerminal(NonTerminal::Ifstat) => (2, 0),
            Symbol::NonTerminal(NonTerminal::Forstat) => (3, 0),
            Symbol::Terminal(TokenType::Lbrace, _) => (4, 1),
            Symbol::NonTerminal(NonTerminal::Printstat)
            | Symbol::NonTerminal(NonTerminal::Readstat)
            | Symbol::NonTerminal(NonTerminal::Returnstat)
            | Symbol::Terminal(TokenType::KwBreak, _) => (5, 0),
            Symbol::Terminal(TokenType::Semicolon, _) => {
                return Some(
                    wrap(
                        SemanticNodeData::Statement {
                            vardecl: None,
                            atribstat: None,
                            ifstat: None,
                            forstat: None,
                            statelist: None,
                            commandstat: None,
                        },
                    ),
                );
            },
            _ => {
                return None;
            },
        };
        if from >= n {
            return None;
        }
        let Some(node) = c[from].visit(None) else {
            return None;
        };
        Some(statement_with(field, node))
    }

    /// See [`visit_vardecl`].
    fn visit_vardecl(&self, inh: Option<Vec<SemanticNode>>) -> (r: Option<SemanticNode>)
        ensures
            outcome_view(r) == visit_vardecl(self@, inherited_view(inh)),
        decreases self, 0nat,
    {
        proof {
            self.lemma_children();
        }
        let c = &self.children;
        let n = c.len();
        if n < 3 {
            return None;
        }
        let Some(var_type) = c[0].visit(None) else {
            return None;
        };
        let Some(id) = c[1].visit(None) else {
            return None;
        };
        let Some(const_index) = c[2].visit_optional() else {
            return None;
        };
        Some(
            wrap(
                SemanticNodeData::Vardecl {
                    var_type: Box::new(var_type),
                    id: Box::new(id),
                    const_index,
                },
            ),
        )
    }

    /// See [`visit_constindex`].
    fn visit_constindex(&self, inh: Option<Vec<SemanticNode>>) -> (r: Option<SemanticNode>)
        ensures
            outcome_view(r) == visit_constindex(self@, inherited_view(inh)),
        decreases self, 0nat,
    {
        proof {
            self.lemma_children();
        }
        let c = &self.children;
        let n = c.len();
        if n == 0 {
            match inh {
                Some(list) => Some(wrap(SemanticNodeData::ConstIndex { index: list })),
                None => None,
            }
        } else if n == 4 {
            let Some(bound) = c[1].visit(None) else {
                return None;
            };
            c[3].visit(Some(grown(take_list(inh), bound)))
        } else {
            None
        }
    }

    /// See [`visit_varindex`].
    fn visit_varindex(&self, inh: Option<Vec<SemanticNode>>) -> (r: Option<SemanticNode>)
        ensures
            outcome_view(r) == visit_varindex(self@, inherited_view(inh)),
        decreases self, 0nat,
    {
        proof {
            self.lemma_children();
        }
        let c = &self.children;
        let n = c.len();
        if n == 0 {
            match inh {
                Some(list) => Some(wrap(SemanticNodeData::VarIndex { index: list })),
                None => None,
            }
        } else if n == 4 {
            let Some(index) = c[1].visit(None) else {
                return None;
            };
            c[3].visit(Some(grown(take_list(inh), index)))
        } else {
            None
        }
    }

    /// See [`visit_atribstat`].
    fn visit_atribstat(&self, inh: Option<Vec<SemanticNode>>) -> (r: Option<SemanticNode>)
        ensures
            outcome_view(r) == visit_atribstat(self@, inherited_view(inh)),
        decreases self, 0nat,
    {
        proof {
            self.lemma_children();
        }
        let c = &self.children;
        let n = c.len();
        if n < 3 {
            return None;
        }
        let Some(lvalue) = c[0].visit(None) else {
            return None;
        };
        let Some(value) = c[2].visit(None) else {
            return None;
        };
        Some(
            wrap(
                SemanticNodeData::Atribstat {
                    lvalue: Box::new(lvalue),
                    value: Box::new(value),
                },
            ),
        )
    }

    /// See [`visit_atribstatevalue`].
    fn visit_atribstatevalue(&self, inh: Option<Vec<SemanticNode>>) -> (r: Option<SemanticNode>)
        ensures
            outcome_view(r) == visit_atribstatevalue(self@, inherited_view(inh)),
        decreases self, 0nat,
    {
        proof {
            self.lemma_children();
        }
        let c = &self.children;
        let n = c.len();
        if n == 0 {
            return None;
        }
        proof {
            c[0].lemma_children();
        }
        match &c[0].value {
            Symbol::NonTerminal(NonTerminal::Expression) => {
                let Some(expression) = c[0].visit(None) else {
                    return None;
                };
                Some(
                    wrap(
                        SemanticNodeData::Atribstatevalue {
                            expression: Some(Box::new(expression)),
                            allocexpression: None,
                            funccall: None,
                        },
                    ),
                )
            },
            Symbol::NonTerminal(NonTerminal::Allocexpression) => {
                let Some(allocexpression) = c[0].visit(None) else {
                    return None;
                };
                Some(
                    wrap(
                        SemanticNodeData::Atribstatevalue {
                            expression: None,
                            allocexpression: Some(Box::new(allocexpression)),
                            funccall: None,
                        },
                    ),
                )
            },
            Symbol::NonTerminal(NonTerminal::Funccall) => {
                let Some(funccall) = c[0].visit(None) else {
                    return None;
                };
                Some(
                    wrap(
                        SemanticNodeData::Atribstatevalue {
                            expression: None,
                            allocexpression: None,
                            funccall: Some(Box::new(funccall)),
                        },
                    ),
                )
            },
            _ => None,
        }
    }

    /// See [`visit_funccall`].
    fn visit_funccall(&self, inh: Option<Vec<SemanticNode>>) -> (r: Option<SemanticNode>)
        ensures
            outcome_view(r) == visit_funccall(self@, inherited_view(inh)),
        decreases self, 0nat,
    {
        proof {
            self.lemma_children();
        }
        let c = &self.children;
        let n = c.len();
        if n < 3 {
            return None;
        }
        let Some(id) = c[0].visit(None) else {
            return None;
        };
        let Some(paramlistcall) = c[2].visit_optional() else {
            return None;
        };
        Some(wrap(SemanticNodeData::Funccall { id: Box::new(id), paramlistcall }))
    }

    /// See [`visit_paramlistcall`].
    fn visit_paramlistcall(&self, inh: Option<Vec<SemanticNode>>) -> (r: Option<SemanticNode>)
        ensures
            outcome_view(r) == visit_paramlistcall(self@, inherited_view(inh)),
        decreases self, 0nat,
    {
        proof {
            self.lemma_children();
        }
        let c = &self.children;
        let n = c.len();
        if n != 2 {
            return None;
        }
        let Some(argument) = c[0].visit(None) else {
            return None;
        };
        c[1].visit(Some(single(argument)))
    }

    /// See [`visit_paramlistcall1`].
    fn visit_paramlistcall1(&self, inh: Option<Vec<SemanticNode>>) -> (r: Option<SemanticNode>)
        ensures
            outcome_view(r) == visit_paramlistcall1(self@, inherited_view(inh)),
        decreases self, 0nat,
    {
        proof {
            self.lemma_children();
        }
        let c = &self.children;
        let n = c.len();
        if n == 0 {
            match inh {
                Some(list) => Some(
                    wrap(SemanticNodeData::Paramlistcall { paramlist: list }),
                ),
                None => None,
            }
        } else if n == 3 {
            let Some(argument) = c[1].visit(None) else {
                return None;
            };
            c[2].visit(Some(grown(take_list(inh), argument)))
        } else {
            None
        }
    }

    /// See [`visit_printstat`].
    fn visit_printstat(&self, inh: Option<Vec<SemanticNode>>) -> (r: Option<SemanticNode>)
        ensures
            outcome_view(r) == visit_printstat(self@, inherited_view(inh)),
        decreases self, 0nat,
    {
        proof {
            self.lemma_children();
        }
        let c = &self.children;
        let n = c.len();
        if n != 2 {
            return None;
        }
        let Some(expression) = c[1].visit(None) else {
            return None;
        };
        Some(wrap(SemanticNodeData::Printstat { expression: Box::new(expression) }))
    }

    /// See [`visit_readstat`].
    fn visit_readstat(&self, inh: Option<Vec<SemanticNode>>) -> (r: Option<SemanticNode>)
        ensures
            outcome_view(r) == visit_readstat(self@, inherited_view(inh)),
        decreases self, 0nat,
    {
        proof {
            self.lemma_children();
        }
        let c = &self.children;
        let n = c.len();
        if n != 2 {
            return None;
        }
        let Some(lvalue) = c[1].visit(None) else {
            return None;
        };
        Some(wrap(SemanticNodeData::Readstat { lvalue: Box::new(lvalue) }))
    }

    /// See [`visit_returnstat`].
    fn visit_returnstat(&self, inh: Option<Vec<SemanticNode>>) -> (r: Option<SemanticNode>)
        ensures
            outcome_view(r) == visit_returnstat(self@, inherited_view(inh)),
        decreases self, 0nat,
    {
        proof {
            self.lemma_children();
        }
        let c = &self.children;
        let n = c.len();
        if n == 0 {
            return None;
        }
        proof {
            c[0].lemma_children();
        }
        match &c[0].value {
            Symbol::Terminal(_, Some(token)) => Some(
                wrap(SemanticNodeData::Returnstat { token: token.clone() }),
            ),
            _ => None,
        }
    }

    /// See [`visit_ifstat`].
    fn visit_ifstat(&self, inh: Option<Vec<SemanticNode>>) -> (r: Option<SemanticNode>)
        ensures
            outcome_view(r) == visit_ifstat(self@, inherited_view(inh)),
        decreases self, 0nat,
    {
        proof {
            self.lemma_children();
        }
        let c = &self.children;
        let n = c.len();
        if n != 8 {
            return None;
        }
        let Some(condition) = c[2].visit(None) else {
            return None;
        };
        let Some(then_branch) = c[5].visit(None) else {
            return None;
        };
        let Some(else_branch) = c[7].visit_optional() else {
            return None;
        };
        Some(
            wrap(
                SemanticNodeData::Ifstat {
                    condition: Box::new(condition),
                    then_branch: Box::new(then_branch),
                    else_branch,
                },
            ),
        )
    }

    /// See [`visit_elsestat`].
    fn visit_elsestat(&self, inh: Option<Vec<SemanticNode>>) -> (r: Option<SemanticNode>)
        ensures
            outcome_view(r) == visit_elsestat(self@, inherited_view(inh)),
        decreases self, 0nat,
    {
        proof {
            self.lemma_children();
        }
        let c = &self.children;
        let n = c.len();
        if n != 2 {
            return None;
        }
        let Some(statement) = c[1].visit(None) else {
            return None;
        };
        Some(wrap(SemanticNodeData::Elsestat { statement: Box::new(statement) }))
    }

    /// See [`visit_elsestat1`].
    fn visit_elsestat1(&self, inh: Option<Vec<SemanticNode>>) -> (r: Option<SemanticNode>)
        ensures
            outcome_view(r) == visit_elsestat1(self@, inherited_view(inh)),
        decreases self, 0nat,
    {
        proof {
            self.lemma_children();
        }
        let c = &self.children;
        let n = c.len();
        if n == 3 {
            c[1].visit(None)
        } else if n == 1 {
            c[0].visit(None)
        } else {
            None
        }
    }

    /// See [`visit_forstat`].
    fn visit_forstat(&self, inh: Option<Vec<SemanticNode>>) -> (r: Option<SemanticNode>)
        ensures
            outcome_view(r) == visit_forstat(self@, inherited_view(inh)),
        decreases self, 0nat,
    {
        proof {
            self.lemma_children();
        }
        let c = &self.children;
        let n = c.len();
        if n != 11 {
            return None;
        }
        let Some(init) = c[2].visit(None) else {
            return None;
        };
        let Some(condition) = c[4].visit(None) else {
            return None;
        };
        let Some(increment) = c[6].visit(None) else {
            return None;
        };
        let Some(body) = c[9].visit(None) else {
            return None;
        };
        Some(
            wrap(
                SemanticNodeData::Forstat {
                    init: Box::new(init),
                    condition: Box::new(condition),
                    increment: Box::new(increment),
                    body: Box::new(body),
                },
            ),
        )
    }

    /// See [`visit_allocexpression`].
    fn visit_allocexpression(&self, inh: Option<Vec<SemanticNode>>) -> (r: Option<SemanticNode>)
        ensures
            outcome_view(r) == visit_allocexpression(self@, inherited_view(inh)),
        decreases self, 0nat,
    {
        proof {
            self.lemma_children();
        }
        let c = &self.children;
        let n = c.len();
        if n != 3 {
            return None;
        }
        let Some(var_type) = c[1].visit(None) else {
            return None;
        };
        let Some(dimensions) = c[2].visit(None) else {
            return None;
        };
        Some(
            wrap(
                SemanticNodeData::Allocexpression {
                    var_type: Box::new(var_type),
                    dimensions: Box::new(dimensions),
                },
            ),
        )
    }

    /// See [`visit_operand_chain`].
    fn visit_operand_chain(&self, inh: Option<Vec<SemanticNode>>) -> (r: Option<SemanticNode>)
        ensures
            outcome_view(r) == visit_operand_chain(self@, inherited_view(inh)),
        decreases self, 0nat,
    {
        proof {
            self.lemma_children();
        }
        let c = &self.children;
        let n = c.len();
        if n < 2 {
            return None;
        }
        let Some(operand) = c[0].visit(None) else {
            return None;
        };
        c[1].visit(Some(single(operand)))
    }

    /// See [`visit_expression1`].
    fn visit_expression1(&self, inh: Option<Vec<SemanticNode>>) -> (r: Option<SemanticNode>)
        ensures
            outcome_view(r) == visit_expression1(self@, inherited_view(inh)),
        decreases self, 0nat,
    {
        proof {
            self.lemma_children();
        }
        let c = &self.children;
        let n = c.len();
        if n == 0 {
            let Some(left) = take_operand(inh) else {
                return None;
            };
            Some(
                wrap(
                    SemanticNodeData::Expression {
                        numexpression: Box::new(left),
                        op_expression: None,
                        numexpression2: None,
                    },
                ),
            )
        } else if n == 2 {
            let Some(left) = take_operand(inh) else {
                return None;
            };
            let Some(op) = c[0].visit(None) else {
                return None;
            };
            let Some(right) = c[1].visit(None) else {
                return None;
            };
            Some(
                wrap(
                    SemanticNodeData::Expression {
                        numexpression: Box::new(left),
                        op_expression: Some(Box::new(op)),
                        numexpression2: Some(Box::new(right)),
                    },
                ),
            )
        } else {
            None
        }
    }

    /// See [`visit_numexpression1`].
    fn visit_numexpression1(&self, inh: Option<Vec<SemanticNode>>) -> (r: Option<SemanticNode>)
        ensures
            outcome_view(r) == visit_numexpression1(self@, inherited_view(inh)),
        decreases self, 0nat,
    {
        proof {
            self.lemma_children();
        }
        let c = &self.children;
        let n = c.len();
        if n == 0 {
            let Some(left) = take_operand(inh) else {
                return None;
            };
            let folded = match &left.children {
                SemanticNodeData::Numexpression { .. } => true,
                SemanticNodeData::Term { .. } => false,
                _ => {
                    return None;
                },
            };
            if folded {
                Some(left)
            } else {
                Some(
                    wrap(
                        SemanticNodeData::Numexpression {
                            term: Box::new(left),
                            op_numexpression: None,
                            term2: None,
                        },
                    ),
                )
            }
        } else if n == 3 {
            let Some(left) = take_operand(inh) else {
                return None;
            };
            let Some(op) = c[0].visit(None) else {
                return None;
            };
            let Some(right) = c[1].visit(None) else {
                return None;
            };
            let folded = wrap(
                SemanticNodeData::Numexpression {
                    term: Box::new(left),
                    op_numexpression: Some(Box::new(op)),
                    term2: Some(Box::new(right)),
                },
            );
            c[2].visit(Some(single(folded)))
        } else {
            None
        }
    }

    /// See [`visit_term1`].
    fn visit_term1(&self, inh: Option<Vec<SemanticNode>>) -> (r: Option<SemanticNode>)
        ensures
            outcome_view(r) == visit_term1(self@, inherited_view(inh)),
        decreases self, 0nat,
    {
        proof {
            self.lemma_children();
        }
        let c = &self.children;
        let n = c.len();
        if n == 0 {
            let Some(left) = take_operand(inh) else {
                return None;
            };
            let folded = match &left.children {
                SemanticNodeData::Term { .. } => true,
                SemanticNodeData::Unaryexpression { .. } => false,
                _ => {
                    return None;
                },
            };
            if folded {
                Some(left)
            } else {
                Some(
                    wrap(
                        SemanticNodeData::Term {
                            unaryexpression: Box::new(left),
                            op_term: None,
                            unaryexpression2: None,
                        },
                    ),
                )
            }
        } else if n == 3 {
            let Some(left) = take_operand(inh) else {
                return None;
            };
            let Some(op) = c[0].visit(None) else {
                return None;
            };
            let Some(right) = c[1].visit(None) else {
                return None;
            };
            let folded = wrap(
                SemanticNodeData::Term {
                    unaryexpression: Box::new(left),
                    op_term: Some(Box::new(op)),
                    unaryexpression2: Some(Box::new(right)),
                },
            );
            c[2].visit(Some(single(folded)))
        } else {
            None
        }
    }

    /// See [`visit_unaryexpression`].
    fn visit_unaryexpression(&self, inh: Option<Vec<SemanticNode>>) -> (r: Option<SemanticNode>)
        ensures
            outcome_view(r) == visit_unaryexpression(self@, inherited_view(inh)),
        decreases self, 0nat,
    {
        proof {
            self.lemma_children();
        }
        let c = &self.children;
        let n = c.len();
        if n == 1 {
            let Some(factor) = c[0].visit(None) else {
                return None;
            };
            Some(
                wrap(
                    SemanticNodeData::Unaryexpression {
                        op: None,
                        factor: Box::new(factor),
                    },
                ),
            )
        } else if n == 2 {
            let Some(op) = c[0].visit(None) else {
                return None;
            };
            let Some(factor) = c[1].visit(None) else {
                return None;
            };
            Some(
                wrap(
                    SemanticNodeData::Unaryexpression {
                        op: Some(Box::new(op)),
                        factor: Box::new(factor),
                    },
                ),
            )
        } else {
            None
        }
    }

    /// See [`visit_factor`].
    fn visit_factor(&self, inh: Option<Vec<SemanticNode>>) -> (r: Option<SemanticNode>)
        ensures
            outcome_view(r) == visit_factor(self@, inherited_view(inh)),
        decreases self, 0nat,
    {
        proof {
            self.lemma_children();
        }
        let c = &self.children;
        let n = c.len();
        if n == 0 {
            return None;
        }
        proof {
            c[0].lemma_children();
        }
        match &c[0].value {
            Symbol::Terminal(TokenType::Lparenthesis, _) => {
                if n < 2 {
                    return None;
                }
                let Some(expression) = c[1].visit(None) else {
                    return None;
                };
                Some(
                    wrap(
                        SemanticNodeData::Factor {
                            expression: Some(Box::new(expression)),
                            lvalue: None,
                            constant: None,
                        },
                    ),
                )
            },
            Symbol::NonTerminal(NonTerminal::Lvalue) => {
                let Some(lvalue) = c[0].visit(None) else {
                    return None;
                };
                Some(
                    wrap(
                        SemanticNodeData::Factor {
                            expression: None,
                            lvalue: Some(Box::new(lvalue)),
                            constant: None,
                        },
                    ),
                )
            },
            Symbol::NonTerminal(NonTerminal::Constant) => {
                let Some(constant) = c[0].visit(None) else {
                    return None;
                };
                Some(
                    wrap(
                        SemanticNodeData::Factor {
                            expression: None,
                            lvalue: None,
                            constant: Some(Box::new(constant)),
                        },
                    ),
                )
            },
            _ => None,
        }
    }

    /// See [`visit_lvalue`].
    fn visit_lvalue(&self, inh: Option<Vec<SemanticNode>>) -> (r: Option<SemanticNode>)
        ensures
            outcome_view(r) == visit_lvalue(self@, inherited_view(inh)),
        decreases self, 0nat,
    {
        proof {
            self.lemma_children();
        }
        let c = &self.children;
        let n = c.len();
        if n != 2 {
            return None;
        }
        let Some(id) = c[0].visit(None) else {
            return None;
        };
        let Some(var_index) = c[1].visit_optional() else {
            return None;
        };
        Some(wrap(SemanticNodeData::Lvalue { id: Box::new(id), var_index }))
    }

    /// See [`visit_constant`].
    fn visit_constant(&self, inh: Option<Vec<SemanticNode>>) -> (r: Option<SemanticNode>)
        ensures
            outcome_view(r) == visit_constant(self@, inherited_view(inh)),
        decreases self, 0nat,
    {
        proof {
            self.lemma_children();
        }
        let c = &self.children;
        let n = c.len();
        if n == 0 {
            return None;
        }
        proof {
            c[0].lemma_children();
        }
        match &c[0].value {
            Symbol::Terminal(_, Some(token)) => match &token.value {
                Some(value) => Some(
                    wrap(
                        SemanticNodeData::Constant {
                            value: value.clone(),
                            line: token.line,
                            column: token.column,
                        },
                    ),
                ),
                None => None,
            },
            _ => None,
        }
    }

    /// See [`visit_opexpression`].
    fn visit_opexpression(&self, inh: Option<Vec<SemanticNode>>) -> (r: Option<SemanticNode>)
        ensures
            outcome_view(r) == visit_opexpression(self@, inherited_view(inh)),
        decreases self, 0nat,
    {
        proof {
            self.lemma_children();
        }
        let c = &self.children;
        let n = c.len();
        if n == 0 {
            return None;
        }
        proof {
            c[0].lemma_children();
        }
        match &c[0].value {
            Symbol::Terminal(op, _) => Some(
                wrap(SemanticNodeData::OpExpression { op: *op }),
            ),
            _ => None,
        }
    }

    /// See [`visit_opnumexpression`].
    fn visit_opnumexpression(&self, inh: Option<Vec<SemanticNode>>) -> (r: Option<SemanticNode>)
        ensures
            outcome_view(r) == visit_opnumexpression(self@, inherited_view(inh)),
        decreases self, 0nat,
    {
        proof {
            self.lemma_children();
        }
        let c = &self.children;
        let n = c.len();
        if n == 0 {
            return None;
        }
        proof {
            c[0].lemma_children();
        }
        match &c[0].value {
            Symbol::Terminal(op, _) => Some(
                wrap(SemanticNodeData::OpNumexpression { op: *op }),
            ),
            _ => None,
        }
    }

    /// See [`visit_opterm`].
    fn visit_opterm(&self, inh: Option<Vec<SemanticNode>>) -> (r: Option<SemanticNode>)
        ensures
            outcome_view(r) == visit_opterm(self@, inherited_view(inh)),
        decreases self, 0nat,
    {
        proof {
            self.lemma_children();
        }
        let c = &self.children;
        let n = c.len();
        if n == 0 {
            return None;
        }
        proof {
            c[0].lemma_children();
        }
        match &c[0].value {
            Symbol::Terminal(op, _) => Some(wrap(SemanticNodeData::OpTerm { op: *op })),
            _ => None,
        }
    }

    /// Builds from the parse tree below this node the abstract
    /// syntax tree, given what the node inherits. See [`visit`].
    pub fn visit(&self, inh: Option<Vec<SemanticNode>>) -> (r: Option<SemanticNode>)
        ensures
            outcome_view(r) == visit(self@, inherited_view(inh)),
        decreases self, 1nat,
    {
        proof {
            self.lemma_children();
        }
        match &self.value {
            Symbol::Terminal(_, token) => match token {
                Some(token) => Some(wrap(SemanticNodeData::Terminal { value: token.clone() })),
                None => None,
            },
            Symbol::NonTerminal(non_terminal) => match non_terminal {
                NonTerminal::Program => self.visit_program(inh),
                NonTerminal::Funclist => self.visit_funclist(inh),
                NonTerminal::Funcdef => self.visit_funcdef(inh),
                NonTerminal::Paramlist => self.visit_paramlist(inh),
                NonTerminal::Paramlist1 => self.visit_paramlist1(inh),
                NonTerminal::Statelist => self.visit_statelist(inh),
                NonTerminal::Statelist1 => self.visit_statelist1(inh),
                NonTerminal::Statement => self.visit_statement(inh),
                NonTerminal::Vardecl => self.visit_vardecl(inh),
                NonTerminal::ConstIndex => self.visit_constindex(inh),
                NonTerminal::VarIndex => self.visit_varindex(inh),
                NonTerminal::Atribstat => self.visit_atribstat(inh),
                NonTerminal::Atribstatevalue => self.visit_atribstatevalue(inh),
                NonTerminal::Funccall => self.visit_funccall(inh),
                NonTerminal::Paramlistcall => self.visit_paramlistcall(inh),
                NonTerminal::Paramlistcall1 => self.visit_paramlistcall1(inh),
                NonTerminal::Printstat => self.visit_printstat(inh),
                NonTerminal::Readstat => self.visit_readstat(inh),
                NonTerminal::Returnstat => self.visit_returnstat(inh),
                NonTerminal::Ifstat => self.visit_ifstat(inh),
                NonTerminal::Elsestat => self.visit_elsestat(inh),
                NonTerminal::Elsestat1 => self.visit_elsestat1(inh),
                NonTerminal::Forstat => self.visit_forstat(inh),
                NonTerminal::Allocexpression => self.visit_allocexpression(inh),
                NonTerminal::Expression | NonTerminal::Numexpression | NonTerminal::Term => {
                    self.visit_operand_chain(inh)
                },
                NonTerminal::Expression1 => self.visit_expression1(inh),
                NonTerminal::Numexpression1 => self.visit_numexpression1(inh),
                NonTerminal::Term1 => self.visit_term1(inh),
                NonTerminal::Unaryexpression => self.visit_unaryexpression(inh),
                NonTerminal::Factor => self.visit_factor(inh),
                NonTerminal::Lvalue => self.visit_lvalue(inh),
                NonTerminal::Constant => self.visit_constant(inh),
                NonTerminal::OpExpression => self.visit_opexpression(inh),
                NonTerminal::OpNumexpression => self.visit_opnumexpression(inh),
                NonTerminal::OpTerm => self.visit_opterm(inh),
            },
        }
    }
}

/// The parse tree of the rest of a sum: the pairs of an operator and a
/// term from the one at `from` on, as the right-recursive rule nests
/// them, the later pairs inside the earlier ones.
pub open spec fn sum_rest(pairs: Seq<(ParseTree, ParseTree)>, from: int) -> ParseTree
    decreases pairs.len() - from,
{
    ParseTree {
        value: SymbolView::NonTerminal(NonTerminal::Numexpression1),
        children: if 0 <= from < pairs.len() {
            seq![pairs[from].0, pairs[from].1, sum_rest(pairs, from + 1)]
        } else {
            Seq::empty()
        },
    }
}

/// The sum of `left` and the operands from the one at `from` on, folded
/// to the left: each operator has all that stands before it as its
/// left operand.
pub open spec fn folded_sum(left: Ast, operands: Seq<(Ast, Ast)>, from: int) -> Ast
    decreases operands.len() - from,
{
    if 0 <= from < operands.len() {
        folded_sum(
            Ast::Numexpression {
                term: Box::new(left),
                op_numexpression: Some(Box::new(operands[from].0)),
                term2: Some(Box::new(operands[from].1)),
            },
            operands,
            from + 1,
        )
    } else {
        left
    }
}

/// A sum as the end of its chain hands it up: a term that no operator
/// followed becomes a sum of its own.
pub open spec fn finished_sum(sum: Ast) -> Option<Ast> {
    match sum {
        Ast::Numexpression { .. } => Some(sum),
        Ast::Term { .. } => Some(
            Ast::Numexpression { term: Box::new(sum), op_numexpression: None, term2: None },
        ),
        _ => None,
    }
}

/// Left associativity of sums: the right-recursive chain of a sum is
/// built into the tree that is folded to the left, whatever its
/// length. So `1 + 2 + 3` is `(1 + 2) + 3`.
pub proof fn lemma_sums_fold_left(
    left: Ast,
    pairs: Seq<(ParseTree, ParseTree)>,
    operands: Seq<(Ast, Ast)>,
    from: int,
)
    requires
        0 <= from <= pairs.len(),
        pairs.len() == operands.len(),
        forall|i: int|
            0 <= i < pairs.len() ==> visit(#[trigger] pairs[i].0, None) == Some(operands[i].0)
                && visit(pairs[i].1, None) == Some(operands[i].1),
    ensures
        visit(sum_rest(pairs, from), Some(seq![left])) == finished_sum(
            folded_sum(left, operands, from),
        ),
    decreases pairs.len() - from,
{
    let tree = sum_rest(pairs, from);
    assert(visit(tree, Some(seq![left])) == visit_numexpression1(tree, Some(seq![left])));
    assert(inherited_operand(Some(seq![left])) == Some(left));
    if from < pairs.len() {
        let folded = Ast::Numexpression {
            term: Box::new(left),
            op_numexpression: Some(Box::new(operands[from].0)),
            term2: Some(Box::new(operands[from].1)),
        };
        assert(tree.children[0] == pairs[from].0);
        assert(tree.children[1] == pairs[from].1);
        assert(tree.children[2] == sum_rest(pairs, from + 1));
        lemma_sums_fold_left(folded, pairs, operands, from + 1);
    }
}

/// The parse tree of the rest of a product: the pairs of an operator
/// and a factor from the one at `from` on, as the right-recursive rule
/// nests them.
pub open spec fn product_rest(pairs: Seq<(ParseTree, ParseTree)>, from: int) -> ParseTree
    decreases pairs.len() - from,
{
    ParseTree {
        value: SymbolView::NonTerminal(NonTerminal::Term1),
        children: if 0 <= from < pairs.len() {
            seq![pairs[from].0, pairs[from].1, product_rest(pairs, from + 1)]
        } else {
            Seq::empty()
        },
    }
}

/// The product of `left` and the operands from the one at `from` on,
/// folded to the left.
pub open spec fn folded_product(left: Ast, operands: Seq<(Ast, Ast)>, from: int) -> Ast
    decreases operands.len() - from,
{
    if 0 <= from < operands.len() {
        folded_product(
            Ast::Term {
                unaryexpression: Box::new(left),
                op_term: Some(Box::new(operands[from].0)),
                unaryexpression2: Some(Box::new(operands[from].1)),
            },
            operands,
            from + 1,
        )
    } else {
        left
    }
}

/// A product as the end of its chain hands it up: a factor that no
/// operator followed becomes a product of its own.
pub open spec fn finished_product(product: Ast) -> Option<Ast> {
    match product {
        Ast::Term { .. } => Some(product),
        Ast::Unaryexpression { .. } => Some(
            Ast::Term { unaryexpression: Box::new(product), op_term: None, unaryexpression2: None },
        ),
        _ => None,
    }
}

/// Left associativity of products: the right-recursive chain of a
/// product is built into the tree that is folded to the left.
pub proof fn lemma_products_fold_left(
    left: Ast,
    pairs: Seq<(ParseTree, ParseTree)>,
    operands: Seq<(Ast, Ast)>,
    from: int,
)
    requires
        0 <= from <= pairs.len(),
        pairs.len() == operands.len(),
        forall|i: int|
            0 <= i < pairs.len() ==> visit(#[trigger] pairs[i].0, None) == Some(operands[i].0)
                && visit(pairs[i].1, None) == Some(operands[i].1),
    ensures
        visit(product_rest(pairs, from), Some(seq![left])) == finished_product(
            folded_product(left, operands, from),
        ),
    decreases pairs.len() - from,
{
    let tree = product_rest(pairs, from);
    assert(visit(tree, Some(seq![left])) == visit_term1(tree, Some(seq![left])));
    assert(inherited_operand(Some(seq![left])) == Some(left));
    if from < pairs.len() {
        let folded = Ast::Term {
            unaryexpression: Box::new(left),
            op_term: Some(Box::new(operands[from].0)),
            unaryexpression2: Some(Box::new(operands[from].1)),
        };
        assert(tree.children[0] == pairs[from].0);
        assert(tree.children[1] == pairs[from].1);
        assert(tree.children[2] == product_rest(pairs, from + 1));
        lemma_products_fold_left(folded, pairs, operands, from + 1);
    }
}

} // verus!
