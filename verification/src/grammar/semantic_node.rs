//! The abstract syntax tree: one variant for each construct of the
//! language.

use vstd::prelude::*;
use crate::grammar::const_type::{ConstType, ConstValue};
use crate::grammar::token_type::TokenType;
use crate::semantic::SemanticNode;
use crate::token::{Token, TokenView};

verus! {

/// What a node of the abstract syntax tree holds. Each variant owns its
/// children; an optional part of a construct is an absent field.
#[allow(inconsistent_fields)]
#[derive(Debug, PartialEq)]
pub enum SemanticNodeData {
    /// `new` with a type and the dimensions to allocate.
    Allocexpression { var_type: Box<SemanticNode>, dimensions: Box<SemanticNode> },
    /// An assignment of a value to an l-value.
    Atribstat { lvalue: Box<SemanticNode>, value: Box<SemanticNode> },
    /// The right-hand side of an assignment: an expression, an allocation or a call.
    Atribstatevalue {
        expression: Option<Box<SemanticNode>>,
        allocexpression: Option<Box<SemanticNode>>,
        funccall: Option<Box<SemanticNode>>,
    },
    /// A literal with its place in the source.
    Constant { value: ConstType, line: usize, column: usize },
    /// The constant bounds of a declared array, outermost first.
    ConstIndex { index: Vec<SemanticNode> },
    /// The else-branch of a conditional.
    Elsestat { statement: Box<SemanticNode> },
    /// A numeric expression, alone or compared with a second one.
    Expression {
        numexpression: Box<SemanticNode>,
        op_expression: Option<Box<SemanticNode>>,
        numexpression2: Option<Box<SemanticNode>>,
    },
    /// A parenthesised expression, an l-value or a constant.
    Factor {
        expression: Option<Box<SemanticNode>>,
        lvalue: Option<Box<SemanticNode>>,
        constant: Option<Box<SemanticNode>>,
    },
    /// A loop with its initialisation, condition, increment and body.
    Forstat {
        init: Box<SemanticNode>,
        condition: Box<SemanticNode>,
        increment: Box<SemanticNode>,
        body: Box<SemanticNode>,
    },
    /// A call of a function with its arguments, if it has any.
    Funccall { id: Box<SemanticNode>, paramlistcall: Option<Box<SemanticNode>> },
    /// A function definition: name, parameters if any, body.
    Funcdef {
        func_id: Box<SemanticNode>,
        paramlist: Option<Box<SemanticNode>>,
        statelist: Box<SemanticNode>,
    },
    /// The function definitions of a program, in source order.
    Funclist { funclist: Vec<SemanticNode> },
    /// A conditional with its then-branch and, if present, its else-branch.
    Ifstat {
        condition: Box<SemanticNode>,
        then_branch: Box<SemanticNode>,
        else_branch: Option<Box<SemanticNode>>,
    },
    /// A variable, with index expressions if it is an array element.
    Lvalue { id: Box<SemanticNode>, var_index: Option<Box<SemanticNode>> },
    /// A term, alone or as the left operand of an additive operator.
    Numexpression {
        term: Box<SemanticNode>,
        op_numexpression: Option<Box<SemanticNode>>,
        term2: Option<Box<SemanticNode>>,
    },
    /// A comparison operator.
    OpExpression { op: TokenType },
    /// An additive operator.
    OpNumexpression { op: TokenType },
    /// A multiplicative operator.
    OpTerm { op: TokenType },
    /// The parameters of a function: type and name in turn.
    Paramlist { paramlist: Vec<SemanticNode> },
    /// The arguments of a call, in source order.
    Paramlistcall { paramlist: Vec<SemanticNode> },
    /// A print statement.
    Printstat { expression: Box<SemanticNode> },
    /// A program: function definitions or a single statement.
    Program { funclist: Option<Box<SemanticNode>>, statement: Option<Box<SemanticNode>> },
    /// A read statement.
    Readstat { lvalue: Box<SemanticNode> },
    /// A return statement, with its keyword token.
    Returnstat { token: Token },
    /// The statements of a block, in source order.
    Statelist { statelist: Vec<SemanticNode> },
    /// A statement: exactly one of the fields is present, or none for the empty statement.
    Statement {
        vardecl: Option<Box<SemanticNode>>,
        atribstat: Option<Box<SemanticNode>>,
        ifstat: Option<Box<SemanticNode>>,
        forstat: Option<Box<SemanticNode>>,
        statelist: Option<Box<SemanticNode>>,
        commandstat: Option<Box<SemanticNode>>,
    },
    /// A unary expression, alone or as the left operand of a multiplicative operator.
    Term {
        unaryexpression: Box<SemanticNode>,
        op_term: Option<Box<SemanticNode>>,
        unaryexpression2: Option<Box<SemanticNode>>,
    },
    /// A factor, with a sign if it has one.
    Unaryexpression { op: Option<Box<SemanticNode>>, factor: Box<SemanticNode> },
    /// A variable declaration: type, name and array bounds if any.
    Vardecl {
        var_type: Box<SemanticNode>,
        id: Box<SemanticNode>,
        const_index: Option<Box<SemanticNode>>,
    },
    /// The index expressions of an array access or the dimensions of an allocation.
    VarIndex { index: Vec<SemanticNode> },
    /// A token kept as it is.
    Terminal { value: Token },
}

/// The mathematical value of an abstract syntax tree.
#[allow(inconsistent_fields)]
pub enum Ast {
    Allocexpression { var_type: Box<Ast>, dimensions: Box<Ast> },
    Atribstat { lvalue: Box<Ast>, value: Box<Ast> },
    Atribstatevalue {
        expression: Option<Box<Ast>>,
        allocexpression: Option<Box<Ast>>,
        funccall: Option<Box<Ast>>,
    },
    Constant { value: ConstValue, line: usize, column: usize },
    ConstIndex { index: Seq<Ast> },
    Elsestat { statement: Box<Ast> },
    Expression {
        numexpression: Box<Ast>,
        op_expression: Option<Box<Ast>>,
        numexpression2: Option<Box<Ast>>,
    },
    Factor { expression: Option<Box<Ast>>, lvalue: Option<Box<Ast>>, constant: Option<Box<Ast>> },
    Forstat { init: Box<Ast>, condition: Box<Ast>, increment: Box<Ast>, body: Box<Ast> },
    Funccall { id: Box<Ast>, paramlistcall: Option<Box<Ast>> },
    Funcdef { func_id: Box<Ast>, paramlist: Option<Box<Ast>>, statelist: Box<Ast> },
    Funclist { funclist: Seq<Ast> },
    Ifstat { condition: Box<Ast>, then_branch: Box<Ast>, else_branch: Option<Box<Ast>> },
    Lvalue { id: Box<Ast>, var_index: Option<Box<Ast>> },
    Numexpression { term: Box<Ast>, op_numexpression: Option<Box<Ast>>, term2: Option<Box<Ast>> },
    OpExpression { op: TokenType },
    OpNumexpression { op: TokenType },
    OpTerm { op: TokenType },
    Paramlist { paramlist: Seq<Ast> },
    Paramlistcall { paramlist: Seq<Ast> },
    Printstat { expression: Box<Ast> },
    Program { funclist: Option<Box<Ast>>, statement: Option<Box<Ast>> },
    Readstat { lvalue: Box<Ast> },
    Returnstat { token: TokenView },
    Statelist { statelist: Seq<Ast> },
    Statement {
        vardecl: Option<Box<Ast>>,
        atribstat: Option<Box<Ast>>,
        ifstat: Option<Box<Ast>>,
        forstat: Option<Box<Ast>>,
        statelist: Option<Box<Ast>>,
        commandstat: Option<Box<Ast>>,
    },
    Term {
        unaryexpression: Box<Ast>,
        op_term: Option<Box<Ast>>,
        unaryexpression2: Option<Box<Ast>>,
    },
    Unaryexpression { op: Option<Box<Ast>>, factor: Box<Ast> },
    Vardecl { var_type: Box<Ast>, id: Box<Ast>, const_index: Option<Box<Ast>> },
    VarIndex { index: Seq<Ast> },
    Terminal { value: TokenView },
}

impl SemanticNodeData {
    /// The mathematical value of the tree below these contents.
    pub open spec fn model(&self) -> Ast
        decreases self,
    {
        match self {
            SemanticNodeData::Allocexpression { var_type, dimensions } => Ast::Allocexpression {
                var_type: Box::new(var_type.model()),
                dimensions: Box::new(dimensions.model()),
            },
            SemanticNodeData::Atribstat { lvalue, value } => Ast::Atribstat {
                lvalue: Box::new(lvalue.model()),
                value: Box::new(value.model()),
            },
            SemanticNodeData::Atribstatevalue { expression, allocexpression, funccall } => Ast::Atribstatevalue {
                expression: match expression {
                    Some(node) => Some(Box::new(node.model())),
                    None => None,
                },
                allocexpression: match allocexpression {
                    Some(node) => Some(Box::new(node.model())),
                    None => None,
                },
                funccall: match funccall {
                    Some(node) => Some(Box::new(node.model())),
                    None => None,
                },
            },
            SemanticNodeData::Constant { value, line, column } => Ast::Constant {
                value: value@,
                line: *line,
                column: *column,
            },
            SemanticNodeData::ConstIndex { index } => Ast::ConstIndex {
                index: SemanticNode::models(*index),
            },
            SemanticNodeData::Elsestat { statement } => Ast::Elsestat {
                statement: Box::new(statement.model()),
            },
            SemanticNodeData::Expression { numexpression, op_expression, numexpression2 } => Ast::Expression {
                numexpression: Box::new(numexpression.model()),
                op_expression: match op_expression {
                    Some(node) => Some(Box::new(node.model())),
                    None => None,
                },
                numexpression2: match numexpression2 {
                    Some(node) => Some(Box::new(node.model())),
                    None => None,
                },
            },
            SemanticNodeData::Factor { expression, lvalue, constant } => Ast::Factor {
                expression: match expression {
                    Some(node) => Some(Box::new(node.model())),
                    None => None,
                },
                lvalue: match lvalue {
                    Some(node) => Some(Box::new(node.model())),
                    None => None,
                },
                constant: match constant {
                    Some(node) => Some(Box::new(node.model())),
                    None => None,
                },
            },
            SemanticNodeData::Forstat { init, condition, increment, body } => Ast::Forstat {
                init: Box::new(init.model()),
                condition: Box::new(condition.model()),
                increment: Box::new(increment.model()),
                body: Box::new(body.model()),
            },
            SemanticNodeData::Funccall { id, paramlistcall } => Ast::Funccall {
                id: Box::new(id.model()),
                paramlistcall: match paramlistcall {
                    Some(node) => Some(Box::new(node.model())),
                    None => None,
                },
            },
            SemanticNodeData::Funcdef { func_id, paramlist, statelist } => Ast::Funcdef {
                func_id: Box::new(func_id.model()),
                paramlist: match paramlist {
                    Some(node) => Some(Box::new(node.model())),
                    None => None,
                },
                statelist: Box::new(statelist.model()),
            },
            SemanticNodeData::Funclist { funclist } => Ast::Funclist {
                funclist: SemanticNode::models(*funclist),
            },
            SemanticNodeData::Ifstat { condition, then_branch, else_branch } => Ast::Ifstat {
                condition: Box::new(condition.model()),
                then_branch: Box::new(then_branch.model()),
                else_branch: match else_branch {
                    Some(node) => Some(Box::new(node.model())),
                    None => None,
                },
            },
            SemanticNodeData::Lvalue { id, var_index } => Ast::Lvalue {
                id: Box::new(id.model()),
                var_index: match var_index {
                    Some(node) => Some(Box::new(node.model())),
                    None => None,
                },
            },
            SemanticNodeData::Numexpression { term, op_numexpression, term2 } => Ast::Numexpression {
                term: Box::new(term.model()),
                op_numexpression: match op_numexpression {
                    Some(node) => Some(Box::new(node.model())),
                    None => None,
                },
                term2: match term2 {
                    Some(node) => Some(Box::new(node.model())),
                    None => None,
                },
            },
            SemanticNodeData::OpExpression { op } => Ast::OpExpression {
                op: *op,
            },
            SemanticNodeData::OpNumexpression { op } => Ast::OpNumexpression {
                op: *op,
            },
            SemanticNodeData::OpTerm { op } => Ast::OpTerm {
                op: *op,
            },
            SemanticNodeData::Paramlist { paramlist } => Ast::Paramlist {
                paramlist: SemanticNode::models(*paramlist),
            },
            SemanticNodeData::Paramlistcall { paramlist } => Ast::Paramlistcall {
                paramlist: SemanticNode::models(*paramlist),
            },
            SemanticNodeData::Printstat { expression } => Ast::Printstat {
                expression: Box::new(expression.model()),
            },
            SemanticNodeData::Program { funclist, statement } => Ast::Program {
                funclist: match funclist {
                    Some(node) => Some(Box::new(node.model())),
                    None => None,
                },
                statement: match statement {
                    Some(node) => Some(Box::new(node.model())),
                    None => None,
                },
            },
            SemanticNodeData::Readstat { lvalue } => Ast::Readstat {
                lvalue: Box::new(lvalue.model()),
            },
            SemanticNodeData::Returnstat { token } => Ast::Returnstat {
                token: token@,
            },
            SemanticNodeData::Statelist { statelist } => Ast::Statelist {
                statelist: SemanticNode::models(*statelist),
            },
            SemanticNodeData::Statement { vardecl, atribstat, ifstat, forstat, statelist, commandstat } => Ast::Statement {
                vardecl: match vardecl {
                    Some(node) => Some(Box::new(node.model())),
                    None => None,
                },
                atribstat: match atribstat {
                    Some(node) => Some(Box::new(node.model())),
                    None => None,
                },
                ifstat: match ifstat {
                    Some(node) => Some(Box::new(node.model())),
                    None => None,
                },
                forstat: match forstat {
                    Some(node) => Some(Box::new(node.model())),
                    None => None,
                },
                statelist: match statelist {
                    Some(node) => Some(Box::new(node.model())),
                    None => None,
                },
                commandstat: match commandstat {
                    Some(node) => Some(Box::new(node.model())),
                    None => None,
                },
            },
            SemanticNodeData::Term { unaryexpression, op_term, unaryexpression2 } => Ast::Term {
                unaryexpression: Box::new(unaryexpression.model()),
                op_term: match op_term {
                    Some(node) => Some(Box::new(node.model())),
                    None => None,
                },
                unaryexpression2: match unaryexpression2 {
                    Some(node) => Some(Box::new(node.model())),
                    None => None,
                },
            },
            SemanticNodeData::Unaryexpression { op, factor } => Ast::Unaryexpression {
                op: match op {
                    Some(node) => Some(Box::new(node.model())),
                    None => None,
                },
                factor: Box::new(factor.model()),
            },
            SemanticNodeData::Vardecl { var_type, id, const_index } => Ast::Vardecl {
                var_type: Box::new(var_type.model()),
                id: Box::new(id.model()),
                const_index: match const_index {
                    Some(node) => Some(Box::new(node.model())),
                    None => None,
                },
            },
            SemanticNodeData::VarIndex { index } => Ast::VarIndex {
                index: SemanticNode::models(*index),
            },
            SemanticNodeData::Terminal { value } => Ast::Terminal {
                value: value@,
            },
        }
    }
}

impl View for SemanticNodeData {
    type V = Ast;

    open spec fn view(&self) -> Ast {
        self.model()
    }
}

} // verus!
