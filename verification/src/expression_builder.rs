//! The expression trees of a program: for each expression of the
//! abstract syntax tree, the tree of its operators and operands.

use vstd::prelude::*;
use crate::expression::{
    ExpressionTree,
    ExpressionTreeNode,
    ExpressionView,
    Operand,
    OperandView,
    Operator,
};
use crate::grammar::const_type::{ConstType, ConstValue};
use crate::grammar::semantic_node::{Ast, SemanticNodeData};
use crate::grammar::token_type::TokenType;
use crate::semantic::{SemanticNode, SemanticTree};

verus! {

/// What the walk of a node gives: the node of an expression tree that
/// stands for it, if it is a part of an expression, and the trees of
/// the expressions that were completed so far.
pub struct Built {
    pub node: Option<ExpressionView>,
    pub trees: Seq<ExpressionView>,
}

/// The walk of a node that is no part of an expression.
pub open spec fn walked(trees: Seq<ExpressionView>) -> Option<Built> {
    Some(Built { node: None, trees })
}

/// The walk of a part of a statement: what the part hands up is
/// dropped, the trees of its expressions are kept.
pub open spec fn dropped(built: Option<Built>) -> Option<Built> {
    match built {
        Some(built) => walked(built.trees),
        None => None,
    }
}

/// The operand that a literal stands for; a type keyword stands for
/// none.
pub open spec fn literal_operand(value: ConstValue) -> Option<OperandView> {
    match value {
        ConstValue::Int(i) => Some(OperandView::Integer(i)),
        ConstValue::Float(f) => Some(OperandView::Float(f)),
        ConstValue::String(s) => Some(OperandView::String(s)),
        ConstValue::VarType(_) => None,
    }
}

/// The operator of an operator node of the kind that an expression of
/// `level` holds: 0 for a comparison, 1 for a sum, 2 for a product.
pub open spec fn operator_of(node: Ast, level: int) -> Option<Operator> {
    match node {
        Ast::OpExpression { op } => if level == 0 {
            op.operator()
        } else {
            None
        },
        Ast::OpNumexpression { op } => if level == 1 {
            op.operator()
        } else {
            None
        },
        Ast::OpTerm { op } => if level == 2 {
            op.operator()
        } else {
            None
        },
        _ => None,
    }
}

/// The walk of the tree below a node, where `trees` holds the trees of
/// the expressions completed before. Every expression adds its tree,
/// the tree of an inner expression before that of an outer one. `None`
/// where the tree below the node has no expression trees: where it is
/// not as the builder of abstract syntax trees gives it, or where an
/// expression in parentheses is an operand.
pub open spec fn build(node: Ast, trees: Seq<ExpressionView>) -> Option<Built>
    decreases node, 2nat,
{
    match node {
        Ast::Expression { .. } => build_expression(node, trees),
        Ast::Factor { expression, lvalue, constant } => match expression {
            Some(expression) => build(*expression, trees),
            None => match lvalue {
                Some(lvalue) => build(*lvalue, trees),
                None => match constant {
                    Some(constant) => build(*constant, trees),
                    None => None,
                },
            },
        },
        Ast::Numexpression { .. } => build_operation(node, trees),
        Ast::Term { .. } => build_operation(node, trees),
        Ast::Unaryexpression { op, factor } => match op {
            Some(op) => match operator_of(*op, 1) {
                Some(operator) => match build(*factor, trees) {
                    Some(Built { node: Some(operand), trees }) => Some(
                        Built {
                            node: Some(
                                ExpressionView::UnaryOperator {
                                    operator,
                                    operand: Box::new(operand),
                                },
                            ),
                            trees,
                        },
                    ),
                    _ => None,
                },
                None => None,
            },
            None => build(*factor, trees),
        },
        Ast::Atribstat { .. } => build_statement(node, trees),
        Ast::Atribstatevalue { .. } => build_statement(node, trees),
        Ast::Elsestat { .. } => build_statement(node, trees),
        Ast::Forstat { .. } => build_statement(node, trees),
        Ast::Funcdef { .. } => build_statement(node, trees),
        Ast::Funclist { .. } => build_statement(node, trees),
        Ast::Ifstat { .. } => build_statement(node, trees),
        Ast::Printstat { .. } => build_statement(node, trees),
        Ast::Program { .. } => build_statement(node, trees),
        Ast::Statelist { .. } => build_statement(node, trees),
        Ast::Statement { .. } => build_statement(node, trees),
        Ast::VarIndex { .. } => build_statement(node, trees),
        Ast::Constant { .. } => build_leaf(node, trees),
        Ast::Lvalue { .. } => build_leaf(node, trees),
        Ast::Terminal { .. } => build_leaf(node, trees),
        _ => walked(trees),
    }
}


/// The walk of a statement or of a list: its parts are walked one after
/// the other, and it hands nothing up.
pub open spec fn build_statement(node: Ast, trees: Seq<ExpressionView>) -> Option<Built>
    decreases node, 1nat,
{
    match node {
        Ast::Atribstat { value, .. } => dropped(build(*value, trees)),
        Ast::Atribstatevalue { expression, .. } => build_statement_part(expression, trees),
        Ast::Elsestat { statement } => dropped(build(*statement, trees)),
        Ast::Forstat { init, condition, increment, body } => match build(*init, trees) {
            Some(first) => match build(*condition, first.trees) {
                Some(second) => match build(*increment, second.trees) {
                    Some(third) => dropped(build(*body, third.trees)),
                    None => None,
                },
                None => None,
            },
            None => None,
        },
        Ast::Funcdef { statelist, .. } => dropped(build(*statelist, trees)),
        Ast::Funclist { funclist } => build_each(funclist, 0, trees),
        Ast::Ifstat { condition, then_branch, else_branch } => match build(*condition, trees) {
            Some(first) => match build(*then_branch, first.trees) {
                Some(second) => build_statement_part(else_branch, second.trees),
                None => None,
            },
            None => None,
        },
        Ast::Printstat { expression } => dropped(build(*expression, trees)),
        Ast::Program { funclist, statement } => match build_statement_part(funclist, trees) {
            Some(first) => build_statement_part(statement, first.trees),
            None => None,
        },
        Ast::Statelist { statelist } => build_each(statelist, 0, trees),
        Ast::Statement { .. } => build_parts(node, trees),
        Ast::VarIndex { index } => build_each(index, 0, trees),
        _ => None,
    }
}

/// The walk of a statement: the parts that it can hold are walked in
/// turn, a declaration apart, which holds no expression.
pub open spec fn build_parts(node: Ast, trees: Seq<ExpressionView>) -> Option<Built>
    decreases node, 0nat,
{
    match node {
        Ast::Statement { vardecl, atribstat, ifstat, forstat, statelist, commandstat } => {
            match build_statement_part(atribstat, trees) {
                Some(first) => match build_statement_part(ifstat, first.trees) {
                    Some(second) => match build_statement_part(forstat, second.trees) {
                        Some(third) => match build_statement_part(statelist, third.trees) {
                            Some(fourth) => build_statement_part(commandstat, fourth.trees),
                            None => None,
                        },
                        None => None,
                    },
                    None => None,
                },
                None => None,
            }
        },
        _ => None,
    }
}

/// The walk of a leaf of an expression: a literal or a name is an
/// operand. An l-value walks its indices first. A token that is
/// neither hands nothing up.
pub open spec fn build_leaf(node: Ast, trees: Seq<ExpressionView>) -> Option<Built>
    decreases node, 0nat,
{
    match node {
        Ast::Constant { value, .. } => match literal_operand(value) {
            Some(operand) => Some(
                Built { node: Some(ExpressionView::Operand { value: operand }), trees },
            ),
            None => None,
        },
        Ast::Lvalue { id, var_index } => match build_statement_part(var_index, trees) {
            Some(indexed) => match *id {
                Ast::Terminal { value } => match value.value {
                    Some(ConstValue::String(name)) => Some(
                        Built {
                            node: Some(
                                ExpressionView::Operand { value: OperandView::Identifier(name) },
                            ),
                            trees: indexed.trees,
                        },
                    ),
                    _ => None,
                },
                _ => None,
            },
            None => None,
        },
        Ast::Terminal { value } => match value.token_type {
            TokenType::ConstInt => match value.value {
                Some(ConstValue::Int(i)) => Some(
                    Built {
                        node: Some(ExpressionView::Operand { value: OperandView::Integer(i) }),
                        trees,
                    },
                ),
                _ => None,
            },
            TokenType::ConstFloat => match value.value {
                Some(ConstValue::Float(f)) => Some(
                    Built {
                        node: Some(ExpressionView::Operand { value: OperandView::Float(f) }),
                        trees,
                    },
                ),
                _ => None,
            },
            TokenType::ConstString => match value.value {
                Some(ConstValue::String(s)) => Some(
                    Built {
                        node: Some(ExpressionView::Operand { value: OperandView::String(s) }),
                        trees,
                    },
                ),
                _ => None,
            },
            TokenType::Id => match value.value {
                Some(ConstValue::String(name)) => Some(
                    Built {
                        node: Some(
                            ExpressionView::Operand { value: OperandView::Identifier(name) },
                        ),
                        trees,
                    },
                ),
                _ => None,
            },
            _ => walked(trees),
        },
        _ => None,
    }
}

/// The walk of an optional part of a statement.
pub open spec fn build_statement_part(part: Option<Box<Ast>>, trees: Seq<ExpressionView>) -> Option<
    Built,
>
    decreases part, 3nat,
{
    match part {
        Some(part) => dropped(build(*part, trees)),
        None => walked(trees),
    }
}

/// The walk of the nodes of `nodes` from the one at `from` on, one
/// after the other.
pub open spec fn build_each(nodes: Seq<Ast>, from: int, trees: Seq<ExpressionView>) -> Option<Built>
    decreases nodes, nodes.len() - from,
{
    if 0 <= from < nodes.len() {
        match build(nodes[from], trees) {
            Some(first) => build_each(nodes, from + 1, first.trees),
            None => None,
        }
    } else {
        walked(trees)
    }
}

/// An operation node taken apart.
pub struct Operation {
    pub left: Ast,
    pub op: Option<Box<Ast>>,
    pub right: Option<Box<Ast>>,
    /// 0 for a comparison, 1 for a sum, 2 for a product.
    pub level: int,
}

/// The parts of a comparison, a sum or a product.
pub open spec fn operation(node: Ast) -> Option<Operation> {
    match node {
        Ast::Expression { numexpression, op_expression, numexpression2 } => Some(
            Operation { left: *numexpression, op: op_expression, right: numexpression2, level: 0 },
        ),
        Ast::Numexpression { term, op_numexpression, term2 } => Some(
            Operation { left: *term, op: op_numexpression, right: term2, level: 1 },
        ),
        Ast::Term { unaryexpression, op_term, unaryexpression2 } => Some(
            Operation { left: *unaryexpression, op: op_term, right: unaryexpression2, level: 2 },
        ),
        _ => None,
    }
}

/// The node of a comparison, a sum or a product: the left operand alone
/// where there is no operator, else the operator with the two operands,
/// the left one below it on the left.
pub open spec fn build_operation(node: Ast, trees: Seq<ExpressionView>) -> Option<Built>
    decreases node, 0nat,
{
    match operation(node) {
        Some(Operation { left, op, right, level }) => match build(left, trees) {
            Some(Built { node: Some(first), trees }) => match op {
                None => Some(Built { node: Some(first), trees }),
                Some(op) => match right {
                    Some(right) => match build(*right, trees) {
                        Some(Built { node: Some(second), trees }) => match operator_of(*op, level) {
                            Some(operator) => Some(
                                Built {
                                    node: Some(
                                        ExpressionView::BinaryOperator {
                                            operator,
                                            left: Box::new(first),
                                            right: Box::new(second),
                                        },
                                    ),
                                    trees,
                                },
                            ),
                            None => None,
                        },
                        _ => None,
                    },
                    None => None,
                },
            },
            _ => None,
        },
        None => None,
    }
}

/// An expression completes a tree: that of its one side, or that of
/// its comparison with the two sides below it. It hands nothing up.
pub open spec fn build_expression(node: Ast, trees: Seq<ExpressionView>) -> Option<Built>
    decreases node, 1nat,
{
    match node {
        Ast::Expression { .. } => match build_operation(node, trees) {
            Some(Built { node: Some(root), trees }) => walked(trees.push(root)),
            _ => None,
        },
        _ => None,
    }
}

/// The mathematical values of a list of expression trees.
pub open spec fn tree_views(trees: Seq<ExpressionTree>) -> Seq<ExpressionView> {
    Seq::new(trees.len(), |i: int| trees[i]@)
}

/// What a result and the trees after it stand for.
pub open spec fn built_of(result: Option<Option<ExpressionTreeNode>>, trees: Seq<ExpressionTree>)
    -> Option<Built> {
    match result {
        Some(node) => Some(
            Built {
                node: match node {
                    Some(node) => Some(node@),
                    None => None,
                },
                trees: tree_views(trees),
            },
        ),
        None => None,
    }
}

/// What the result of a walk that hands nothing up stands for.
pub open spec fn walked_of(went: bool, trees: Seq<ExpressionTree>) -> Option<Built> {
    if went {
        walked(tree_views(trees))
    } else {
        None
    }
}

fn operand_node(value: Operand) -> (r: Option<Option<ExpressionTreeNode>>)
    ensures
        r matches Some(Some(node)) && node@ == (ExpressionView::Operand { value: value@ }),
{
    Some(Some(ExpressionTreeNode::Operand { value }))
}

fn operator_in(node: &SemanticNode, level: u8) -> (r: Option<Operator>)
    ensures
        r == operator_of(node@, level as int),
{
    let (op, found) = match &node.children {
        SemanticNodeData::OpExpression { op } => (*op, 0u8),
        SemanticNodeData::OpNumexpression { op } => (*op, 1u8),
        SemanticNodeData::OpTerm { op } => (*op, 2u8),
        _ => {
            return None;
        },
    };
    if found == level && op.is_operator() {
        Some(op.get_operator_type())
    } else {
        None
    }
}

impl SemanticNode {
    fn walk(&self, trees: &mut Vec<ExpressionTree>) -> (r: bool)
        ensures
            walked_of(r, final(trees)@) == dropped(build(self@, tree_views(old(trees)@))),
        decreases self, 5nat,
    {
        self.create_expression_tree(trees).is_some()
    }

    fn walk_optional(part: &Option<Box<SemanticNode>>, trees: &mut Vec<ExpressionTree>) -> (r: bool)
        ensures
            walked_of(r, final(trees)@) == build_statement_part(
                SemanticNode::model_of_option(*part),
                tree_views(old(trees)@),
            ),
        decreases part, 5nat,
    {
        match part {
            Some(part) => part.walk(trees),
            None => true,
        }
    }

    fn walk_each(nodes: &Vec<SemanticNode>, trees: &mut Vec<ExpressionTree>) -> (r: bool)
        ensures
            walked_of(r, final(trees)@) == build_each(
                SemanticNode::models(*nodes),
                0,
                tree_views(old(trees)@),
            ),
        decreases nodes, 0nat,
    {
        let mut i: usize = 0;
        while i < nodes.len()
            invariant
                i <= nodes@.len(),
                build_each(SemanticNode::models(*nodes), 0, tree_views(old(trees)@)) == build_each(
                    SemanticNode::models(*nodes),
                    i as int,
                    tree_views(trees@),
                ),
            decreases nodes@.len() - i,
        {
            if nodes[i].create_expression_tree(trees).is_none() {
                return false;
            }
            i = i + 1;
        }
        true
    }

    fn create_operation(&self, trees: &mut Vec<ExpressionTree>) -> (r: Option<
        Option<ExpressionTreeNode>,
    >)
        ensures
            built_of(r, final(trees)@) == build_operation(self@, tree_views(old(trees)@)),
        decreases self, 0nat,
    {
        let (left, op, right, level) = match &self.children {
            SemanticNodeData::Expression { numexpression, op_expression, numexpression2 } => (
                numexpression,
                op_expression,
                numexpression2,
                0u8,
            ),
            SemanticNodeData::Numexpression { term, op_numexpression, term2 } => (
                term,
                op_numexpression,
                term2,
                1u8,
            ),
            SemanticNodeData::Term { unaryexpression, op_term, unaryexpression2 } => (
                unaryexpression,
                op_term,
                unaryexpression2,
                2u8,
            ),
            _ => {
                return None;
            },
        };
        let Some(Some(first)) = left.create_expression_tree(trees) else {
            return None;
        };
        let Some(op) = op else {
            return Some(Some(first));
        };
        let Some(right) = right else {
            return None;
        };
        let Some(Some(second)) = right.create_expression_tree(trees) else {
            return None;
        };
        let Some(operator) = operator_in(op, level) else {
            return None;
        };
        Some(
            Some(
                ExpressionTreeNode::BinaryOperator {
                    operator,
                    left: Box::new(first),
                    right: Box::new(second),
                },
            ),
        )
    }

    fn create_expression(&self, trees: &mut Vec<ExpressionTree>) -> (r: Option<
        Option<ExpressionTreeNode>,
    >)
        ensures
            built_of(r, final(trees)@) == build_expression(self@, tree_views(old(trees)@)),
        decreases self, 3nat,
    {
        let SemanticNodeData::Expression { .. } = &self.children else {
            return None;
        };
        let Some(Some(root)) = self.create_operation(trees) else {
            return None;
        };
        let ghost before = tree_views(trees@);
        let ghost added = root@;
        trees.push(ExpressionTree { root });
        assert(tree_views(trees@) =~= before.push(added));
        Some(None)
    }

    fn create_statement(&self, trees: &mut Vec<ExpressionTree>) -> (r: Option<
        Option<ExpressionTreeNode>,
    >)
        ensures
            built_of(r, final(trees)@) == build_statement(self@, tree_views(old(trees)@)),
        decreases self, 2nat,
    {
        match &self.children {
            SemanticNodeData::Atribstat { value, .. } => {
                if value.walk(trees) {
                    Some(None)
                } else {
                    None
                }
            },
            SemanticNodeData::Atribstatevalue { expression, .. } => {
                if SemanticNode::walk_optional(expression, trees) {
                    Some(None)
                } else {
                    None
                }
            },
            SemanticNodeData::Elsestat { statement } => {
                if statement.walk(trees) {
                    Some(None)
                } else {
                    None
                }
            },
            SemanticNodeData::Forstat { .. } => self.create_compound(trees),
            SemanticNodeData::Funcdef { statelist, .. } => {
                if statelist.walk(trees) {
                    Some(None)
                } else {
                    None
                }
            },
            SemanticNodeData::Funclist { funclist } => {
                if SemanticNode::walk_each(funclist, trees) {
                    Some(None)
                } else {
                    None
                }
            },
            SemanticNodeData::Ifstat { .. } => self.create_compound(trees),
            SemanticNodeData::Printstat { expression } => {
                if expression.walk(trees) {
                    Some(None)
                } else {
                    None
                }
            },
            SemanticNodeData::Program { .. } => self.create_compound(trees),
            SemanticNodeData::Statelist { statelist } => {
                if SemanticNode::walk_each(statelist, trees) {
                    Some(None)
                } else {
                    None
                }
            },
            SemanticNodeData::Statement { .. } => self.create_parts(trees),
            SemanticNodeData::VarIndex { index } => {
                if SemanticNode::walk_each(index, trees) {
                    Some(None)
                } else {
                    None
                }
            },
            _ => None,
        }
    }

    fn create_compound(&self, trees: &mut Vec<ExpressionTree>) -> (r: Option<
        Option<ExpressionTreeNode>,
    >)
        requires
            self.children is Forstat || self.children is Ifstat || self.children is Program,
        ensures
            built_of(r, final(trees)@) == build_statement(self@, tree_views(old(trees)@)),
        decreases self, 1nat,
    {
        match &self.children {
            SemanticNodeData::Forstat { init, condition, increment, body } => {
                if init.create_expression_tree(trees).is_none() {
                    return None;
                }
                if condition.create_expression_tree(trees).is_none() {
                    return None;
                }
                if increment.create_expression_tree(trees).is_none() {
                    return None;
                }
                if body.walk(trees) {
                    Some(None)
                } else {
                    None
                }
            },
            SemanticNodeData::Ifstat { condition, then_branch, else_branch } => {
                if condition.create_expression_tree(trees).is_none() {
                    return None;
                }
                if then_branch.create_expression_tree(trees).is_none() {
                    return None;
                }
                if SemanticNode::walk_optional(else_branch, trees) {
                    Some(None)
                } else {
                    None
                }
            },
            SemanticNodeData::Program { funclist, statement } => {
                if !SemanticNode::walk_optional(funclist, trees) {
                    return None;
                }
                if SemanticNode::walk_optional(statement, trees) {
                    Some(None)
                } else {
                    None
                }
            },
            _ => None,
        }
    }

    fn create_parts(&self, trees: &mut Vec<ExpressionTree>) -> (r: Option<
        Option<ExpressionTreeNode>,
    >)
        ensures
            built_of(r, final(trees)@) == build_parts(self@, tree_views(old(trees)@)),
        decreases self, 0nat,
    {
        match &self.children {
            SemanticNodeData::Statement {
                vardecl,
                atribstat,
                ifstat,
                forstat,
                statelist,
                commandstat,
            } => {
                if !SemanticNode::walk_optional(atribstat, trees) {
                    return None;
                }
                if !SemanticNode::walk_optional(ifstat, trees) {
                    return None;
                }
                if !SemanticNode::walk_optional(forstat, trees) {
                    return None;
                }
                if !SemanticNode::walk_optional(statelist, trees) {
                    return None;
                }
                if SemanticNode::walk_optional(commandstat, trees) {
                    Some(None)
                } else {
                    None
                }
            },
            _ => None,
        }
    }

    fn create_leaf(&self, trees: &mut Vec<ExpressionTree>) -> (r: Option<
        Option<ExpressionTreeNode>,
    >)
        ensures
            built_of(r, final(trees)@) == build_leaf(self@, tree_views(old(trees)@)),
        decreases self, 0nat,
    {
        match &self.children {
            SemanticNodeData::Constant { value, .. } => match value {
                ConstType::Int(i) => operand_node(Operand::Integer(*i)),
                ConstType::Float(f) => operand_node(Operand::Float(f.clone())),
                ConstType::String(s) => operand_node(Operand::String(s.clone())),
                ConstType::VarType(_) => None,
            },
            SemanticNodeData::Lvalue { id, var_index } => {
                if !SemanticNode::walk_optional(var_index, trees) {
                    return None;
                }
                proof {
                    id.lemma_view();
                }
                let SemanticNodeData::Terminal { value } = &id.children else {
                    return None;
                };
                let Some(ConstType::String(name)) = &value.value else {
                    return None;
                };
                operand_node(Operand::Identifier(name.clone()))
            },
            SemanticNodeData::Terminal { value } => match value.token_type {
                TokenType::ConstInt => match &value.value {
                    Some(ConstType::Int(i)) => operand_node(Operand::Integer(*i)),
                    _ => None,
                },
                TokenType::ConstFloat => match &value.value {
                    Some(ConstType::Float(f)) => operand_node(Operand::Float(f.clone())),
                    _ => None,
                },
                TokenType::ConstString => match &value.value {
                    Some(ConstType::String(s)) => operand_node(Operand::String(s.clone())),
                    _ => None,
                },
                TokenType::Id => match &value.value {
                    Some(ConstType::String(name)) => operand_node(
                        Operand::Identifier(name.clone()),
                    ),
                    _ => None,
                },
                _ => Some(None),
            },
            _ => None,
        }
    }

    /// Walks the tree below this node and adds the tree of every
    /// expression to `trees`. Returns the node that stands for this
    /// node in an expression tree, if it is a part of an expression;
    /// `None` where the tree has no expression trees. See [`build`].
    pub fn create_expression_tree(&self, trees: &mut Vec<ExpressionTree>) -> (r: Option<
        Option<ExpressionTreeNode>,
    >)
        ensures
            built_of(r, final(trees)@) == build(self@, tree_views(old(trees)@)),
        decreases self, 4nat,
    {
        match &self.children {
            SemanticNodeData::Expression { .. } => self.create_expression(trees),
            SemanticNodeData::Factor { expression, lvalue, constant } => {
                if let Some(expression) = expression {
                    expression.create_expression_tree(trees)
                } else if let Some(lvalue) = lvalue {
                    lvalue.create_expression_tree(trees)
                } else if let Some(constant) = constant {
                    constant.create_expression_tree(trees)
                } else {
                    None
                }
            },
            SemanticNodeData::Numexpression { .. } => self.create_operation(trees),
            SemanticNodeData::Term { .. } => self.create_operation(trees),
            SemanticNodeData::Unaryexpression { op, factor } => match op {
                Some(op) => {
                    let Some(operator) = operator_in(op, 1) else {
                        return None;
                    };
                    let Some(Some(operand)) = factor.create_expression_tree(trees) else {
                        return None;
                    };
                    Some(
                        Some(
                            ExpressionTreeNode::UnaryOperator {
                                operator,
                                operand: Box::new(operand),
                            },
                        ),
                    )
                },
                None => factor.create_expression_tree(trees),
            },
            SemanticNodeData::Atribstat { .. } => self.create_statement(trees),
            SemanticNodeData::Atribstatevalue { .. } => self.create_statement(trees),
            SemanticNodeData::Elsestat { .. } => self.create_statement(trees),
            SemanticNodeData::Forstat { .. } => self.create_statement(trees),
            SemanticNodeData::Funcdef { .. } => self.create_statement(trees),
            SemanticNodeData::Funclist { .. } => self.create_statement(trees),
            SemanticNodeData::Ifstat { .. } => self.create_statement(trees),
            SemanticNodeData::Printstat { .. } => self.create_statement(trees),
            SemanticNodeData::Program { .. } => self.create_statement(trees),
            SemanticNodeData::Statelist { .. } => self.create_statement(trees),
            SemanticNodeData::Statement { .. } => self.create_statement(trees),
            SemanticNodeData::VarIndex { .. } => self.create_statement(trees),
            SemanticNodeData::Constant { .. } => self.create_leaf(trees),
            SemanticNodeData::Lvalue { .. } => self.create_leaf(trees),
            SemanticNodeData::Terminal { .. } => self.create_leaf(trees),
            _ => Some(None),
        }
    }
}

impl SemanticTree {
    /// The trees of the expressions of the program, that of an inner
    /// expression before that of an outer one and otherwise in source
    /// order; `None` where the tree has no expression trees.
    pub fn create_expression_trees(&self) -> (r: Option<Vec<ExpressionTree>>)
        ensures
            match r {
                Some(trees) => build(self.root@, Seq::empty()) == Some(
                    Built {
                        node: build(self.root@, Seq::empty()).unwrap().node,
                        trees: tree_views(trees@),
                    },
                ),
                None => build(self.root@, Seq::empty()).is_none(),
            },
    {
        let mut trees: Vec<ExpressionTree> = Vec::new();
        assert(tree_views(trees@) =~= Seq::<ExpressionView>::empty());
        match self.root.create_expression_tree(&mut trees) {
            Some(_) => Some(trees),
            None => None,
        }
    }
}

} // verus!
