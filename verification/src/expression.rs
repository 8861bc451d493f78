//! Operators and the expression trees that show how they nest.

use vstd::prelude::*;
use vstd::string::*;
use crate::text::{
    append_decimal,
    append_escaped,
    append_signed_decimal,
    decimal,
    escape_quotes,
    signed_decimal,
};

verus! {

/// A relational or arithmetic operator.
#[derive(Debug, Clone, Copy, PartialEq, Eq, Hash, Structural)]
pub enum Operator {
    Eq,
    Ne,
    Gt,
    Ge,
    Lt,
    Le,
    Plus,
    Minus,
    Multiply,
    Division,
    Modular,
}

impl Operator {
    /// The operator as it is written in source text.
    pub open spec fn text(self) -> Seq<char> {
        match self {
            Operator::Eq => "=="@,
            Operator::Ne => "!="@,
            Operator::Gt => ">"@,
            Operator::Ge => ">="@,
            Operator::Lt => "<"@,
            Operator::Le => "<="@,
            Operator::Plus => "+"@,
            Operator::Minus => "-"@,
            Operator::Multiply => "*"@,
            Operator::Division => "/"@,
            Operator::Modular => "%"@,
        }
    }

    /// The operator as it is written in source text.
    pub fn as_text(&self) -> (r: &'static str)
        ensures
            r@ == self.text(),
    {
        match self {
            Operator::Eq => "==",
            Operator::Ne => "!=",
            Operator::Gt => ">",
            Operator::Ge => ">=",
            Operator::Lt => "<",
            Operator::Le => "<=",
            Operator::Plus => "+",
            Operator::Minus => "-",
            Operator::Multiply => "*",
            Operator::Division => "/",
            Operator::Modular => "%",
        }
    }

    /// The operator as it is written in source text, as an owned string.
    pub fn to_string(&self) -> (r: String)
        ensures
            r@ == self.text(),
    {
        self.as_text().to_owned()
    }
}

/// A leaf of an expression tree: a literal or the name of a variable
/// or function. A floating-point literal is kept as its text.
#[derive(Debug, PartialEq, Eq)]
pub enum Operand {
    Integer(i64),
    Float(String),
    String(String),
    Identifier(String),
}

/// The mathematical value of an [`Operand`].
pub enum OperandView {
    Integer(i64),
    Float(Seq<char>),
    String(Seq<char>),
    Identifier(Seq<char>),
}

impl View for Operand {
    type V = OperandView;

    open spec fn view(&self) -> OperandView {
        match self {
            Operand::Integer(i) => OperandView::Integer(*i),
            Operand::Float(f) => OperandView::Float(f@),
            Operand::String(s) => OperandView::String(s@),
            Operand::Identifier(id) => OperandView::Identifier(id@),
        }
    }
}

impl OperandView {
    /// The operand as the label of a node: a literal as it is written,
    /// with the double quotes of a string escaped; a name after the
    /// word for a function, if it starts with `@`, or for a variable.
    pub open spec fn text(self) -> Seq<char> {
        match self {
            OperandView::Integer(i) => signed_decimal(i as int),
            OperandView::Float(f) => f,
            OperandView::String(s) => escape_quotes(s),
            OperandView::Identifier(id) => if id.len() > 0 && id[0] == '@' {
                "Função "@ + id
            } else {
                "Variável "@ + id
            },
        }
    }
}

impl Operand {
    /// The operand as the label of a node.
    pub fn to_string(&self) -> (r: String)
        ensures
            r@ == self@.text(),
    {
        let mut out = String::new();
        match self {
            Operand::Integer(i) => {
                append_signed_decimal(&mut out, *i);
            },
            Operand::Float(f) => {
                out.append(f.as_str());
            },
            Operand::String(s) => {
                append_escaped(&mut out, s.as_str());
            },
            Operand::Identifier(id) => {
                if !id.as_str().is_empty() && id.as_str().get_char(0) == '@' {
                    out.append("Função ");
                } else {
                    out.append("Variável ");
                }
                out.append(id.as_str());
            },
        }
        assert(out@ =~= self@.text());
        out
    }
}

/// A node of an expression tree.
#[derive(Debug, PartialEq, Eq)]
pub enum ExpressionTreeNode {
    BinaryOperator {
        operator: Operator,
        left: Box<ExpressionTreeNode>,
        right: Box<ExpressionTreeNode>,
    },
    UnaryOperator { operator: Operator, operand: Box<ExpressionTreeNode> },
    Operand { value: Operand },
}

/// The mathematical value of an expression tree.
pub enum ExpressionView {
    BinaryOperator { operator: Operator, left: Box<ExpressionView>, right: Box<ExpressionView> },
    UnaryOperator { operator: Operator, operand: Box<ExpressionView> },
    Operand { value: OperandView },
}

impl ExpressionTreeNode {
    /// The mathematical value of the tree below this node.
    pub open spec fn model(&self) -> ExpressionView
        decreases self,
    {
        match self {
            ExpressionTreeNode::BinaryOperator { operator, left, right } => {
                ExpressionView::BinaryOperator {
                    operator: *operator,
                    left: Box::new(left.model()),
                    right: Box::new(right.model()),
                }
            },
            ExpressionTreeNode::UnaryOperator { operator, operand } => ExpressionView::UnaryOperator {
                operator: *operator,
                operand: Box::new(operand.model()),
            },
            ExpressionTreeNode::Operand { value } => ExpressionView::Operand { value: value@ },
        }
    }
}

impl View for ExpressionTreeNode {
    type V = ExpressionView;

    open spec fn view(&self) -> ExpressionView {
        self.model()
    }
}

/// The tree of one expression of a program.
#[derive(Debug, PartialEq, Eq)]
pub struct ExpressionTree {
    pub root: ExpressionTreeNode,
}

impl View for ExpressionTree {
    type V = ExpressionView;

    open spec fn view(&self) -> ExpressionView {
        self.root@
    }
}

/// The line that declares the node `number` with the label `label`.
pub open spec fn node_line(number: nat, label: Seq<char>) -> Seq<char> {
    "  "@ + decimal(number) + " [label=\""@ + label + "\"];\n"@
}

/// The line of the edge from the node `from` to the node `to`.
pub open spec fn edge_line(from: nat, to: nat) -> Seq<char> {
    "  "@ + decimal(from) + " -> "@ + decimal(to) + ";\n"@
}

/// The largest number that a node can have.
pub open spec fn number_limit() -> nat {
    usize::MAX as nat
}

/// A description of trees as a graph: the text so far, and the number
/// that the numbering has reached.
pub struct Drawing {
    pub text: Seq<char>,
    pub counter: nat,
}

/// The description `page` with that of the tree below a node added,
/// where the node gets the number that the numbering has reached: one
/// line for each node and one for each edge from a node to a child, the
/// line of an edge before the lines of the child. `None` where the
/// numbers run out.
pub open spec fn drawing(node: ExpressionView, page: Drawing) -> Option<Drawing>
    decreases node,
{
    let number = page.counter;
    if number >= number_limit() {
        None
    } else {
        match node {
            ExpressionView::BinaryOperator { operator, left, right } => match drawing(
                *left,
                Drawing {
                    text: page.text + node_line(number, operator.text()) + edge_line(
                        number,
                        number + 1,
                    ),
                    counter: number + 1,
                },
            ) {
                Some(first) => if first.counter >= number_limit() {
                    None
                } else {
                    drawing(
                        *right,
                        Drawing {
                            text: first.text + edge_line(number, first.counter + 1),
                            counter: first.counter + 1,
                        },
                    )
                },
                None => None,
            },
            ExpressionView::UnaryOperator { operator, operand } => drawing(
                *operand,
                Drawing {
                    text: page.text + node_line(number, operator.text()) + edge_line(
                        number,
                        number + 1,
                    ),
                    counter: number + 1,
                },
            ),
            ExpressionView::Operand { value } => Some(
                Drawing { text: page.text + node_line(number, value.text()), counter: number + 1 },
            ),
        }
    }
}

/// The head of the description of a tree as a graph.
pub open spec fn graph_head() -> Seq<char> {
    "// Visualize a árvore colando este arquivo em https://dreampuf.github.io/GraphvizOnline/?engine=dot\n"@
        + "digraph ExpressionTree {\n"@
}

/// The description of a whole tree as a graph: the head, the lines of
/// the tree numbered from 0, and the closing brace.
pub open spec fn graph(tree: ExpressionView) -> Option<Seq<char>> {
    match drawing(tree, Drawing { text: graph_head(), counter: 0 }) {
        Some(body) => Some(body.text + "}\n"@),
        None => None,
    }
}

fn append_node_line(output: &mut String, number: usize, label: &str)
    ensures
        final(output)@ == old(output)@ + node_line(number as nat, label@),
{
    output.append("  ");
    append_decimal(output, number as u64);
    output.append(" [label=\"");
    output.append(label);
    output.append("\"];\n");
    assert(output@ =~= old(output)@ + node_line(number as nat, label@));
}

fn append_edge_line(output: &mut String, from: usize, to: usize)
    ensures
        final(output)@ == old(output)@ + edge_line(from as nat, to as nat),
{
    output.append("  ");
    append_decimal(output, from as u64);
    output.append(" -> ");
    append_decimal(output, to as u64);
    output.append(";\n");
    assert(output@ =~= old(output)@ + edge_line(from as nat, to as nat));
}

impl ExpressionTreeNode {
    /// Appends the description of the tree below this node to `output`,
    /// numbering the nodes from `counter` on. Returns whether the
    /// numbers sufficed; if not, `output` holds a part of the
    /// description.
    pub fn save(&self, output: &mut String, counter: &mut usize) -> (r: bool)
        ensures
            match drawing(self@, Drawing { text: old(output)@, counter: *old(counter) as nat }) {
                Some(drawn) => {
                    &&& r
                    &&& final(output)@ == drawn.text
                    &&& *final(counter) == drawn.counter
                },
                None => !r,
            },
        decreases self,
    {
        if *counter == usize::MAX {
            return false;
        }
        let name = *counter;
        match self {
            ExpressionTreeNode::BinaryOperator { operator, left, right } => {
                append_node_line(output, name, operator.as_text());
                append_edge_line(output, name, name + 1);
                *counter = name + 1;
                if !left.save(output, counter) {
                    return false;
                }
                if *counter == usize::MAX {
                    return false;
                }
                append_edge_line(output, name, *counter + 1);
                *counter = *counter + 1;
                right.save(output, counter)
            },
            ExpressionTreeNode::UnaryOperator { operator, operand } => {
                append_node_line(output, name, operator.as_text());
                append_edge_line(output, name, name + 1);
                *counter = name + 1;
                operand.save(output, counter)
            },
            ExpressionTreeNode::Operand { value } => {
                let label = value.to_string();
                append_node_line(output, name, label.as_str());
                *counter = name + 1;
                true
            },
        }
    }
}

impl ExpressionTree {
    /// The description of the tree as a graph; `None` where the
    /// numbers of the nodes run out.
    pub fn output(&self) -> (r: Option<String>)
        ensures
            match r {
                Some(text) => graph(self@) == Some(text@),
                None => graph(self@).is_none(),
            },
    {
        let mut output = String::new();
        output.append(
            "// Visualize a árvore colando este arquivo em https://dreampuf.github.io/GraphvizOnline/?engine=dot\n",
        );
        output.append("digraph ExpressionTree {\n");
        assert(output@ =~= graph_head());
        let mut counter: usize = 0;
        if !self.root.save(&mut output, &mut counter) {
            return None;
        }
        output.append("}\n");
        Some(output)
    }
}

} // verus!
