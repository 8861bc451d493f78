//! Descriptions of the trees as graphs, for a reader who wants to look
//! at them: one line for each node and one for each edge from a node
//! to a child.

use vstd::prelude::*;
use vstd::string::*;
use crate::expression::ExpressionTree;
use crate::expression_builder::{build, tree_views};
use crate::grammar::const_type::{ConstType, ConstValue};
use crate::grammar::semantic_node::{Ast, SemanticNodeData};
use crate::scope_stack::{reports_from, Scope};
use crate::semantic::{SemanticNode, SemanticTree};
use crate::syntax::{Node, ParseTree, Symbol, SymbolView, SyntaxTree};
use crate::text::{
    append_decimal,
    append_escaped,
    append_signed_decimal,
    decimal,
    escape_quotes,
    signed_decimal,
};

verus! {

/// A description under way: the text so far, the number that the
/// numbering of the nodes has reached, and whether the numbers have
/// sufficed so far. Nothing is added to a description whose numbers
/// ran out.
pub struct Page {
    pub text: Seq<char>,
    pub counter: nat,
    pub intact: bool,
}

/// The largest number of a node.
pub open spec fn last_number() -> nat {
    u32::MAX as nat
}

impl Page {
    /// The page on which nothing is written, numbering from `counter`.
    pub open spec fn blank(counter: nat) -> Page {
        Page { text: Seq::empty(), counter, intact: true }
    }

    /// The page with `text` added.
    pub open spec fn write(self, text: Seq<char>) -> Page {
        Page { text: self.text + text, counter: self.counter, intact: self.intact }
    }

    /// The page after one more number was used; the numbers run out
    /// at the largest one.
    pub open spec fn count(self) -> Page {
        if self.intact && self.counter < last_number() {
            Page { text: self.text, counter: self.counter + 1, intact: true }
        } else {
            Page { text: self.text, counter: self.counter, intact: false }
        }
    }
}

/// `std::fmt::Debug` for `str`: the text between double quotes, with
/// the characters escaped that a string literal has to escape.
pub uninterp spec fn quoted(text: Seq<char>) -> Seq<char>;

/// `std::fmt::Debug` for `str`, through `format!`: the result is the
/// quoted form of the text.
#[verifier::external_body]
fn quote(text: &str) -> (r: String)
    ensures
        r@ == quoted(text@),
{
    format!("{:?}", text)
}

/// The name of a symbol: the identifier of its non-terminal or of its
/// token kind.
pub open spec fn symbol_name(value: SymbolView) -> Seq<char> {
    match value {
        SymbolView::NonTerminal(non_terminal) => non_terminal.variant_name(),
        SymbolView::Terminal(token_type, _) => token_type.variant_name(),
    }
}

/// The name of the node of a parse tree with the number `counter`.
pub open spec fn node_name(value: SymbolView, counter: nat) -> Seq<char> {
    symbol_name(value) + "_"@ + decimal(counter)
}

/// The line that declares a node of a parse tree: terminals are blue,
/// non-terminals green.
pub open spec fn declaration_line(value: SymbolView, counter: nat) -> Seq<char> {
    "  "@ + node_name(value, counter) + " [label=\""@ + symbol_name(value) + match value {
        SymbolView::Terminal(_, _) => "\" color=\"blue\"]\n"@,
        SymbolView::NonTerminal(_) => "\" color=\"green\"]\n"@,
    }
}

/// The lines of the empty word below the node `parent`.
pub open spec fn empty_lines(parent: Seq<char>, counter: nat) -> Seq<char> {
    "  Empty_"@ + decimal(counter) + " [label=\"ε\" color=\"gray\"]\n"@ + "  "@ + parent
        + " -> Empty_"@ + decimal(counter) + "\n"@
}

/// The line of the edge from `parent` to `child`, by their names.
pub open spec fn named_edge(parent: Seq<char>, child: Seq<char>) -> Seq<char> {
    "  "@ + parent + " -> "@ + child + "\n"@
}

/// The description `page` with that of a parse tree added. A
/// non-terminal without children gets the empty word as its child,
/// which takes a number of its own.
pub open spec fn dump(tree: ParseTree, page: Page) -> Page
    decreases tree, 1nat,
{
    let name = node_name(tree.value, page.counter);
    let declared = page.write(declaration_line(tree.value, page.counter)).count();
    if !declared.intact {
        declared
    } else {
        match tree.value {
            SymbolView::Terminal(_, _) => declared,
            SymbolView::NonTerminal(_) => if tree.children.len() == 0 {
                declared.write(empty_lines(name, declared.counter)).count()
            } else {
                dump_children(tree.children, 0, name, declared)
            },
        }
    }
}

/// The description `page` with those of the trees of `children` from
/// the one at `from` on added, each after the edge to it from
/// `parent`.
pub open spec fn dump_children(children: Seq<ParseTree>, from: int, parent: Seq<char>, page: Page)
    -> Page
    decreases children, children.len() - from,
{
    if 0 <= from < children.len() && page.intact {
        dump_children(
            children,
            from + 1,
            parent,
            dump(
                children[from],
                page.write(named_edge(parent, node_name(children[from].value, page.counter))),
            ),
        )
    } else {
        page
    }
}

/// The description of a parse tree with its head and foot.
pub open spec fn syntax_stats(tree: ParseTree, before: Seq<char>) -> Page {
    let drawn = dump(
        tree,
        Page {
            text: before + "Análise sintática concluída com sucesso. Árvore sintática gerada:\n"@
                + "// Visualize a árvore colando este arquivo em https://dreampuf.github.io/GraphvizOnline/?engine=dot\ndigraph G {"@,
            counter: 0,
            intact: true,
        },
    );
    drawn.write("}\n"@)
}

fn append_symbol_name(out: &mut String, value: &Symbol)
    ensures
        final(out)@ == old(out)@ + symbol_name(value@),
{
    match value {
        Symbol::NonTerminal(non_terminal) => out.append(non_terminal.as_variant_name()),
        Symbol::Terminal(token_type, _) => out.append(token_type.as_variant_name()),
    }
}

fn name_of(value: &Symbol, counter: u32) -> (r: String)
    ensures
        r@ == node_name(value@, counter as nat),
{
    let mut name = String::new();
    append_symbol_name(&mut name, value);
    name.append("_");
    append_decimal(&mut name, counter as u64);
    assert(name@ =~= node_name(value@, counter as nat));
    name
}

/// What a text, a counter and a flag stand for.
pub open spec fn page_of(text: Seq<char>, counter: u32, intact: bool) -> Page {
    Page { text, counter: counter as nat, intact }
}

impl Node {
    /// Appends the description of the tree below this node to `out`,
    /// numbering the nodes from `count` on. Returns whether the numbers
    /// sufficed; if not, `out` holds a part of the description.
    #[verifier::loop_isolation(false)]
    pub fn write_graph(&self, out: &mut String, count: &mut u32) -> (r: bool)
        ensures
            r == dump(self@, page_of(old(out)@, *old(count), true)).intact,
            r ==> page_of(final(out)@, *final(count), true) == dump(
                self@,
                page_of(old(out)@, *old(count), true),
            ),
        decreases self,
    {
        proof {
            self.lemma_children();
        }
        let name = name_of(&self.value, *count);
        let mut line = String::new();
        line.append("  ");
        line.append(name.as_str());
        line.append(" [label=\"");
        append_symbol_name(&mut line, &self.value);
        match &self.value {
            Symbol::Terminal(_, _) => line.append("\" color=\"blue\"]\n"),
            Symbol::NonTerminal(_) => line.append("\" color=\"green\"]\n"),
        }
        assert(line@ =~= declaration_line(self@.value, *count as nat));
        out.append(line.as_str());
        if *count == u32::MAX {
            return false;
        }
        *count = *count + 1;
        match &self.value {
            Symbol::Terminal(_, _) => true,
            Symbol::NonTerminal(_) => {
                if self.children.len() == 0 {
                    let mut lines = String::new();
                    lines.append("  Empty_");
                    append_decimal(&mut lines, *count as u64);
                    lines.append(" [label=\"ε\" color=\"gray\"]\n");
                    lines.append("  ");
                    lines.append(name.as_str());
                    lines.append(" -> Empty_");
                    append_decimal(&mut lines, *count as u64);
                    lines.append("\n");
                    assert(lines@ =~= empty_lines(name@, *count as nat));
                    out.append(lines.as_str());
                    if *count == u32::MAX {
                        return false;
                    }
                    *count = *count + 1;
                    true
                } else {
                    let ghost start = page_of(out@, *count, true);
                    let mut i: usize = 0;
                    while i < self.children.len()
                        invariant
                            i <= self.children@.len(),
                            self@.children.len() == self.children@.len(),
                            forall|k: int|
                                0 <= k < self.children@.len() ==> self@.children[k]
                                    == self.children@[k]@,
                            dump_children(self@.children, 0, name@, start) == dump_children(
                                self@.children,
                                i as int,
                                name@,
                                page_of(out@, *count, true),
                            ),
                        decreases self.children@.len() - i,
                    {
                        let child = &self.children[i];
                        proof {
                            child.lemma_children();
                        }
                        let ghost before = page_of(out@, *count, true);
                        let child_name = name_of(&child.value, *count);
                        let mut edge = String::new();
                        edge.append("  ");
                        edge.append(name.as_str());
                        edge.append(" -> ");
                        edge.append(child_name.as_str());
                        edge.append("\n");
                        assert(edge@ =~= named_edge(name@, child_name@));
                        out.append(edge.as_str());
                        let ghost written = before.write(named_edge(name@, child_name@));
                        assert(written == page_of(out@, *count, true));
                        let went = child.write_graph(out, count);
                        proof {
                            let drawn = dump(child@, written);
                            assert(dump_children(self@.children, i as int, name@, before)
                                == dump_children(self@.children, i as int + 1, name@, drawn));
                            if !went {
                                assert(dump_children(self@.children, i as int + 1, name@, drawn)
                                    == drawn);
                            }
                        }
                        if !went {
                            return false;
                        }
                        i = i + 1;
                    }
                    true
                }
            },
        }
    }

    /// The description of the tree below this node as a graph,
    /// numbering the nodes from `count` on; `None` where the numbers
    /// run out.
    pub fn to_string(&self, count: &mut u32) -> (r: Option<String>)
        ensures
            match r {
                Some(text) => page_of(text@, *final(count), true) == dump(
                    self@,
                    Page::blank(*old(count) as nat),
                ),
                None => !dump(self@, Page::blank(*old(count) as nat)).intact,
            },
    {
        let mut out = String::new();
        if self.write_graph(&mut out, count) {
            Some(out)
        } else {
            None
        }
    }
}

/// The line that declares the node `number` of an abstract syntax
/// tree with the label `label`.
pub open spec fn label_line(number: nat, label: Seq<char>) -> Seq<char> {
    "  "@ + decimal(number) + " [label=\""@ + label + "\"]\n"@
}

/// The line of the edge from the node `from` to the node `to`.
pub open spec fn edge_line(from: nat, to: nat) -> Seq<char> {
    "  "@ + decimal(from) + " -> "@ + decimal(to) + "\n"@
}

/// A literal as a reader of the tree sees it: the kind of the value
/// with the value in brackets, a string in its quoted form.
pub open spec fn literal_label(value: ConstValue) -> Seq<char> {
    match value {
        ConstValue::Int(i) => "Int("@ + signed_decimal(i as int) + ")"@,
        ConstValue::Float(f) => "Float("@ + f + ")"@,
        ConstValue::String(s) => "String("@ + quoted(s) + ")"@,
        ConstValue::VarType(v) => "VarType("@ + v.variant_name() + ")"@,
    }
}

/// The page with the line of a node that has the number which the
/// numbering has reached.
pub open spec fn labelled(page: Page, label: Seq<char>) -> Page {
    page.write(label_line(page.counter, label))
}

/// The description `page` with that of the tree below a child added:
/// the edge from the node `parent` to the child, which gets the next
/// number, and then the child.
pub open spec fn save_child(child: Ast, parent: nat, page: Page) -> Page
    decreases child, 9nat,
{
    let counted = page.write(edge_line(parent, page.counter + 1)).count();
    if counted.intact {
        save(child, counted)
    } else {
        counted
    }
}

/// The description `page` with that of an optional child added, if it
/// is there.
pub open spec fn save_optional(child: Option<Box<Ast>>, parent: nat, page: Page) -> Page
    decreases child, 10nat,
{
    match child {
        Some(child) => if page.intact {
            save_child(*child, parent, page)
        } else {
            page
        },
        None => page,
    }
}

/// The description `page` with those of the children from the one at
/// `from` on added.
pub open spec fn save_list(children: Seq<Ast>, from: int, parent: nat, page: Page) -> Page
    decreases children, children.len() - from,
{
    if 0 <= from < children.len() && page.intact {
        save_list(children, from + 1, parent, save_child(children[from], parent, page))
    } else {
        page
    }
}

/// The description `page` with that of the tree below a node added,
/// where the node has the number that the numbering has reached. A
/// node is labelled with its construct, a literal and a token that
/// carries a value with the value, an operator with its kind; a token
/// without a value has no line. The constructs that have children are
/// spread over a few functions, which keeps each of them small.
pub open spec fn save(node: Ast, page: Page) -> Page
    decreases node, 8nat,
{
    match node {
        Ast::Allocexpression { .. } => save_first(node, page),
        Ast::Atribstat { .. } => save_first(node, page),
        Ast::Atribstatevalue { .. } => save_first(node, page),
        Ast::ConstIndex { .. } => save_first(node, page),
        Ast::Elsestat { .. } => save_first(node, page),
        Ast::Expression { .. } => save_second(node, page),
        Ast::Factor { .. } => save_second(node, page),
        Ast::Forstat { .. } => save_second(node, page),
        Ast::Funccall { .. } => save_second(node, page),
        Ast::Funcdef { .. } => save_second(node, page),
        Ast::Funclist { .. } => save_third(node, page),
        Ast::Ifstat { .. } => save_third(node, page),
        Ast::Lvalue { .. } => save_third(node, page),
        Ast::Numexpression { .. } => save_third(node, page),
        Ast::Paramlist { .. } => save_third(node, page),
        Ast::Paramlistcall { .. } => save_fourth(node, page),
        Ast::Printstat { .. } => save_fourth(node, page),
        Ast::Program { .. } => save_fourth(node, page),
        Ast::Readstat { .. } => save_fourth(node, page),
        Ast::Statelist { .. } => save_fourth(node, page),
        Ast::Statement { .. } => save_statement(node, page),
        Ast::Term { .. } => save_fifth(node, page),
        Ast::Unaryexpression { .. } => save_fifth(node, page),
        Ast::Vardecl { .. } => save_fifth(node, page),
        Ast::VarIndex { .. } => save_fifth(node, page),
        Ast::Constant { value, .. } => labelled(page, literal_label(value)),
        Ast::OpExpression { op } => labelled(page, op.variant_name()),
        Ast::OpNumexpression { op } => labelled(page, op.variant_name()),
        Ast::OpTerm { op } => labelled(page, op.variant_name()),
        Ast::Returnstat { .. } => labelled(page, "ReturnStatement"@),
        Ast::Terminal { value } => match value.value {
            Some(literal) => labelled(page, escape_quotes(literal_label(literal))),
            None => page,
        },
    }
}

/// The description of a node that is an `Allocexpression`, `Atribstat`,
/// `Atribstatevalue`, `ConstIndex` or `Elsestat`: the line of the node,
/// then its children in their order.
pub open spec fn save_first(node: Ast, page: Page) -> Page
    decreases node, 0nat,
{
    match node {
        Ast::Allocexpression { var_type, dimensions } => save_child(*dimensions, page.counter, save_child(*var_type, page.counter, labelled(page, "AllocExpression"@))),
        Ast::Atribstat { lvalue, value } => save_child(*value, page.counter, save_child(*lvalue, page.counter, labelled(page, "AtribStatement"@))),
        Ast::Atribstatevalue { expression, allocexpression, funccall } => save_optional(funccall, page.counter, save_optional(allocexpression, page.counter, save_optional(expression, page.counter, labelled(page, "AtribStatementValue"@)))),
        Ast::ConstIndex { index } => save_list(index, 0, page.counter, labelled(page, "ConstIndex"@)),
        Ast::Elsestat { statement } => save_child(*statement, page.counter, labelled(page, "ElseStatement"@)),
        _ => page,
    }
}

/// The description of a node that is an `Expression`, `Factor`,
/// `Forstat`, `Funccall` or `Funcdef`: the line of the node, then its
/// children in their order.
pub open spec fn save_second(node: Ast, page: Page) -> Page
    decreases node, 0nat,
{
    match node {
        Ast::Expression { numexpression, op_expression, numexpression2 } => save_optional(numexpression2, page.counter, save_optional(op_expression, page.counter, save_child(*numexpression, page.counter, labelled(page, "Expression"@)))),
        Ast::Factor { expression, lvalue, constant } => save_optional(constant, page.counter, save_optional(lvalue, page.counter, save_optional(expression, page.counter, labelled(page, "Factor"@)))),
        Ast::Forstat { init, condition, increment, body } => save_child(*body, page.counter, save_child(*increment, page.counter, save_child(*condition, page.counter, save_child(*init, page.counter, labelled(page, "ForStatement"@))))),
        Ast::Funccall { id, paramlistcall } => save_optional(paramlistcall, page.counter, save_child(*id, page.counter, labelled(page, "FuncCall"@))),
        Ast::Funcdef { func_id, paramlist, statelist } => save_child(*statelist, page.counter, save_optional(paramlist, page.counter, save_child(*func_id, page.counter, labelled(page, "FuncDef"@)))),
        _ => page,
    }
}

/// The description of a node that is a `Funclist`, `Ifstat`, `Lvalue`,
/// `Numexpression` or `Paramlist`: the line of the node, then its
/// children in their order.
pub open spec fn save_third(node: Ast, page: Page) -> Page
    decreases node, 0nat,
{
    match node {
        Ast::Funclist { funclist } => save_list(funclist, 0, page.counter, labelled(page, "FuncList"@)),
        Ast::Ifstat { condition, then_branch, else_branch } => save_optional(else_branch, page.counter, save_child(*then_branch, page.counter, save_child(*condition, page.counter, labelled(page, "IfStatement"@)))),
        Ast::Lvalue { id, var_index } => save_optional(var_index, page.counter, save_child(*id, page.counter, labelled(page, "LValue"@))),
        Ast::Numexpression { term, op_numexpression, term2 } => save_optional(term2, page.counter, save_optional(op_numexpression, page.counter, save_child(*term, page.counter, labelled(page, "Numexpression"@)))),
        Ast::Paramlist { paramlist } => save_list(paramlist, 0, page.counter, labelled(page, "ParamList"@)),
        _ => page,
    }
}

/// The description of a node that is a `Paramlistcall`, `Printstat`,
/// `Program`, `Readstat` or `Statelist`: the line of the node, then its
/// children in their order.
pub open spec fn save_fourth(node: Ast, page: Page) -> Page
    decreases node, 0nat,
{
    match node {
        Ast::Paramlistcall { paramlist } => save_list(paramlist, 0, page.counter, labelled(page, "ParamListCall"@)),
        Ast::Printstat { expression } => save_child(*expression, page.counter, labelled(page, "PrintStatement"@)),
        Ast::Program { funclist, statement } => save_optional(statement, page.counter, save_optional(funclist, page.counter, labelled(page, "Program"@))),
        Ast::Readstat { lvalue } => save_child(*lvalue, page.counter, labelled(page, "ReadStatement"@)),
        Ast::Statelist { statelist } => save_list(statelist, 0, page.counter, labelled(page, "StateList"@)),
        _ => page,
    }
}

/// The description of a `Statement` node: the line of the node, then its
/// children in their order.
pub open spec fn save_statement(node: Ast, page: Page) -> Page
    decreases node, 0nat,
{
    match node {
        Ast::Statement { vardecl, atribstat, ifstat, forstat, statelist, commandstat } => save_optional(commandstat, page.counter, save_optional(statelist, page.counter, save_optional(forstat, page.counter, save_optional(ifstat, page.counter, save_optional(atribstat, page.counter, save_optional(vardecl, page.counter, labelled(page, "Statement"@))))))),
        _ => page,
    }
}

/// The description of a node that is a `Term`, `Unaryexpression`,
/// `Vardecl` or `VarIndex`: the line of the node, then its children in
/// their order.
pub open spec fn save_fifth(node: Ast, page: Page) -> Page
    decreases node, 0nat,
{
    match node {
        Ast::Term { unaryexpression, op_term, unaryexpression2 } => save_optional(unaryexpression2, page.counter, save_optional(op_term, page.counter, save_child(*unaryexpression, page.counter, labelled(page, "Term"@)))),
        Ast::Unaryexpression { op, factor } => save_child(*factor, page.counter, save_optional(op, page.counter, labelled(page, "Unaryexpression"@))),
        Ast::Vardecl { var_type, id, const_index } => save_optional(const_index, page.counter, save_child(*id, page.counter, save_child(*var_type, page.counter, labelled(page, "Vardecl"@)))),
        Ast::VarIndex { index } => save_list(index, 0, page.counter, labelled(page, "VarIndex"@)),
        _ => page,
    }
}

fn append_label_line(out: &mut String, number: u32, label: &str)
    ensures
        final(out)@ == old(out)@ + label_line(number as nat, label@),
{
    let mut line = String::new();
    line.append("  ");
    append_decimal(&mut line, number as u64);
    line.append(" [label=\"");
    line.append(label);
    line.append("\"]\n");
    assert(line@ =~= label_line(number as nat, label@));
    out.append(line.as_str());
}

fn literal_label_of(value: &ConstType) -> (r: String)
    ensures
        r@ == literal_label(value@),
{
    let mut label = String::new();
    match value {
        ConstType::Int(i) => {
            label.append("Int(");
            append_signed_decimal(&mut label, *i);
        },
        ConstType::Float(f) => {
            label.append("Float(");
            label.append(f.as_str());
        },
        ConstType::String(s) => {
            label.append("String(");
            let text = quote(s.as_str());
            label.append(text.as_str());
        },
        ConstType::VarType(v) => {
            label.append("VarType(");
            label.append(v.as_variant_name());
        },
    }
    label.append(")");
    assert(label@ =~= literal_label(value@));
    label
}

impl SemanticNode {
    fn save_child(&self, parent: u32, output: &mut String, count: &mut u32) -> (r: bool)
        ensures
            r == save_child(self@, parent as nat, page_of(old(output)@, *old(count), true)).intact,
            r ==> page_of(final(output)@, *final(count), true) == save_child(
                self@,
                parent as nat,
                page_of(old(output)@, *old(count), true),
            ),
        decreases self, 9nat,
    {
        if *count == u32::MAX {
            return false;
        }
        let mut line = String::new();
        line.append("  ");
        append_decimal(&mut line, parent as u64);
        line.append(" -> ");
        append_decimal(&mut line, (*count + 1) as u64);
        line.append("\n");
        assert(line@ =~= edge_line(parent as nat, *count as nat + 1));
        output.append(line.as_str());
        *count = *count + 1;
        self.save(output, count)
    }

    fn save_optional(
        child: &Option<Box<SemanticNode>>,
        parent: u32,
        output: &mut String,
        count: &mut u32,
    ) -> (r: bool)
        ensures
            r == save_optional(
                SemanticNode::model_of_option(*child),
                parent as nat,
                page_of(old(output)@, *old(count), true),
            ).intact,
            r ==> page_of(final(output)@, *final(count), true) == save_optional(
                SemanticNode::model_of_option(*child),
                parent as nat,
                page_of(old(output)@, *old(count), true),
            ),
        decreases child, 10nat,
    {
        match child {
            Some(child) => child.save_child(parent, output, count),
            None => true,
        }
    }

    #[verifier::loop_isolation(false)]
    fn save_list(children: &Vec<SemanticNode>, parent: u32, output: &mut String, count: &mut u32)
        -> (r: bool)
        ensures
            r == save_list(
                SemanticNode::models(*children),
                0,
                parent as nat,
                page_of(old(output)@, *old(count), true),
            ).intact,
            r ==> page_of(final(output)@, *final(count), true) == save_list(
                SemanticNode::models(*children),
                0,
                parent as nat,
                page_of(old(output)@, *old(count), true),
            ),
        decreases children, 0nat,
    {
        let ghost all = SemanticNode::models(*children);
        let ghost start = page_of(output@, *count, true);
        let mut i: usize = 0;
        while i < children.len()
            invariant
                i <= children@.len(),
                save_list(all, 0, parent as nat, start) == save_list(
                    all,
                    i as int,
                    parent as nat,
                    page_of(output@, *count, true),
                ),
            decreases children@.len() - i,
        {
            let ghost before = page_of(output@, *count, true);
            let went = children[i].save_child(parent, output, count);
            proof {
                let drawn = save_child(all[i as int], parent as nat, before);
                assert(save_list(all, i as int, parent as nat, before) == save_list(
                    all,
                    i as int + 1,
                    parent as nat,
                    drawn,
                ));
                if !went {
                    assert(save_list(all, i as int + 1, parent as nat, drawn) == drawn);
                }
            }
            if !went {
                return false;
            }
            i = i + 1;
        }
        true
    }

    fn save_first(&self, output: &mut String, count: &mut u32) -> (r: bool)
        ensures
            r == save_first(self@, page_of(old(output)@, *old(count), true)).intact,
            r ==> page_of(final(output)@, *final(count), true) == save_first(
                self@,
                page_of(old(output)@, *old(count), true),
            ),
        decreases self, 0nat,
    {
        let name = *count;
        match &self.children {
            SemanticNodeData::Allocexpression { var_type, dimensions } => {
                append_label_line(output, name, "AllocExpression");
                if !var_type.save_child(name, output, count) {
                    return false;
                }
                dimensions.save_child(name, output, count)
            },
            SemanticNodeData::Atribstat { lvalue, value } => {
                append_label_line(output, name, "AtribStatement");
                if !lvalue.save_child(name, output, count) {
                    return false;
                }
                value.save_child(name, output, count)
            },
            SemanticNodeData::Atribstatevalue { expression, allocexpression, funccall } => {
                append_label_line(output, name, "AtribStatementValue");
                if !SemanticNode::save_optional(expression, name, output, count) {
                    return false;
                }
                if !SemanticNode::save_optional(allocexpression, name, output, count) {
                    return false;
                }
                SemanticNode::save_optional(funccall, name, output, count)
            },
            SemanticNodeData::ConstIndex { index } => {
                append_label_line(output, name, "ConstIndex");
                SemanticNode::save_list(index, name, output, count)
            },
            SemanticNodeData::Elsestat { statement } => {
                append_label_line(output, name, "ElseStatement");
                statement.save_child(name, output, count)
            },
            _ => true,
        }
    }

    fn save_second(&self, output: &mut String, count: &mut u32) -> (r: bool)
        ensures
            r == save_second(self@, page_of(old(output)@, *old(count), true)).intact,
            r ==> page_of(final(output)@, *final(count), true) == save_second(
                self@,
                page_of(old(output)@, *old(count), true),
            ),
        decreases self, 0nat,
    {
        let name = *count;
        match &self.children {
            SemanticNodeData::Expression { numexpression, op_expression, numexpression2 } => {
                append_label_line(output, name, "Expression");
                if !numexpression.save_child(name, output, count) {
                    return false;
                }
                if !SemanticNode::save_optional(op_expression, name, output, count) {
                    return false;
                }
                SemanticNode::save_optional(numexpression2, name, output, count)
            },
            SemanticNodeData::Factor { expression, lvalue, constant } => {
                append_label_line(output, name, "Factor");
                if !SemanticNode::save_optional(expression, name, output, count) {
                    return false;
                }
                if !SemanticNode::save_optional(lvalue, name, output, count) {
                    return false;
                }
                SemanticNode::save_optional(constant, name, output, count)
            },
            SemanticNodeData::Forstat { init, condition, increment, body } => {
                append_label_line(output, name, "ForStatement");
                if !init.save_child(name, output, count) {
                    return false;
                }
                if !condition.save_child(name, output, count) {
                    return false;
                }
                if !increment.save_child(name, output, count) {
                    return false;
                }
                body.save_child(name, output, count)
            },
            SemanticNodeData::Funccall { id, paramlistcall } => {
                append_label_line(output, name, "FuncCall");
                if !id.save_child(name, output, count) {
                    return false;
                }
                SemanticNode::save_optional(paramlistcall, name, output, count)
            },
            SemanticNodeData::Funcdef { func_id, paramlist, statelist } => {
                append_label_line(output, name, "FuncDef");
                if !func_id.save_child(name, output, count) {
                    return false;
                }
                if !SemanticNode::save_optional(paramlist, name, output, count) {
                    return false;
                }
                statelist.save_child(name, output, count)
            },
            _ => true,
        }
    }

    fn save_third(&self, output: &mut String, count: &mut u32) -> (r: bool)
        ensures
            r == save_third(self@, page_of(old(output)@, *old(count), true)).intact,
            r ==> page_of(final(output)@, *final(count), true) == save_third(
                self@,
                page_of(old(output)@, *old(count), true),
            ),
        decreases self, 0nat,
    {
        let name = *count;
        match &self.children {
            SemanticNodeData::Funclist { funclist } => {
                append_label_line(output, name, "FuncList");
                SemanticNode::save_list(funclist, name, output, count)
            },
            SemanticNodeData::Ifstat { condition, then_branch, else_branch } => {
                append_label_line(output, name, "IfStatement");
                if !condition.save_child(name, output, count) {
                    return false;
                }
                if !then_branch.save_child(name, output, count) {
                    return false;
                }
                SemanticNode::save_optional(else_branch, name, output, count)
            },
            SemanticNodeData::Lvalue { id, var_index } => {
                append_label_line(output, name, "LValue");
                if !id.save_child(name, output, count) {
                    return false;
                }
                SemanticNode::save_optional(var_index, name, output, count)
            },
            SemanticNodeData::Numexpression { term, op_numexpression, term2 } => {
                append_label_line(output, name, "Numexpression");
                if !term.save_child(name, output, count) {
                    return false;
                }
                if !SemanticNode::save_optional(op_numexpression, name, output, count) {
                    return false;
                }
                SemanticNode::save_optional(term2, name, output, count)
            },
            SemanticNodeData::Paramlist { paramlist } => {
                append_label_line(output, name, "ParamList");
                SemanticNode::save_list(paramlist, name, output, count)
            },
            _ => true,
        }
    }

    fn save_fourth(&self, output: &mut String, count: &mut u32) -> (r: bool)
        ensures
            r == save_fourth(self@, page_of(old(output)@, *old(count), true)).intact,
            r ==> page_of(final(output)@, *final(count), true) == save_fourth(
                self@,
                page_of(old(output)@, *old(count), true),
            ),
        decreases self, 0nat,
    {
        let name = *count;
        match &self.children {
            SemanticNodeData::Paramlistcall { paramlist } => {
                append_label_line(output, name, "ParamListCall");
                SemanticNode::save_list(paramlist, name, output, count)
            },
            SemanticNodeData::Printstat { expression } => {
                append_label_line(output, name, "PrintStatement");
                expression.save_child(name, output, count)
            },
            SemanticNodeData::Program { funclist, statement } => {
                append_label_line(output, name, "Program");
                if !SemanticNode::save_optional(funclist, name, output, count) {
                    return false;
                }
                SemanticNode::save_optional(statement, name, output, count)
            },
            SemanticNodeData::Readstat { lvalue } => {
                append_label_line(output, name, "ReadStatement");
                lvalue.save_child(name, output, count)
            },
            SemanticNodeData::Statelist { statelist } => {
                append_label_line(output, name, "StateList");
                SemanticNode::save_list(statelist, name, output, count)
            },
            _ => true,
        }
    }

    fn save_statement(&self, output: &mut String, count: &mut u32) -> (r: bool)
        ensures
            r == save_statement(self@, page_of(old(output)@, *old(count), true)).intact,
            r ==> page_of(final(output)@, *final(count), true) == save_statement(
                self@,
                page_of(old(output)@, *old(count), true),
            ),
        decreases self, 0nat,
    {
        let name = *count;
        match &self.children {
            SemanticNodeData::Statement { vardecl, atribstat, ifstat, forstat, statelist, commandstat } => {
                append_label_line(output, name, "Statement");
                if !SemanticNode::save_optional(vardecl, name, output, count) {
                    return false;
                }
                if !SemanticNode::save_optional(atribstat, name, output, count) {
                    return false;
                }
                if !SemanticNode::save_optional(ifstat, name, output, count) {
                    return false;
                }
                if !SemanticNode::save_optional(forstat, name, output, count) {
                    return false;
                }
                if !SemanticNode::save_optional(statelist, name, output, count) {
                    return false;
                }
                SemanticNode::save_optional(commandstat, name, output, count)
            },
            _ => true,
        }
    }

    fn save_fifth(&self, output: &mut String, count: &mut u32) -> (r: bool)
        ensures
            r == save_fifth(self@, page_of(old(output)@, *old(count), true)).intact,
            r ==> page_of(final(output)@, *final(count), true) == save_fifth(
                self@,
                page_of(old(output)@, *old(count), true),
            ),
        decreases self, 0nat,
    {
        let name = *count;
        match &self.children {
            SemanticNodeData::Term { unaryexpression, op_term, unaryexpression2 } => {
                append_label_line(output, name, "Term");
                if !unaryexpression.save_child(name, output, count) {
                    return false;
                }
                if !SemanticNode::save_optional(op_term, name, output, count) {
                    return false;
                }
                SemanticNode::save_optional(unaryexpression2, name, output, count)
            },
            SemanticNodeData::Unaryexpression { op, factor } => {
                append_label_line(output, name, "Unaryexpression");
                if !SemanticNode::save_optional(op, name, output, count) {
                    return false;
                }
                factor.save_child(name, output, count)
            },
            SemanticNodeData::Vardecl { var_type, id, const_index } => {
                append_label_line(output, name, "Vardecl");
                if !var_type.save_child(name, output, count) {
                    return false;
                }
                if !id.save_child(name, output, count) {
                    return false;
                }
                SemanticNode::save_optional(const_index, name, output, count)
            },
            SemanticNodeData::VarIndex { index } => {
                append_label_line(output, name, "VarIndex");
                SemanticNode::save_list(index, name, output, count)
            },
            _ => true,
        }
    }

    /// Appends the description of the tree below this node to
    /// `output`, where the node has the number `count` and its
    /// descendants get the numbers that follow. Returns whether the
    /// numbers sufficed; if not, `output` holds a part of the
    /// description. See [`save`].
    pub fn save(&self, output: &mut String, count: &mut u32) -> (r: bool)
        ensures
            r == save(self@, page_of(old(output)@, *old(count), true)).intact,
            r ==> page_of(final(output)@, *final(count), true) == save(
                self@,
                page_of(old(output)@, *old(count), true),
            ),
        decreases self, 8nat,
    {
        match &self.children {
            SemanticNodeData::Allocexpression { .. } => self.save_first(output, count),
            SemanticNodeData::Atribstat { .. } => self.save_first(output, count),
            SemanticNodeData::Atribstatevalue { .. } => self.save_first(output, count),
            SemanticNodeData::ConstIndex { .. } => self.save_first(output, count),
            SemanticNodeData::Elsestat { .. } => self.save_first(output, count),
            SemanticNodeData::Expression { .. } => self.save_second(output, count),
            SemanticNodeData::Factor { .. } => self.save_second(output, count),
            SemanticNodeData::Forstat { .. } => self.save_second(output, count),
            SemanticNodeData::Funccall { .. } => self.save_second(output, count),
            SemanticNodeData::Funcdef { .. } => self.save_second(output, count),
            SemanticNodeData::Funclist { .. } => self.save_third(output, count),
            SemanticNodeData::Ifstat { .. } => self.save_third(output, count),
            SemanticNodeData::Lvalue { .. } => self.save_third(output, count),
            SemanticNodeData::Numexpression { .. } => self.save_third(output, count),
            SemanticNodeData::Paramlist { .. } => self.save_third(output, count),
            SemanticNodeData::Paramlistcall { .. } => self.save_fourth(output, count),
            SemanticNodeData::Printstat { .. } => self.save_fourth(output, count),
            SemanticNodeData::Program { .. } => self.save_fourth(output, count),
            SemanticNodeData::Readstat { .. } => self.save_fourth(output, count),
            SemanticNodeData::Statelist { .. } => self.save_fourth(output, count),
            SemanticNodeData::Statement { .. } => self.save_statement(output, count),
            SemanticNodeData::Term { .. } => self.save_fifth(output, count),
            SemanticNodeData::Unaryexpression { .. } => self.save_fifth(output, count),
            SemanticNodeData::Vardecl { .. } => self.save_fifth(output, count),
            SemanticNodeData::VarIndex { .. } => self.save_fifth(output, count),
            SemanticNodeData::Constant { value, .. } => {
                let label = literal_label_of(value);
                append_label_line(output, *count, label.as_str());
                true
            },
            SemanticNodeData::OpExpression { op } => {
                append_label_line(output, *count, op.as_variant_name());
                true
            },
            SemanticNodeData::OpNumexpression { op } => {
                append_label_line(output, *count, op.as_variant_name());
                true
            },
            SemanticNodeData::OpTerm { op } => {
                append_label_line(output, *count, op.as_variant_name());
                true
            },
            SemanticNodeData::Returnstat { .. } => {
                append_label_line(output, *count, "ReturnStatement");
                true
            },
            SemanticNodeData::Terminal { value } => {
                match &value.value {
                    Some(literal) => {
                        let label = literal_label_of(literal);
                        let mut escaped = String::new();
                        append_escaped(&mut escaped, label.as_str());
                        assert(escaped@ =~= escape_quotes(label@));
                        append_label_line(output, *count, escaped.as_str());
                    },
                    None => {},
                }
                true
            },
        }
    }
}

impl SyntaxTree {
    /// Appends the report of the syntax analysis to `output`: a line
    /// that says that it went through, and the parse tree as a graph.
    /// Returns whether the numbers of the nodes sufficed; if not,
    /// `output` holds a part of the report.
    pub fn output_stats(&self, output: &mut String) -> (r: bool)
        ensures
            r == syntax_stats(self.root()@, old(output)@).intact,
            r ==> final(output)@ == syntax_stats(self.root()@, old(output)@).text,
    {
        let mut head = String::new();
        head.append("Análise sintática concluída com sucesso. Árvore sintática gerada:\n");
        head.append(
            "// Visualize a árvore colando este arquivo em https://dreampuf.github.io/GraphvizOnline/?engine=dot\ndigraph G {",
        );
        output.append(head.as_str());
        assert(output@ =~= old(output)@
            + "Análise sintática concluída com sucesso. Árvore sintática gerada:\n"@
            + "// Visualize a árvore colando este arquivo em https://dreampuf.github.io/GraphvizOnline/?engine=dot\ndigraph G {"@);
        let mut count: u32 = 0;
        if !self.get_root().write_graph(output, &mut count) {
            return false;
        }
        output.append("}\n");
        true
    }
}

/// The head of the report of the semantic analysis.
pub open spec fn semantic_head() -> Seq<char> {
    "Análise semântica concluída com sucesso.\n"@
        + "Árvore semântica construída a partir da árvore sintática:\n"@
        + "Visualize a árvore colando este arquivo em https://dreampuf.github.io/GraphvizOnline/?engine=dot\ndigraph G {\n"@
}

/// The head of the report of the closed scopes.
pub open spec fn scopes_head() -> Seq<char> {
    "]\n"@ + "Tipos de símbolos por escopo:\n"@
}

/// The foot of the report of the semantic analysis.
pub open spec fn semantic_foot() -> Seq<char> {
    "\n"@ + "Verificação de tipos: Ok\n"@ + "Verificação identificadores de escopos: Ok\n"@
        + "Verificação de comandos por escopo: Ok\n"@
}

/// The head of the list of the expression trees.
pub open spec fn trees_head(count: nat) -> Seq<char> {
    "}\n"@ + "Árvores de expressão geradas: "@ + decimal(count) + " [\n"@
}

/// The text `text` with the graphs of the expression trees from the
/// one at `from` on added, each under its number, counted from 1;
/// `None` where the numbers of the nodes of a tree run out.
pub open spec fn trees_text(
    trees: Seq<crate::expression::ExpressionView>,
    from: int,
    text: Seq<char>,
) -> Option<Seq<char>>
    decreases trees.len() - from,
{
    if 0 <= from < trees.len() {
        match crate::expression::graph(trees[from]) {
            Some(drawn) => trees_text(
                trees,
                from + 1,
                text + "Árvore de expressão "@ + decimal((from + 1) as nat) + ":\n"@ + drawn
                    + "\n"@,
            ),
            None => None,
        }
    } else {
        Some(text)
    }
}

/// The report of the semantic analysis of a tree, added to `before`:
/// the abstract syntax tree as a graph, the expression trees as
/// graphs, the scopes that the analysis closed with their names, and
/// the checks that went through. `None` where the tree has no
/// expression trees or where the numbers of the nodes run out.
pub open spec fn semantic_stats(root: Ast, closed: Seq<Scope>, before: Seq<char>) -> Option<
    Seq<char>,
> {
    let drawn = save(root, Page { text: before + semantic_head(), counter: 0, intact: true });
    if !drawn.intact {
        None
    } else {
        match build(root, Seq::empty()) {
            None => None,
            Some(built) => match trees_text(
                built.trees,
                0,
                drawn.text + trees_head(built.trees.len()),
            ) {
                Some(text) => Some(reports_from(closed, 0, text + scopes_head()) + semantic_foot()),
                None => None,
            },
        }
    }
}

impl SemanticTree {
    /// Appends the report of the semantic analysis to `output`. See
    /// [`semantic_stats`]. Returns whether there is a report; if not,
    /// `output` holds a part of one.
    #[verifier::loop_isolation(false)]
    pub fn output_stats(&self, output: &mut String) -> (r: bool)
        ensures
            r == semantic_stats(self.root@, self.scopes.closed@, old(output)@).is_some(),
            r ==> Some(final(output)@) == semantic_stats(
                self.root@,
                self.scopes.closed@,
                old(output)@,
            ),
    {
        let mut head = String::new();
        head.append("Análise semântica concluída com sucesso.\n");
        head.append("Árvore semântica construída a partir da árvore sintática:\n");
        head.append(
            "Visualize a árvore colando este arquivo em https://dreampuf.github.io/GraphvizOnline/?engine=dot\ndigraph G {\n",
        );
        assert(head@ =~= semantic_head());
        output.append(head.as_str());
        let mut count: u32 = 0;
        if !self.root.save(output, &mut count) {
            return false;
        }
        let Some(trees) = self.create_expression_trees() else {
            return false;
        };
        let ghost views = tree_views(trees@);
        let mut line = String::new();
        line.append("}\n");
        line.append("Árvores de expressão geradas: ");
        append_decimal(&mut line, trees.len() as u64);
        line.append(" [\n");
        assert(line@ =~= trees_head(views.len()));
        output.append(line.as_str());
        let ghost start = output@;
        let mut i: usize = 0;
        while i < trees.len()
            invariant
                i <= trees@.len(),
                trees_text(views, 0, start) == trees_text(views, i as int, output@),
            decreases trees@.len() - i,
        {
            let Some(drawn) = trees[i].output() else {
                return false;
            };
            let mut entry = String::new();
            entry.append("Árvore de expressão ");
            append_decimal(&mut entry, (i + 1) as u64);
            entry.append(":\n");
            entry.append(drawn.as_str());
            entry.append("\n");
            let ghost before = output@;
            output.append(entry.as_str());
            assert(output@ =~= before + "Árvore de expressão "@ + decimal((i + 1) as nat) + ":\n"@
                + drawn@ + "\n"@);
            i = i + 1;
        }
        let mut head = String::new();
        head.append("]\n");
        head.append("Tipos de símbolos por escopo:\n");
        assert(head@ =~= scopes_head());
        output.append(head.as_str());
        self.scopes.append_closed_report(output);
        let mut foot = String::new();
        foot.append("\n");
        foot.append("Verificação de tipos: Ok\n");
        foot.append("Verificação identificadores de escopos: Ok\n");
        foot.append("Verificação de comandos por escopo: Ok\n");
        assert(foot@ =~= semantic_foot());
        output.append(foot.as_str());
        true
    }
}

} // verus!
