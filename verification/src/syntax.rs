//! Syntax analysis: the parse tree and the table-driven predictive
//! parser that builds it.

use vstd::prelude::*;
use vstd::string::*;
use crate::ast_builder::visit;
use crate::cfg::{
    lemma_non_terminal_index_distinct,
    Grammar,
    GrammarView,
    NonTerminal,
    NON_TERMINAL_COUNT,
};
use crate::grammar::token_type::TokenType;
use crate::grammar_file::{grammar_of, load_grammar, GrammarFileError, GrammarFileErrorView};
use crate::scope_stack::{initial_scopes, ScopeStack};
use crate::semantic::SemanticTree;
use crate::text::{append_decimal, decimal};
use crate::token::{token_views, Token, TokenView};

verus! {

/// The symbol of a parse tree node: a non-terminal, or a terminal with
/// the token that it matched once it has matched one.
#[derive(Debug, PartialEq)]
pub enum Symbol {
    NonTerminal(NonTerminal),
    Terminal(TokenType, Option<Token>),
}

/// The mathematical value of a [`Symbol`].
pub enum SymbolView {
    NonTerminal(NonTerminal),
    Terminal(TokenType, Option<TokenView>),
}

impl View for Symbol {
    type V = SymbolView;

    open spec fn view(&self) -> SymbolView {
        match self {
            Symbol::NonTerminal(n) => SymbolView::NonTerminal(*n),
            Symbol::Terminal(t, token) => SymbolView::Terminal(
                *t,
                match token {
                    Some(token) => Some(token@),
                    None => None,
                },
            ),
        }
    }
}

/// A node of the parse tree. It owns its children, in the order of the
/// rule that was expanded.
#[derive(Debug, PartialEq)]
pub struct Node {
    pub value: Symbol,
    pub children: Vec<Node>,
}

/// The mathematical value of a [`Node`]: a parse tree.
pub struct ParseTree {
    pub value: SymbolView,
    pub children: Seq<ParseTree>,
}

impl Node {
    /// The parse tree that the node is the root of.
    pub open spec fn model(&self) -> ParseTree
        decreases self,
    {
        ParseTree { value: self.value@, children: Node::models(self.children) }
    }

    /// The parse trees of a list of nodes.
    pub open spec fn models(nodes: Vec<Node>) -> Seq<ParseTree>
        decreases nodes,
    {
        Seq::new(
            nodes.len() as nat,
            |i: int|
                if 0 <= i < nodes.len() {
                    nodes[i].model()
                } else {
                    arbitrary()
                },
        )
    }
}

impl View for Node {
    type V = ParseTree;

    open spec fn view(&self) -> ParseTree {
        self.model()
    }
}

/// What went wrong in a parse.
#[derive(Debug, Clone, Copy, PartialEq, Eq, Structural)]
pub enum SyntaxErrorKind {
    /// A terminal was expected and the next token is of another kind.
    UnexpectedToken { expected: TokenType },
    /// The table has no rule for the non-terminal and the lookahead.
    NoRule { non_terminal: NonTerminal },
    /// The table expands the non-terminal a second time before any
    /// token was consumed, so the expansion would never end.
    LeftRecursion { non_terminal: NonTerminal },
    /// A token was needed and none is left.
    EndOfInput,
}

/// A syntax error: what went wrong, the offending token and where it
/// stands. At the end of the input the place is that of the last token
/// and there is no offending token.
#[derive(Debug, PartialEq)]
pub struct SyntaxError {
    pub kind: SyntaxErrorKind,
    pub found: Option<Token>,
    pub line: usize,
    pub column: usize,
}

/// The mathematical value of a [`SyntaxError`].
pub struct SyntaxErrorView {
    pub kind: SyntaxErrorKind,
    pub found: Option<TokenView>,
    pub line: usize,
    pub column: usize,
}

impl View for SyntaxError {
    type V = SyntaxErrorView;

    open spec fn view(&self) -> SyntaxErrorView {
        SyntaxErrorView {
            kind: self.kind,
            found: match self.found {
                Some(token) => Some(token@),
                None => None,
            },
            line: self.line,
            column: self.column,
        }
    }
}

impl SyntaxErrorView {
    /// The position as it ends a message.
    pub open spec fn place(self) -> Seq<char> {
        " na linha "@ + decimal(self.line as nat) + ", coluna "@ + decimal(self.column as nat)
    }

    /// The message of the error.
    pub open spec fn message(self) -> Seq<char> {
        match self.kind {
            SyntaxErrorKind::UnexpectedToken { expected } => "Erro sintático: esperava "@
                + expected.variant_name() + ", mas encontrou "@ + match self.found {
                Some(token) => token.token_type.text(),
                None => Seq::empty(),
            } + self.place(),
            SyntaxErrorKind::NoRule { non_terminal } =>
                "Erro sintático: token inesperado encontrado"@ + self.place() + ": "@
                    + match self.found {
                    Some(token) => token.text(),
                    None => Seq::empty(),
                },
            SyntaxErrorKind::LeftRecursion { non_terminal } => "Erro sintático: a gramática expande "@
                + non_terminal.variant_name() + " sem consumir tokens"@ + self.place(),
            SyntaxErrorKind::EndOfInput => "Erro sintático: fim inesperado da entrada"@
                + self.place(),
        }
    }
}

impl SyntaxError {
    fn append_place(&self, out: &mut String)
        ensures
            final(out)@ == old(out)@ + self@.place(),
    {
        out.append(" na linha ");
        append_decimal(out, self.line as u64);
        out.append(", coluna ");
        append_decimal(out, self.column as u64);
        assert(out@ =~= old(out)@ + self@.place());
    }

    /// The message of the error.
    pub fn message(&self) -> (r: String)
        ensures
            r@ == self@.message(),
    {
        let mut out = String::new();
        match self.kind {
            SyntaxErrorKind::UnexpectedToken { expected } => {
                out.append("Erro sintático: esperava ");
                out.append(expected.as_variant_name());
                out.append(", mas encontrou ");
                match &self.found {
                    Some(token) => {
                        out.append(token.token_type.as_text());
                    },
                    None => {},
                }
                self.append_place(&mut out);
            },
            SyntaxErrorKind::NoRule { non_terminal } => {
                out.append("Erro sintático: token inesperado encontrado");
                self.append_place(&mut out);
                out.append(": ");
                match &self.found {
                    Some(token) => {
                        let text = token.to_string();
                        out.append(text.as_str());
                    },
                    None => {},
                }
            },
            SyntaxErrorKind::LeftRecursion { non_terminal } => {
                out.append("Erro sintático: a gramática expande ");
                out.append(non_terminal.as_variant_name());
                out.append(" sem consumir tokens");
                self.append_place(&mut out);
            },
            SyntaxErrorKind::EndOfInput => {
                out.append("Erro sintático: fim inesperado da entrada");
                self.append_place(&mut out);
            },
        }
        assert(out@ =~= self@.message());
        out
    }
}

/// How many flags of `flags` are not set.
pub open spec fn unset_count(flags: Seq<bool>) -> nat
    decreases flags.len(),
{
    if flags.len() == 0 {
        0
    } else {
        unset_count(flags.drop_last()) + if flags.last() {
            0nat
        } else {
            1nat
        }
    }
}

/// Setting a flag that was not set leaves one flag fewer unset.
pub proof fn lemma_unset_count_set(flags: Seq<bool>, i: int)
    requires
        0 <= i < flags.len(),
        !flags[i],
    ensures
        unset_count(flags.update(i, true)) + 1 == unset_count(flags),
    decreases flags.len(),
{
    if i == flags.len() - 1 {
        assert(flags.update(i, true).drop_last() =~= flags.drop_last());
    } else {
        lemma_unset_count_set(flags.drop_last(), i);
        assert(flags.update(i, true).drop_last() =~= flags.drop_last().update(i, true));
    }
}

/// No non-terminal is being expanded.
pub open spec fn no_active() -> Seq<bool> {
    Seq::new(NON_TERMINAL_COUNT as nat, |i: int| false)
}

/// How many tokens are left at `pos`.
pub open spec fn remaining(tokens: Seq<TokenView>, pos: nat) -> nat {
    if pos <= tokens.len() {
        (tokens.len() - pos) as nat
    } else {
        0
    }
}

/// The error for a token that was needed at the end of the input.
pub open spec fn end_of_input(tokens: Seq<TokenView>) -> SyntaxErrorView {
    SyntaxErrorView {
        kind: SyntaxErrorKind::EndOfInput,
        found: None,
        line: if tokens.len() > 0 {
            tokens.last().line
        } else {
            0
        },
        column: if tokens.len() > 0 {
            tokens.last().column
        } else {
            0
        },
    }
}

/// An error of kind `kind` at the token `found`.
pub open spec fn error_at(kind: SyntaxErrorKind, found: TokenView) -> SyntaxErrorView {
    SyntaxErrorView { kind, found: Some(found), line: found.line, column: found.column }
}

/// The parse of one grammar symbol at `pos`: the tree and the position
/// after the last token consumed, or the first error.
///
/// A terminal consumes the next token if it is of the expected kind. A
/// non-terminal expands the rule that the table selects for it and the
/// kind of the next token, child by child from left to right. `active`
/// flags the non-terminals whose expansion began at `pos` and has not
/// ended: expanding one of them again could never end.
pub open spec fn parse_symbol(
    grammar: GrammarView,
    tokens: Seq<TokenView>,
    symbol: crate::cfg::Symbol,
    pos: nat,
    active: Seq<bool>,
) -> Result<(ParseTree, nat), SyntaxErrorView>
    decreases remaining(tokens, pos), unset_count(active), 0nat,
{
    if pos >= tokens.len() {
        Err(end_of_input(tokens))
    } else {
        let lookahead = tokens[pos as int];
        match symbol {
            crate::cfg::Symbol::Terminal(expected) => {
                if lookahead.token_type == expected {
                    Ok(
                        (
                            ParseTree {
                                value: SymbolView::Terminal(expected, Some(lookahead)),
                                children: Seq::empty(),
                            },
                            pos + 1,
                        ),
                    )
                } else {
                    Err(error_at(SyntaxErrorKind::UnexpectedToken { expected }, lookahead))
                }
            },
            crate::cfg::Symbol::NonTerminal(non_terminal) => {
                let key = (non_terminal, lookahead.token_type);
                let at = non_terminal.spec_index() as int;
                if !grammar.table.dom().contains(key) {
                    Err(error_at(SyntaxErrorKind::NoRule { non_terminal }, lookahead))
                } else {
                    match grammar.rules[grammar.table[key] as int].body {
                        None => Ok(
                            (
                                ParseTree {
                                    value: SymbolView::NonTerminal(non_terminal),
                                    children: Seq::empty(),
                                },
                                pos,
                            ),
                        ),
                        Some(body) => {
                            if active.len() != NON_TERMINAL_COUNT || active[at] {
                                Err(
                                    error_at(
                                        SyntaxErrorKind::LeftRecursion { non_terminal },
                                        lookahead,
                                    ),
                                )
                            } else {
                                proof {
                                    lemma_non_terminal_index_distinct(non_terminal, non_terminal);
                                    lemma_unset_count_set(active, at);
                                }
                                match parse_body(
                                    grammar,
                                    tokens,
                                    body,
                                    0,
                                    pos,
                                    pos,
                                    active.update(at, true),
                                    Seq::empty(),
                                ) {
                                    Ok((children, end)) => Ok(
                                        (
                                            ParseTree {
                                                value: SymbolView::NonTerminal(non_terminal),
                                                children,
                                            },
                                            end,
                                        ),
                                    ),
                                    Err(e) => Err(e),
                                }
                            }
                        },
                    }
                }
            },
        }
    }
}

/// The parse of the symbols of `body` from the one at `from` on, at
/// `pos`, where `done` holds the trees of the symbols before it. The
/// expansion of the body began at `entry`; `inner` flags the
/// non-terminals that are active as long as no token has been consumed
/// since.
pub open spec fn parse_body(
    grammar: GrammarView,
    tokens: Seq<TokenView>,
    body: Seq<crate::cfg::Symbol>,
    from: nat,
    entry: nat,
    pos: nat,
    inner: Seq<bool>,
    done: Seq<ParseTree>,
) -> Result<(Seq<ParseTree>, nat), SyntaxErrorView>
    decreases remaining(tokens, entry), unset_count(inner), 1 + body.len() - from,
    when entry <= pos <= tokens.len()
{
    if from >= body.len() {
        Ok((done, pos))
    } else {
        match parse_symbol(
            grammar,
            tokens,
            body[from as int],
            pos,
            if pos == entry {
                inner
            } else {
                no_active()
            },
        ) {
            Ok((child, next)) => parse_body(
                grammar,
                tokens,
                body,
                from + 1,
                entry,
                next,
                inner,
                done.push(child),
            ),
            Err(e) => Err(e),
        }
    }
}

impl SymbolView {
    /// The grammar symbol that a node with this value stands for.
    pub open spec fn grammar_symbol(self) -> crate::cfg::Symbol {
        match self {
            SymbolView::NonTerminal(n) => crate::cfg::Symbol::NonTerminal(n),
            SymbolView::Terminal(t, _) => crate::cfg::Symbol::Terminal(t),
        }
    }
}

impl Symbol {
    /// The grammar symbol that a node with this value stands for.
    pub fn grammar_symbol(&self) -> (r: crate::cfg::Symbol)
        ensures
            r == self@.grammar_symbol(),
    {
        match self {
            Symbol::NonTerminal(n) => crate::cfg::Symbol::NonTerminal(*n),
            Symbol::Terminal(t, _) => crate::cfg::Symbol::Terminal(*t),
        }
    }
}

fn fresh_flags() -> (r: Vec<bool>)
    ensures
        r@ == no_active(),
{
    let mut flags: Vec<bool> = Vec::new();
    let mut i: usize = 0;
    while i < NON_TERMINAL_COUNT
        invariant
            i <= NON_TERMINAL_COUNT,
            flags@.len() == i,
            forall|j: int| 0 <= j < i ==> !flags@[j],
        decreases NON_TERMINAL_COUNT - i,
    {
        flags.push(false);
        i = i + 1;
    }
    assert(flags@ =~= no_active());
    flags
}

fn with_flag(flags: &Vec<bool>, at: usize) -> (r: Vec<bool>)
    requires
        at < flags@.len(),
    ensures
        r@ == flags@.update(at as int, true),
{
    let mut copy: Vec<bool> = Vec::new();
    let mut i: usize = 0;
    while i < flags.len()
        invariant
            i <= flags@.len(),
            at < flags@.len(),
            copy@.len() == i,
            forall|j: int| 0 <= j < i ==> copy@[j] == flags@.update(at as int, true)[j],
        decreases flags@.len() - i,
    {
        copy.push(i == at || flags[i]);
        i = i + 1;
    }
    assert(copy@ =~= flags@.update(at as int, true));
    copy
}

fn end_of_input_error(tokens: &Vec<Token>) -> (r: SyntaxError)
    ensures
        r@ == end_of_input(token_views(tokens@)),
{
    if tokens.len() > 0 {
        let last = &tokens[tokens.len() - 1];
        SyntaxError {
            kind: SyntaxErrorKind::EndOfInput,
            found: None,
            line: last.line,
            column: last.column,
        }
    } else {
        SyntaxError { kind: SyntaxErrorKind::EndOfInput, found: None, line: 0, column: 0 }
    }
}

fn error_at_token(kind: SyntaxErrorKind, found: &Token) -> (r: SyntaxError)
    ensures
        r@ == error_at(kind, found@),
{
    SyntaxError { kind, found: Some(found.clone()), line: found.line, column: found.column }
}

impl Node {
    /// A node for `value` that has no children yet.
    pub fn new(value: Symbol) -> (r: Node)
        ensures
            r@ == (ParseTree { value: value@, children: Seq::empty() }),
    {
        let r = Node { value, children: Vec::new() };
        assert(r@.children =~= Seq::empty());
        r
    }

    /// Parses `symbol` at `pos`, where `active` flags the non-terminals
    /// whose expansion began at `pos`. See [`parse_symbol`].
    #[verifier::loop_isolation(false)]
    fn parse_symbol(
        grammar: &Grammar,
        tokens: &Vec<Token>,
        symbol: crate::cfg::Symbol,
        pos: usize,
        active: &Vec<bool>,
    ) -> (r: Result<(Node, usize), SyntaxError>)
        requires
            active@.len() == NON_TERMINAL_COUNT,
        ensures
            match r {
                Ok((node, end)) => {
                    &&& parse_symbol(grammar@, token_views(tokens@), symbol, pos as nat, active@)
                        == Ok::<(ParseTree, nat), SyntaxErrorView>((node@, end as nat))
                    &&& pos <= end <= tokens@.len()
                },
                Err(e) => parse_symbol(
                    grammar@,
                    token_views(tokens@),
                    symbol,
                    pos as nat,
                    active@,
                ) == Err::<(ParseTree, nat), SyntaxErrorView>(e@),
            },
        decreases remaining(token_views(tokens@), pos as nat), unset_count(active@), 0nat,
    {
        if pos >= tokens.len() {
            return Err(end_of_input_error(tokens));
        }
        let lookahead = &tokens[pos];
        match symbol {
            crate::cfg::Symbol::Terminal(expected) => {
                if lookahead.token_type == expected {
                    let node = Node::new(Symbol::Terminal(expected, Some(lookahead.clone())));
                    Ok((node, pos + 1))
                } else {
                    Err(error_at_token(SyntaxErrorKind::UnexpectedToken { expected }, lookahead))
                }
            },
            crate::cfg::Symbol::NonTerminal(non_terminal) => {
                let Some(rule) = grammar.select(non_terminal, lookahead.token_type) else {
                    return Err(error_at_token(SyntaxErrorKind::NoRule { non_terminal }, lookahead));
                };
                let Some(body) = &rule.body else {
                    return Ok((Node::new(Symbol::NonTerminal(non_terminal)), pos));
                };
                let at = non_terminal.index();
                if active[at] {
                    return Err(
                        error_at_token(SyntaxErrorKind::LeftRecursion { non_terminal }, lookahead),
                    );
                }
                let inner = with_flag(active, at);
                let fresh = fresh_flags();
                let mut children: Vec<Node> = Vec::new();
                let mut next = pos;
                let mut k: usize = 0;
                proof {
                    lemma_unset_count_set(active@, at as int);
                    assert(Node::models(children) =~= Seq::<ParseTree>::empty());
                }
                while k < body.len()
                    invariant
                        k <= body@.len(),
                        pos < tokens@.len(),
                        pos <= next <= tokens@.len(),
                        active@.len() == NON_TERMINAL_COUNT,
                        inner@ == active@.update(at as int, true),
                        inner@.len() == NON_TERMINAL_COUNT,
                        unset_count(inner@) < unset_count(active@),
                        fresh@ == no_active(),
                        parse_body(
                            grammar@,
                            token_views(tokens@),
                            body@,
                            0,
                            pos as nat,
                            pos as nat,
                            inner@,
                            Seq::empty(),
                        ) == parse_body(
                            grammar@,
                            token_views(tokens@),
                            body@,
                            k as nat,
                            pos as nat,
                            next as nat,
                            inner@,
                            Node::models(children),
                        ),
                    decreases body@.len() - k,
                {
                    let flags = if next == pos {
                        &inner
                    } else {
                        &fresh
                    };
                    match Node::parse_symbol(grammar, tokens, body[k], next, flags) {
                        Ok((child, end)) => {
                            let ghost before = Node::models(children);
                            let ghost grown = before.push(child@);
                            children.push(child);
                            assert(Node::models(children) =~= grown);
                            next = end;
                        },
                        Err(e) => {
                            return Err(e);
                        },
                    }
                    k = k + 1;
                }
                Ok((Node { value: Symbol::NonTerminal(non_terminal), children }, next))
            },
        }
    }

    /// Parses the symbol of this node at `index`, with no expansion
    /// under way. On success the node becomes the root of the parse
    /// tree and `index` stands behind the last token consumed; on
    /// failure both are left as they were.
    pub fn parse(&mut self, grammar: &Grammar, tokens: &Vec<Token>, index: &mut usize) -> (r:
        Result<(), SyntaxError>)
        ensures
            match r {
                Ok(()) => {
                    &&& parse_symbol(
                        grammar@,
                        token_views(tokens@),
                        old(self)@.value.grammar_symbol(),
                        *old(index) as nat,
                        no_active(),
                    ) == Ok::<(ParseTree, nat), SyntaxErrorView>(
                        (final(self)@, *final(index) as nat),
                    )
                    &&& *old(index) <= *final(index) <= tokens@.len()
                },
                Err(e) => {
                    &&& parse_symbol(
                        grammar@,
                        token_views(tokens@),
                        old(self)@.value.grammar_symbol(),
                        *old(index) as nat,
                        no_active(),
                    ) == Err::<(ParseTree, nat), SyntaxErrorView>(e@)
                    &&& *final(self) == *old(self)
                    &&& *final(index) == *old(index)
                },
            },
    {
        let fresh = fresh_flags();
        match Node::parse_symbol(grammar, tokens, self.value.grammar_symbol(), *index, &fresh) {
            Ok((node, end)) => {
                *self = node;
                *index = end;
                Ok(())
            },
            Err(e) => Err(e),
        }
    }
}

/// The parse of a whole program: the start symbol at the first token,
/// with no expansion under way.
pub open spec fn parse_program(grammar: GrammarView, tokens: Seq<TokenView>) -> Result<
    (ParseTree, nat),
    SyntaxErrorView,
> {
    parse_symbol(
        grammar,
        tokens,
        crate::cfg::Symbol::NonTerminal(NonTerminal::Program),
        0,
        no_active(),
    )
}

/// The tree of a parse that went through.
pub open spec fn parsed_tree(outcome: Result<(ParseTree, nat), SyntaxErrorView>) -> Option<
    ParseTree,
> {
    match outcome {
        Ok((tree, _)) => Some(tree),
        Err(_) => None,
    }
}

/// Why a parse tree has no abstract syntax tree.
#[derive(Debug, Clone, Copy, PartialEq, Eq, Structural)]
pub enum TreeError {
    /// The parse tree does not have the shape that the grammar of the
    /// language gives it.
    Malformed,
}

/// A grammar with the parse tree of the program that was parsed last.
#[derive(Debug, PartialEq)]
pub struct SyntaxTree {
    root: Node,
    grammar: Grammar,
}

impl SyntaxTree {
    /// The syntax tree of the grammar that two texts write, before
    /// anything was parsed: `rule_content` holds the rules and
    /// `parse_table_file` the decision table. See [`grammar_of`].
    pub fn new(rule_content: &str, parse_table_file: &str) -> (r: Result<
        SyntaxTree,
        GrammarFileError,
    >)
        ensures
            match r {
                Ok(tree) => {
                    &&& grammar_of(rule_content@, parse_table_file@) == Ok::<
                        GrammarView,
                        GrammarFileErrorView,
                    >(tree.grammar()@)
                    &&& tree.root()@ == (ParseTree {
                        value: SymbolView::NonTerminal(NonTerminal::Program),
                        children: Seq::empty(),
                    })
                },
                Err(error) => grammar_of(rule_content@, parse_table_file@) == Err::<
                    GrammarView,
                    GrammarFileErrorView,
                >(error@),
            },
    {
        match load_grammar(rule_content, parse_table_file) {
            Ok(grammar) => Ok(SyntaxTree::from_grammar(grammar)),
            Err(error) => Err(error),
        }
    }

    /// The syntax tree of `grammar` before anything was parsed: its
    /// root is the start symbol, without children.
    pub fn from_grammar(grammar: Grammar) -> (r: SyntaxTree)
        ensures
            r.grammar() == grammar,
            r.root()@ == (ParseTree {
                value: SymbolView::NonTerminal(NonTerminal::Program),
                children: Seq::empty(),
            }),
    {
        SyntaxTree { root: Node::new(Symbol::NonTerminal(NonTerminal::Program)), grammar }
    }

    /// The grammar of the tree.
    pub closed spec fn grammar(&self) -> Grammar {
        self.grammar
    }

    /// The root of the tree.
    pub closed spec fn root(&self) -> Node {
        self.root
    }

    /// The grammar of the tree.
    pub fn get_grammar(&self) -> (r: &Grammar)
        ensures
            *r == self.grammar(),
    {
        &self.grammar
    }

    /// The root of the tree.
    pub fn get_root(&self) -> (r: &Node)
        ensures
            *r == self.root(),
    {
        &self.root
    }

    /// Parses `tokens` as a program. On success the root of the tree
    /// is the parse tree; on failure the tree stays as it was. Tokens
    /// behind the program are not looked at.
    pub fn parse(&mut self, tokens: &Vec<Token>) -> (r: Result<(), SyntaxError>)
        ensures
            final(self).grammar() == old(self).grammar(),
            match r {
                Ok(()) => parsed_tree(
                    parse_program(old(self).grammar()@, token_views(tokens@)),
                ) == Some(final(self).root()@),
                Err(e) => {
                    &&& parse_program(old(self).grammar()@, token_views(tokens@)) == Err::<
                        (ParseTree, nat),
                        SyntaxErrorView,
                    >(e@)
                    &&& final(self).root() == old(self).root()
                },
            },
    {
        let fresh = fresh_flags();
        match Node::parse_symbol(
            &self.grammar,
            tokens,
            crate::cfg::Symbol::NonTerminal(NonTerminal::Program),
            0,
            &fresh,
        ) {
            Ok((node, end)) => {
                self.root = node;
                Ok(())
            },
            Err(e) => Err(e),
        }
    }

    /// Builds the abstract syntax tree of the parse tree, with
    /// the scope stack that its analysis starts from. A parse tree
    /// that does not have the shape that the grammar of the language
    /// gives it has no abstract syntax tree.
    pub fn semantic_tree(&self) -> (r: Result<SemanticTree, TreeError>)
        ensures
            match r {
                Ok(tree) => {
                    &&& visit(self.root()@, None) == Some(tree.root@)
                    &&& tree.scopes@ == initial_scopes()
                },
                Err(_) => visit(self.root()@, None).is_none(),
            },
    {
        match self.root.visit(None) {
            Some(root) => Ok(SemanticTree { root, scopes: ScopeStack::new() }),
            None => Err(TreeError::Malformed),
        }
    }
}

/// A parse fails fast: where the table has no rule for the start
/// symbol and the kind of the first token, the parse is the error of
/// that token, at its line and column.
pub proof fn lemma_fail_fast(grammar: GrammarView, tokens: Seq<TokenView>)
    requires
        tokens.len() > 0,
        !grammar.table.dom().contains((NonTerminal::Program, tokens[0].token_type)),
    ensures
        parse_program(grammar, tokens) == Err::<(ParseTree, nat), SyntaxErrorView>(
            SyntaxErrorView {
                kind: SyntaxErrorKind::NoRule { non_terminal: NonTerminal::Program },
                found: Some(tokens[0]),
                line: tokens[0].line,
                column: tokens[0].column,
            },
        ),
{
}

} // verus!
