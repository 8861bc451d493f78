//! Derivations: which parse trees a grammar gives a token sequence,
//! and the laws that tie the parser to them.
//!
//! A parse tree derives a symbol at a position when every terminal of
//! the tree matches the token it stands on and every non-terminal
//! expands the rule that the table selects for it and the token it
//! starts at. The parser finds exactly these trees.

use vstd::prelude::*;
use crate::cfg::{
    lemma_non_terminal_index_distinct,
    lemma_positions,
    non_terminal_at,
    GrammarView,
    NonTerminal,
    Symbol,
    NON_TERMINAL_COUNT,
};
use crate::syntax::{
    lemma_unset_count_set,
    no_active,
    parse_body,
    parse_program,
    parse_symbol,
    ParseTree,
    SymbolView,
    SyntaxErrorView,
};
use crate::token::TokenView;

verus! {

/// How many tokens a parse tree spans: the number of its terminals.
pub open spec fn span(tree: ParseTree) -> nat
    decreases tree,
{
    match tree.value {
        SymbolView::Terminal(_, _) => 1,
        SymbolView::NonTerminal(_) => span_of(tree.children, 0),
    }
}

/// How many tokens the trees of `children` from the one at `from` on
/// span together.
pub open spec fn span_of(children: Seq<ParseTree>, from: int) -> nat
    decreases children, children.len() - from,
{
    if 0 <= from < children.len() {
        span(children[from]) + span_of(children, from + 1)
    } else {
        0
    }
}

/// How many nodes a parse tree has.
pub open spec fn nodes(tree: ParseTree) -> nat
    decreases tree,
{
    1 + nodes_of(tree.children, 0)
}

/// How many nodes the trees of `children` from the one at `from` on
/// have together.
pub open spec fn nodes_of(children: Seq<ParseTree>, from: int) -> nat
    decreases children, children.len() - from,
{
    if 0 <= from < children.len() {
        nodes(children[from]) + nodes_of(children, from + 1)
    } else {
        0
    }
}

/// Whether `tree` is a parse tree of `symbol` at the token at `start`:
/// a terminal is a leaf with the token it stands on, which is of its
/// kind; a non-terminal has, as children, parse trees of the symbols
/// of the rule that the table selects for it and the token at `start`,
/// each starting where the one before it ends.
pub open spec fn derives(
    grammar: GrammarView,
    tokens: Seq<TokenView>,
    tree: ParseTree,
    symbol: Symbol,
    start: nat,
) -> bool
    decreases tree,
{
    &&& start < tokens.len()
    &&& match symbol {
        Symbol::Terminal(expected) => {
            &&& tokens[start as int].token_type == expected
            &&& tree == ParseTree {
                value: SymbolView::Terminal(expected, Some(tokens[start as int])),
                children: Seq::empty(),
            }
        },
        Symbol::NonTerminal(non_terminal) => {
            let key = (non_terminal, tokens[start as int].token_type);
            &&& grammar.table.dom().contains(key)
            &&& tree.value == SymbolView::NonTerminal(non_terminal)
            &&& match grammar.rules[grammar.table[key] as int].body {
                None => tree.children.len() == 0,
                Some(body) => {
                    &&& tree.children.len() == body.len()
                    &&& derives_all(grammar, tokens, tree.children, body, 0, start)
                },
            }
        },
    }
}

/// Whether the trees of `children` from the one at `from` on are parse
/// trees of the symbols of `body` at their places, the first of them at
/// `pos` and each of the others where the one before it ends.
pub open spec fn derives_all(
    grammar: GrammarView,
    tokens: Seq<TokenView>,
    children: Seq<ParseTree>,
    body: Seq<Symbol>,
    from: int,
    pos: nat,
) -> bool
    decreases children, children.len() - from,
{
    if 0 <= from < children.len() {
        &&& derives(grammar, tokens, children[from], body[from], pos)
        &&& derives_all(grammar, tokens, children, body, from + 1, pos + span(children[from]))
    } else {
        true
    }
}

/// Whether `tokens` is a program of the grammar with the parse tree
/// `tree`: the tree derives the start symbol at the first token and
/// spans every token.
pub open spec fn accepts(grammar: GrammarView, tokens: Seq<TokenView>, tree: ParseTree) -> bool {
    &&& derives(grammar, tokens, tree, Symbol::NonTerminal(NonTerminal::Program), 0)
    &&& span(tree) == tokens.len()
}

proof fn lemma_nodes_of(children: Seq<ParseTree>, from: int, k: int)
    requires
        0 <= from <= k < children.len(),
    ensures
        nodes(children[k]) <= nodes_of(children, from),
    decreases children.len() - from,
{
    if from < k {
        lemma_nodes_of(children, from + 1, k);
    }
}

/// A parse tree ends within the tokens.
pub proof fn lemma_derives_within(
    grammar: GrammarView,
    tokens: Seq<TokenView>,
    tree: ParseTree,
    symbol: Symbol,
    start: nat,
)
    requires
        derives(grammar, tokens, tree, symbol, start),
    ensures
        start + span(tree) <= tokens.len(),
    decreases tree, 0nat,
{
    match symbol {
        Symbol::Terminal(_) => {},
        Symbol::NonTerminal(non_terminal) => {
            let key = (non_terminal, tokens[start as int].token_type);
            match grammar.rules[grammar.table[key] as int].body {
                None => {},
                Some(body) => {
                    lemma_derives_all_within(grammar, tokens, tree.children, body, 0, start);
                },
            }
        },
    }
}

proof fn lemma_derives_all_within(
    grammar: GrammarView,
    tokens: Seq<TokenView>,
    children: Seq<ParseTree>,
    body: Seq<Symbol>,
    from: int,
    pos: nat,
)
    requires
        0 <= from,
        pos <= tokens.len(),
        derives_all(grammar, tokens, children, body, from, pos),
    ensures
        pos + span_of(children, from) <= tokens.len(),
    decreases children, children.len() - from,
{
    if from < children.len() {
        lemma_derives_within(grammar, tokens, children[from], body[from], pos);
        lemma_derives_all_within(
            grammar,
            tokens,
            children,
            body,
            from + 1,
            pos + span(children[from]),
        );
    }
}

/// A symbol has at most one parse tree at a position: one token of
/// lookahead decides every step.
pub proof fn lemma_derivation_unique(
    grammar: GrammarView,
    tokens: Seq<TokenView>,
    first: ParseTree,
    second: ParseTree,
    symbol: Symbol,
    start: nat,
)
    requires
        derives(grammar, tokens, first, symbol, start),
        derives(grammar, tokens, second, symbol, start),
    ensures
        first == second,
    decreases first, 0nat,
{
    match symbol {
        Symbol::Terminal(_) => {},
        Symbol::NonTerminal(non_terminal) => {
            let key = (non_terminal, tokens[start as int].token_type);
            match grammar.rules[grammar.table[key] as int].body {
                None => {
                    assert(first.children =~= second.children);
                },
                Some(body) => {
                    lemma_derivations_unique(
                        grammar,
                        tokens,
                        first.children,
                        second.children,
                        body,
                        0,
                        start,
                    );
                    assert(first.children =~= second.children);
                },
            }
        },
    }
}

proof fn lemma_derivations_unique(
    grammar: GrammarView,
    tokens: Seq<TokenView>,
    first: Seq<ParseTree>,
    second: Seq<ParseTree>,
    body: Seq<Symbol>,
    from: int,
    pos: nat,
)
    requires
        0 <= from,
        first.len() == second.len(),
        derives_all(grammar, tokens, first, body, from, pos),
        derives_all(grammar, tokens, second, body, from, pos),
    ensures
        forall|k: int| from <= k < first.len() ==> first[k] == second[k],
    decreases first, first.len() - from,
{
    if from < first.len() {
        lemma_derivation_unique(grammar, tokens, first[from], second[from], body[from], pos);
        lemma_derivations_unique(
            grammar,
            tokens,
            first,
            second,
            body,
            from + 1,
            pos + span(first[from]),
        );
    }
}

/// The parser is sound: the tree of a parse that went through derives
/// the symbol at the position, and the parse ends where the tree ends.
pub proof fn lemma_parse_sound(
    grammar: GrammarView,
    tokens: Seq<TokenView>,
    symbol: Symbol,
    pos: nat,
    active: Seq<bool>,
)
    ensures
        match parse_symbol(grammar, tokens, symbol, pos, active) {
            Ok((tree, end)) => {
                &&& derives(grammar, tokens, tree, symbol, pos)
                &&& end == pos + span(tree)
                &&& end <= tokens.len()
            },
            Err(_) => true,
        },
    decreases crate::syntax::remaining(tokens, pos), crate::syntax::unset_count(active), 0nat,
{
    if pos < tokens.len() {
        match symbol {
            Symbol::Terminal(_) => {},
            Symbol::NonTerminal(non_terminal) => {
                let key = (non_terminal, tokens[pos as int].token_type);
                let at = non_terminal.spec_index() as int;
                if grammar.table.dom().contains(key) {
                    match grammar.rules[grammar.table[key] as int].body {
                        None => {},
                        Some(body) => {
                            if active.len() == NON_TERMINAL_COUNT && !active[at] {
                                lemma_non_terminal_index_distinct(non_terminal, non_terminal);
                                lemma_unset_count_set(active, at);
                                lemma_parse_body_sound(
                                    grammar,
                                    tokens,
                                    body,
                                    0,
                                    pos,
                                    pos,
                                    active.update(at, true),
                                    Seq::empty(),
                                );
                            }
                        },
                    }
                }
            },
        }
    }
}

proof fn lemma_parse_body_sound(
    grammar: GrammarView,
    tokens: Seq<TokenView>,
    body: Seq<Symbol>,
    from: nat,
    entry: nat,
    pos: nat,
    inner: Seq<bool>,
    done: Seq<ParseTree>,
)
    requires
        entry <= pos <= tokens.len(),
        from <= body.len(),
        done.len() == from,
    ensures
        match parse_body(grammar, tokens, body, from, entry, pos, inner, done) {
            Ok((children, end)) => {
                &&& children.len() == body.len()
                &&& forall|k: int| 0 <= k < from ==> children[k] == done[k]
                &&& derives_all(grammar, tokens, children, body, from as int, pos)
                &&& end == pos + span_of(children, from as int)
                &&& end <= tokens.len()
            },
            Err(_) => true,
        },
    decreases
            crate::syntax::remaining(tokens, entry),
            crate::syntax::unset_count(inner),
            1 + body.len() - from,
{
    if from < body.len() {
        let flags = if pos == entry {
            inner
        } else {
            no_active()
        };
        lemma_parse_sound(grammar, tokens, body[from as int], pos, flags);
        match parse_symbol(grammar, tokens, body[from as int], pos, flags) {
            Ok((child, next)) => {
                lemma_parse_body_sound(
                    grammar,
                    tokens,
                    body,
                    from + 1,
                    entry,
                    next,
                    inner,
                    done.push(child),
                );
                match parse_body(grammar, tokens, body, from + 1, entry, next, inner, done.push(child)) {
                    Ok((children, end)) => {
                        assert(children[from as int] == done.push(child)[from as int]);
                        assert forall|k: int| 0 <= k < from implies children[k] == done[k] by {
                            assert(children[k] == done.push(child)[k]);
                        }
                    },
                    Err(_) => {},
                }
            },
            Err(_) => {},
        }
    }
}

/// Whether every non-terminal that `active` flags has an excuse: a
/// parse tree of it at `pos` with at least `bound` nodes. A tree with
/// fewer nodes cannot hold an expansion of such a non-terminal at
/// `pos`, since that expansion would be the larger tree again.
pub open spec fn excused(
    grammar: GrammarView,
    tokens: Seq<TokenView>,
    active: Seq<bool>,
    pos: nat,
    bound: nat,
) -> bool {
    &&& active.len() == NON_TERMINAL_COUNT
    &&& forall|i: int|
        0 <= i < NON_TERMINAL_COUNT && #[trigger] active[i] ==> exists|larger: ParseTree|
            #[trigger] derives(
                grammar,
                tokens,
                larger,
                Symbol::NonTerminal(non_terminal_at(i)),
                pos,
            ) && nodes(larger) >= bound
}

/// The parser is complete: it finds every parse tree. The flagged
/// non-terminals must be excused for the tree, as they are where the
/// parse of the tree is part of the parse of a larger one.
pub proof fn lemma_parse_complete(
    grammar: GrammarView,
    tokens: Seq<TokenView>,
    tree: ParseTree,
    symbol: Symbol,
    pos: nat,
    active: Seq<bool>,
)
    requires
        derives(grammar, tokens, tree, symbol, pos),
        excused(grammar, tokens, active, pos, nodes(tree) + 1),
    ensures
        parse_symbol(grammar, tokens, symbol, pos, active) == Ok::<
            (ParseTree, nat),
            SyntaxErrorView,
        >((tree, pos + span(tree))),
    decreases tree, tree.children.len() + 1,
{
    match symbol {
        Symbol::Terminal(_) => {},
        Symbol::NonTerminal(non_terminal) => {
            let key = (non_terminal, tokens[pos as int].token_type);
            let at = non_terminal.spec_index() as int;
            lemma_non_terminal_index_distinct(non_terminal, non_terminal);
            lemma_positions(at, 0);
            assert(non_terminal_at(at) == non_terminal) by {
                lemma_non_terminal_index_distinct(non_terminal_at(at), non_terminal);
            }
            match grammar.rules[grammar.table[key] as int].body {
                None => {
                    assert(tree.children =~= Seq::<ParseTree>::empty());
                },
                Some(body) => {
                    if active[at] {
                        let larger = choose|larger: ParseTree|
                            #[trigger] derives(
                                grammar,
                                tokens,
                                larger,
                                Symbol::NonTerminal(non_terminal_at(at)),
                                pos,
                            ) && nodes(larger) >= nodes(tree) + 1;
                        lemma_derivation_unique(grammar, tokens, larger, tree, symbol, pos);
                    }
                    let inner = active.update(at, true);
                    assert(excused(grammar, tokens, inner, pos, nodes(tree))) by {
                        assert forall|i: int|
                            0 <= i < NON_TERMINAL_COUNT && #[trigger] inner[i] implies exists|
                            larger: ParseTree,
                        |
                            #[trigger] derives(
                                grammar,
                                tokens,
                                larger,
                                Symbol::NonTerminal(non_terminal_at(i)),
                                pos,
                            ) && nodes(larger) >= nodes(tree) by {
                            if i == at {
                                assert(derives(
                                    grammar,
                                    tokens,
                                    tree,
                                    Symbol::NonTerminal(non_terminal_at(i)),
                                    pos,
                                ));
                            } else {
                                assert(active[i]);
                                let larger = choose|larger: ParseTree|
                                    #[trigger] derives(
                                        grammar,
                                        tokens,
                                        larger,
                                        Symbol::NonTerminal(non_terminal_at(i)),
                                        pos,
                                    ) && nodes(larger) >= nodes(tree) + 1;
                                assert(derives(
                                    grammar,
                                    tokens,
                                    larger,
                                    Symbol::NonTerminal(non_terminal_at(i)),
                                    pos,
                                ));
                            }
                        }
                    }
                    lemma_parse_body_complete(
                        grammar,
                        tokens,
                        tree,
                        body,
                        0,
                        pos,
                        pos,
                        inner,
                        Seq::empty(),
                    );
                    assert(span(tree) == span_of(tree.children, 0));
                },
            }
        },
    }
}

proof fn lemma_parse_body_complete(
    grammar: GrammarView,
    tokens: Seq<TokenView>,
    tree: ParseTree,
    body: Seq<Symbol>,
    from: nat,
    entry: nat,
    pos: nat,
    inner: Seq<bool>,
    done: Seq<ParseTree>,
)
    requires
        tree.children.len() == body.len(),
        from <= body.len(),
        entry <= pos <= tokens.len(),
        done =~= tree.children.take(from as int),
        derives_all(grammar, tokens, tree.children, body, from as int, pos),
        excused(grammar, tokens, inner, entry, nodes(tree)),
    ensures
        parse_body(grammar, tokens, body, from, entry, pos, inner, done) == Ok::<
            (Seq<ParseTree>, nat),
            SyntaxErrorView,
        >((tree.children, pos + span_of(tree.children, from as int))),
    decreases tree, tree.children.len() - from,
{
    if from < body.len() {
        let child = tree.children[from as int];
        let flags = if pos == entry {
            inner
        } else {
            no_active()
        };
        lemma_nodes_of(tree.children, 0, from as int);
        lemma_derives_within(grammar, tokens, child, body[from as int], pos);
        lemma_parse_complete(grammar, tokens, child, body[from as int], pos, flags);
        assert(done.push(child) =~= tree.children.take(from as int + 1));
        lemma_parse_body_complete(
            grammar,
            tokens,
            tree,
            body,
            from + 1,
            entry,
            pos + span(child),
            inner,
            done.push(child),
        );
    } else {
        assert(done =~= tree.children);
    }
}

/// Parser totality on valid input: the parse of a program that the
/// grammar accepts goes through, gives the parse tree of the program
/// and consumes every token, the end-of-input token with the others.
pub proof fn lemma_parser_total(grammar: GrammarView, tokens: Seq<TokenView>, tree: ParseTree)
    requires
        accepts(grammar, tokens, tree),
    ensures
        parse_program(grammar, tokens) == Ok::<(ParseTree, nat), SyntaxErrorView>(
            (tree, tokens.len()),
        ),
{
    assert(excused(grammar, tokens, no_active(), 0, nodes(tree) + 1));
    lemma_parse_complete(
        grammar,
        tokens,
        tree,
        Symbol::NonTerminal(NonTerminal::Program),
        0,
        no_active(),
    );
}

/// What the parser returns is a parse tree: a parse of a program that
/// went through gives a tree that derives the start symbol at the
/// first token and that ends where the parse ends.
pub proof fn lemma_parser_sound(grammar: GrammarView, tokens: Seq<TokenView>)
    ensures
        match parse_program(grammar, tokens) {
            Ok((tree, end)) => {
                &&& derives(grammar, tokens, tree, Symbol::NonTerminal(NonTerminal::Program), 0)
                &&& end == span(tree)
            },
            Err(_) => true,
        },
{
    lemma_parse_sound(
        grammar,
        tokens,
        Symbol::NonTerminal(NonTerminal::Program),
        0,
        no_active(),
    );
}

} // verus!
