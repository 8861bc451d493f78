//! The text form of a grammar: the rules, one to a line as
//! `NAME,body`, and the decision table, one entry to a line as
//! `NAME,lookahead,rule`.
//!
//! The body of a rule is `''` for the empty word, or the names of its
//! symbols with white space between them. A name is first looked up
//! among the token kinds, then among the non-terminals. The rules are
//! counted from 0 in the order of their lines. A line that does not
//! have as many commas as its form asks for is passed over.

use vstd::prelude::*;
use crate::cfg::{
    is_largest_rule,
    lemma_non_terminal_names_distinct,
    rule_views,
    Grammar,
    GrammarError,
    GrammarView,
    NonTerminal,
    ParseTable,
    Rule,
    RuleView,
    Symbol,
};
use crate::grammar::token_type::{lemma_names_distinct, TokenType};
use crate::lines::{
    lines,
    lines_of,
    number_of,
    parse_number,
    piece_views,
    split,
    split_chars,
    string_of,
    words,
    words_of,
};
use crate::text::{chars_of, str_eq};

verus! {

/// Why a text is not a grammar.
#[derive(Debug, PartialEq, Eq)]
pub enum GrammarFileError {
    /// A name is neither that of a token kind nor that of a
    /// non-terminal, where either may stand, or not of the one that
    /// must stand there.
    UnknownName { name: String },
    /// The rule of an entry of the table is not a number.
    InvalidNumber { text: String },
    /// The table holds the index of a rule that does not exist; `rule`
    /// is the largest index in the table.
    MissingRule { rule: u32 },
}

/// The mathematical value of a [`GrammarFileError`].
pub enum GrammarFileErrorView {
    UnknownName { name: Seq<char> },
    InvalidNumber { text: Seq<char> },
    MissingRule { rule: u32 },
}

impl View for GrammarFileError {
    type V = GrammarFileErrorView;

    open spec fn view(&self) -> GrammarFileErrorView {
        match self {
            GrammarFileError::UnknownName { name } => GrammarFileErrorView::UnknownName {
                name: name@,
            },
            GrammarFileError::InvalidNumber { text } => GrammarFileErrorView::InvalidNumber {
                text: text@,
            },
            GrammarFileError::MissingRule { rule } => GrammarFileErrorView::MissingRule {
                rule: *rule,
            },
        }
    }
}

/// The token kind with the name `name`.
pub open spec fn token_type_named(name: Seq<char>) -> Option<TokenType> {
    if exists|t: TokenType| #[trigger] t.name() == name {
        Some(choose|t: TokenType| #[trigger] t.name() == name)
    } else {
        None
    }
}

/// The non-terminal with the name `name`.
pub open spec fn non_terminal_named(name: Seq<char>) -> Option<NonTerminal> {
    if exists|n: NonTerminal| #[trigger] n.name() == name {
        Some(choose|n: NonTerminal| #[trigger] n.name() == name)
    } else {
        None
    }
}

/// The grammar symbol with the name `name`: a terminal if a token kind
/// has the name, else a non-terminal.
pub open spec fn symbol_named(name: Seq<char>) -> Option<Symbol> {
    match token_type_named(name) {
        Some(token_type) => Some(Symbol::Terminal(token_type)),
        None => match non_terminal_named(name) {
            Some(non_terminal) => Some(Symbol::NonTerminal(non_terminal)),
            None => None,
        },
    }
}

/// The symbols that the words from the one at `from` on name, behind
/// those of `done`; the first word that names no symbol is an error.
pub open spec fn symbols_from(words: Seq<Seq<char>>, from: int, done: Seq<Symbol>) -> Result<
    Seq<Symbol>,
    GrammarFileErrorView,
>
    decreases words.len() - from,
{
    if 0 <= from < words.len() {
        match symbol_named(words[from]) {
            Some(symbol) => symbols_from(words, from + 1, done.push(symbol)),
            None => Err(GrammarFileErrorView::UnknownName { name: words[from] }),
        }
    } else {
        Ok(done)
    }
}

/// The rule that a line writes; `None` for a line that is passed over.
pub open spec fn rule_of(line: Seq<char>) -> Option<Result<RuleView, GrammarFileErrorView>> {
    let parts = split(line, ',');
    if parts.len() != 2 {
        None
    } else {
        match non_terminal_named(parts[0]) {
            None => Some(Err(GrammarFileErrorView::UnknownName { name: parts[0] })),
            Some(head) => if parts[1] == "''"@ {
                Some(Ok(RuleView { head, body: None }))
            } else {
                match symbols_from(words_of(parts[1]), 0, Seq::empty()) {
                    Ok(body) => Some(Ok(RuleView { head, body: Some(body) })),
                    Err(error) => Some(Err(error)),
                }
            },
        }
    }
}

/// The rules that the lines from the one at `from` on write, behind
/// those of `done`; the first error ends the reading.
pub open spec fn rules_from(lines: Seq<Seq<char>>, from: int, done: Seq<RuleView>) -> Result<
    Seq<RuleView>,
    GrammarFileErrorView,
>
    decreases lines.len() - from,
{
    if 0 <= from < lines.len() {
        match rule_of(lines[from]) {
            None => rules_from(lines, from + 1, done),
            Some(Ok(rule)) => rules_from(lines, from + 1, done.push(rule)),
            Some(Err(error)) => Err(error),
        }
    } else {
        Ok(done)
    }
}

/// The rules that a text writes.
pub open spec fn rules_of(text: Seq<char>) -> Result<Seq<RuleView>, GrammarFileErrorView> {
    rules_from(lines_of(text), 0, Seq::empty())
}

/// An entry of the decision table.
pub struct Entry {
    pub non_terminal: NonTerminal,
    pub lookahead: TokenType,
    pub rule: u32,
}

/// The entry that a line writes; `None` for a line that is passed
/// over.
pub open spec fn entry_of(line: Seq<char>) -> Option<Result<Entry, GrammarFileErrorView>> {
    let parts = split(line, ',');
    if parts.len() != 3 {
        None
    } else {
        match non_terminal_named(parts[0]) {
            None => Some(Err(GrammarFileErrorView::UnknownName { name: parts[0] })),
            Some(non_terminal) => match token_type_named(parts[1]) {
                None => Some(Err(GrammarFileErrorView::UnknownName { name: parts[1] })),
                Some(lookahead) => match number_of(parts[2]) {
                    None => Some(Err(GrammarFileErrorView::InvalidNumber { text: parts[2] })),
                    Some(rule) => Some(Ok(Entry { non_terminal, lookahead, rule })),
                },
            },
        }
    }
}

/// The table with the entries that the lines from the one at `from`
/// on write, a later entry for a pair in place of an earlier one; the
/// first error ends the reading.
pub open spec fn table_from(
    lines: Seq<Seq<char>>,
    from: int,
    table: Map<(NonTerminal, TokenType), u32>,
) -> Result<Map<(NonTerminal, TokenType), u32>, GrammarFileErrorView>
    decreases lines.len() - from,
{
    if 0 <= from < lines.len() {
        match entry_of(lines[from]) {
            None => table_from(lines, from + 1, table),
            Some(Ok(entry)) => table_from(
                lines,
                from + 1,
                table.insert((entry.non_terminal, entry.lookahead), entry.rule),
            ),
            Some(Err(error)) => Err(error),
        }
    } else {
        Ok(table)
    }
}

/// The decision table that a text writes.
pub open spec fn table_of(text: Seq<char>) -> Result<
    Map<(NonTerminal, TokenType), u32>,
    GrammarFileErrorView,
> {
    table_from(lines_of(text), 0, Map::empty())
}

fn token_type_of(name: &Vec<char>) -> (r: Result<TokenType, GrammarFileError>)
    ensures
        match r {
            Ok(token_type) => token_type_named(name@) == Some(token_type),
            Err(error) => token_type_named(name@).is_none() && error@
                == (GrammarFileErrorView::UnknownName { name: name@ }),
        },
{
    let text = string_of(name);
    match TokenType::from_str(text.as_str()) {
        Ok(token_type) => {
            proof {
                assert(token_type.name() == name@);
                lemma_names_distinct(token_type_named(name@).unwrap(), token_type);
            }
            Ok(token_type)
        },
        Err(unknown) => Err(GrammarFileError::UnknownName { name: unknown.name }),
    }
}

fn non_terminal_of(name: &Vec<char>) -> (r: Result<NonTerminal, GrammarFileError>)
    ensures
        match r {
            Ok(non_terminal) => non_terminal_named(name@) == Some(non_terminal),
            Err(error) => non_terminal_named(name@).is_none() && error@
                == (GrammarFileErrorView::UnknownName { name: name@ }),
        },
{
    let text = string_of(name);
    match NonTerminal::from_char(text.as_str()) {
        Ok(non_terminal) => {
            proof {
                assert(non_terminal.name() == name@);
                lemma_non_terminal_names_distinct(
                    non_terminal_named(name@).unwrap(),
                    non_terminal,
                );
            }
            Ok(non_terminal)
        },
        Err(unknown) => Err(GrammarFileError::UnknownName { name: unknown.name }),
    }
}

fn symbols_in(text: &Vec<char>) -> (r: Result<Vec<Symbol>, GrammarFileError>)
    ensures
        match r {
            Ok(symbols) => symbols_from(words_of(text@), 0, Seq::empty()) == Ok::<
                Seq<Symbol>,
                GrammarFileErrorView,
            >(symbols@),
            Err(error) => symbols_from(words_of(text@), 0, Seq::empty()) == Err::<
                Seq<Symbol>,
                GrammarFileErrorView,
            >(error@),
        },
{
    let names = words(text);
    let mut symbols: Vec<Symbol> = Vec::new();
    let mut i: usize = 0;
    while i < names.len()
        invariant
            i <= names@.len(),
            piece_views(names@) == words_of(text@),
            symbols_from(words_of(text@), 0, Seq::empty()) == symbols_from(
                words_of(text@),
                i as int,
                symbols@,
            ),
        decreases names@.len() - i,
    {
        assert(piece_views(names@)[i as int] == names@[i as int]@);
        match token_type_of(&names[i]) {
            Ok(token_type) => {
                symbols.push(Symbol::Terminal(token_type));
            },
            Err(_) => match non_terminal_of(&names[i]) {
                Ok(non_terminal) => {
                    symbols.push(Symbol::NonTerminal(non_terminal));
                },
                Err(error) => {
                    return Err(error);
                },
            },
        }
        i = i + 1;
    }
    Ok(symbols)
}

fn rule_in(line: &Vec<char>) -> (r: Option<Result<Rule, GrammarFileError>>)
    ensures
        match r {
            None => rule_of(line@).is_none(),
            Some(Ok(rule)) => rule_of(line@) == Some(
                Ok::<RuleView, GrammarFileErrorView>(rule@),
            ),
            Some(Err(error)) => rule_of(line@) == Some(
                Err::<RuleView, GrammarFileErrorView>(error@),
            ),
        },
{
    let parts = split_chars(line, ',');
    if parts.len() != 2 {
        return None;
    }
    assert(piece_views(parts@)[0] == parts@[0]@);
    assert(piece_views(parts@)[1] == parts@[1]@);
    let head = match non_terminal_of(&parts[0]) {
        Ok(head) => head,
        Err(error) => {
            return Some(Err(error));
        },
    };
    let body_text = string_of(&parts[1]);
    if str_eq(body_text.as_str(), "''") {
        return Some(Ok(Rule { head, body: None }));
    }
    match symbols_in(&parts[1]) {
        Ok(body) => Some(Ok(Rule { head, body: Some(body) })),
        Err(error) => Some(Err(error)),
    }
}

fn entry_in(line: &Vec<char>) -> (r: Option<Result<(NonTerminal, TokenType, u32), GrammarFileError>>)
    ensures
        match r {
            None => entry_of(line@).is_none(),
            Some(Ok((non_terminal, lookahead, rule))) => entry_of(line@) == Some(
                Ok::<Entry, GrammarFileErrorView>(Entry { non_terminal, lookahead, rule }),
            ),
            Some(Err(error)) => entry_of(line@) == Some(
                Err::<Entry, GrammarFileErrorView>(error@),
            ),
        },
{
    let parts = split_chars(line, ',');
    if parts.len() != 3 {
        return None;
    }
    assert(piece_views(parts@)[0] == parts@[0]@);
    assert(piece_views(parts@)[1] == parts@[1]@);
    assert(piece_views(parts@)[2] == parts@[2]@);
    let non_terminal = match non_terminal_of(&parts[0]) {
        Ok(non_terminal) => non_terminal,
        Err(error) => {
            return Some(Err(error));
        },
    };
    let lookahead = match token_type_of(&parts[1]) {
        Ok(lookahead) => lookahead,
        Err(error) => {
            return Some(Err(error));
        },
    };
    match parse_number(&parts[2]) {
        Some(rule) => Some(Ok((non_terminal, lookahead, rule))),
        None => Some(Err(GrammarFileError::InvalidNumber { text: string_of(&parts[2]) })),
    }
}

/// Reads the rules that a text writes. See [`rules_of`].
pub fn load_rules(text: &str) -> (r: Result<Vec<Rule>, GrammarFileError>)
    ensures
        match r {
            Ok(rules) => rules_of(text@) == Ok::<Seq<RuleView>, GrammarFileErrorView>(
                rule_views(rules@),
            ),
            Err(error) => rules_of(text@) == Err::<Seq<RuleView>, GrammarFileErrorView>(error@),
        },
{
    let chars = chars_of(text);
    let all = lines(&chars);
    let mut rules: Vec<Rule> = Vec::new();
    let mut i: usize = 0;
    assert(rule_views(rules@) =~= Seq::<RuleView>::empty());
    while i < all.len()
        invariant
            i <= all@.len(),
            piece_views(all@) == lines_of(text@),
            rules_of(text@) == rules_from(lines_of(text@), i as int, rule_views(rules@)),
        decreases all@.len() - i,
    {
        assert(piece_views(all@)[i as int] == all@[i as int]@);
        match rule_in(&all[i]) {
            None => {},
            Some(Ok(rule)) => {
                let ghost before = rule_views(rules@);
                let ghost added = rule@;
                rules.push(rule);
                assert(rule_views(rules@) =~= before.push(added));
            },
            Some(Err(error)) => {
                return Err(error);
            },
        }
        i = i + 1;
    }
    Ok(rules)
}

/// Reads the decision table that a text writes. See [`table_of`].
pub fn load_table(text: &str) -> (r: Result<ParseTable, GrammarFileError>)
    ensures
        match r {
            Ok(table) => table_of(text@) == Ok::<
                Map<(NonTerminal, TokenType), u32>,
                GrammarFileErrorView,
            >(table@),
            Err(error) => table_of(text@) == Err::<
                Map<(NonTerminal, TokenType), u32>,
                GrammarFileErrorView,
            >(error@),
        },
{
    let chars = chars_of(text);
    let all = lines(&chars);
    let mut table = ParseTable::new();
    let mut i: usize = 0;
    while i < all.len()
        invariant
            i <= all@.len(),
            piece_views(all@) == lines_of(text@),
            table_of(text@) == table_from(lines_of(text@), i as int, table@),
        decreases all@.len() - i,
    {
        assert(piece_views(all@)[i as int] == all@[i as int]@);
        match entry_in(&all[i]) {
            None => {},
            Some(Ok((non_terminal, lookahead, rule))) => {
                table.insert(non_terminal, lookahead, rule);
            },
            Some(Err(error)) => {
                return Err(error);
            },
        }
        i = i + 1;
    }
    Ok(table)
}

/// The grammar that two texts write, or why they write none: the
/// first error of the rules, else the first error of the table, else
/// the largest rule index of the table where it is that of no rule.
pub open spec fn grammar_of(rules: Seq<char>, table: Seq<char>) -> Result<
    GrammarView,
    GrammarFileErrorView,
> {
    match rules_of(rules) {
        Err(error) => Err(error),
        Ok(rules) => match table_of(table) {
            Err(error) => Err(error),
            Ok(table) => {
                let grammar = GrammarView { rules, table };
                if grammar.well_formed() {
                    Ok(grammar)
                } else {
                    Err(
                        GrammarFileErrorView::MissingRule {
                            rule: choose|rule: u32| is_largest_rule(table, rule),
                        },
                    )
                }
            },
        },
    }
}

/// Reads a grammar from the text of its rules and the text of its
/// decision table. See [`grammar_of`].
pub fn load_grammar(rules: &str, table: &str) -> (r: Result<Grammar, GrammarFileError>)
    ensures
        match r {
            Ok(grammar) => grammar_of(rules@, table@) == Ok::<GrammarView, GrammarFileErrorView>(
                grammar@,
            ),
            Err(error) => grammar_of(rules@, table@) == Err::<GrammarView, GrammarFileErrorView>(
                error@,
            ),
        },
{
    let rules = load_rules(rules)?;
    let table = load_table(table)?;
    let ghost written = GrammarView { rules: rule_views(rules@), table: table@ };
    match Grammar::new(rules, table) {
        Ok(grammar) => {
            assert(grammar@ == written);
            Ok(grammar)
        },
        Err(GrammarError::MissingRule { rule }) => {
            proof {
                let key = choose|key: (NonTerminal, TokenType)|
                    written.table.dom().contains(key) && written.table[key] == rule;
                assert(written.table.dom().contains(key));
                assert(!written.well_formed());
                let chosen = choose|rule: u32| is_largest_rule(written.table, rule);
                assert(is_largest_rule(written.table, rule));
                assert(is_largest_rule(written.table, chosen));
                let top = choose|key: (NonTerminal, TokenType)|
                    written.table.dom().contains(key) && written.table[key] == chosen;
                assert(written.table[top] <= rule);
                assert(written.table[key] <= chosen);
            }
            Err(GrammarFileError::MissingRule { rule })
        },
    }
}

} // verus!
