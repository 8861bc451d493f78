//! The deterministic finite automaton that drives the lexical
//! analysis: transitions between states on characters, and the kind of
//! token that each accepting state stands for.

use std::collections::HashMap;
use vstd::prelude::*;
use crate::grammar::token_type::TokenType;
use crate::grammar_file::token_type_named;
use crate::lines::{
    lines,
    lines_of,
    number_of,
    parse_number,
    piece_views,
    split,
    split_chars,
    string_of,
};
use crate::text::chars_of;

verus! {

broadcast use vstd::std_specs::hash::group_hash_axioms;

/// The key under which the transition from `state` on `symbol` is
/// kept: the state in the upper 32 bits, the character in the lower.
pub open spec fn transition_key(state: u32, symbol: char) -> u64 {
    (state as int * 0x1_0000_0000 + symbol as int) as u64
}

/// The transitions that a map from keys to states holds.
pub open spec fn transitions_of(keyed: Map<u64, u32>) -> Map<(u32, char), u32> {
    Map::new(
        |pair: (u32, char)| keyed.dom().contains(transition_key(pair.0, pair.1)),
        |pair: (u32, char)| keyed[transition_key(pair.0, pair.1)],
    )
}

/// Each pair of a state and a character has a key of its own.
pub proof fn lemma_transition_key_distinct(
    first_state: u32,
    first_symbol: char,
    second_state: u32,
    second_symbol: char,
)
    ensures
        transition_key(first_state, first_symbol) == first_state as int * 0x1_0000_0000
            + first_symbol as int,
        transition_key(first_state, first_symbol) == transition_key(second_state, second_symbol)
            ==> first_state == second_state && first_symbol == second_symbol,
{
    assert(0 <= first_symbol as int <= 0x10ffff);
    assert(0 <= second_symbol as int <= 0x10ffff);
}

/// A deterministic finite automaton. A transition on the character
/// with the code 0 is taken on every character for which its state
/// has no transition of its own.
pub struct FDA {
    pub initial_state: u32,
    /// The transitions, each under its [`transition_key`].
    pub transitions: HashMap<u64, u32>,
    /// The kind of token that each accepting state stands for.
    pub token_table: HashMap<u32, TokenType>,
}

/// The mathematical value of an [`FDA`].
pub struct FDAView {
    pub initial_state: u32,
    pub transitions: Map<(u32, char), u32>,
    pub token_table: Map<u32, TokenType>,
}

impl View for FDA {
    type V = FDAView;

    open spec fn view(&self) -> FDAView {
        FDAView {
            initial_state: self.initial_state,
            transitions: transitions_of(self.transitions@),
            token_table: self.token_table@,
        }
    }
}

impl FDAView {
    /// The state that the automaton goes to from `state` on `symbol`:
    /// by the transition on the character itself, else by the
    /// transition on every character, if the state has one.
    pub open spec fn next(self, state: u32, symbol: char) -> Option<u32> {
        if self.transitions.dom().contains((state, symbol)) {
            Some(self.transitions[(state, symbol)])
        } else if self.transitions.dom().contains((state, '\0')) {
            Some(self.transitions[(state, '\0')])
        } else {
            None
        }
    }
}

/// The number that bytes write, the first byte the most significant.
pub open spec fn big_endian(bytes: Seq<u8>) -> nat
    decreases bytes.len(),
{
    if bytes.len() == 0 {
        0
    } else {
        big_endian(bytes.drop_last()) * 256 + bytes.last() as nat
    }
}

/// The number that the first bytes write is no larger than the number
/// that all of them write.
pub proof fn lemma_big_endian_grows(bytes: Seq<u8>, k: int)
    requires
        0 <= k <= bytes.len(),
    ensures
        big_endian(bytes.take(k)) <= big_endian(bytes),
    decreases bytes.len(),
{
    if k < bytes.len() {
        lemma_big_endian_grows(bytes.drop_last(), k);
        assert(bytes.drop_last().take(k) =~= bytes.take(k));
    } else {
        assert(bytes.take(k) =~= bytes);
    }
}

/// Why bytes and a text are not an automaton.
#[derive(Debug, PartialEq, Eq)]
pub enum AutomatonError {
    /// There is no byte that gives the size of a state.
    Empty,
    /// A state does not fit into 32 bits.
    StateOutOfRange,
    /// A line of the token table is not a state and a name with a
    /// colon between them.
    InvalidTokenTable { line: String },
    /// The state of a line of the token table is not a number.
    InvalidNumber { text: String },
    /// The name of a line of the token table is that of no token kind.
    UnknownName { name: String },
}

/// The mathematical value of an [`AutomatonError`].
pub enum AutomatonErrorView {
    Empty,
    StateOutOfRange,
    InvalidTokenTable { line: Seq<char> },
    InvalidNumber { text: Seq<char> },
    UnknownName { name: Seq<char> },
}

impl View for AutomatonError {
    type V = AutomatonErrorView;

    open spec fn view(&self) -> AutomatonErrorView {
        match self {
            AutomatonError::Empty => AutomatonErrorView::Empty,
            AutomatonError::StateOutOfRange => AutomatonErrorView::StateOutOfRange,
            AutomatonError::InvalidTokenTable { line } => AutomatonErrorView::InvalidTokenTable {
                line: line@,
            },
            AutomatonError::InvalidNumber { text } => AutomatonErrorView::InvalidNumber {
                text: text@,
            },
            AutomatonError::UnknownName { name } => AutomatonErrorView::UnknownName { name: name@ },
        }
    }
}

/// The transitions that the records of `bytes` from the byte at `from`
/// on write, added to `found`. A record is a state, a byte for the
/// character and the state to go to, each state in `size` bytes. Bytes
/// behind the last whole record are passed over.
pub open spec fn transitions_from(
    bytes: Seq<u8>,
    size: int,
    from: int,
    found: Map<(u32, char), u32>,
) -> Result<Map<(u32, char), u32>, AutomatonErrorView>
    decreases bytes.len() - from,
{
    if 0 <= size && 0 <= from && from + 2 * size + 1 <= bytes.len() {
        let state = big_endian(bytes.subrange(from, from + size));
        let symbol = bytes[from + size] as char;
        let next = big_endian(bytes.subrange(from + size + 1, from + 2 * size + 1));
        if state > u32::MAX || next > u32::MAX {
            Err(AutomatonErrorView::StateOutOfRange)
        } else {
            transitions_from(
                bytes,
                size,
                from + 2 * size + 1,
                found.insert((state as u32, symbol), next as u32),
            )
        }
    } else {
        Ok(found)
    }
}

/// The transitions that bytes write: the first byte is the size of a
/// state in bytes, the records follow.
pub open spec fn transitions_in(bytes: Seq<u8>) -> Result<
    Map<(u32, char), u32>,
    AutomatonErrorView,
> {
    if bytes.len() == 0 {
        Err(AutomatonErrorView::Empty)
    } else {
        transitions_from(bytes, bytes[0] as int, 1, Map::empty())
    }
}

/// The token table that the lines from the one at `from` on write,
/// added to `found`: each line is a state and the name of a token
/// kind, with a colon between them.
pub open spec fn token_table_from(lines: Seq<Seq<char>>, from: int, found: Map<u32, TokenType>)
    -> Result<Map<u32, TokenType>, AutomatonErrorView>
    decreases lines.len() - from,
{
    if 0 <= from < lines.len() {
        let parts = split(lines[from], ':');
        if parts.len() != 2 {
            Err(AutomatonErrorView::InvalidTokenTable { line: lines[from] })
        } else {
            match number_of(parts[0]) {
                None => Err(AutomatonErrorView::InvalidNumber { text: parts[0] }),
                Some(state) => match token_type_named(parts[1]) {
                    None => Err(AutomatonErrorView::UnknownName { name: parts[1] }),
                    Some(token_type) => token_table_from(
                        lines,
                        from + 1,
                        found.insert(state, token_type),
                    ),
                },
            }
        }
    } else {
        Ok(found)
    }
}

/// The automaton that bytes and a text write, with the initial state
/// 0: the bytes hold the transitions, the text the token table.
pub open spec fn automaton_of(bytes: Seq<u8>, table: Seq<char>) -> Result<
    FDAView,
    AutomatonErrorView,
> {
    match transitions_in(bytes) {
        Err(error) => Err(error),
        Ok(transitions) => match token_table_from(lines_of(table), 0, Map::empty()) {
            Err(error) => Err(error),
            Ok(token_table) => Ok(FDAView { initial_state: 0, transitions, token_table }),
        },
    }
}

/// The number that the `size` bytes of `bytes` from the one at `from`
/// on write; `None` where it does not fit into 32 bits.
fn read_state(bytes: &[u8], from: usize, size: usize) -> (r: Option<u32>)
    requires
        from + size <= bytes@.len(),
    ensures
        match r {
            Some(state) => big_endian(bytes@.subrange(from as int, from + size)) == state as nat,
            None => big_endian(bytes@.subrange(from as int, from + size)) > u32::MAX,
        },
{
    let ghost all = bytes@.subrange(from as int, from + size);
    let length = bytes.len();
    let mut result: u64 = 0;
    let mut i: usize = 0;
    assert(all.take(0) =~= Seq::<u8>::empty());
    while i < size
        invariant
            i <= size,
            from + size <= bytes@.len(),
            length == bytes@.len(),
            all == bytes@.subrange(from as int, from + size),
            big_endian(all.take(i as int)) == result as nat,
            result <= u32::MAX,
        decreases size - i,
    {
        let byte = bytes[from + i];
        proof {
            let next = all.take(i as int + 1);
            assert(next.drop_last() =~= all.take(i as int));
            assert(next.last() == byte);
            lemma_big_endian_grows(all, i as int + 1);
        }
        result = result * 256 + byte as u64;
        if result > u32::MAX as u64 {
            return None;
        }
        i = i + 1;
    }
    assert(all.take(size as int) =~= all);
    Some(result as u32)
}

/// The number that bytes write, the first byte the most significant;
/// `None` where it does not fit into 32 bits.
pub fn byte_vec_into_u32(vec: &[u8]) -> (r: Option<u32>)
    ensures
        match r {
            Some(state) => big_endian(vec@) == state as nat,
            None => big_endian(vec@) > u32::MAX,
        },
{
    assert(vec@.subrange(0, vec@.len() as int) =~= vec@);
    read_state(vec, 0, vec.len())
}

impl FDA {
    /// The key under which the transition from `state` on `symbol` is
    /// kept.
    pub fn key(state: u32, symbol: char) -> (r: u64)
        ensures
            r == transition_key(state, symbol),
    {
        proof {
            lemma_transition_key_distinct(state, symbol, state, symbol);
        }
        state as u64 * 0x1_0000_0000 + symbol as u32 as u64
    }

    /// The automaton with the initial state, the transitions and the
    /// token table given.
    pub fn new(
        initial_state: u32,
        transitions: HashMap<u64, u32>,
        token_table: HashMap<u32, TokenType>,
    ) -> (r: FDA)
        ensures
            r.initial_state == initial_state,
            r.transitions == transitions,
            r.token_table == token_table,
    {
        FDA { initial_state, transitions, token_table }
    }

    /// Adds the transition from `state` on `symbol` to `next`, in place
    /// of the one that was there, if there was one.
    pub fn add_transition(&mut self, state: u32, symbol: char, next: u32)
        ensures
            final(self)@ == (FDAView {
                initial_state: old(self)@.initial_state,
                transitions: old(self)@.transitions.insert((state, symbol), next),
                token_table: old(self)@.token_table,
            }),
    {
        self.transitions.insert(FDA::key(state, symbol), next);
        proof {
            let before = old(self)@.transitions;
            let after = before.insert((state, symbol), next);
            assert forall|pair: (u32, char)| #[trigger]
                self@.transitions.dom().contains(pair) <==> after.dom().contains(pair) by {
                lemma_transition_key_distinct(pair.0, pair.1, state, symbol);
            }
            assert forall|pair: (u32, char)| #[trigger]
                self@.transitions.dom().contains(pair) implies self@.transitions[pair]
                == after[pair] by {
                lemma_transition_key_distinct(pair.0, pair.1, state, symbol);
            }
            assert(self@.transitions =~= after);
        }
    }

    /// Reads an automaton from the contents of its two files: the
    /// bytes of its transitions and the text of its token table. See
    /// [`automaton_of`].
    #[verifier::loop_isolation(false)]
    pub fn from_file(raw_bytes: &[u8], token_table_content: &str) -> (r: Result<
        FDA,
        AutomatonError,
    >)
        ensures
            match r {
                Ok(fda) => automaton_of(raw_bytes@, token_table_content@) == Ok::<
                    FDAView,
                    AutomatonErrorView,
                >(fda@),
                Err(error) => automaton_of(raw_bytes@, token_table_content@) == Err::<
                    FDAView,
                    AutomatonErrorView,
                >(error@),
            },
    {
        if raw_bytes.len() == 0 {
            return Err(AutomatonError::Empty);
        }
        let mut fda = FDA::new(0, HashMap::new(), HashMap::new());
        assert(fda@.transitions =~= Map::<(u32, char), u32>::empty());
        let state_size = raw_bytes[0] as usize;
        let mut i: usize = 1;
        while i < raw_bytes.len() && 2 * state_size + 1 <= raw_bytes.len() - i
            invariant
                1 <= i <= raw_bytes@.len(),
                state_size == raw_bytes@[0] as nat,
                fda@.initial_state == 0,
                fda@.token_table == Map::<u32, TokenType>::empty(),
                transitions_in(raw_bytes@) == transitions_from(
                    raw_bytes@,
                    state_size as int,
                    i as int,
                    fda@.transitions,
                ),
            decreases raw_bytes@.len() - i,
        {
            let Some(state) = read_state(raw_bytes, i, state_size) else {
                return Err(AutomatonError::StateOutOfRange);
            };
            let symbol = raw_bytes[i + state_size] as char;
            let Some(next) = read_state(raw_bytes, i + state_size + 1, state_size) else {
                return Err(AutomatonError::StateOutOfRange);
            };
            fda.add_transition(state, symbol, next);
            i = i + 2 * state_size + 1;
        }
        let chars = chars_of(token_table_content);
        let all = lines(&chars);
        let ghost transitions = fda@.transitions;
        let mut k: usize = 0;
        while k < all.len()
            invariant
                k <= all@.len(),
                piece_views(all@) == lines_of(token_table_content@),
                fda@.initial_state == 0,
                fda@.transitions == transitions,
                token_table_from(lines_of(token_table_content@), 0, Map::empty())
                    == token_table_from(
                    lines_of(token_table_content@),
                    k as int,
                    fda@.token_table,
                ),
            decreases all@.len() - k,
        {
            assert(piece_views(all@)[k as int] == all@[k as int]@);
            let parts = split_chars(&all[k], ':');
            if parts.len() != 2 {
                return Err(AutomatonError::InvalidTokenTable { line: string_of(&all[k]) });
            }
            assert(piece_views(parts@)[0] == parts@[0]@);
            assert(piece_views(parts@)[1] == parts@[1]@);
            let Some(state) = parse_number(&parts[0]) else {
                return Err(AutomatonError::InvalidNumber { text: string_of(&parts[0]) });
            };
            let name = string_of(&parts[1]);
            let token_type = match TokenType::from_str(name.as_str()) {
                Ok(token_type) => token_type,
                Err(unknown) => {
                    return Err(AutomatonError::UnknownName { name: unknown.name });
                },
            };
            proof {
                crate::grammar::token_type::lemma_names_distinct(
                    token_type_named(name@).unwrap(),
                    token_type,
                );
            }
            fda.token_table.insert(state, token_type);
            k = k + 1;
        }
        Ok(fda)
    }

    /// The state that the automaton goes to from `state` on `symbol`,
    /// if it has a transition for them. See [`FDAView::next`].
    pub fn transition(&self, state: u32, symbol: char) -> (r: Option<u32>)
        ensures
            r == self@.next(state, symbol),
    {
        match self.transitions.get(&FDA::key(state, symbol)) {
            Some(next) => Some(*next),
            None => match self.transitions.get(&FDA::key(state, '\0')) {
                Some(next) => Some(*next),
                None => None,
            },
        }
    }

    /// The kind of token that `state` stands for, if it is an
    /// accepting state.
    pub fn token_of(&self, state: u32) -> (r: Option<TokenType>)
        ensures
            r == if self@.token_table.dom().contains(state) {
                Some(self@.token_table[state])
            } else {
                None
            },
    {
        match self.token_table.get(&state) {
            Some(token_type) => Some(*token_type),
            None => None,
        }
    }
}

} // verus!
