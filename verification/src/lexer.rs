//! Lexical analysis: a text is cut into lexemes by a deterministic
//! finite automaton, the longest match first.
//!
//! Outside a string, letters count as their lower case and white space
//! between lexemes is passed over. A lexeme ends where the automaton has
//! no transition for the next character; the state that was reached says
//! which kind of token it is.

use vstd::prelude::*;
use vstd::string::*;
use crate::fda::{FDAView, FDA};
use crate::name_map::{lemma_absent, lemma_present, lemma_update, map_of};
use crate::grammar::const_type::{value_of, ConstType};
use crate::grammar::token_type::TokenType;
use crate::lines::{is_space, is_space_char};
use crate::text::{append_decimal, chars_of, decimal, push_char, str_eq};
use crate::token::{Token, TokenView};

verus! {

/// A lexeme: the kind of token, its text as the automaton read it, and
/// where it starts (line from 1, column within the line).
#[derive(Debug, PartialEq, Eq)]
pub struct Lexeme {
    pub token_type: TokenType,
    pub text: String,
    pub line: usize,
    pub column: usize,
}

/// The mathematical value of a [`Lexeme`].
pub struct LexemeView {
    pub token_type: TokenType,
    pub text: Seq<char>,
    pub line: nat,
    pub column: nat,
}

impl View for Lexeme {
    type V = LexemeView;

    open spec fn view(&self) -> LexemeView {
        LexemeView {
            token_type: self.token_type,
            text: self.text@,
            line: self.line as nat,
            column: self.column as nat,
        }
    }
}

impl LexemeView {
    /// The token of the lexeme, where `float` says whether its text is
    /// a floating-point literal: a kind that carries a value gets the
    /// value that the text writes.
    pub open spec fn token(self, float: Option<Seq<char>>) -> TokenView {
        TokenView {
            token_type: self.token_type,
            value: if self.token_type.spec_has_value() {
                Some(value_of(self.text, float))
            } else {
                None
            },
            line: self.line as usize,
            column: self.column as usize,
        }
    }
}

impl Lexeme {
    /// The token of the lexeme. Whether its text is a floating-point
    /// literal is for the caller to say, as for
    /// [`ConstType::from_str`].
    pub fn to_token(&self, float: Option<String>) -> (r: Token)
        ensures
            r@ == self@.token(
                match float {
                    Some(rendered) => Some(rendered@),
                    None => None,
                },
            ),
    {
        Token {
            token_type: self.token_type,
            value: if self.token_type.has_value() {
                Some(ConstType::from_str(self.text.as_str(), float))
            } else {
                None
            },
            line: self.line,
            column: self.column,
        }
    }
}

/// The values of a list of lexemes.
pub open spec fn lexeme_views(lexemes: Seq<Lexeme>) -> Seq<LexemeView> {
    Seq::new(lexemes.len(), |i: int| lexemes[i]@)
}

/// A character that the automaton cannot read where it stands.
#[derive(Debug, PartialEq, Eq)]
pub struct LexicalError {
    pub line: usize,
    pub column: usize,
    /// The text that was read since the last lexeme.
    pub text: String,
}

/// The mathematical value of a [`LexicalError`].
pub struct LexicalErrorView {
    pub line: nat,
    pub column: nat,
    pub text: Seq<char>,
}

impl View for LexicalError {
    type V = LexicalErrorView;

    open spec fn view(&self) -> LexicalErrorView {
        LexicalErrorView { line: self.line as nat, column: self.column as nat, text: self.text@ }
    }
}

impl LexicalErrorView {
    /// The message of the error.
    pub open spec fn message(self) -> Seq<char> {
        "Erro léxico: Caracter inválido na linha "@ + decimal(self.line) + ", coluna "@ + decimal(
            self.column,
        ) + ": '"@ + self.text + "'"@
    }
}

impl LexicalError {
    /// The message of the error.
    pub fn message(&self) -> (r: String)
        ensures
            r@ == self@.message(),
    {
        let mut out = String::new();
        out.append("Erro léxico: Caracter inválido na linha ");
        append_decimal(&mut out, self.line as u64);
        out.append(", coluna ");
        append_decimal(&mut out, self.column as u64);
        out.append(": '");
        out.append(self.text.as_str());
        out.append("'");
        assert(out@ =~= self@.message());
        out
    }
}

/// The map that a list of names with their places stands for: of two
/// pairs with one name the later one counts.
pub open spec fn places_of(pairs: Seq<(String, Vec<(u32, u32)>)>) -> Map<Seq<char>, Seq<(u32, u32)>> {
    map_of(pairs)
}

/// The places of the identifiers of a text: for each name, the line
/// and column of each of its lexemes, in the order of the text.
#[derive(Debug, PartialEq, Eq)]
pub struct TokenTable {
    pairs: Vec<(String, Vec<(u32, u32)>)>,
}

impl View for TokenTable {
    type V = Map<Seq<char>, Seq<(u32, u32)>>;

    closed spec fn view(&self) -> Map<Seq<char>, Seq<(u32, u32)>> {
        places_of(self.pairs@)
    }
}

/// The table of places with one more place for `name`.
pub open spec fn noted(
    table: Map<Seq<char>, Seq<(u32, u32)>>,
    name: Seq<char>,
    place: (u32, u32),
) -> Map<Seq<char>, Seq<(u32, u32)>> {
    if table.dom().contains(name) {
        table.insert(name, table[name].push(place))
    } else {
        table.insert(name, seq![place])
    }
}

impl TokenTable {
    /// The table without names.
    pub fn new() -> (r: TokenTable)
        ensures
            r@ == Map::<Seq<char>, Seq<(u32, u32)>>::empty(),
    {
        TokenTable { pairs: Vec::new() }
    }

    fn find(&self, name: &str) -> (r: Option<usize>)
        ensures
            match r {
                Some(i) => {
                    &&& i < self.pairs@.len()
                    &&& self.pairs@[i as int].0@ == name@
                    &&& forall|j: int| i < j < self.pairs@.len() ==> self.pairs@[j].0@ != name@
                    &&& self@.dom().contains(name@)
                    &&& self@[name@] == self.pairs@[i as int].1@
                },
                None => !self@.dom().contains(name@),
            },
    {
        let mut i: usize = self.pairs.len();
        while i > 0
            invariant
                i <= self.pairs@.len(),
                forall|j: int| i <= j < self.pairs@.len() ==> self.pairs@[j].0@ != name@,
            decreases i,
        {
            i = i - 1;
            if str_eq(self.pairs[i].0.as_str(), name) {
                proof {
                    lemma_present(self.pairs@, name@, i as int);
                }
                return Some(i);
            }
        }
        proof {
            lemma_absent(self.pairs@, name@);
        }
        None
    }

    /// The places of `name`, if the table holds the name.
    pub fn get(&self, name: &str) -> (r: Option<&Vec<(u32, u32)>>)
        ensures
            match r {
                Some(places) => self@.dom().contains(name@) && self@[name@] == places@,
                None => !self@.dom().contains(name@),
            },
    {
        match self.find(name) {
            Some(i) => Some(&self.pairs[i].1),
            None => None,
        }
    }

    /// Adds a place to those of `name`.
    pub fn note(&mut self, name: &str, place: (u32, u32))
        ensures
            final(self)@ == noted(old(self)@, name@, place),
    {
        match self.find(name) {
            Some(i) => {
                let ghost before = self.pairs@;
                let (key, places) = self.pairs.remove(i);
                let mut places = places;
                places.push(place);
                self.pairs.insert(i, (key, places));
                proof {
                    lemma_update(before, self.pairs@, name@, i as int);
                }
            },
            None => {
                let ghost before = self.pairs@;
                let mut places: Vec<(u32, u32)> = Vec::new();
                places.push(place);
                self.pairs.push((name.to_owned(), places));
                assert(self.pairs@.drop_last() =~= before);
            },
        }
    }

    /// The names with their places, those noted later behind.
    pub fn pairs(&self) -> (r: &Vec<(String, Vec<(u32, u32)>)>)
        ensures
            places_of(r@) == self@,
    {
        &self.pairs
    }
}

/// `char::is_alphabetic`: whether Unicode counts the character as
/// alphabetic.
pub uninterp spec fn alphabetic(c: char) -> bool;

/// `char::is_alphabetic`: the result is what Unicode says of the
/// character, and Unicode counts the letters from A to Z and from a to
/// z as alphabetic.
#[verifier::external_body]
fn is_alphabetic(c: char) -> (r: bool)
    ensures
        r == alphabetic(c),
        ('A' <= c && c <= 'Z') || ('a' <= c && c <= 'z') ==> r,
{
    c.is_alphabetic()
}

/// The lower case of a letter from A to Z; any other character is
/// left as it is.
pub open spec fn ascii_lowercase(c: char) -> char {
    if 'A' <= c && c <= 'Z' {
        ((c as u8 + 32) as u8) as char
    } else {
        c
    }
}

fn to_ascii_lowercase(c: char) -> (r: char)
    ensures
        r == ascii_lowercase(c),
{
    if 'A' <= c && c <= 'Z' {
        ((c as u8) + 32) as char
    } else {
        c
    }
}

/// The state of a lexical analysis.
pub struct Lexer {
    pub fda: FDA,
    /// The lexemes that were found.
    pub token_list: Vec<Lexeme>,
    /// The places of the identifiers that were found.
    pub token_table: TokenTable,
    line_count: usize,
    column_count: usize,
    token_value: String,
    string: bool,
    current_state: u32,
}

/// The mathematical value of a [`Lexer`].
pub struct LexerView {
    pub fda: FDAView,
    pub tokens: Seq<LexemeView>,
    pub table: Map<Seq<char>, Seq<(u32, u32)>>,
    /// The line of the character that was read last.
    pub line: nat,
    /// The column of the character that was read last; 0 at the start
    /// of a line.
    pub column: nat,
    /// The text that was read since the last lexeme.
    pub value: Seq<char>,
    /// Whether the analysis stands inside a string.
    pub string: bool,
    pub state: u32,
}

impl View for Lexer {
    type V = LexerView;

    closed spec fn view(&self) -> LexerView {
        LexerView {
            fda: self.fda@,
            tokens: lexeme_views(self.token_list@),
            table: self.token_table@,
            line: self.line_count as nat,
            column: self.column_count as nat,
            value: self.token_value@,
            string: self.string,
            state: self.current_state,
        }
    }
}

impl LexerView {
    /// The analysis before anything was read.
    pub open spec fn start(fda: FDAView) -> LexerView {
        LexerView {
            fda,
            tokens: Seq::empty(),
            table: Map::empty(),
            line: 1,
            column: 0,
            value: Seq::empty(),
            string: false,
            state: 0,
        }
    }

    /// The error of a character that cannot be read here.
    pub open spec fn error(self) -> LexicalErrorView {
        LexicalErrorView { line: self.line, column: self.column, text: self.value }
    }

    /// The column at which the text that was read since the last
    /// lexeme starts.
    pub open spec fn start_column(self) -> nat {
        if self.value.len() <= self.column {
            (self.column - self.value.len()) as nat
        } else {
            0
        }
    }

    /// The end of a lexeme: in an accepting state the text that was
    /// read is a lexeme of the kind of the state, and an identifier
    /// gets its place noted. In any other state nothing may have been
    /// read.
    pub open spec fn accept(self) -> Result<LexerView, LexicalErrorView> {
        if self.fda.token_table.dom().contains(self.state) {
            let token_type = self.fda.token_table[self.state];
            let lexeme = LexemeView {
                token_type,
                text: self.value,
                line: self.line,
                column: self.start_column(),
            };
            Ok(
                LexerView {
                    tokens: self.tokens.push(lexeme),
                    table: if token_type.spec_is_id() {
                        noted(self.table, self.value, (self.line as u32, self.start_column() as u32))
                    } else {
                        self.table
                    },
                    ..self
                },
            )
        } else if self.value.len() > 0 {
            Err(self.error())
        } else {
            Ok(self)
        }
    }

    /// The step of the automaton from `state` on `character`, if it
    /// has a transition for them: the character is added to the text,
    /// unless it is white space that leads to the initial state.
    pub open spec fn feed(self, state: u32, character: char) -> Option<LexerView> {
        match self.fda.next(state, character) {
            Some(next) => Some(
                LexerView {
                    state: next,
                    value: if !is_space(character) || next != self.fda.initial_state {
                        self.value.push(character)
                    } else {
                        self.value
                    },
                    ..self
                },
            ),
            None => None,
        }
    }

    /// The analysis after a line feed was read.
    pub open spec fn line_fed(self, c: char) -> LexerView {
        if c == '\n' {
            LexerView { line: self.line + 1, column: 0, ..self }
        } else {
            self
        }
    }

    /// The analysis after one more character was read. Outside a
    /// string a letter from A to Z is read as its lower case.
    pub open spec fn step(self, c: char) -> Result<LexerView, LexicalErrorView> {
        let counted = LexerView { column: self.column + 1, ..self };
        if c != '"' && self.state == self.fda.initial_state && is_space(c) {
            Ok(counted.line_fed(c))
        } else {
            let turned = if c == '"' {
                LexerView { string: !self.string, ..counted }
            } else {
                counted
            };
            let character = if !turned.string {
                ascii_lowercase(c)
            } else {
                c
            };
            match turned.feed(turned.state, character) {
                Some(moved) => Ok(moved.line_fed(c)),
                None => match turned.accept() {
                    Err(error) => Err(error),
                    Ok(accepted) => {
                        let cleared = LexerView { value: Seq::empty(), ..accepted };
                        match cleared.feed(cleared.fda.initial_state, character) {
                            Some(moved) => Ok(moved.line_fed(c)),
                            None => Err(cleared.error()),
                        }
                    },
                },
            }
        }
    }

    /// The analysis after the characters of `input` from the one at
    /// `from` on were read.
    pub open spec fn run(self, input: Seq<char>, from: int) -> Result<LexerView, LexicalErrorView>
        decreases input.len() - from,
    {
        if 0 <= from < input.len() {
            match self.step(input[from]) {
                Ok(next) => next.run(input, from + 1),
                Err(error) => Err(error),
            }
        } else {
            Ok(self)
        }
    }

    /// The analysis of a whole text: its characters are read, the
    /// lexeme that is open at its end is closed, and the end-of-input
    /// lexeme follows.
    pub open spec fn lex(self, input: Seq<char>) -> Result<LexerView, LexicalErrorView> {
        match self.run(input, 0) {
            Err(error) => Err(error),
            Ok(read) => match read.accept() {
                Err(error) => Err(error),
                Ok(accepted) => Ok(
                    LexerView {
                        tokens: accepted.tokens.push(
                            LexemeView {
                                token_type: TokenType::Eof,
                                text: Seq::empty(),
                                line: accepted.line,
                                column: accepted.column,
                            },
                        ),
                        ..accepted
                    },
                ),
            },
        }
    }
}

impl Lexer {
    /// The analysis with the automaton `fda`, before anything was read:
    /// in the state 0, on line 1.
    pub fn new(fda: FDA) -> (r: Lexer)
        ensures
            r@ == LexerView::start(fda@),
    {
        let r = Lexer {
            fda,
            token_list: Vec::new(),
            token_table: TokenTable::new(),
            line_count: 1,
            column_count: 0,
            token_value: String::new(),
            string: false,
            current_state: 0,
        };
        assert(r@.tokens =~= Seq::<LexemeView>::empty());
        r
    }

    fn lexical_error(&self) -> (r: LexicalError)
        ensures
            r@ == self@.error(),
    {
        LexicalError {
            line: self.line_count,
            column: self.column_count,
            text: self.token_value.clone(),
        }
    }

    fn is_valid_token(&mut self) -> (r: Result<(), LexicalError>)
        ensures
            match r {
                Ok(()) => old(self)@.accept() == Ok::<LexerView, LexicalErrorView>(final(self)@),
                Err(error) => old(self)@.accept() == Err::<LexerView, LexicalErrorView>(error@),
            },
    {
        match self.fda.token_of(self.current_state) {
            Some(token_type) => {
                let length = self.token_value.as_str().unicode_len();
                let column = if length <= self.column_count {
                    self.column_count - length
                } else {
                    0
                };
                if token_type.is_id() {
                    self.token_table.note(
                        self.token_value.as_str(),
                        (
                            #[verifier::truncate]
                            (self.line_count as u32),
                            #[verifier::truncate]
                            (column as u32),
                        ),
                    );
                }
                let lexeme = Lexeme {
                    token_type,
                    text: self.token_value.clone(),
                    line: self.line_count,
                    column,
                };
                let ghost before = lexeme_views(self.token_list@);
                let ghost added = lexeme@;
                self.token_list.push(lexeme);
                assert(lexeme_views(self.token_list@) =~= before.push(added));
                Ok(())
            },
            None => {
                if !self.token_value.as_str().is_empty() {
                    return Err(self.lexical_error());
                }
                Ok(())
            },
        }
    }

    fn transition(&mut self, state: u32, character: char) -> (r: bool)
        ensures
            match old(self)@.feed(state, character) {
                Some(moved) => r && final(self)@ == moved,
                None => !r && final(self)@ == old(self)@,
            },
    {
        let Some(next) = self.fda.transition(state, character) else {
            return false;
        };
        self.current_state = next;
        if !is_space_char(character) || self.current_state != self.fda.initial_state {
            push_char(&mut self.token_value, character);
        }
        true
    }

    fn feed_line(&mut self, c: char)
        requires
            old(self)@.line < usize::MAX,
        ensures
            final(self)@ == old(self)@.line_fed(c),
    {
        if c == '\n' {
            self.line_count = self.line_count + 1;
            self.column_count = 0;
        }
    }

    fn read(&mut self, c: char) -> (r: Result<(), LexicalError>)
        requires
            old(self)@.line < usize::MAX,
            old(self)@.column < usize::MAX,
        ensures
            match r {
                Ok(()) => old(self)@.step(c) == Ok::<LexerView, LexicalErrorView>(final(self)@),
                Err(error) => old(self)@.step(c) == Err::<LexerView, LexicalErrorView>(error@),
            },
    {
        self.column_count = self.column_count + 1;
        if c == '"' {
            self.string = !self.string;
        } else if self.current_state == self.fda.initial_state && is_space_char(c) {
            self.feed_line(c);
            return Ok(());
        }
        let character = if !self.string && is_alphabetic(c) {
            to_ascii_lowercase(c)
        } else {
            c
        };
        if !self.transition(self.current_state, character) {
            self.is_valid_token()?;
            self.token_value = String::new();
            if !self.transition(self.fda.initial_state, character) {
                return Err(self.lexical_error());
            }
        }
        self.feed_line(c);
        Ok(())
    }

    /// Reads `input` to its end. On success the lexemes of the text are
    /// added to those found before, the end-of-input lexeme last. See
    /// [`LexerView::lex`].
    pub fn parse(&mut self, input: &str) -> (r: Result<(), LexicalError>)
        requires
            old(self)@.line + input@.len() < usize::MAX,
            old(self)@.column + input@.len() < usize::MAX,
        ensures
            match r {
                Ok(()) => old(self)@.lex(input@) == Ok::<LexerView, LexicalErrorView>(
                    final(self)@,
                ),
                Err(error) => old(self)@.lex(input@) == Err::<LexerView, LexicalErrorView>(
                    error@,
                ),
            },
    {
        let chars = chars_of(input);
        let mut i: usize = 0;
        while i < chars.len()
            invariant
                i <= chars@.len(),
                chars@ == input@,
                self@.line <= old(self)@.line + i,
                self@.column <= old(self)@.column + i,
                old(self)@.line + input@.len() < usize::MAX,
                old(self)@.column + input@.len() < usize::MAX,
                old(self)@.run(input@, 0) == self@.run(input@, i as int),
            decreases chars@.len() - i,
        {
            self.read(chars[i])?;
            i = i + 1;
        }
        self.is_valid_token()?;
        let lexeme = Lexeme {
            token_type: TokenType::Eof,
            text: String::new(),
            line: self.line_count,
            column: self.column_count,
        };
        let ghost before = lexeme_views(self.token_list@);
        let ghost added = lexeme@;
        self.token_list.push(lexeme);
        assert(lexeme_views(self.token_list@) =~= before.push(added));
        Ok(())
    }
}

} // verus!
