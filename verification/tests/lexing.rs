use std::collections::HashMap;
use toy_compiler::fda::{byte_vec_into_u32, AutomatonError, FDA};
use toy_compiler::grammar::const_type::{ConstType, VarType};
use toy_compiler::grammar::token_type::TokenType;
use toy_compiler::lexer::{Lexeme, Lexer, LexicalError, TokenTable};
use toy_compiler::token::Token;

#[test]
fn bytes_are_read_most_significant_first() {
    assert_eq!(byte_vec_into_u32(&[]), Some(0));
    assert_eq!(byte_vec_into_u32(&[7]), Some(7));
    assert_eq!(byte_vec_into_u32(&[1, 2]), Some(258));
    assert_eq!(
        byte_vec_into_u32(&[0, 0, 0xff, 0xff, 0xff, 0xff]),
        Some(u32::MAX)
    );
    assert_eq!(byte_vec_into_u32(&[1, 0, 0, 0, 0]), None);
    assert_eq!(byte_vec_into_u32(&[0xff, 0xff, 0xff, 0xff, 0xff]), None);
}

#[test]
fn transitions_fall_back_to_the_wildcard() {
    let mut fda = FDA::new(0, HashMap::new(), HashMap::new());
    fda.add_transition(0, 'a', 1);
    fda.add_transition(1, '\0', 2);
    fda.add_transition(1, 'b', 3);
    fda.add_transition(0, 'a', 4);
    assert_eq!(fda.transition(0, 'a'), Some(4));
    assert_eq!(fda.transition(0, 'b'), None);
    assert_eq!(fda.transition(1, 'b'), Some(3));
    assert_eq!(fda.transition(1, 'z'), Some(2));
    assert_eq!(fda.transition(1, '\0'), Some(2));
    assert_eq!(fda.transition(2, 'a'), None);
    assert_eq!(FDA::key(3, 'a'), (3u64 << 32) + 97);
    assert_eq!(fda.transitions.get(&FDA::key(1, 'b')), Some(&3));
    assert_eq!(fda.token_of(1), None);
    fda.token_table.insert(1, TokenType::Id);
    assert_eq!(fda.token_of(1), Some(TokenType::Id));
}

#[test]
fn automaton_is_read_from_file_and_text() {
    let bytes = [2, 0, 0, b'a', 0, 1, 0, 1, 0, 1, 2, 1, 2, b';', 0, 3, 9, 9];
    let fda = FDA::from_file(&bytes, "1:id\n3:semicolon\r\n").unwrap();
    assert_eq!(fda.initial_state, 0);
    assert_eq!(fda.transition(0, 'a'), Some(1));
    assert_eq!(fda.transition(1, 'q'), Some(258));
    assert_eq!(fda.transition(258, ';'), Some(3));
    assert_eq!(fda.transitions.len(), 3);
    assert_eq!(fda.token_of(1), Some(TokenType::Id));
    assert_eq!(fda.token_of(3), Some(TokenType::Semicolon));
    assert_eq!(fda.token_of(0), None);
    let narrow = FDA::from_file(&[0, b'x', b'y'], "").unwrap();
    assert_eq!(narrow.transition(0, 'x'), Some(0));
    assert_eq!(narrow.transition(0, 'y'), Some(0));
    assert_eq!(narrow.transition(0, 'z'), None);
}

#[test]
fn automaton_errors() {
    assert_eq!(FDA::from_file(&[], "").err(), Some(AutomatonError::Empty));
    assert_eq!(
        FDA::from_file(&[5, 1, 0, 0, 0, 0, b'a', 0, 0, 0, 0, 0], "").err(),
        Some(AutomatonError::StateOutOfRange)
    );
    assert_eq!(
        FDA::from_file(&[1], "1:id\n2\n").err(),
        Some(AutomatonError::InvalidTokenTable {
            line: "2".to_string()
        })
    );
    assert_eq!(
        FDA::from_file(&[1], "1:id:x\n").err(),
        Some(AutomatonError::InvalidTokenTable {
            line: "1:id:x".to_string()
        })
    );
    assert_eq!(
        FDA::from_file(&[1], "one:id\n").err(),
        Some(AutomatonError::InvalidNumber {
            text: "one".to_string()
        })
    );
    assert_eq!(
        FDA::from_file(&[1], "1:ID\n").err(),
        Some(AutomatonError::UnknownName {
            name: "ID".to_string()
        })
    );
    assert_eq!(
        FDA::from_file(&[], "1:ID\n").err(),
        Some(AutomatonError::Empty)
    );
}

/// An automaton for names of lower-case letters, integers, strings,
/// `=`, `==` and `;`, with white space between them.
fn automaton() -> FDA {
    let mut fda = FDA::new(0, HashMap::new(), HashMap::new());
    for c in [' ', '\t', '\n'] {
        fda.add_transition(0, c, 0);
    }
    for c in 'a'..='z' {
        fda.add_transition(0, c, 1);
        fda.add_transition(1, c, 1);
    }
    for c in '0'..='9' {
        fda.add_transition(0, c, 2);
        fda.add_transition(2, c, 2);
    }
    fda.add_transition(0, '=', 3);
    fda.add_transition(3, '=', 4);
    fda.add_transition(0, ';', 5);
    fda.add_transition(0, '"', 6);
    fda.add_transition(6, '\0', 6);
    fda.add_transition(6, '"', 7);
    fda.token_table.insert(1, TokenType::Id);
    fda.token_table.insert(2, TokenType::ConstInt);
    fda.token_table.insert(3, TokenType::OpAssign);
    fda.token_table.insert(4, TokenType::OpEq);
    fda.token_table.insert(5, TokenType::Semicolon);
    fda.token_table.insert(7, TokenType::ConstString);
    fda
}

fn lexeme(token_type: TokenType, text: &str, line: usize, column: usize) -> Lexeme {
    Lexeme {
        token_type,
        text: text.to_string(),
        line,
        column,
    }
}

#[test]
fn text_is_cut_into_lexemes() {
    let mut lexer = Lexer::new(automaton());
    assert_eq!(lexer.parse("abc = 12;\n  X==abc ;"), Ok(()));
    assert_eq!(
        lexer.token_list,
        [
            lexeme(TokenType::Id, "abc", 1, 1),
            lexeme(TokenType::OpAssign, "=", 1, 5),
            lexeme(TokenType::ConstInt, "12", 1, 7),
            lexeme(TokenType::Semicolon, ";", 1, 9),
            lexeme(TokenType::Id, "x", 2, 3),
            lexeme(TokenType::OpEq, "==", 2, 4),
            lexeme(TokenType::Id, "abc", 2, 6),
            lexeme(TokenType::Semicolon, ";", 2, 9),
            lexeme(TokenType::Eof, "", 2, 10),
        ]
    );
    assert_eq!(lexer.token_table.get("abc"), Some(&vec![(1, 1), (2, 6)]));
    assert_eq!(lexer.token_table.get("x"), Some(&vec![(2, 3)]));
    assert_eq!(lexer.token_table.get("12"), None);
    assert_eq!(lexer.token_table.pairs().len(), 2);
}

#[test]
fn strings_keep_their_case_and_blanks() {
    let mut lexer = Lexer::new(automaton());
    assert_eq!(lexer.parse("s = \"Hi There\";"), Ok(()));
    assert_eq!(
        lexer.token_list,
        [
            lexeme(TokenType::Id, "s", 1, 1),
            lexeme(TokenType::OpAssign, "=", 1, 3),
            lexeme(TokenType::ConstString, "\"Hi There\"", 1, 5),
            lexeme(TokenType::Semicolon, ";", 1, 14),
            lexeme(TokenType::Eof, "", 1, 15),
        ]
    );
}

#[test]
fn empty_text_is_the_end_of_input() {
    let mut lexer = Lexer::new(automaton());
    assert_eq!(lexer.parse(" \n\t \n"), Ok(()));
    assert_eq!(lexer.token_list, [lexeme(TokenType::Eof, "", 3, 0)]);
}

#[test]
fn characters_without_a_transition_are_errors() {
    let mut lexer = Lexer::new(automaton());
    let error = lexer.parse("ab\n  c ? d").unwrap_err();
    assert_eq!(
        error,
        LexicalError {
            line: 2,
            column: 5,
            text: String::new()
        }
    );
    assert_eq!(
        error.message(),
        "Erro léxico: Caracter inválido na linha 2, coluna 5: ''"
    );
    let mut lexer = Lexer::new(automaton());
    let error = lexer.parse("x = \"abc").unwrap_err();
    assert_eq!(
        error,
        LexicalError {
            line: 1,
            column: 8,
            text: "\"abc".to_string()
        }
    );
    assert_eq!(
        error.message(),
        "Erro léxico: Caracter inválido na linha 1, coluna 8: '\"abc'"
    );
}

#[test]
fn token_table_notes_places_in_order() {
    let mut table = TokenTable::new();
    assert_eq!(table.get("a"), None);
    table.note("a", (1, 2));
    table.note("b", (3, 4));
    table.note("a", (5, 6));
    assert_eq!(table.get("a"), Some(&vec![(1, 2), (5, 6)]));
    assert_eq!(table.get("b"), Some(&vec![(3, 4)]));
    assert_eq!(table.pairs().len(), 2);
}

#[test]
fn lexemes_become_tokens() {
    let number = lexeme(TokenType::ConstInt, "12", 3, 4);
    assert_eq!(
        number.to_token(Some("12".to_string())),
        Token {
            token_type: TokenType::ConstInt,
            value: Some(ConstType::Int(12)),
            line: 3,
            column: 4
        }
    );
    let float = lexeme(TokenType::ConstFloat, "1.50", 1, 1);
    assert_eq!(
        float.to_token(Some("1.5".to_string())).value,
        Some(ConstType::Float("1.5".to_string()))
    );
    let name = lexeme(TokenType::Id, "abc", 1, 1);
    assert_eq!(
        name.to_token(None).value,
        Some(ConstType::String("abc".to_string()))
    );
    let keyword = lexeme(TokenType::VarType, "string", 1, 1);
    assert_eq!(
        keyword.to_token(None).value,
        Some(ConstType::VarType(VarType::String))
    );
    let punctuation = lexeme(TokenType::Semicolon, ";", 2, 9);
    assert_eq!(
        punctuation.to_token(None),
        Token {
            token_type: TokenType::Semicolon,
            value: None,
            line: 2,
            column: 9
        }
    );
    assert_eq!(
        lexeme(TokenType::KwIf, "12", 1, 1)
            .to_token(Some("12".to_string()))
            .value,
        None
    );
}
