use toy_compiler::cfg::{NonTerminal, Rule, Symbol};
use toy_compiler::grammar::token_type::TokenType;
use toy_compiler::grammar_file::{load_grammar, load_rules, load_table, GrammarFileError};
use toy_compiler::lines;
use toy_compiler::syntax::{SyntaxErrorKind, SyntaxTree};
use toy_compiler::token::Token;

fn chars(text: &str) -> Vec<char> {
    text.chars().collect()
}

fn texts(pieces: Vec<Vec<char>>) -> Vec<String> {
    pieces
        .into_iter()
        .map(|piece| piece.into_iter().collect())
        .collect()
}

#[test]
fn text_is_split_at_every_separator() {
    assert_eq!(
        texts(lines::split_chars(&chars("a,b,c"), ',')),
        ["a", "b", "c"]
    );
    assert_eq!(
        texts(lines::split_chars(&chars(",a,,"), ',')),
        ["", "a", "", ""]
    );
    assert_eq!(texts(lines::split_chars(&chars(""), ',')), [""]);
    assert_eq!(texts(lines::split_chars(&chars("abc"), ',')), ["abc"]);
    for text in ["a,b,c", ",a,,", "", "abc", ",", "x:y,z"] {
        let expected: Vec<String> = text.split(',').map(String::from).collect();
        assert_eq!(texts(lines::split_chars(&chars(text), ',')), expected);
    }
}

#[test]
fn lines_end_at_line_feeds() {
    for text in [
        "",
        "a",
        "a\n",
        "a\nb",
        "a\r\nb\r\n",
        "a\n\nb\n\n",
        "\n",
        "a\r",
        "a\rb\n",
        "\r\n",
        "a\n\r",
    ] {
        let expected: Vec<String> = text.lines().map(String::from).collect();
        assert_eq!(texts(lines::lines(&chars(text))), expected, "{:?}", text);
    }
    assert_eq!(texts(lines::lines(&chars("x,y\r\nz\n"))), ["x,y", "z"]);
}

#[test]
fn words_are_split_at_white_space() {
    for text in [
        "",
        "a",
        "  a  b\tc\n",
        "kw_if lparenthesis  EXPRESSION",
        " \u{a0}x\u{2003}y\u{3000}",
        "a\u{200b}b",
    ] {
        let expected: Vec<String> = text.split_whitespace().map(String::from).collect();
        assert_eq!(texts(lines::words(&chars(text))), expected, "{:?}", text);
    }
    for code in 0..0x3100u32 {
        if let Some(c) = char::from_u32(code) {
            assert_eq!(lines::is_space_char(c), c.is_whitespace(), "{:x}", code);
        }
    }
}

#[test]
fn numbers_are_read_as_decimals() {
    for text in [
        "0",
        "7",
        "007",
        "+7",
        "4294967295",
        "4294967296",
        "99999999999999999999",
        "",
        "+",
        "-1",
        "1 ",
        " 1",
        "1a",
        "++1",
        "１",
    ] {
        assert_eq!(
            lines::parse_number(&chars(text)),
            text.parse::<u32>().ok(),
            "{:?}",
            text
        );
    }
    assert_eq!(lines::parse_number(&chars("4294967295")), Some(u32::MAX));
    assert_eq!(lines::parse_number(&chars("4294967296")), None);
    assert_eq!(lines::string_of(&chars("aé")), "aé");
}

#[test]
fn rules_are_read_from_text() {
    let rules = load_rules(
        "PROGRAM,FUNCLIST eof\nFUNCLIST,''\r\n\nnot a rule\nTERM,  UNARYEXPRESSION\tTERM1 \n",
    )
    .unwrap();
    assert_eq!(
        rules,
        [
            Rule {
                head: NonTerminal::Program,
                body: Some(vec![
                    Symbol::NonTerminal(NonTerminal::Funclist),
                    Symbol::Terminal(TokenType::Eof),
                ]),
            },
            Rule {
                head: NonTerminal::Funclist,
                body: None
            },
            Rule {
                head: NonTerminal::Term,
                body: Some(vec![
                    Symbol::NonTerminal(NonTerminal::Unaryexpression),
                    Symbol::NonTerminal(NonTerminal::Term1),
                ]),
            },
        ]
    );
    assert_eq!(load_rules("PROGRAM,").unwrap()[0].body, Some(vec![]));
    assert_eq!(load_rules("a,b,c\n").unwrap(), []);
    assert_eq!(
        load_rules("PROGRAM,eof\nprogram,eof\n"),
        Err(GrammarFileError::UnknownName {
            name: "program".to_string()
        })
    );
    assert_eq!(
        load_rules("PROGRAM,eof EOF\n"),
        Err(GrammarFileError::UnknownName {
            name: "EOF".to_string()
        })
    );
}

#[test]
fn table_is_read_from_text() {
    let table = load_table("PROGRAM,eof,0\nPROGRAM,kw_def,+12\n\nPROGRAM,eof,3\nx,y\n").unwrap();
    assert_eq!(table.get(NonTerminal::Program, TokenType::Eof), Some(3));
    assert_eq!(table.get(NonTerminal::Program, TokenType::KwDef), Some(12));
    assert_eq!(table.get(NonTerminal::Program, TokenType::Id), None);
    assert_eq!(
        load_table("PROGRAM,eof,0\nPROGRAM,EOF,1\n"),
        Err(GrammarFileError::UnknownName {
            name: "EOF".to_string()
        })
    );
    assert_eq!(
        load_table("eof,eof,0\n"),
        Err(GrammarFileError::UnknownName {
            name: "eof".to_string()
        })
    );
    assert_eq!(
        load_table("PROGRAM,eof,one\n"),
        Err(GrammarFileError::InvalidNumber {
            text: "one".to_string()
        })
    );
    assert_eq!(
        load_table("PROGRAM,eof, 1\n"),
        Err(GrammarFileError::InvalidNumber {
            text: " 1".to_string()
        })
    );
}

#[test]
fn grammar_is_read_from_two_texts() {
    let rules = "PROGRAM,FUNCLIST eof\nFUNCLIST,''\n";
    let table = "PROGRAM,eof,0\nFUNCLIST,eof,1\n";
    let grammar = load_grammar(rules, table).unwrap();
    assert_eq!(grammar.rules().len(), 2);
    assert_eq!(
        load_grammar(rules, "PROGRAM,eof,0\nFUNCLIST,eof,5\nFUNCLIST,id,2\n"),
        Err(GrammarFileError::MissingRule { rule: 5 })
    );
    assert_eq!(
        load_grammar("X,eof\n", "PROGRAM,eof,zero\n"),
        Err(GrammarFileError::UnknownName {
            name: "X".to_string()
        })
    );
    let mut tree = SyntaxTree::new(rules, table).unwrap();
    let eof = Token {
        token_type: TokenType::Eof,
        value: None,
        line: 1,
        column: 1,
    };
    assert_eq!(tree.parse(&vec![eof.clone()]), Ok(()));
    assert_eq!(tree.get_root().children.len(), 2);
    assert_eq!(tree.get_grammar(), &grammar);
    let comma = Token {
        token_type: TokenType::Comma,
        value: None,
        line: 4,
        column: 2,
    };
    let error = tree.parse(&vec![comma, eof]).unwrap_err();
    assert_eq!(
        error.kind,
        SyntaxErrorKind::NoRule {
            non_terminal: NonTerminal::Program
        }
    );
    assert_eq!(tree.get_root().children.len(), 2);
    assert!(SyntaxTree::new(rules, "PROGRAM,eof,9\n").is_err());
}
