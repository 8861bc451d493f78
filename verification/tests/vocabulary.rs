use toy_compiler::cfg::{Grammar, GrammarError, NonTerminal, ParseTable, Rule, Symbol};
use toy_compiler::expression::Operator;
use toy_compiler::grammar::const_type::{ConstType, VarType};
use toy_compiler::grammar::token_type::TokenType;
use toy_compiler::lines;
use toy_compiler::text;
use toy_compiler::token::Token;

const TOKEN_NAMES: [&str; 37] = [
    "comma",
    "const_float",
    "const_int",
    "const_null",
    "const_string",
    "eof",
    "func_id",
    "id",
    "kw_break",
    "kw_def",
    "kw_else",
    "kw_for",
    "kw_if",
    "kw_new",
    "kw_print",
    "kw_read",
    "kw_return",
    "lbrace",
    "lbracket",
    "lparenthesis",
    "op_assign",
    "op_division",
    "op_eq",
    "op_ge",
    "op_gt",
    "op_le",
    "op_lt",
    "op_minus",
    "op_modular",
    "op_multiply",
    "op_ne",
    "op_plus",
    "rbrace",
    "rbracket",
    "rparenthesis",
    "semicolon",
    "var_type",
];

const NON_TERMINAL_NAMES: [&str; 37] = [
    "PROGRAM",
    "FUNCLIST",
    "FUNCDEF",
    "PARAMLIST",
    "PARAMLIST1",
    "STATELIST",
    "STATELIST1",
    "STATEMENT",
    "VARDECL",
    "CONST_INDEX",
    "VAR_INDEX",
    "ATRIBSTAT",
    "ATRIBSTATEVALUE",
    "FUNCCALL",
    "PARAMLISTCALL",
    "PARAMLISTCALL1",
    "PRINTSTAT",
    "READSTAT",
    "RETURNSTAT",
    "IFSTAT",
    "ELSESTAT",
    "ELSESTAT1",
    "FORSTAT",
    "ALLOCEXPRESSION",
    "EXPRESSION",
    "EXPRESSION1",
    "NUMEXPRESSION",
    "NUMEXPRESSION1",
    "TERM",
    "TERM1",
    "UNARYEXPRESSION",
    "FACTOR",
    "LVALUE",
    "CONSTANT",
    "OP_EXPRESSION",
    "OP_NUMEXPRESSION",
    "OP_TERM",
];

#[test]
fn token_kinds_are_resolved_by_name() {
    for (index, name) in TOKEN_NAMES.iter().enumerate() {
        let token_type = TokenType::from_str(name).unwrap();
        assert_eq!(token_type.index(), index);
    }
    assert_eq!(TokenType::from_str("kw_break"), Ok(TokenType::KwBreak));
    assert_eq!(TokenType::from_str("var_type"), Ok(TokenType::VarType));
    let unknown = TokenType::from_str("KW_BREAK").unwrap_err();
    assert_eq!(unknown.name, "KW_BREAK");
    assert!(TokenType::from_str("").is_err());
    assert!(TokenType::from_str("id ").is_err());
}

#[test]
fn non_terminals_are_resolved_by_name() {
    for (index, name) in NON_TERMINAL_NAMES.iter().enumerate() {
        let non_terminal = NonTerminal::from_char(name).unwrap();
        assert_eq!(non_terminal.index(), index);
    }
    assert_eq!(
        NonTerminal::from_char("PARAMLIST"),
        Ok(NonTerminal::Paramlist)
    );
    assert_eq!(
        NonTerminal::from_char("PARAMLIST1"),
        Ok(NonTerminal::Paramlist1)
    );
    assert_eq!(NonTerminal::from_char("OP_TERM"), Ok(NonTerminal::OpTerm));
    assert_eq!(
        NonTerminal::from_char("program").unwrap_err().name,
        "program"
    );
    assert_eq!(NonTerminal::Elsestat1.as_variant_name(), "Elsestat1");
}

#[test]
fn token_kinds_that_carry_a_value() {
    let with_value = [
        TokenType::ConstFloat,
        TokenType::ConstInt,
        TokenType::ConstString,
        TokenType::FuncId,
        TokenType::Id,
        TokenType::VarType,
    ];
    for name in TOKEN_NAMES {
        let token_type = TokenType::from_str(name).unwrap();
        assert_eq!(token_type.has_value(), with_value.contains(&token_type));
        assert_eq!(
            token_type.is_id(),
            token_type == TokenType::Id || token_type == TokenType::FuncId
        );
    }
}

#[test]
fn operator_kinds_name_their_operator() {
    let operators = [
        (TokenType::OpEq, Operator::Eq, "=="),
        (TokenType::OpNe, Operator::Ne, "!="),
        (TokenType::OpGt, Operator::Gt, ">"),
        (TokenType::OpGe, Operator::Ge, ">="),
        (TokenType::OpLt, Operator::Lt, "<"),
        (TokenType::OpLe, Operator::Le, "<="),
        (TokenType::OpPlus, Operator::Plus, "+"),
        (TokenType::OpMinus, Operator::Minus, "-"),
        (TokenType::OpMultiply, Operator::Multiply, "*"),
        (TokenType::OpDivision, Operator::Division, "/"),
        (TokenType::OpModular, Operator::Modular, "%"),
    ];
    for (token_type, operator, text) in operators {
        assert!(token_type.is_operator());
        assert_eq!(token_type.get_operator_type(), operator);
        assert_eq!(operator.to_string(), text);
        assert_eq!(token_type.to_string(), text);
    }
    assert!(!TokenType::OpAssign.is_operator());
    assert!(!TokenType::Id.is_operator());
}

#[test]
fn token_kinds_are_shown_as_in_the_source() {
    assert_eq!(TokenType::Comma.to_string(), ",");
    assert_eq!(TokenType::ConstNull.to_string(), "null");
    assert_eq!(TokenType::ConstInt.to_string(), "const_int");
    assert_eq!(TokenType::KwBreak.to_string(), "break");
    assert_eq!(TokenType::Lbrace.to_string(), "{");
    assert_eq!(TokenType::Rparenthesis.to_string(), ")");
    assert_eq!(TokenType::OpAssign.to_string(), "=");
    assert_eq!(TokenType::Eof.to_string(), "eof");
    assert_eq!(TokenType::VarType.as_variant_name(), "VarType");
    assert_eq!(TokenType::Lparenthesis.as_variant_name(), "Lparenthesis");
}

#[test]
fn types_and_their_keywords() {
    assert_eq!(VarType::Int.to_string(), "int");
    assert_eq!(VarType::Float.to_string(), "float");
    assert_eq!(VarType::String.to_string(), "string");
    assert_eq!(VarType::String.as_variant_name(), "String");
}

#[test]
fn literal_values_have_types_and_texts() {
    let int = ConstType::Int(-42);
    let float = ConstType::Float("2.5".to_string());
    let string = ConstType::String("say \"hi\"".to_string());
    let keyword = ConstType::VarType(VarType::Float);
    assert_eq!(int.get_type(), VarType::Int);
    assert_eq!(float.get_type(), VarType::Float);
    assert_eq!(string.get_type(), VarType::String);
    assert_eq!(keyword.get_type(), VarType::Float);
    assert_eq!(keyword.get_keyword_type(), VarType::Float);
    assert_eq!(int.to_string(), "-42");
    assert_eq!(float.to_string(), "2.5");
    assert_eq!(string.to_string(), "say \\\"hi\\\"");
    assert_eq!(string.to_plain_string(), "say \"hi\"");
    assert_eq!(keyword.to_string(), "float");
    assert_eq!(ConstType::Int(i64::MIN).to_string(), "-9223372036854775808");
    assert_eq!(ConstType::Int(i64::MAX).to_string(), "9223372036854775807");
    assert_eq!(ConstType::Int(0).to_string(), "0");
    assert_eq!(string.clone(), string);
}

#[test]
fn tokens_have_types_and_texts() {
    let token = |token_type, value| Token {
        token_type,
        value,
        line: 1,
        column: 1,
    };
    let literal = token(TokenType::ConstInt, Some(ConstType::Int(7)));
    assert!(literal.has_type());
    assert_eq!(literal.get_type(), VarType::Int);
    assert_eq!(literal.to_string(), "7");
    assert_eq!(
        token(TokenType::ConstFloat, None).get_type(),
        VarType::Float
    );
    assert_eq!(
        token(TokenType::ConstString, None).get_type(),
        VarType::String
    );
    let keyword = token(
        TokenType::VarType,
        Some(ConstType::VarType(VarType::String)),
    );
    assert_eq!(keyword.get_type(), VarType::String);
    assert_eq!(keyword.to_string(), "string");
    assert!(!token(TokenType::VarType, None).has_type());
    assert!(!token(TokenType::VarType, Some(ConstType::Int(1))).has_type());
    assert!(!token(TokenType::Id, Some(ConstType::String("x".to_string()))).has_type());
    assert_eq!(token(TokenType::Semicolon, None).to_string(), ";");
    assert_eq!(keyword.clone(), keyword);
}

#[test]
fn decimal_numerals() {
    let mut out = String::from("n=");
    text::append_decimal(&mut out, 0);
    text::append_decimal(&mut out, 10);
    text::append_decimal(&mut out, 907);
    text::append_decimal(&mut out, u64::MAX);
    assert_eq!(out, "n=01090718446744073709551615");
    let mut out = String::new();
    text::append_signed_decimal(&mut out, -5);
    text::append_signed_decimal(&mut out, 5);
    assert_eq!(out, "-55");
}

#[test]
fn quotes_are_escaped() {
    let mut out = String::from(">");
    text::append_escaped(&mut out, "a\"b\"\"é\\");
    assert_eq!(out, ">a\\\"b\\\"\\\"é\\");
    assert_eq!(text::chars_of("aé\n"), vec!['a', 'é', '\n']);
}

#[test]
fn parse_table_is_a_map() {
    let mut table = ParseTable::new();
    assert_eq!(table.get(NonTerminal::Program, TokenType::Eof), None);
    assert_eq!(table.insert(NonTerminal::Program, TokenType::Eof, 3), None);
    assert_eq!(
        table.insert(NonTerminal::OpTerm, TokenType::VarType, 9),
        None
    );
    assert_eq!(
        table.insert(NonTerminal::Program, TokenType::Comma, 1),
        None
    );
    assert_eq!(table.get(NonTerminal::Program, TokenType::Eof), Some(3));
    assert_eq!(
        table.insert(NonTerminal::Program, TokenType::Eof, 4),
        Some(3)
    );
    assert_eq!(table.get(NonTerminal::Program, TokenType::Eof), Some(4));
    assert_eq!(table.get(NonTerminal::Program, TokenType::Comma), Some(1));
    assert_eq!(table.get(NonTerminal::OpTerm, TokenType::VarType), Some(9));
    assert_eq!(table.get(NonTerminal::Funclist, TokenType::Eof), None);
    assert_eq!(table.get(NonTerminal::OpTerm, TokenType::Semicolon), None);
}

#[test]
fn grammar_needs_a_rule_for_every_entry() {
    let rules = || {
        vec![
            Rule {
                head: NonTerminal::Program,
                body: None,
            },
            Rule {
                head: NonTerminal::Funclist,
                body: Some(vec![Symbol::Terminal(TokenType::Eof)]),
            },
        ]
    };
    let mut table = ParseTable::new();
    table.insert(NonTerminal::Program, TokenType::Eof, 0);
    table.insert(NonTerminal::Funclist, TokenType::Eof, 1);
    let grammar = Grammar::new(rules(), table).unwrap();
    assert_eq!(grammar.rules().len(), 2);
    assert_eq!(
        grammar.table().get(NonTerminal::Funclist, TokenType::Eof),
        Some(1)
    );
    assert_eq!(
        grammar.select(NonTerminal::Funclist, TokenType::Eof),
        Some(&rules()[1])
    );
    assert_eq!(grammar.select(NonTerminal::Funclist, TokenType::Id), None);
    let mut table = ParseTable::new();
    table.insert(NonTerminal::Program, TokenType::Eof, 2);
    table.insert(NonTerminal::Funclist, TokenType::Eof, 7);
    table.insert(NonTerminal::Funcdef, TokenType::Eof, 1);
    assert_eq!(
        Grammar::new(rules(), table),
        Err(GrammarError::MissingRule { rule: 7 })
    );
    assert!(Grammar::new(Vec::new(), ParseTable::new()).is_ok());
}

#[test]
fn integers_are_read_with_their_sign() {
    for text in [
        "0",
        "12",
        "-7",
        "+7",
        "-0",
        "007",
        "9223372036854775807",
        "9223372036854775808",
        "-9223372036854775808",
        "-9223372036854775809",
        "99999999999999999999999999999999999999999",
        "",
        "+",
        "-",
        "--1",
        "+-1",
        "1.5",
        "1e3",
        " 1",
        "1_000",
        "x",
    ] {
        let chars: Vec<char> = text.chars().collect();
        assert_eq!(
            lines::parse_integer(&chars),
            text.parse::<i64>().ok(),
            "{:?}",
            text
        );
    }
}

#[test]
fn literal_values_are_read_from_text() {
    assert_eq!(
        ConstType::from_str("12", Some("12".to_string())),
        ConstType::Int(12)
    );
    assert_eq!(ConstType::from_str("-12", None), ConstType::Int(-12));
    assert_eq!(
        ConstType::from_str("1.50", Some("1.5".to_string())),
        ConstType::Float("1.5".to_string())
    );
    assert_eq!(
        ConstType::from_str(
            "9223372036854775808",
            Some("9223372036854775808".to_string())
        ),
        ConstType::Float("9223372036854775808".to_string())
    );
    assert_eq!(
        ConstType::from_str("nan", Some("NaN".to_string())),
        ConstType::Float("NaN".to_string())
    );
    assert_eq!(
        ConstType::from_str("int", None),
        ConstType::VarType(VarType::Int)
    );
    assert_eq!(
        ConstType::from_str("float", None),
        ConstType::VarType(VarType::Float)
    );
    assert_eq!(
        ConstType::from_str("string", None),
        ConstType::VarType(VarType::String)
    );
    assert_eq!(
        ConstType::from_str("Int", None),
        ConstType::String("Int".to_string())
    );
    assert_eq!(
        ConstType::from_str("x1", None),
        ConstType::String("x1".to_string())
    );
    assert_eq!(
        ConstType::from_str("\"a b\"", None),
        ConstType::String("\"a b\"".to_string())
    );
    assert_eq!(
        ConstType::from_str("", None),
        ConstType::String(String::new())
    );
}
