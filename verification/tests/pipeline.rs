use toy_compiler::cfg::{Grammar, NonTerminal, ParseTable, Rule, Symbol};
use toy_compiler::code_attrs::CodeAttrs;
use toy_compiler::expression::{ExpressionTree, ExpressionTreeNode, Operand, Operator};
use toy_compiler::grammar::const_type::{ConstType, VarType};
use toy_compiler::grammar::semantic_node::SemanticNodeData;
use toy_compiler::grammar::token_type::TokenType;
use toy_compiler::scope_stack::{ScopeStack, ScopeType};
use toy_compiler::semantic::{Attribute, SemanticNode, SemanticTree};
use toy_compiler::semantic_error::{SemanticError, SemanticErrorKind};
use toy_compiler::syntax::{Node, SyntaxError, SyntaxErrorKind, SyntaxTree, TreeError};
use toy_compiler::token::Token;

const RULES: &[(&str, &str)] = &[
    ("PROGRAM", "FUNCLIST eof"),
    ("PROGRAM", "STATEMENT eof"),
    ("FUNCLIST", "FUNCDEF FUNCLIST"),
    ("FUNCLIST", ""),
    ("FUNCDEF", "kw_def func_id lparenthesis PARAMLIST rparenthesis lbrace STATELIST rbrace"),
    ("PARAMLIST", "var_type id PARAMLIST1"),
    ("PARAMLIST", ""),
    ("PARAMLIST1", "comma var_type id PARAMLIST1"),
    ("PARAMLIST1", ""),
    ("STATELIST", "STATEMENT STATELIST1"),
    ("STATELIST1", "STATEMENT STATELIST1"),
    ("STATELIST1", ""),
    ("STATEMENT", "VARDECL semicolon"),
    ("STATEMENT", "ATRIBSTAT semicolon"),
    ("STATEMENT", "PRINTSTAT semicolon"),
    ("STATEMENT", "READSTAT semicolon"),
    ("STATEMENT", "RETURNSTAT semicolon"),
    ("STATEMENT", "IFSTAT"),
    ("STATEMENT", "FORSTAT"),
    ("STATEMENT", "lbrace STATELIST rbrace"),
    ("STATEMENT", "kw_break semicolon"),
    ("STATEMENT", "semicolon"),
    ("VARDECL", "var_type id CONST_INDEX"),
    ("CONST_INDEX", "lbracket const_int rbracket CONST_INDEX"),
    ("CONST_INDEX", ""),
    ("VAR_INDEX", "lbracket NUMEXPRESSION rbracket VAR_INDEX"),
    ("VAR_INDEX", ""),
    ("ATRIBSTAT", "LVALUE op_assign ATRIBSTATEVALUE"),
    ("ATRIBSTATEVALUE", "EXPRESSION"),
    ("ATRIBSTATEVALUE", "ALLOCEXPRESSION"),
    ("ATRIBSTATEVALUE", "FUNCCALL"),
    ("FUNCCALL", "func_id lparenthesis PARAMLISTCALL rparenthesis"),
    ("PARAMLISTCALL", "id PARAMLISTCALL1"),
    ("PARAMLISTCALL", ""),
    ("PARAMLISTCALL1", "comma id PARAMLISTCALL1"),
    ("PARAMLISTCALL1", ""),
    ("PRINTSTAT", "kw_print EXPRESSION"),
    ("READSTAT", "kw_read LVALUE"),
    ("RETURNSTAT", "kw_return"),
    ("IFSTAT", "kw_if lparenthesis EXPRESSION rparenthesis lbrace STATELIST rbrace ELSESTAT"),
    ("ELSESTAT", "kw_else ELSESTAT1"),
    ("ELSESTAT", ""),
    ("ELSESTAT1", "lbrace STATELIST rbrace"),
    ("ELSESTAT1", "IFSTAT"),
    (
        "FORSTAT",
        "kw_for lparenthesis ATRIBSTAT semicolon EXPRESSION semicolon ATRIBSTAT rparenthesis lbrace STATELIST rbrace",
    ),
    ("ALLOCEXPRESSION", "kw_new var_type VAR_INDEX"),
    ("EXPRESSION", "NUMEXPRESSION EXPRESSION1"),
    ("EXPRESSION1", "OP_EXPRESSION NUMEXPRESSION"),
    ("EXPRESSION1", ""),
    ("NUMEXPRESSION", "TERM NUMEXPRESSION1"),
    ("NUMEXPRESSION1", "OP_NUMEXPRESSION TERM NUMEXPRESSION1"),
    ("NUMEXPRESSION1", ""),
    ("TERM", "UNARYEXPRESSION TERM1"),
    ("TERM1", "OP_TERM UNARYEXPRESSION TERM1"),
    ("TERM1", ""),
    ("UNARYEXPRESSION", "FACTOR"),
    ("UNARYEXPRESSION", "OP_NUMEXPRESSION FACTOR"),
    ("FACTOR", "lparenthesis EXPRESSION rparenthesis"),
    ("FACTOR", "LVALUE"),
    ("FACTOR", "CONSTANT"),
    ("LVALUE", "id VAR_INDEX"),
    ("CONSTANT", "const_int"),
    ("CONSTANT", "const_float"),
    ("CONSTANT", "const_string"),
    ("CONSTANT", "const_null"),
    ("OP_EXPRESSION", "op_eq"),
    ("OP_EXPRESSION", "op_ne"),
    ("OP_EXPRESSION", "op_gt"),
    ("OP_EXPRESSION", "op_ge"),
    ("OP_EXPRESSION", "op_lt"),
    ("OP_EXPRESSION", "op_le"),
    ("OP_NUMEXPRESSION", "op_plus"),
    ("OP_NUMEXPRESSION", "op_minus"),
    ("OP_TERM", "op_multiply"),
    ("OP_TERM", "op_division"),
    ("OP_TERM", "op_modular"),
];

const STATEMENT_START: &str =
    "var_type id kw_print kw_read kw_return kw_if kw_for lbrace kw_break semicolon";
const COMPARISONS: &str = "op_eq op_ne op_gt op_ge op_lt op_le";
const EXPRESSION_START: &str =
    "lparenthesis id const_int const_float const_string const_null op_plus op_minus";
const FACTOR_START: &str = "lparenthesis id const_int const_float const_string const_null";

fn table_lines() -> Vec<(&'static str, String, u32)> {
    let after_numexpression = format!("{} semicolon rparenthesis rbracket", COMPARISONS);
    let after_term = format!("op_plus op_minus {}", after_numexpression);
    let after_factor = format!("op_multiply op_division op_modular {}", after_term);
    vec![
        ("PROGRAM", "kw_def eof".to_string(), 0),
        ("PROGRAM", STATEMENT_START.to_string(), 1),
        ("FUNCLIST", "kw_def".to_string(), 2),
        ("FUNCLIST", "eof".to_string(), 3),
        ("FUNCDEF", "kw_def".to_string(), 4),
        ("PARAMLIST", "var_type".to_string(), 5),
        ("PARAMLIST", "rparenthesis".to_string(), 6),
        ("PARAMLIST1", "comma".to_string(), 7),
        ("PARAMLIST1", "rparenthesis".to_string(), 8),
        ("STATELIST", STATEMENT_START.to_string(), 9),
        ("STATELIST1", STATEMENT_START.to_string(), 10),
        ("STATELIST1", "rbrace".to_string(), 11),
        ("STATEMENT", "var_type".to_string(), 12),
        ("STATEMENT", "id".to_string(), 13),
        ("STATEMENT", "kw_print".to_string(), 14),
        ("STATEMENT", "kw_read".to_string(), 15),
        ("STATEMENT", "kw_return".to_string(), 16),
        ("STATEMENT", "kw_if".to_string(), 17),
        ("STATEMENT", "kw_for".to_string(), 18),
        ("STATEMENT", "lbrace".to_string(), 19),
        ("STATEMENT", "kw_break".to_string(), 20),
        ("STATEMENT", "semicolon".to_string(), 21),
        ("VARDECL", "var_type".to_string(), 22),
        ("CONST_INDEX", "lbracket".to_string(), 23),
        ("CONST_INDEX", "semicolon".to_string(), 24),
        ("VAR_INDEX", "lbracket".to_string(), 25),
        ("VAR_INDEX", format!("op_assign {}", after_factor), 26),
        ("ATRIBSTAT", "id".to_string(), 27),
        ("ATRIBSTATEVALUE", EXPRESSION_START.to_string(), 28),
        ("ATRIBSTATEVALUE", "kw_new".to_string(), 29),
        ("ATRIBSTATEVALUE", "func_id".to_string(), 30),
        ("FUNCCALL", "func_id".to_string(), 31),
        ("PARAMLISTCALL", "id".to_string(), 32),
        ("PARAMLISTCALL", "rparenthesis".to_string(), 33),
        ("PARAMLISTCALL1", "comma".to_string(), 34),
        ("PARAMLISTCALL1", "rparenthesis".to_string(), 35),
        ("PRINTSTAT", "kw_print".to_string(), 36),
        ("READSTAT", "kw_read".to_string(), 37),
        ("RETURNSTAT", "kw_return".to_string(), 38),
        ("IFSTAT", "kw_if".to_string(), 39),
        ("ELSESTAT", "kw_else".to_string(), 40),
        ("ELSESTAT", format!("{} rbrace eof", STATEMENT_START), 41),
        ("ELSESTAT1", "lbrace".to_string(), 42),
        ("ELSESTAT1", "kw_if".to_string(), 43),
        ("FORSTAT", "kw_for".to_string(), 44),
        ("ALLOCEXPRESSION", "kw_new".to_string(), 45),
        ("EXPRESSION", EXPRESSION_START.to_string(), 46),
        ("EXPRESSION1", COMPARISONS.to_string(), 47),
        ("EXPRESSION1", "semicolon rparenthesis".to_string(), 48),
        ("NUMEXPRESSION", EXPRESSION_START.to_string(), 49),
        ("NUMEXPRESSION1", "op_plus op_minus".to_string(), 50),
        ("NUMEXPRESSION1", after_numexpression.clone(), 51),
        ("TERM", EXPRESSION_START.to_string(), 52),
        (
            "TERM1",
            "op_multiply op_division op_modular".to_string(),
            53,
        ),
        ("TERM1", after_term.clone(), 54),
        ("UNARYEXPRESSION", FACTOR_START.to_string(), 55),
        ("UNARYEXPRESSION", "op_plus op_minus".to_string(), 56),
        ("FACTOR", "lparenthesis".to_string(), 57),
        ("FACTOR", "id".to_string(), 58),
        (
            "FACTOR",
            "const_int const_float const_string const_null".to_string(),
            59,
        ),
        ("LVALUE", "id".to_string(), 60),
        ("CONSTANT", "const_int".to_string(), 61),
        ("CONSTANT", "const_float".to_string(), 62),
        ("CONSTANT", "const_string".to_string(), 63),
        ("CONSTANT", "const_null".to_string(), 64),
        ("OP_EXPRESSION", "op_eq".to_string(), 65),
        ("OP_EXPRESSION", "op_ne".to_string(), 66),
        ("OP_EXPRESSION", "op_gt".to_string(), 67),
        ("OP_EXPRESSION", "op_ge".to_string(), 68),
        ("OP_EXPRESSION", "op_lt".to_string(), 69),
        ("OP_EXPRESSION", "op_le".to_string(), 70),
        ("OP_NUMEXPRESSION", "op_plus".to_string(), 71),
        ("OP_NUMEXPRESSION", "op_minus".to_string(), 72),
        ("OP_TERM", "op_multiply".to_string(), 73),
        ("OP_TERM", "op_division".to_string(), 74),
        ("OP_TERM", "op_modular".to_string(), 75),
    ]
}

fn symbol(name: &str) -> Symbol {
    match TokenType::from_str(name) {
        Ok(token_type) => Symbol::Terminal(token_type),
        Err(_) => Symbol::NonTerminal(NonTerminal::from_char(name).unwrap()),
    }
}

fn language() -> Grammar {
    let mut rules = Vec::new();
    for (head, body) in RULES {
        let head = NonTerminal::from_char(head).unwrap();
        let body = if body.is_empty() {
            None
        } else {
            Some(body.split_whitespace().map(symbol).collect())
        };
        rules.push(Rule { head, body });
    }
    let mut table = ParseTable::new();
    for (head, lookaheads, rule) in table_lines() {
        let head = NonTerminal::from_char(head).unwrap();
        assert_eq!(rules[rule as usize].head, head);
        for lookahead in lookaheads.split_whitespace() {
            let previous = table.insert(head, TokenType::from_str(lookahead).unwrap(), rule);
            assert_eq!(previous, None);
        }
    }
    Grammar::new(rules, table).unwrap()
}

fn keyword(word: &str) -> Option<(TokenType, Option<ConstType>)> {
    Some(match word {
        "def" => (TokenType::KwDef, None),
        "if" => (TokenType::KwIf, None),
        "else" => (TokenType::KwElse, None),
        "for" => (TokenType::KwFor, None),
        "break" => (TokenType::KwBreak, None),
        "return" => (TokenType::KwReturn, None),
        "print" => (TokenType::KwPrint, None),
        "read" => (TokenType::KwRead, None),
        "new" => (TokenType::KwNew, None),
        "null" => (TokenType::ConstNull, None),
        "int" => (TokenType::VarType, Some(ConstType::VarType(VarType::Int))),
        "float" => (TokenType::VarType, Some(ConstType::VarType(VarType::Float))),
        "string" => (
            TokenType::VarType,
            Some(ConstType::VarType(VarType::String)),
        ),
        _ => return None,
    })
}

fn punctuation(text: &str) -> Option<TokenType> {
    Some(match text {
        "," => TokenType::Comma,
        ";" => TokenType::Semicolon,
        "{" => TokenType::Lbrace,
        "}" => TokenType::Rbrace,
        "[" => TokenType::Lbracket,
        "]" => TokenType::Rbracket,
        "(" => TokenType::Lparenthesis,
        ")" => TokenType::Rparenthesis,
        "=" => TokenType::OpAssign,
        "==" => TokenType::OpEq,
        "!=" => TokenType::OpNe,
        ">=" => TokenType::OpGe,
        "<=" => TokenType::OpLe,
        ">" => TokenType::OpGt,
        "<" => TokenType::OpLt,
        "+" => TokenType::OpPlus,
        "-" => TokenType::OpMinus,
        "*" => TokenType::OpMultiply,
        "/" => TokenType::OpDivision,
        "%" => TokenType::OpModular,
        _ => return None,
    })
}

/// Splits a source text into tokens. Names of functions start with `@`.
fn tokens(source: &str) -> Vec<Token> {
    let chars: Vec<char> = source.chars().collect();
    let mut out = Vec::new();
    let (mut i, mut line, mut column) = (0, 1, 1);
    while i < chars.len() {
        let c = chars[i];
        if c == '\n' {
            line += 1;
            column = 1;
            i += 1;
            continue;
        }
        if c.is_whitespace() {
            column += 1;
            i += 1;
            continue;
        }
        let start = i;
        let (token_type, value) = if c.is_alphabetic() || c == '@' {
            i += 1;
            while i < chars.len() && (chars[i].is_alphanumeric() || chars[i] == '_') {
                i += 1;
            }
            let word: String = chars[start..i].iter().collect();
            match keyword(&word) {
                Some(found) => found,
                None if c == '@' => (TokenType::FuncId, Some(ConstType::String(word))),
                None => (TokenType::Id, Some(ConstType::String(word))),
            }
        } else if c.is_ascii_digit() {
            while i < chars.len() && (chars[i].is_ascii_digit() || chars[i] == '.') {
                i += 1;
            }
            let word: String = chars[start..i].iter().collect();
            match word.parse::<i64>() {
                Ok(n) => (TokenType::ConstInt, Some(ConstType::Int(n))),
                Err(_) => (TokenType::ConstFloat, Some(ConstType::Float(word))),
            }
        } else if c == '"' {
            i += 1;
            while chars[i] != '"' {
                i += 1;
            }
            i += 1;
            let word: String = chars[start..i].iter().collect();
            (TokenType::ConstString, Some(ConstType::String(word)))
        } else {
            let two: String = chars[start..(start + 2).min(chars.len())].iter().collect();
            match punctuation(&two) {
                Some(found) => {
                    i += 2;
                    (found, None)
                }
                None => {
                    i += 1;
                    (punctuation(&c.to_string()).unwrap(), None)
                }
            }
        };
        out.push(Token {
            token_type,
            value,
            line,
            column,
        });
        column += i - start;
    }
    out.push(Token {
        token_type: TokenType::Eof,
        value: None,
        line,
        column,
    });
    out
}

fn parse(source: &str) -> Result<SyntaxTree, SyntaxError> {
    let mut tree = SyntaxTree::from_grammar(language());
    tree.parse(&tokens(source))?;
    Ok(tree)
}

fn ast(source: &str) -> SemanticTree {
    parse(source).unwrap().semantic_tree().unwrap()
}

fn analyse(source: &str) -> (Result<(), SemanticError>, SemanticTree) {
    let mut tree = ast(source);
    let result = tree.semantic_analysis();
    (result, tree)
}

fn kinds(scopes: &ScopeStack) -> Vec<ScopeType> {
    scopes.stack.iter().map(|scope| scope.kind).collect()
}

fn code(source: &str) -> String {
    let (result, tree) = analyse(source);
    assert_eq!(result, Ok(()));
    tree.generate_code().unwrap()
}

fn leaves(node: &Node, out: &mut Vec<TokenType>) {
    if let toy_compiler::syntax::Symbol::Terminal(token_type, token) = &node.value {
        assert_eq!(token.as_ref().unwrap().token_type, *token_type);
        out.push(*token_type);
    }
    for child in &node.children {
        leaves(child, out);
    }
}

#[test]
fn parser_consumes_the_whole_input() {
    let source = "def @f(int a, int b) { int x; x = a + b; return; } def @g() { print 1; }";
    let all = tokens(source);
    let grammar = language();
    let mut root = Node::new(toy_compiler::syntax::Symbol::NonTerminal(
        NonTerminal::Program,
    ));
    let mut index = 0;
    assert_eq!(root.parse(&grammar, &all, &mut index), Ok(()));
    assert_eq!(index, all.len());
    let mut found = Vec::new();
    leaves(&root, &mut found);
    let expected: Vec<TokenType> = all.iter().map(|token| token.token_type).collect();
    assert_eq!(found, expected);
}

#[test]
fn parser_fails_fast_on_the_first_token() {
    let all = tokens("\n\n   ) int x;");
    let mut tree = SyntaxTree::from_grammar(language());
    let error = tree.parse(&all).unwrap_err();
    assert_eq!(
        error.kind,
        SyntaxErrorKind::NoRule {
            non_terminal: NonTerminal::Program
        }
    );
    assert_eq!((error.line, error.column), (3, 4));
    assert_eq!(error.found, Some(all[0].clone()));
    assert_eq!(
        error.message(),
        "Erro sintático: token inesperado encontrado na linha 3, coluna 4: )"
    );
    assert!(tree.get_root().children.is_empty());
}

#[test]
fn parser_reports_the_expected_terminal() {
    let error = parse("def\n f() { ; }").unwrap_err();
    assert_eq!(
        error.kind,
        SyntaxErrorKind::UnexpectedToken {
            expected: TokenType::FuncId
        }
    );
    assert_eq!((error.line, error.column), (2, 2));
    assert_eq!(
        error.message(),
        "Erro sintático: esperava FuncId, mas encontrou id na linha 2, coluna 2"
    );
    let error = parse("{ int x }").unwrap_err();
    assert_eq!(
        error.kind,
        SyntaxErrorKind::NoRule {
            non_terminal: NonTerminal::ConstIndex
        }
    );
    assert_eq!((error.line, error.column), (1, 9));
}

#[test]
fn parser_reports_the_end_of_the_input() {
    let mut all = tokens("{ int x; }");
    all.pop();
    let mut tree = SyntaxTree::from_grammar(language());
    let error = tree.parse(&all).unwrap_err();
    assert_eq!(error.kind, SyntaxErrorKind::EndOfInput);
    assert_eq!(error.found, None);
    assert_eq!((error.line, error.column), (1, 10));
    assert_eq!(
        error.message(),
        "Erro sintático: fim inesperado da entrada na linha 1, coluna 10"
    );
    let error = tree.parse(&Vec::new()).unwrap_err();
    assert_eq!(
        (error.kind, error.line, error.column),
        (SyntaxErrorKind::EndOfInput, 0, 0)
    );
}

#[test]
fn parser_refuses_a_left_recursive_table() {
    let rules = vec![
        Rule {
            head: NonTerminal::Program,
            body: Some(vec![Symbol::NonTerminal(NonTerminal::Funclist)]),
        },
        Rule {
            head: NonTerminal::Funclist,
            body: Some(vec![
                Symbol::NonTerminal(NonTerminal::Program),
                Symbol::Terminal(TokenType::Eof),
            ]),
        },
    ];
    let mut table = ParseTable::new();
    table.insert(NonTerminal::Program, TokenType::Semicolon, 0);
    table.insert(NonTerminal::Funclist, TokenType::Semicolon, 1);
    let mut tree = SyntaxTree::from_grammar(Grammar::new(rules, table).unwrap());
    let error = tree.parse(&tokens(";")).unwrap_err();
    assert_eq!(
        error.kind,
        SyntaxErrorKind::LeftRecursion {
            non_terminal: NonTerminal::Program
        }
    );
    assert_eq!((error.line, error.column), (1, 1));
    assert_eq!(
        error.message(),
        "Erro sintático: a gramática expande Program sem consumir tokens na linha 1, coluna 1"
    );
}

#[test]
fn parser_allows_a_vanishing_symbol_twice_in_a_row() {
    let rules = vec![
        Rule {
            head: NonTerminal::Program,
            body: Some(vec![
                Symbol::NonTerminal(NonTerminal::Funclist),
                Symbol::NonTerminal(NonTerminal::Funclist),
                Symbol::Terminal(TokenType::Eof),
            ]),
        },
        Rule {
            head: NonTerminal::Funclist,
            body: None,
        },
    ];
    let mut table = ParseTable::new();
    table.insert(NonTerminal::Program, TokenType::Eof, 0);
    table.insert(NonTerminal::Funclist, TokenType::Eof, 1);
    let mut tree = SyntaxTree::from_grammar(Grammar::new(rules, table).unwrap());
    assert_eq!(tree.parse(&tokens("")), Ok(()));
    assert_eq!(tree.get_root().children.len(), 3);
}

fn data(node: &SemanticNode) -> &SemanticNodeData {
    &node.children
}

/// Renders the operator nesting of an expression tree with brackets.
fn nesting(node: &SemanticNode) -> String {
    match data(node) {
        SemanticNodeData::Expression {
            numexpression,
            op_expression,
            numexpression2,
        } => match (op_expression, numexpression2) {
            (Some(op), Some(right)) => {
                format!(
                    "({} {} {})",
                    nesting(numexpression),
                    nesting(op),
                    nesting(right)
                )
            }
            _ => nesting(numexpression),
        },
        SemanticNodeData::Numexpression {
            term,
            op_numexpression,
            term2,
        } => match (op_numexpression, term2) {
            (Some(op), Some(right)) => {
                format!("({} {} {})", nesting(term), nesting(op), nesting(right))
            }
            _ => nesting(term),
        },
        SemanticNodeData::Term {
            unaryexpression,
            op_term,
            unaryexpression2,
        } => match (op_term, unaryexpression2) {
            (Some(op), Some(right)) => {
                format!(
                    "({} {} {})",
                    nesting(unaryexpression),
                    nesting(op),
                    nesting(right)
                )
            }
            _ => nesting(unaryexpression),
        },
        SemanticNodeData::Unaryexpression { op, factor } => match op {
            Some(op) => format!("({} {})", nesting(op), nesting(factor)),
            None => nesting(factor),
        },
        SemanticNodeData::Factor {
            expression,
            lvalue,
            constant,
        } => nesting(
            expression
                .as_ref()
                .or(lvalue.as_ref())
                .or(constant.as_ref())
                .unwrap(),
        ),
        SemanticNodeData::Lvalue { id, .. } => nesting(id),
        SemanticNodeData::Constant { value, .. } => value.to_string(),
        SemanticNodeData::Terminal { value } => value.to_string(),
        SemanticNodeData::OpExpression { op }
        | SemanticNodeData::OpNumexpression { op }
        | SemanticNodeData::OpTerm { op } => op.to_string(),
        other => panic!("not an expression: {:?}", other),
    }
}

fn assigned_expression(source: &str) -> String {
    let tree = ast(source);
    let SemanticNodeData::Program {
        statement: Some(statement),
        ..
    } = data(&tree.root)
    else {
        panic!()
    };
    let SemanticNodeData::Statement {
        atribstat: Some(atribstat),
        ..
    } = data(statement)
    else {
        panic!()
    };
    let SemanticNodeData::Atribstat { value, .. } = data(atribstat) else {
        panic!()
    };
    let SemanticNodeData::Atribstatevalue {
        expression: Some(expression),
        ..
    } = data(value)
    else {
        panic!()
    };
    nesting(expression)
}

#[test]
fn sums_fold_to_the_left() {
    assert_eq!(assigned_expression("x = 1 + 2 + 3;"), "((1 + 2) + 3)");
    assert_eq!(
        assigned_expression("x = 1 - 2 - 3 - 4;"),
        "(((1 - 2) - 3) - 4)"
    );
}

#[test]
fn products_fold_to_the_left_and_bind_tighter() {
    assert_eq!(assigned_expression("x = a / b * c;"), "((a / b) * c)");
    assert_eq!(
        assigned_expression("x = 1 + 2 * 3 % 4 - 5;"),
        "((1 + ((2 * 3) % 4)) - 5)"
    );
    assert_eq!(
        assigned_expression("x = (1 + 2) * -y < 3;"),
        "(((1 + 2) * (- y)) < 3)"
    );
}

#[test]
fn single_operands_are_wrapped_by_their_own_tag() {
    let tree = ast("x = 7;");
    let SemanticNodeData::Program {
        statement: Some(statement),
        funclist: None,
    } = data(&tree.root)
    else {
        panic!()
    };
    let SemanticNodeData::Statement {
        atribstat: Some(atribstat),
        ..
    } = data(statement)
    else {
        panic!()
    };
    let SemanticNodeData::Atribstat { lvalue, value } = data(atribstat) else {
        panic!()
    };
    let SemanticNodeData::Lvalue {
        var_index: None, ..
    } = data(lvalue)
    else {
        panic!()
    };
    let SemanticNodeData::Atribstatevalue {
        expression: Some(expression),
        ..
    } = data(value)
    else {
        panic!()
    };
    let SemanticNodeData::Expression {
        numexpression,
        op_expression: None,
        numexpression2: None,
    } = data(expression)
    else {
        panic!()
    };
    let SemanticNodeData::Numexpression {
        term,
        op_numexpression: None,
        term2: None,
    } = data(numexpression)
    else {
        panic!()
    };
    let SemanticNodeData::Term {
        unaryexpression,
        op_term: None,
        unaryexpression2: None,
    } = data(term)
    else {
        panic!()
    };
    let SemanticNodeData::Unaryexpression { op: None, factor } = data(unaryexpression) else {
        panic!()
    };
    let SemanticNodeData::Factor {
        constant: Some(constant),
        expression: None,
        lvalue: None,
    } = data(factor)
    else {
        panic!()
    };
    assert_eq!(
        *data(constant),
        SemanticNodeData::Constant {
            value: ConstType::Int(7),
            line: 1,
            column: 5
        }
    );
}

#[test]
fn lists_keep_the_source_order_and_absent_parts_are_absent() {
    let tree = ast("def @f(int a, string b) { ; } def @g() { return; }");
    let SemanticNodeData::Program {
        funclist: Some(funclist),
        statement: None,
    } = data(&tree.root)
    else {
        panic!()
    };
    let SemanticNodeData::Funclist { funclist } = data(funclist) else {
        panic!()
    };
    assert_eq!(funclist.len(), 2);
    let SemanticNodeData::Funcdef {
        func_id,
        paramlist: Some(paramlist),
        ..
    } = data(&funclist[0])
    else {
        panic!()
    };
    assert_eq!(nesting(func_id), "@f");
    let SemanticNodeData::Paramlist { paramlist } = data(paramlist) else {
        panic!()
    };
    let names: Vec<String> = paramlist.iter().map(nesting).collect();
    assert_eq!(names, ["int", "a", "string", "b"]);
    let SemanticNodeData::Funcdef {
        paramlist: None,
        statelist,
        ..
    } = data(&funclist[1])
    else {
        panic!()
    };
    let SemanticNodeData::Statelist { statelist } = data(statelist) else {
        panic!()
    };
    assert_eq!(statelist.len(), 1);
}

#[test]
fn untouched_parse_tree_has_no_abstract_syntax_tree() {
    let tree = SyntaxTree::from_grammar(language());
    assert_eq!(tree.semantic_tree().unwrap_err(), TreeError::Malformed);
    let unmatched = Node::new(toy_compiler::syntax::Symbol::Terminal(TokenType::Id, None));
    assert_eq!(unmatched.visit(None), None);
}

#[test]
fn analysis_leaves_the_scope_stack_as_it_found_it() {
    let source = "def @f(int a) { int i; for (i = 0; i < a; i = i + 1) { if (i == 2) { break; } else { { int a; a = 1; } } } return; }";
    let (result, tree) = analyse(source);
    assert_eq!(result, Ok(()));
    assert_eq!(kinds(&tree.scopes), [ScopeType::Any]);
}

#[test]
fn failed_analysis_keeps_the_scopes_that_were_open() {
    let (result, tree) = analyse("def @f() { for (i = 0; i < 1; i = i + 1) { ; } }");
    assert_eq!(
        result.unwrap_err().kind(),
        SemanticErrorKind::UndeclaredSymbol
    );
    assert_eq!(
        kinds(&tree.scopes),
        [ScopeType::Any, ScopeType::Function, ScopeType::LoopInit]
    );
    let (result, tree) = analyse("{ int x; if (x == 1) { ; } else { y = 1; } }");
    assert_eq!(
        result.unwrap_err().kind(),
        SemanticErrorKind::UndeclaredSymbol
    );
    assert_eq!(
        kinds(&tree.scopes),
        [ScopeType::Any, ScopeType::Any, ScopeType::Else]
    );
    assert_eq!(tree.scopes.closed.len(), 1);
    assert_eq!(tree.scopes.closed[0].kind, ScopeType::If);
    let (result, tree) = analyse("{ int x; if (x == 1) { ; } else { { { y = 1; } } } }");
    assert_eq!(
        result.unwrap_err().kind(),
        SemanticErrorKind::UndeclaredSymbol
    );
    assert_eq!(
        kinds(&tree.scopes),
        [
            ScopeType::Any,
            ScopeType::Any,
            ScopeType::Else,
            ScopeType::Any,
            ScopeType::Any
        ]
    );
}

#[test]
fn redefinition_in_one_block_is_refused() {
    let (result, _) = analyse("{ int x; int x; }");
    let error = result.unwrap_err();
    assert_eq!(
        error,
        SemanticError::Redefinition {
            name: "x".to_string(),
            line: 1,
            column: 14
        }
    );
    assert_eq!(error.kind(), SemanticErrorKind::Redefinition);
    assert_eq!(error.position(), Some((1, 14)));
    assert_eq!(
        error.message(),
        "Erro semântico: Redefinição de símbolo na linha 1, coluna 14: 'x'"
    );
}

#[test]
fn redefinition_in_a_nested_block_shadows() {
    let (result, _) = analyse("{ int x; { string x; x = \"a\"; } x = 1; }");
    assert_eq!(result, Ok(()));
}

#[test]
fn parameters_and_functions_are_declarations() {
    let (result, _) = analyse("def @f(int a, int a) { ; }");
    assert_eq!(
        result,
        Err(SemanticError::Redefinition {
            name: "a".to_string(),
            line: 1,
            column: 19
        })
    );
    let (result, _) = analyse("def @f() { ; } def @f() { ; }");
    assert_eq!(
        result,
        Err(SemanticError::Redefinition {
            name: "@f".to_string(),
            line: 1,
            column: 20
        })
    );
    let (result, _) = analyse("def @f(int a) { int a; }");
    assert_eq!(
        result,
        Err(SemanticError::Redefinition {
            name: "a".to_string(),
            line: 1,
            column: 21
        })
    );
}

#[test]
fn break_needs_a_loop() {
    let (result, _) = analyse("def @f() { break; }");
    let error = result.unwrap_err();
    assert_eq!(
        error,
        SemanticError::IllegalBreak {
            line: 1,
            column: 12
        }
    );
    assert_eq!(error.kind(), SemanticErrorKind::IllegalBreak);
    assert_eq!(
        error.message(),
        "Erro semântico: Comando 'break' fora de um laço de repetição na linha 1 coluna 12"
    );
    let (result, _) = analyse(
        "def @f() { int i; for (i = 0; i < 3; i = i + 1) { if (i == 1) { { { break; } } } } }",
    );
    assert_eq!(result, Ok(()));
}

#[test]
fn return_needs_a_function() {
    let (result, _) = analyse("{ return; }");
    let error = result.unwrap_err();
    assert_eq!(error, SemanticError::IllegalReturn { line: 1, column: 3 });
    assert_eq!(error.kind(), SemanticErrorKind::IllegalReturn);
    assert_eq!(
        error.message(),
        "Erro semântico: Comando 'return' fora de uma função na linha 1 coluna 3"
    );
    let (result, _) = analyse("def @f() { { if (1 == 1) { return; } } }");
    assert_eq!(result, Ok(()));
}

#[test]
fn assignment_needs_equal_types() {
    let (result, _) = analyse("{ int x; x = \"a\"; }");
    let error = result.unwrap_err();
    assert_eq!(
        error,
        SemanticError::AssignmentMismatch {
            name: "x".to_string(),
            line: 1,
            column: 14
        }
    );
    assert_eq!(error.kind(), SemanticErrorKind::TypeMismatch);
    assert_eq!(
        error.message(),
        "Erro semântico: tipo incompatível na atribuição de 'x' na linha 1 coluna 14"
    );
    let (result, _) = analyse("{ string s; s = \"a\"; }");
    assert_eq!(result, Ok(()));
}

#[test]
fn operands_need_equal_types() {
    let (result, _) = analyse("{ int x; x = 1 + 2.5; }");
    assert_eq!(
        result,
        Err(SemanticError::NumericMismatch {
            line: 1,
            column: 18
        })
    );
    let (result, _) = analyse("{ int x; x = 1 * \"a\"; }");
    let error = result.unwrap_err();
    assert_eq!(
        error,
        SemanticError::NumericMismatch {
            line: 1,
            column: 18
        }
    );
    assert_eq!(
        error.message(),
        "Erro semântico: tipos incompatíveis na expressão numérica na linha 1 coluna 18"
    );
    let (result, _) = analyse("{ int x; x = 1 < \"a\"; }");
    let error = result.unwrap_err();
    assert_eq!(
        error,
        SemanticError::ExpressionMismatch {
            line: 1,
            column: 18
        }
    );
    assert_eq!(
        error.message(),
        "Erro semântico: Tipos incompátiveis na expressão na linha 1 coluna 18"
    );
}

#[test]
fn comparison_is_an_integer() {
    let (result, _) = analyse("{ int x; x = \"a\" == \"b\"; }");
    assert_eq!(result, Ok(()));
    let (result, _) = analyse("{ string s; s = \"a\" == \"b\"; }");
    assert_eq!(result.unwrap_err().kind(), SemanticErrorKind::TypeMismatch);
    let (result, _) = analyse("{ float f; f = 1.5 + 2.5; }");
    assert_eq!(result, Ok(()));
}

#[test]
fn uses_need_a_declaration_and_are_recorded() {
    let (result, _) = analyse("{ x = 1; }");
    let error = result.unwrap_err();
    assert_eq!(
        error,
        SemanticError::SymbolNotFound {
            name: "x".to_string(),
            line: 1,
            column: 3
        }
    );
    assert_eq!(error.kind(), SemanticErrorKind::UndeclaredSymbol);
    assert_eq!(
        error.message(),
        "Erro semântico: Símbolo não encontrado na linha 1, coluna 3: x"
    );
    let mut tree = ast("x = x + 1;");
    tree.scopes = ScopeStack::new();
    let entry = toy_compiler::scope_stack::SymbolEntry {
        appearances: vec![(0, 0)],
        var_type: vec![VarType::Int],
        const_index: vec![],
        is_function: false,
    };
    assert_eq!(tree.scopes.insert_symbol("x".to_string(), entry), Ok(()));
    assert_eq!(tree.semantic_analysis(), Ok(()));
    let entry = tree.scopes.get_symbol("x").unwrap();
    assert_eq!(entry.appearances, [(0, 0), (1, 1), (1, 5)]);
}

#[test]
fn index_must_be_an_integer() {
    let (result, _) = analyse("{ int x[3]; x[1.5] = 1; }");
    let error = result.unwrap_err();
    assert_eq!(
        error,
        SemanticError::IndexNotInt {
            found: VarType::Float,
            line: 1,
            column: 15
        }
    );
    assert_eq!(error.kind(), SemanticErrorKind::TypeMismatch);
    assert_eq!(
        error.message(),
        "Erro semântico: índice de variável deve ser do tipo 'int', encontrado 'Float' na linha 1, coluna 15"
    );
    let (result, tree) = analyse("{ int x[3][4]; int i; x[i][2] = 1; x = new int[i][2]; }");
    assert_eq!(result, Ok(()));
    assert_eq!(kinds(&tree.scopes), [ScopeType::Any]);
}

#[test]
fn declaration_records_type_and_bounds() {
    let mut tree = ast("int x[3][4];");
    assert_eq!(tree.semantic_analysis(), Ok(()));
    let entry = tree.scopes.get_symbol("x").unwrap();
    assert_eq!(entry.appearances, [(1, 5)]);
    assert_eq!(entry.var_type, [VarType::Int]);
    assert_eq!(entry.const_index, [3, 4]);
}

#[test]
fn calls_are_checked_against_the_parameters() {
    let program = |call: &str| {
        format!(
            "def @f(int a, string b) {{ ; }} def @g() {{ int i; string s; float x; {} }}",
            call
        )
    };
    let (result, _) = analyse(&program("i = @f(i, s);"));
    assert_eq!(result, Ok(()));
    let (result, _) = analyse(&program("i = @f(s, i);"));
    let error = result.unwrap_err();
    assert_eq!(error.kind(), SemanticErrorKind::TypeMismatch);
    assert_eq!(
        error.message(),
        "Erro semântico: tipos de parâmetros incompatíveis na chamada da função '@f' na linha 1, coluna 72"
    );
    let (result, _) = analyse(&program("i = @f(i);"));
    assert_eq!(
        result,
        Err(SemanticError::ArgumentMismatch {
            name: "@f".to_string(),
            line: 1,
            column: 72
        })
    );
    let (result, _) = analyse(&program("i = @f(i, z);"));
    let error = result.unwrap_err();
    assert_eq!(
        error,
        SemanticError::UndefinedArgument {
            name: "z".to_string(),
            line: 1,
            column: 78
        }
    );
    assert_eq!(
        error.message(),
        "Erro semântico: variável 'z' não definida no escopo atual na linha 1, coluna 78"
    );
    let (result, _) = analyse(&program("i = @h();"));
    let error = result.unwrap_err();
    assert_eq!(
        error,
        SemanticError::UndefinedFunction {
            name: "@h".to_string(),
            line: 1,
            column: 72
        }
    );
    assert_eq!(error.kind(), SemanticErrorKind::UndeclaredSymbol);
    assert_eq!(
        error.message(),
        "Erro Semântico: função '@h' não definida nesse escopo na linha 1, coluna 72"
    );
    let (result, _) = analyse(&program("s = @f(i, s);"));
    assert_eq!(result.unwrap_err().kind(), SemanticErrorKind::TypeMismatch);
}

#[test]
fn read_needs_a_string() {
    let (result, _) = analyse("{ string s; read s; }");
    assert_eq!(result, Ok(()));
    let (result, _) = analyse("{ int i; read i; }");
    let error = result.unwrap_err();
    assert_eq!(
        error,
        SemanticError::ReadNotString {
            found: VarType::Int,
            line: 1,
            column: 15
        }
    );
    assert_eq!(
        error.message(),
        "Erro semântico: comando Read deve atribuir valor a uma variável de tipo string, mas tipo Int foi encontrado na linha 1 coluna 15"
    );
}

fn terminal(token_type: TokenType, value: Option<ConstType>) -> SemanticNode {
    SemanticNode {
        children: SemanticNodeData::Terminal {
            value: Token {
                token_type,
                value,
                line: 2,
                column: 3,
            },
        },
    }
}

#[test]
fn function_names_are_no_values() {
    let mut scopes = ScopeStack::new();
    let function = |types: Vec<VarType>| toy_compiler::scope_stack::SymbolEntry {
        appearances: vec![(1, 1)],
        var_type: types,
        const_index: vec![],
        is_function: true,
    };
    scopes
        .insert_symbol("f".to_string(), function(vec![]))
        .unwrap();
    scopes
        .insert_symbol("h".to_string(), function(vec![VarType::Int]))
        .unwrap();
    scopes
        .insert_symbol("g".to_string(), function(vec![VarType::Int, VarType::Int]))
        .unwrap();
    let use_of_f = terminal(TokenType::Id, Some(ConstType::String("f".to_string())));
    let error = use_of_f.semantic_analysis(&mut scopes).unwrap_err();
    assert_eq!(
        error,
        SemanticError::FunctionAsValue {
            name: "f".to_string(),
            line: 2,
            column: 3
        }
    );
    assert_eq!(error.kind(), SemanticErrorKind::TypeMismatch);
    assert_eq!(
        error.message(),
        "Erro semântico: função 'f' usada como variável na linha 2, coluna 3"
    );
    let call = |argument: &str| SemanticNode {
        children: SemanticNodeData::Funccall {
            id: Box::new(terminal(
                TokenType::FuncId,
                Some(ConstType::String("f".to_string())),
            )),
            paramlistcall: Some(Box::new(SemanticNode {
                children: SemanticNodeData::Paramlistcall {
                    paramlist: vec![terminal(
                        TokenType::Id,
                        Some(ConstType::String(argument.to_string())),
                    )],
                },
            })),
        },
    };
    for argument in ["f", "g", "h"] {
        let error = call(argument).semantic_analysis(&mut scopes).unwrap_err();
        assert_eq!(
            error,
            SemanticError::FunctionAsArgument {
                name: argument.to_string()
            }
        );
        assert_eq!(error.position(), None);
    }
    assert_eq!(
        SemanticError::FunctionAsArgument {
            name: "g".to_string()
        }
        .message(),
        "Erro semântico: função 'g' não pode ser passada como parâmetro de outra função"
    );
}

#[test]
fn trees_that_no_parse_gives_are_malformed() {
    let mut scopes = ScopeStack::new();
    let paramlist = SemanticNode {
        children: SemanticNodeData::Paramlist { paramlist: vec![] },
    };
    let error = paramlist.semantic_analysis(&mut scopes).unwrap_err();
    assert_eq!(error, SemanticError::MalformedTree);
    assert_eq!(error.kind(), SemanticErrorKind::MalformedTree);
    assert_eq!(
        error.message(),
        "Erro semântico: árvore sintática abstrata malformada"
    );
    let literal = terminal(
        TokenType::ConstInt,
        Some(ConstType::String("1".to_string())),
    );
    assert_eq!(
        literal.semantic_analysis(&mut scopes),
        Err(SemanticError::MalformedTree)
    );
    let literal = terminal(TokenType::ConstInt, Some(ConstType::Int(1)));
    assert_eq!(
        literal.semantic_analysis(&mut scopes),
        Ok(Some(Attribute::Data {
            var_type: VarType::Int,
            place: Some((2, 3))
        }))
    );
    let end = terminal(TokenType::Eof, None);
    assert_eq!(
        end.semantic_analysis(&mut scopes),
        Ok(Some(Attribute::Operator(TokenType::Eof)))
    );
    scopes.push_scope(ScopeType::Any);
    assert_eq!(
        end.semantic_analysis(&mut scopes),
        Err(SemanticError::MalformedTree)
    );
    assert_eq!(kinds(&scopes), [ScopeType::Any, ScopeType::Any]);
    assert_eq!(
        paramlist.generate_code(&mut CodeAttrs::new()),
        Some(String::new())
    );
    let keyword = terminal(TokenType::KwIf, None);
    assert_eq!(keyword.generate_code(&mut CodeAttrs::new()), None);
    assert_eq!(keyword.semantic_analysis(&mut scopes), Ok(None));
}

#[test]
fn code_of_an_assignment() {
    assert_eq!(
        code("{ int x; x = 1 + 2 * 3; }"),
        "t1 = 1\nt2 = 2\nt3 = 3\nt2 = t2 * t3\nt1 = t1 + t2\nx = t1\n"
    );
}

#[test]
fn code_of_a_conditional() {
    assert_eq!(
        code("{ int x; if (x < 2) { x = 1; } else { x = 2; } }"),
        "t1 = x\nt2 = 2\nt1 = t1 < t2\nif t1 == 0 goto L1\nt3 = 1\nx = t3\nL1:\nif t1 goto L2\nt4 = 2\nx = t4\nL2:\n"
    );
    assert_eq!(
        code("{ int x; if (x) { print x; } }"),
        "t1 = x\nif t1 == 0 goto L1\nt2 = x\nparam t2\ncall print, 1\nL1:\n"
    );
}

#[test]
fn code_of_a_loop_with_break() {
    assert_eq!(
        code("{ int i; for (i = 0; i < 3; i = i + 1) { break; } }"),
        "t1 = 0\ni = t1\nL1:\nt2 = i\nt3 = 3\nt2 = t2 < t3\nif t2 == 0 goto L2\ngoto L2\nt4 = i\nt5 = 1\nt4 = t4 + t5\ni = t4\ngoto L1\nL2:\n"
    );
}

#[test]
fn code_of_functions_and_calls() {
    assert_eq!(
        code("def @f(int a, int b) { return; } def @g() { int i; int j; i = @f(i, j); j = @g(); }"),
        "@f:\nreturn\n@g:\nparam i\nparam j\nt1 = call @f, 2\ni = t1\nt2 = call @g, 0\nj = t2\n"
    );
}

#[test]
fn code_of_arrays_strings_and_signs() {
    assert_eq!(
        code("{ int x; int i; x = new int[2][i]; }"),
        "t1 = 1\nt2 = 2\nt1 = t1 * t2\nt3 = i\nt1 = t1 * t3\nparam Int\nparam t1\nt4 = call alloc, 2\nx = t4\n"
    );
    assert_eq!(
        code("{ int x[4]; int i; x[i + 1] = -i; }"),
        "t1 = i\nt2 = 1\nt1 = t1 + t2\nt3 = i\nt4 = - t3\nx[t1] = t4\n"
    );
    assert_eq!(
        code("{ string s; s = \"hi\"; read s; print s; }"),
        "t1 = \\\"hi\\\"\ns = t1\ns = call read, 0\nt2 = s\nparam t2\ncall print, 1\n"
    );
    assert_eq!(code("{ float f; f = 2.50; }"), "t1 = 2.50\nf = t1\n");
}

#[test]
fn code_generation_is_deterministic_and_numbers_from_one() {
    let (result, tree) = analyse("{ int x; if (x == 1) { x = x + 2; } }");
    assert_eq!(result, Ok(()));
    let first = tree.generate_code().unwrap();
    let second = tree.generate_code().unwrap();
    assert_eq!(first, second);
    assert!(first.starts_with("t1 = x\n"));
    assert!(first.contains("goto L1\n"));
    let mut state = CodeAttrs::new();
    tree.root.generate_code(&mut state).unwrap();
    assert_eq!(state.code, first);
    tree.root.generate_code(&mut state).unwrap();
    assert_eq!(state.code.len(), 2 * first.len());
    assert!(state.code[first.len()..].starts_with("t5 = x\n"));
}

const GRAPH_HEAD: &str = "// Visualize a árvore colando este arquivo em https://dreampuf.github.io/GraphvizOnline/?engine=dot\n";

fn operand(value: Operand) -> Box<ExpressionTreeNode> {
    Box::new(ExpressionTreeNode::Operand { value })
}

fn binary(
    operator: Operator,
    left: Box<ExpressionTreeNode>,
    right: Box<ExpressionTreeNode>,
) -> Box<ExpressionTreeNode> {
    Box::new(ExpressionTreeNode::BinaryOperator {
        operator,
        left,
        right,
    })
}

fn expression_trees(source: &str) -> Option<Vec<ExpressionTreeNode>> {
    let trees = ast(source).create_expression_trees()?;
    Some(trees.into_iter().map(|tree| tree.root).collect())
}

#[test]
fn expression_tree_of_a_sum_nests_to_the_left() {
    let trees = expression_trees("x = 1 + 2 + 3;").unwrap();
    let expected = binary(
        Operator::Plus,
        binary(
            Operator::Plus,
            operand(Operand::Integer(1)),
            operand(Operand::Integer(2)),
        ),
        operand(Operand::Integer(3)),
    );
    assert_eq!(trees.len(), 1);
    assert_eq!(&trees[0], &*expected);
    let tree = ExpressionTree { root: *expected };
    assert_eq!(
        tree.output().unwrap(),
        format!(
            "{}digraph ExpressionTree {{\n  0 [label=\"+\"];\n  0 -> 1;\n  1 [label=\"+\"];\n  1 -> 2;\n  2 [label=\"1\"];\n  1 -> 4;\n  4 [label=\"2\"];\n  0 -> 6;\n  6 [label=\"3\"];\n}}\n",
            GRAPH_HEAD
        )
    );
}

#[test]
fn expression_trees_hold_operators_and_operands() {
    let trees = expression_trees("x = -a * 2.5 <= \"s\" % b;").unwrap();
    let negated = Box::new(ExpressionTreeNode::UnaryOperator {
        operator: Operator::Minus,
        operand: operand(Operand::Identifier("a".to_string())),
    });
    let expected = binary(
        Operator::Le,
        binary(
            Operator::Multiply,
            negated,
            operand(Operand::Float("2.5".to_string())),
        ),
        binary(
            Operator::Modular,
            operand(Operand::String("\"s\"".to_string())),
            operand(Operand::Identifier("b".to_string())),
        ),
    );
    assert_eq!(trees.len(), 1);
    assert_eq!(&trees[0], &*expected);
    let tree = ExpressionTree { root: *expected };
    assert_eq!(
        tree.output().unwrap(),
        format!(
            "{}digraph ExpressionTree {{\n  0 [label=\"<=\"];\n  0 -> 1;\n  1 [label=\"*\"];\n  1 -> 2;\n  2 [label=\"-\"];\n  2 -> 3;\n  3 [label=\"Variável a\"];\n  1 -> 5;\n  5 [label=\"2.5\"];\n  0 -> 7;\n  7 [label=\"%\"];\n  7 -> 8;\n  8 [label=\"\\\"s\\\"\"];\n  7 -> 10;\n  10 [label=\"Variável b\"];\n}}\n",
            GRAPH_HEAD
        )
    );
}

#[test]
fn every_expression_has_a_tree_in_source_order() {
    let trees = expression_trees(
        "def @f(int a) { int i; for (i = 0; i < a; i = i + 1) { if (i == 2) { print i; } else { a = 1; } } }",
    )
    .unwrap();
    let name = |text: &str| operand(Operand::Identifier(text.to_string()));
    let number = |n: i64| operand(Operand::Integer(n));
    assert_eq!(
        trees,
        [
            *number(0),
            *binary(Operator::Lt, name("i"), name("a")),
            *binary(Operator::Plus, name("i"), number(1)),
            *binary(Operator::Eq, name("i"), number(2)),
            *name("i"),
            *number(1),
        ]
    );
    assert_eq!(
        expression_trees("{ int x[2]; x[1 + 1] = 3; read x; return; }")
            .unwrap()
            .len(),
        1
    );
    assert_eq!(expression_trees(";").unwrap(), []);
}

#[test]
fn expression_in_parentheses_has_no_tree_as_an_operand() {
    assert_eq!(expression_trees("x = (1 + 2) * 3;"), None);
    assert_eq!(expression_trees("x = (1);"), None);
    let keyword = SemanticNode {
        children: SemanticNodeData::Constant {
            value: ConstType::VarType(VarType::Int),
            line: 1,
            column: 1,
        },
    };
    assert_eq!(keyword.create_expression_tree(&mut Vec::new()), None);
}

#[test]
fn operands_are_labelled_by_their_kind() {
    assert_eq!(Operand::Integer(-3).to_string(), "-3");
    assert_eq!(Operand::Float("0.5".to_string()).to_string(), "0.5");
    assert_eq!(
        Operand::String("\"a\"".to_string()).to_string(),
        "\\\"a\\\""
    );
    assert_eq!(
        Operand::Identifier("x".to_string()).to_string(),
        "Variável x"
    );
    assert_eq!(
        Operand::Identifier("@f".to_string()).to_string(),
        "Função @f"
    );
    assert_eq!(Operand::Identifier(String::new()).to_string(), "Variável ");
    let mut counter = usize::MAX;
    let mut output = String::new();
    assert!(!operand(Operand::Integer(1)).save(&mut output, &mut counter));
    let mut counter = usize::MAX - 1;
    assert!(operand(Operand::Integer(1)).save(&mut output, &mut counter));
    assert_eq!(counter, usize::MAX);
    let minus = ExpressionTreeNode::UnaryOperator {
        operator: Operator::Minus,
        operand: operand(Operand::Integer(1)),
    };
    let mut counter = usize::MAX - 1;
    assert!(!minus.save(&mut output, &mut counter));
}

#[test]
fn parse_tree_as_a_graph() {
    let tree = parse(";").unwrap();
    let graph = "  Program_0 [label=\"Program\" color=\"green\"]\n  Program_0 -> Statement_1\n  Statement_1 [label=\"Statement\" color=\"green\"]\n  Statement_1 -> Semicolon_2\n  Semicolon_2 [label=\"Semicolon\" color=\"blue\"]\n  Program_0 -> Eof_3\n  Eof_3 [label=\"Eof\" color=\"blue\"]\n";
    let mut count = 0;
    assert_eq!(tree.get_root().to_string(&mut count).unwrap(), graph);
    assert_eq!(count, 4);
    let mut output = String::from("# ");
    assert!(tree.output_stats(&mut output));
    assert_eq!(
        output,
        format!(
            "# Análise sintática concluída com sucesso. Árvore sintática gerada:\n{}digraph G {{{}}}\n",
            GRAPH_HEAD, graph
        )
    );
    let mut count = u32::MAX - 3;
    assert_eq!(tree.get_root().to_string(&mut count), None);
    let mut count = u32::MAX - 4;
    assert!(tree
        .get_root()
        .to_string(&mut count)
        .unwrap()
        .ends_with("Eof_4294967294 [label=\"Eof\" color=\"blue\"]\n"));
    assert_eq!(count, u32::MAX);
}

#[test]
fn empty_expansions_are_shown_in_the_graph() {
    let tree = parse("def @f() { ; }").unwrap();
    let mut count = 7;
    let graph = tree.get_root().children[0].children[1]
        .to_string(&mut count)
        .unwrap();
    assert_eq!(
        graph,
        "  Funclist_7 [label=\"Funclist\" color=\"green\"]\n  Empty_8 [label=\"ε\" color=\"gray\"]\n  Funclist_7 -> Empty_8\n"
    );
    assert_eq!(count, 9);
    let mut count = u32::MAX - 1;
    assert_eq!(
        tree.get_root().children[0].children[1].to_string(&mut count),
        None
    );
}

#[test]
fn abstract_syntax_tree_as_a_graph() {
    let tree = ast("x = \"a\";");
    let mut output = String::new();
    let mut count = 0;
    assert!(tree.root.save(&mut output, &mut count));
    assert_eq!(count, 11);
    assert_eq!(
        output,
        "  0 [label=\"Program\"]\n  0 -> 1\n  1 [label=\"Statement\"]\n  1 -> 2\n  2 [label=\"AtribStatement\"]\n  2 -> 3\n  3 [label=\"LValue\"]\n  3 -> 4\n  4 [label=\"String(\\\"x\\\")\"]\n  2 -> 5\n  5 [label=\"AtribStatementValue\"]\n  5 -> 6\n  6 [label=\"Expression\"]\n  6 -> 7\n  7 [label=\"Numexpression\"]\n  7 -> 8\n  8 [label=\"Term\"]\n  8 -> 9\n  9 [label=\"Unaryexpression\"]\n  9 -> 10\n  10 [label=\"Factor\"]\n  10 -> 11\n  11 [label=\"String(\"\\\"a\\\"\")\"]\n"
    );
    let tree = ast("def @f(int a) { return; break; a = -1 < 2.5; }");
    let mut output = String::new();
    let mut count = 0;
    assert!(tree.root.save(&mut output, &mut count));
    for label in [
        "FuncList",
        "FuncDef",
        "String(\\\"@f\\\")",
        "ParamList",
        "VarType(Int)",
        "StateList",
        "ReturnStatement",
        "OpExpression",
        "OpLt",
        "OpMinus",
        "Int(1)",
        "Float(2.5)",
    ] {
        let line = format!(" [label=\"{}\"]\n", label);
        assert_eq!(
            output.matches(&line).count(),
            if label == "OpExpression" { 0 } else { 1 },
            "{}",
            label
        );
    }
    let statement = ast(";");
    let mut output = String::new();
    let mut count = u32::MAX;
    assert!(!statement.root.save(&mut output, &mut count));
    let leaf = terminal(TokenType::Semicolon, None);
    let mut output = String::new();
    assert!(leaf.save(&mut output, &mut count));
    assert_eq!((output.as_str(), count), ("", u32::MAX));
}

#[test]
fn report_of_the_semantic_analysis() {
    let tree = ast("print 1;");
    let mut output = String::from("> ");
    assert!(tree.output_stats(&mut output));
    assert_eq!(
        output,
        format!(
            "> Análise semântica concluída com sucesso.\nÁrvore semântica construída a partir da árvore sintática:\nVisualize a árvore colando este arquivo em https://dreampuf.github.io/GraphvizOnline/?engine=dot\ndigraph G {{\n  0 [label=\"Program\"]\n  0 -> 1\n  1 [label=\"Statement\"]\n  1 -> 2\n  2 [label=\"PrintStatement\"]\n  2 -> 3\n  3 [label=\"Expression\"]\n  3 -> 4\n  4 [label=\"Numexpression\"]\n  4 -> 5\n  5 [label=\"Term\"]\n  5 -> 6\n  6 [label=\"Unaryexpression\"]\n  6 -> 7\n  7 [label=\"Factor\"]\n  7 -> 8\n  8 [label=\"Int(1)\"]\n}}\nÁrvores de expressão geradas: 1 [\nÁrvore de expressão 1:\n{}digraph ExpressionTree {{\n  0 [label=\"1\"];\n}}\n\n]\nTipos de símbolos por escopo:\n\nVerificação de tipos: Ok\nVerificação identificadores de escopos: Ok\nVerificação de comandos por escopo: Ok\n",
            GRAPH_HEAD
        )
    );
    let mut output = String::new();
    assert!(!ast("x = (1);").output_stats(&mut output));
}

#[test]
fn closed_scopes_are_recorded_in_the_order_of_their_closing() {
    let source = "def @f(int a) { int i; { string s; s = \"x\"; } i = a; }";
    let (result, tree) = analyse(source);
    assert_eq!(result, Ok(()));
    assert_eq!(kinds(&tree.scopes), [ScopeType::Any]);
    let closed: Vec<ScopeType> = tree.scopes.closed.iter().map(|scope| scope.kind).collect();
    assert_eq!(closed, [ScopeType::Any, ScopeType::Function]);
    assert_eq!(
        tree.scopes.closed[0].symbols.get("s").unwrap().appearances,
        [(1, 33), (1, 36)]
    );
    assert!(tree.scopes.closed[1].symbols.contains_key("a"));
    assert!(tree.scopes.stack[0].symbols.contains_key("@f"));
    let mut report = String::from("Tipos:\n");
    tree.scopes.append_closed_report(&mut report);
    assert_eq!(
        report,
        "Tipos:\nEscopo: Any\n  Símbolo: s, Tipo: String, Índices: [], Aparições: [(1, 33), (1, 36)]\n\nEscopo: Function\n  Símbolo: a, Tipo: Int, Índices: [], Aparições: [(1, 12), (1, 51)]\n  Símbolo: i, Tipo: Int, Índices: [], Aparições: [(1, 21), (1, 47)]\n\n"
    );
    let mut output = String::new();
    assert!(tree.output_stats(&mut output));
    assert!(output.contains(&format!(
        "]\nTipos de símbolos por escopo:\n{}\nVerificação de tipos: Ok\n",
        &report[7..]
    )));
}

#[test]
fn failed_analysis_records_the_scopes_closed_before() {
    let (result, tree) = analyse("{ int x; if (x == 1) { int y; } else { ; } { z = 1; } }");
    assert_eq!(
        result.unwrap_err().kind(),
        SemanticErrorKind::UndeclaredSymbol
    );
    assert_eq!(
        kinds(&tree.scopes),
        [ScopeType::Any, ScopeType::Any, ScopeType::Any]
    );
    let closed: Vec<ScopeType> = tree.scopes.closed.iter().map(|scope| scope.kind).collect();
    assert_eq!(closed, [ScopeType::If, ScopeType::Else]);
}

#[test]
fn index_of_a_variable_that_is_read_must_be_an_integer() {
    let (result, _) = analyse("{ int a[3]; int y; y = a[1.5]; }");
    let error = result.unwrap_err();
    assert_eq!(
        error,
        SemanticError::IndexNotInt {
            found: VarType::Float,
            line: 1,
            column: 26
        }
    );
    assert_eq!(error.kind(), SemanticErrorKind::TypeMismatch);
    let (result, _) = analyse("{ int a[3]; int y; y = 2 * a[\"one\"]; }");
    assert_eq!(
        result,
        Err(SemanticError::IndexNotInt {
            found: VarType::String,
            line: 1,
            column: 30
        })
    );
    let (result, _) = analyse("{ int a[3]; print a[0][2.5]; }");
    assert_eq!(
        result,
        Err(SemanticError::IndexNotInt {
            found: VarType::Float,
            line: 1,
            column: 24
        })
    );
    let (result, _) = analyse("{ int a[3]; int y; y = a[y + 1]; print a[a[y]]; }");
    assert_eq!(result, Ok(()));
}

#[test]
fn index_of_a_variable_that_is_read_needs_declared_names() {
    let (result, tree) = analyse("{ int a[3]; int y; y = a[z]; }");
    assert_eq!(
        result,
        Err(SemanticError::SymbolNotFound {
            name: "z".to_string(),
            line: 1,
            column: 26
        })
    );
    assert_eq!(kinds(&tree.scopes), [ScopeType::Any, ScopeType::Any]);
}

#[test]
fn index_of_a_variable_that_is_filled_by_read_must_be_an_integer() {
    let (result, _) = analyse("{ string s[2]; read s[1.5]; }");
    let error = result.unwrap_err();
    assert_eq!(
        error,
        SemanticError::IndexNotInt {
            found: VarType::Float,
            line: 1,
            column: 23
        }
    );
    assert_eq!(error.kind(), SemanticErrorKind::TypeMismatch);
    let (result, _) = analyse("{ string s[2]; int i; read s[i]; }");
    assert_eq!(result, Ok(()));
}

/// The tokens of a source text, with the `@` taken from the names of functions.
fn tokens_with_plain_names(source: &str) -> Vec<Token> {
    let mut out = tokens(source);
    for token in out.iter_mut() {
        if token.token_type == TokenType::FuncId {
            if let Some(ConstType::String(name)) = &token.value {
                token.value = Some(ConstType::String(name.trim_start_matches('@').to_string()));
            }
        }
    }
    out
}

fn analyse_with_plain_names(source: &str) -> Result<(), SemanticError> {
    let mut tree = SyntaxTree::from_grammar(language());
    tree.parse(&tokens_with_plain_names(source)).unwrap();
    tree.semantic_tree().unwrap().semantic_analysis()
}

#[test]
fn function_of_one_parameter_is_no_value() {
    assert_eq!(
        analyse_with_plain_names("def @f(int a) { int x; x = f; }"),
        Err(SemanticError::FunctionAsValue {
            name: "f".to_string(),
            line: 1,
            column: 28
        })
    );
    assert_eq!(
        analyse_with_plain_names("def @f(int a) { f = 1; }"),
        Err(SemanticError::FunctionAsValue {
            name: "f".to_string(),
            line: 1,
            column: 17
        })
    );
    assert_eq!(
        analyse_with_plain_names("def @f(int a) { int x; x = @f(f); }"),
        Err(SemanticError::FunctionAsArgument {
            name: "f".to_string()
        })
    );
    assert_eq!(
        analyse_with_plain_names("def @f(int a) { int x; x = @f(a); }"),
        Ok(())
    );
    assert_eq!(
        analyse_with_plain_names("def @f(int a) { int x; x = @f(x); }"),
        Ok(())
    );
}

#[test]
fn declared_functions_are_marked_in_their_entries() {
    let (result, tree) = analyse("def @f(int a) { return; } def @g() { return; }");
    assert_eq!(result, Ok(()));
    let f = tree.scopes.get_symbol("@f").unwrap();
    assert!(f.is_function);
    assert_eq!(f.var_type, [VarType::Int]);
    assert_eq!(f.value_type(), None);
    let g = tree.scopes.get_symbol("@g").unwrap();
    assert!(g.is_function);
    assert_eq!(g.value_type(), None);
    let a = tree
        .scopes
        .closed
        .iter()
        .find_map(|scope| scope.symbols.get("a"))
        .unwrap();
    assert!(!a.is_function);
    assert_eq!(a.var_type, [VarType::Int]);
    assert_eq!(a.value_type(), Some(VarType::Int));
}

#[test]
fn code_of_a_break_after_an_inner_loop() {
    assert_eq!(
        code("{ int i; int j; for (i = 0; i < 3; i = i + 1) { for (j = 0; j < 2; j = j + 1) { ; } break; } }"),
        "t1 = 0\ni = t1\nL1:\nt2 = i\nt3 = 3\nt2 = t2 < t3\nif t2 == 0 goto L2\n\
         t4 = 0\nj = t4\nL3:\nt5 = j\nt6 = 2\nt5 = t5 < t6\nif t5 == 0 goto L4\n\
         t7 = j\nt8 = 1\nt7 = t7 + t8\nj = t7\ngoto L3\nL4:\n\
         goto L2\n\
         t9 = i\nt10 = 1\nt9 = t9 + t10\ni = t9\ngoto L1\nL2:\n"
    );
}

#[test]
fn code_of_breaks_around_an_inner_loop() {
    assert_eq!(
        code("{ int i; for (i = 0; i < 1; i = i + 1) { break; for (i = 0; i < 1; i = i + 1) { break; } break; } }"),
        "t1 = 0\ni = t1\nL1:\nt2 = i\nt3 = 1\nt2 = t2 < t3\nif t2 == 0 goto L2\n\
         goto L2\n\
         t4 = 0\ni = t4\nL3:\nt5 = i\nt6 = 1\nt5 = t5 < t6\nif t5 == 0 goto L4\n\
         goto L4\n\
         t7 = i\nt8 = 1\nt7 = t7 + t8\ni = t7\ngoto L3\nL4:\n\
         goto L2\n\
         t9 = i\nt10 = 1\nt9 = t9 + t10\ni = t9\ngoto L1\nL2:\n"
    );
}

#[test]
fn declared_bounds_limit_the_number_of_indices() {
    let (result, _) = analyse("{ int a[3]; a[1][2] = 0; }");
    let error = result.unwrap_err();
    assert_eq!(
        error,
        SemanticError::TooManyIndices {
            name: "a".to_string(),
            line: 1,
            column: 13
        }
    );
    assert_eq!(error.kind(), SemanticErrorKind::ArityOrBounds);
    assert_eq!(error.position(), Some((1, 13)));
    assert_eq!(
        error.message(),
        "Erro semântico: variável 'a' usada com mais índices do que as dimensões declaradas na linha 1, coluna 13"
    );
    let (result, _) = analyse("{ int a[3]; int y; y = a[1][2]; }");
    assert_eq!(
        result,
        Err(SemanticError::TooManyIndices {
            name: "a".to_string(),
            line: 1,
            column: 24
        })
    );
    let (result, _) = analyse("{ string s[2]; read s[0][1]; }");
    assert_eq!(
        result,
        Err(SemanticError::TooManyIndices {
            name: "s".to_string(),
            line: 1,
            column: 21
        })
    );
}

#[test]
fn indices_within_the_declared_bounds_are_accepted() {
    let (result, _) = analyse("{ int a[3][4]; int y; y = a[1]; a[1][2] = y; a[5][6] = a[7][8]; }");
    assert_eq!(result, Ok(()));
    let (result, _) = analyse("{ string s[2][2]; read s[0]; read s[0][1]; read s; }");
    assert_eq!(result, Ok(()));
}

#[test]
fn variable_without_bounds_takes_any_number_of_indices() {
    let (result, _) = analyse("{ int a; a = new int[10][2]; }");
    assert_eq!(result, Ok(()));
    let (result, _) = analyse("{ int a; int y; a[1] = 2; a[1][2][3] = 4; y = a[0][0]; }");
    assert_eq!(result, Ok(()));
    let (result, _) = analyse("{ string s; read s[1][2]; }");
    assert_eq!(result, Ok(()));
}

#[test]
fn types_are_checked_before_the_number_of_indices() {
    let (result, _) = analyse("{ int a[3]; a[1][2.5] = 0; }");
    assert_eq!(
        result,
        Err(SemanticError::IndexNotInt {
            found: VarType::Float,
            line: 1,
            column: 18
        })
    );
    let (result, _) = analyse("{ int a[3]; a[1][2] = \"x\"; }");
    assert_eq!(
        result,
        Err(SemanticError::AssignmentMismatch {
            name: "a".to_string(),
            line: 1,
            column: 23
        })
    );
}

#[test]
fn shadowing_declaration_decides_the_number_of_indices() {
    let (result, _) = analyse("{ int a[3]; { int a[2][2]; a[0][1] = 1; } a[0] = 1; }");
    assert_eq!(result, Ok(()));
    let (result, _) = analyse("{ int a[2][2]; { int a[3]; a[0][1] = 1; } }");
    assert_eq!(
        result,
        Err(SemanticError::TooManyIndices {
            name: "a".to_string(),
            line: 1,
            column: 28
        })
    );
}

#[test]
fn names_stay_in_their_scopes() {
    let mut tree = ast("{ int y; { int z; z = y; w = 1; } }");
    tree.scopes = ScopeStack::new();
    let entry = |line: usize| toy_compiler::scope_stack::SymbolEntry {
        appearances: vec![(line, 1)],
        var_type: vec![VarType::Int],
        const_index: vec![],
        is_function: false,
    };
    tree.scopes
        .insert_symbol("x".to_string(), entry(7))
        .unwrap();
    tree.scopes.push_scope(ScopeType::Loop);
    tree.scopes
        .insert_symbol("y".to_string(), entry(8))
        .unwrap();
    let result = tree.semantic_analysis();
    assert_eq!(
        result,
        Err(SemanticError::SymbolNotFound {
            name: "w".to_string(),
            line: 1,
            column: 26
        })
    );
    assert_eq!(
        kinds(&tree.scopes),
        [
            ScopeType::Any,
            ScopeType::Loop,
            ScopeType::Any,
            ScopeType::Any
        ]
    );
    assert!(tree.scopes.stack[0].symbols.contains_key("x"));
    assert!(tree.scopes.stack[1].symbols.contains_key("y"));
    assert_eq!(
        tree.scopes.stack[1].symbols.get("y").unwrap().appearances,
        [(8, 1)]
    );
    assert!(tree.scopes.stack[2].symbols.contains_key("y"));
    assert!(tree.scopes.stack[3].symbols.contains_key("z"));
    let mut tree = ast("{ int y; y = x; }");
    tree.scopes = ScopeStack::new();
    tree.scopes
        .insert_symbol("x".to_string(), entry(7))
        .unwrap();
    assert_eq!(tree.semantic_analysis(), Ok(()));
    assert_eq!(kinds(&tree.scopes), [ScopeType::Any]);
    assert_eq!(
        tree.scopes.get_symbol("x").unwrap().appearances,
        [(7, 1), (1, 14)]
    );
    assert!(tree.scopes.closed[0].symbols.contains_key("y"));
}

#[test]
fn dimension_of_an_allocation_must_be_an_integer() {
    let (result, _) = analyse("{ int a; a = new int[2.5]; }");
    let error = result.unwrap_err();
    assert_eq!(
        error,
        SemanticError::IndexNotInt {
            found: VarType::Float,
            line: 1,
            column: 22
        }
    );
    assert_eq!(error.kind(), SemanticErrorKind::TypeMismatch);
    let (result, _) = analyse("{ int a; int n; a = new int[n][n + 1][3]; }");
    assert_eq!(result, Ok(()));
    let (result, _) = analyse("{ int a; string s; a = new int[2][s]; }");
    assert_eq!(
        result,
        Err(SemanticError::IndexNotInt {
            found: VarType::String,
            line: 1,
            column: 35
        })
    );
}

#[test]
fn variable_cannot_be_called() {
    let result = analyse_with_plain_names("def @f(int a) { int v; int x; x = @v(a); }");
    let error = result.unwrap_err();
    assert_eq!(
        error,
        SemanticError::UndefinedFunction {
            name: "v".to_string(),
            line: 1,
            column: 35
        }
    );
    assert_eq!(error.kind(), SemanticErrorKind::UndeclaredSymbol);
    assert_eq!(
        analyse_with_plain_names("def @f(int a) { int f; int x; x = @f(a); }"),
        Err(SemanticError::UndefinedFunction {
            name: "f".to_string(),
            line: 1,
            column: 35
        })
    );
    assert_eq!(
        analyse_with_plain_names("def @f(int a) { int x; { int f; f = a; } x = @f(a); }"),
        Ok(())
    );
}
