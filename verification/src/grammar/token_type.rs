//! The closed vocabulary of token kinds.

use vstd::prelude::*;
use crate::expression::Operator;
use crate::text::str_eq;

verus! {

/// The kind of a token: literals, identifiers, keywords, operators,
/// punctuation and the end-of-input marker.
#[derive(Debug, Clone, Copy, PartialEq, Eq, Hash, Structural)]
pub enum TokenType {
    Comma,
    ConstFloat,
    ConstInt,
    ConstNull,
    ConstString,
    Eof,
    FuncId,
    Id,
    KwBreak,
    KwDef,
    KwElse,
    KwFor,
    KwIf,
    KwNew,
    KwPrint,
    KwRead,
    KwReturn,
    Lbrace,
    Lbracket,
    Lparenthesis,
    OpAssign,
    OpDivision,
    OpEq,
    OpGe,
    OpGt,
    OpLe,
    OpLt,
    OpMinus,
    OpModular,
    OpMultiply,
    OpNe,
    OpPlus,
    Rbrace,
    Rbracket,
    Rparenthesis,
    Semicolon,
    VarType,
}

/// How many token kinds there are.
pub const TOKEN_TYPE_COUNT: usize = 37;

impl TokenType {
    /// The name of the kind in grammar and automaton descriptions.
    pub open spec fn name(self) -> Seq<char> {
        match self {
            TokenType::Comma => "comma"@,
            TokenType::ConstFloat => "const_float"@,
            TokenType::ConstInt => "const_int"@,
            TokenType::ConstNull => "const_null"@,
            TokenType::ConstString => "const_string"@,
            TokenType::Eof => "eof"@,
            TokenType::FuncId => "func_id"@,
            TokenType::Id => "id"@,
            TokenType::KwBreak => "kw_break"@,
            TokenType::KwDef => "kw_def"@,
            TokenType::KwElse => "kw_else"@,
            TokenType::KwFor => "kw_for"@,
            TokenType::KwIf => "kw_if"@,
            TokenType::KwNew => "kw_new"@,
            TokenType::KwPrint => "kw_print"@,
            TokenType::KwRead => "kw_read"@,
            TokenType::KwReturn => "kw_return"@,
            TokenType::Lbrace => "lbrace"@,
            TokenType::Lbracket => "lbracket"@,
            TokenType::Lparenthesis => "lparenthesis"@,
            TokenType::OpAssign => "op_assign"@,
            TokenType::OpDivision => "op_division"@,
            TokenType::OpEq => "op_eq"@,
            TokenType::OpGe => "op_ge"@,
            TokenType::OpGt => "op_gt"@,
            TokenType::OpLe => "op_le"@,
            TokenType::OpLt => "op_lt"@,
            TokenType::OpMinus => "op_minus"@,
            TokenType::OpModular => "op_modular"@,
            TokenType::OpMultiply => "op_multiply"@,
            TokenType::OpNe => "op_ne"@,
            TokenType::OpPlus => "op_plus"@,
            TokenType::Rbrace => "rbrace"@,
            TokenType::Rbracket => "rbracket"@,
            TokenType::Rparenthesis => "rparenthesis"@,
            TokenType::Semicolon => "semicolon"@,
            TokenType::VarType => "var_type"@,
        }
    }

    /// The kind as it is written in source text, or its name where it
    /// stands for a class of lexemes.
    pub open spec fn text(self) -> Seq<char> {
        match self {
            TokenType::Comma => ","@,
            TokenType::ConstFloat => "const_float"@,
            TokenType::ConstInt => "const_int"@,
            TokenType::ConstNull => "null"@,
            TokenType::ConstString => "const_string"@,
            TokenType::Eof => "eof"@,
            TokenType::FuncId => "func_id"@,
            TokenType::Id => "id"@,
            TokenType::KwBreak => "break"@,
            TokenType::KwDef => "def"@,
            TokenType::KwElse => "else"@,
            TokenType::KwFor => "for"@,
            TokenType::KwIf => "if"@,
            TokenType::KwNew => "new"@,
            TokenType::KwPrint => "print"@,
            TokenType::KwRead => "read"@,
            TokenType::KwReturn => "return"@,
            TokenType::Lbrace => "{"@,
            TokenType::Lbracket => "["@,
            TokenType::Lparenthesis => "("@,
            TokenType::OpAssign => "="@,
            TokenType::OpDivision => "/"@,
            TokenType::OpEq => "=="@,
            TokenType::OpGe => ">="@,
            TokenType::OpGt => ">"@,
            TokenType::OpLe => "<="@,
            TokenType::OpLt => "<"@,
            TokenType::OpMinus => "-"@,
            TokenType::OpModular => "%"@,
            TokenType::OpMultiply => "*"@,
            TokenType::OpNe => "!="@,
            TokenType::OpPlus => "+"@,
            TokenType::Rbrace => "}"@,
            TokenType::Rbracket => "]"@,
            TokenType::Rparenthesis => ")"@,
            TokenType::Semicolon => ";"@,
            TokenType::VarType => "var_type"@,
        }
    }

    /// The identifier of the variant.
    pub open spec fn variant_name(self) -> Seq<char> {
        match self {
            TokenType::Comma => "Comma"@,
            TokenType::ConstFloat => "ConstFloat"@,
            TokenType::ConstInt => "ConstInt"@,
            TokenType::ConstNull => "ConstNull"@,
            TokenType::ConstString => "ConstString"@,
            TokenType::Eof => "Eof"@,
            TokenType::FuncId => "FuncId"@,
            TokenType::Id => "Id"@,
            TokenType::KwBreak => "KwBreak"@,
            TokenType::KwDef => "KwDef"@,
            TokenType::KwElse => "KwElse"@,
            TokenType::KwFor => "KwFor"@,
            TokenType::KwIf => "KwIf"@,
            TokenType::KwNew => "KwNew"@,
            TokenType::KwPrint => "KwPrint"@,
            TokenType::KwRead => "KwRead"@,
            TokenType::KwReturn => "KwReturn"@,
            TokenType::Lbrace => "Lbrace"@,
            TokenType::Lbracket => "Lbracket"@,
            TokenType::Lparenthesis => "Lparenthesis"@,
            TokenType::OpAssign => "OpAssign"@,
            TokenType::OpDivision => "OpDivision"@,
            TokenType::OpEq => "OpEq"@,
            TokenType::OpGe => "OpGe"@,
            TokenType::OpGt => "OpGt"@,
            TokenType::OpLe => "OpLe"@,
            TokenType::OpLt => "OpLt"@,
            TokenType::OpMinus => "OpMinus"@,
            TokenType::OpModular => "OpModular"@,
            TokenType::OpMultiply => "OpMultiply"@,
            TokenType::OpNe => "OpNe"@,
            TokenType::OpPlus => "OpPlus"@,
            TokenType::Rbrace => "Rbrace"@,
            TokenType::Rbracket => "Rbracket"@,
            TokenType::Rparenthesis => "Rparenthesis"@,
            TokenType::Semicolon => "Semicolon"@,
            TokenType::VarType => "VarType"@,
        }
    }

    /// The position of the kind in the vocabulary.
    pub open spec fn spec_index(self) -> nat {
        match self {
            TokenType::Comma => 0,
            TokenType::ConstFloat => 1,
            TokenType::ConstInt => 2,
            TokenType::ConstNull => 3,
            TokenType::ConstString => 4,
            TokenType::Eof => 5,
            TokenType::FuncId => 6,
            TokenType::Id => 7,
            TokenType::KwBreak => 8,
            TokenType::KwDef => 9,
            TokenType::KwElse => 10,
            TokenType::KwFor => 11,
            TokenType::KwIf => 12,
            TokenType::KwNew => 13,
            TokenType::KwPrint => 14,
            TokenType::KwRead => 15,
            TokenType::KwReturn => 16,
            TokenType::Lbrace => 17,
            TokenType::Lbracket => 18,
            TokenType::Lparenthesis => 19,
            TokenType::OpAssign => 20,
            TokenType::OpDivision => 21,
            TokenType::OpEq => 22,
            TokenType::OpGe => 23,
            TokenType::OpGt => 24,
            TokenType::OpLe => 25,
            TokenType::OpLt => 26,
            TokenType::OpMinus => 27,
            TokenType::OpModular => 28,
            TokenType::OpMultiply => 29,
            TokenType::OpNe => 30,
            TokenType::OpPlus => 31,
            TokenType::Rbrace => 32,
            TokenType::Rbracket => 33,
            TokenType::Rparenthesis => 34,
            TokenType::Semicolon => 35,
            TokenType::VarType => 36,
        }
    }

    /// The kinds that carry a literal value.
    pub open spec fn spec_has_value(self) -> bool {
        self == TokenType::ConstFloat || self == TokenType::ConstInt || self
            == TokenType::ConstString || self == TokenType::FuncId || self == TokenType::Id || self
            == TokenType::VarType
    }

    /// The two kinds of identifier.
    pub open spec fn spec_is_id(self) -> bool {
        self == TokenType::Id || self == TokenType::FuncId
    }

    /// The operator that an operator kind stands for, `None` for the
    /// other kinds.
    pub open spec fn operator(self) -> Option<Operator> {
        match self {
            TokenType::OpEq => Some(Operator::Eq),
            TokenType::OpNe => Some(Operator::Ne),
            TokenType::OpGt => Some(Operator::Gt),
            TokenType::OpGe => Some(Operator::Ge),
            TokenType::OpLt => Some(Operator::Lt),
            TokenType::OpLe => Some(Operator::Le),
            TokenType::OpPlus => Some(Operator::Plus),
            TokenType::OpMinus => Some(Operator::Minus),
            TokenType::OpMultiply => Some(Operator::Multiply),
            TokenType::OpDivision => Some(Operator::Division),
            TokenType::OpModular => Some(Operator::Modular),
            _ => None,
        }
    }

    /// Resolves a kind from its name. A name outside the vocabulary is
    /// refused.
    pub fn from_str(s: &str) -> (r: Result<TokenType, UnknownName>)
        ensures
            match r {
                Ok(t) => s@ == t.name(),
                Err(e) => e.name@ == s@ && forall|t: TokenType| s@ != #[trigger] t.name(),
            },
    {
        if str_eq(s, "comma") {
            Ok(TokenType::Comma)
        } else if str_eq(s, "const_float") {
            Ok(TokenType::ConstFloat)
        } else if str_eq(s, "const_int") {
            Ok(TokenType::ConstInt)
        } else if str_eq(s, "const_null") {
            Ok(TokenType::ConstNull)
        } else if str_eq(s, "const_string") {
            Ok(TokenType::ConstString)
        } else if str_eq(s, "eof") {
            Ok(TokenType::Eof)
        } else if str_eq(s, "func_id") {
            Ok(TokenType::FuncId)
        } else if str_eq(s, "id") {
            Ok(TokenType::Id)
        } else if str_eq(s, "kw_break") {
            Ok(TokenType::KwBreak)
        } else if str_eq(s, "kw_def") {
            Ok(TokenType::KwDef)
        } else if str_eq(s, "kw_else") {
            Ok(TokenType::KwElse)
        } else if str_eq(s, "kw_for") {
            Ok(TokenType::KwFor)
        } else if str_eq(s, "kw_if") {
            Ok(TokenType::KwIf)
        } else if str_eq(s, "kw_new") {
            Ok(TokenType::KwNew)
        } else if str_eq(s, "kw_print") {
            Ok(TokenType::KwPrint)
        } else if str_eq(s, "kw_read") {
            Ok(TokenType::KwRead)
        } else if str_eq(s, "kw_return") {
            Ok(TokenType::KwReturn)
        } else if str_eq(s, "lbrace") {
            Ok(TokenType::Lbrace)
        } else if str_eq(s, "lbracket") {
            Ok(TokenType::Lbracket)
        } else if str_eq(s, "lparenthesis") {
            Ok(TokenType::Lparenthesis)
        } else if str_eq(s, "op_assign") {
            Ok(TokenType::OpAssign)
        } else if str_eq(s, "op_division") {
            Ok(TokenType::OpDivision)
        } else if str_eq(s, "op_eq") {
            Ok(TokenType::OpEq)
        } else if str_eq(s, "op_ge") {
            Ok(TokenType::OpGe)
        } else if str_eq(s, "op_gt") {
            Ok(TokenType::OpGt)
        } else if str_eq(s, "op_le") {
            Ok(TokenType::OpLe)
        } else if str_eq(s, "op_lt") {
            Ok(TokenType::OpLt)
        } else if str_eq(s, "op_minus") {
            Ok(TokenType::OpMinus)
        } else if str_eq(s, "op_modular") {
            Ok(TokenType::OpModular)
        } else if str_eq(s, "op_multiply") {
            Ok(TokenType::OpMultiply)
        } else if str_eq(s, "op_ne") {
            Ok(TokenType::OpNe)
        } else if str_eq(s, "op_plus") {
            Ok(TokenType::OpPlus)
        } else if str_eq(s, "rbrace") {
            Ok(TokenType::Rbrace)
        } else if str_eq(s, "rbracket") {
            Ok(TokenType::Rbracket)
        } else if str_eq(s, "rparenthesis") {
            Ok(TokenType::Rparenthesis)
        } else if str_eq(s, "semicolon") {
            Ok(TokenType::Semicolon)
        } else if str_eq(s, "var_type") {
            Ok(TokenType::VarType)
        } else {
            Err(UnknownName { name: s.to_owned() })
        }
    }

    /// Whether tokens of this kind carry a literal value.
    pub fn has_value(&self) -> (r: bool)
        ensures
            r == self.spec_has_value(),
    {
        match self {
            TokenType::ConstFloat
            | TokenType::ConstInt
            | TokenType::ConstString
            | TokenType::FuncId
            | TokenType::Id
            | TokenType::VarType => true,
            _ => false,
        }
    }

    /// Whether this is one of the two kinds of identifier.
    pub fn is_id(&self) -> (r: bool)
        ensures
            r == self.spec_is_id(),
    {
        match self {
            TokenType::Id | TokenType::FuncId => true,
            _ => false,
        }
    }

    /// Whether this kind stands for an operator of an expression.
    pub fn is_operator(&self) -> (r: bool)
        ensures
            r == self.operator().is_some(),
    {
        match self {
            TokenType::OpEq
            | TokenType::OpNe
            | TokenType::OpGt
            | TokenType::OpGe
            | TokenType::OpLt
            | TokenType::OpLe
            | TokenType::OpPlus
            | TokenType::OpMinus
            | TokenType::OpMultiply
            | TokenType::OpDivision
            | TokenType::OpModular => true,
            _ => false,
        }
    }

    /// The operator that this kind stands for.
    pub fn get_operator_type(&self) -> (r: Operator)
        requires
            self.operator().is_some(),
        ensures
            Some(r) == self.operator(),
    {
        match self {
            TokenType::OpEq => Operator::Eq,
            TokenType::OpNe => Operator::Ne,
            TokenType::OpGt => Operator::Gt,
            TokenType::OpGe => Operator::Ge,
            TokenType::OpLt => Operator::Lt,
            TokenType::OpLe => Operator::Le,
            TokenType::OpPlus => Operator::Plus,
            TokenType::OpMinus => Operator::Minus,
            TokenType::OpMultiply => Operator::Multiply,
            TokenType::OpDivision => Operator::Division,
            _ => Operator::Modular,
        }
    }

    /// The position of the kind in the vocabulary.
    pub fn index(&self) -> (r: usize)
        ensures
            r == self.spec_index(),
            r < TOKEN_TYPE_COUNT,
    {
        match self {
            TokenType::Comma => 0,
            TokenType::ConstFloat => 1,
            TokenType::ConstInt => 2,
            TokenType::ConstNull => 3,
            TokenType::ConstString => 4,
            TokenType::Eof => 5,
            TokenType::FuncId => 6,
            TokenType::Id => 7,
            TokenType::KwBreak => 8,
            TokenType::KwDef => 9,
            TokenType::KwElse => 10,
            TokenType::KwFor => 11,
            TokenType::KwIf => 12,
            TokenType::KwNew => 13,
            TokenType::KwPrint => 14,
            TokenType::KwRead => 15,
            TokenType::KwReturn => 16,
            TokenType::Lbrace => 17,
            TokenType::Lbracket => 18,
            TokenType::Lparenthesis => 19,
            TokenType::OpAssign => 20,
            TokenType::OpDivision => 21,
            TokenType::OpEq => 22,
            TokenType::OpGe => 23,
            TokenType::OpGt => 24,
            TokenType::OpLe => 25,
            TokenType::OpLt => 26,
            TokenType::OpMinus => 27,
            TokenType::OpModular => 28,
            TokenType::OpMultiply => 29,
            TokenType::OpNe => 30,
            TokenType::OpPlus => 31,
            TokenType::Rbrace => 32,
            TokenType::Rbracket => 33,
            TokenType::Rparenthesis => 34,
            TokenType::Semicolon => 35,
            TokenType::VarType => 36,
        }
    }

    /// The kind as it is written in source text.
    pub fn as_text(&self) -> (r: &'static str)
        ensures
            r@ == self.text(),
    {
        match self {
            TokenType::Comma => ",",
            TokenType::ConstFloat => "const_float",
            TokenType::ConstInt => "const_int",
            TokenType::ConstNull => "null",
            TokenType::ConstString => "const_string",
            TokenType::Eof => "eof",
            TokenType::FuncId => "func_id",
            TokenType::Id => "id",
            TokenType::KwBreak => "break",
            TokenType::KwDef => "def",
            TokenType::KwElse => "else",
            TokenType::KwFor => "for",
            TokenType::KwIf => "if",
            TokenType::KwNew => "new",
            TokenType::KwPrint => "print",
            TokenType::KwRead => "read",
            TokenType::KwReturn => "return",
            TokenType::Lbrace => "{",
            TokenType::Lbracket => "[",
            TokenType::Lparenthesis => "(",
            TokenType::OpAssign => "=",
            TokenType::OpDivision => "/",
            TokenType::OpEq => "==",
            TokenType::OpGe => ">=",
            TokenType::OpGt => ">",
            TokenType::OpLe => "<=",
            TokenType::OpLt => "<",
            TokenType::OpMinus => "-",
            TokenType::OpModular => "%",
            TokenType::OpMultiply => "*",
            TokenType::OpNe => "!=",
            TokenType::OpPlus => "+",
            TokenType::Rbrace => "}",
            TokenType::Rbracket => "]",
            TokenType::Rparenthesis => ")",
            TokenType::Semicolon => ";",
            TokenType::VarType => "var_type",
        }
    }

    /// The identifier of the variant.
    pub fn as_variant_name(&self) -> (r: &'static str)
        ensures
            r@ == self.variant_name(),
    {
        match self {
            TokenType::Comma => "Comma",
            TokenType::ConstFloat => "ConstFloat",
            TokenType::ConstInt => "ConstInt",
            TokenType::ConstNull => "ConstNull",
            TokenType::ConstString => "ConstString",
            TokenType::Eof => "Eof",
            TokenType::FuncId => "FuncId",
            TokenType::Id => "Id",
            TokenType::KwBreak => "KwBreak",
            TokenType::KwDef => "KwDef",
            TokenType::KwElse => "KwElse",
            TokenType::KwFor => "KwFor",
            TokenType::KwIf => "KwIf",
            TokenType::KwNew => "KwNew",
            TokenType::KwPrint => "KwPrint",
            TokenType::KwRead => "KwRead",
            TokenType::KwReturn => "KwReturn",
            TokenType::Lbrace => "Lbrace",
            TokenType::Lbracket => "Lbracket",
            TokenType::Lparenthesis => "Lparenthesis",
            TokenType::OpAssign => "OpAssign",
            TokenType::OpDivision => "OpDivision",
            TokenType::OpEq => "OpEq",
            TokenType::OpGe => "OpGe",
            TokenType::OpGt => "OpGt",
            TokenType::OpLe => "OpLe",
            TokenType::OpLt => "OpLt",
            TokenType::OpMinus => "OpMinus",
            TokenType::OpModular => "OpModular",
            TokenType::OpMultiply => "OpMultiply",
            TokenType::OpNe => "OpNe",
            TokenType::OpPlus => "OpPlus",
            TokenType::Rbrace => "Rbrace",
            TokenType::Rbracket => "Rbracket",
            TokenType::Rparenthesis => "Rparenthesis",
            TokenType::Semicolon => "Semicolon",
            TokenType::VarType => "VarType",
        }
    }

    /// The kind as it is written in source text, as an owned string.
    pub fn to_string(&self) -> (r: String)
        ensures
            r@ == self.text(),
    {
        self.as_text().to_owned()
    }
}

/// A name that the vocabulary it was looked up in does not hold.
#[derive(Debug, PartialEq, Eq)]
pub struct UnknownName {
    pub name: String,
}

/// Distinct kinds have distinct names.
pub proof fn lemma_names_distinct(a: TokenType, b: TokenType)
    requires
        a.name() == b.name(),
    ensures
        a == b,
{
    reveal_token_names();
}

/// Distinct kinds have distinct positions, all below the count.
pub proof fn lemma_index_distinct(a: TokenType, b: TokenType)
    ensures
        a.spec_index() < TOKEN_TYPE_COUNT,
        a.spec_index() == b.spec_index() ==> a == b,
{
}

proof fn reveal_token_names()
    ensures
        "comma"@ == seq!['c', 'o', 'm', 'm', 'a'],
        "const_float"@ == seq!['c', 'o', 'n', 's', 't', '_', 'f', 'l', 'o', 'a', 't'],
        "const_int"@ == seq!['c', 'o', 'n', 's', 't', '_', 'i', 'n', 't'],
        "const_null"@ == seq!['c', 'o', 'n', 's', 't', '_', 'n', 'u', 'l', 'l'],
        "const_string"@ == seq!['c', 'o', 'n', 's', 't', '_', 's', 't', 'r', 'i', 'n', 'g'],
        "eof"@ == seq!['e', 'o', 'f'],
        "func_id"@ == seq!['f', 'u', 'n', 'c', '_', 'i', 'd'],
        "id"@ == seq!['i', 'd'],
        "kw_break"@ == seq!['k', 'w', '_', 'b', 'r', 'e', 'a', 'k'],
        "kw_def"@ == seq!['k', 'w', '_', 'd', 'e', 'f'],
        "kw_else"@ == seq!['k', 'w', '_', 'e', 'l', 's', 'e'],
        "kw_for"@ == seq!['k', 'w', '_', 'f', 'o', 'r'],
        "kw_if"@ == seq!['k', 'w', '_', 'i', 'f'],
        "kw_new"@ == seq!['k', 'w', '_', 'n', 'e', 'w'],
        "kw_print"@ == seq!['k', 'w', '_', 'p', 'r', 'i', 'n', 't'],
        "kw_read"@ == seq!['k', 'w', '_', 'r', 'e', 'a', 'd'],
        "kw_return"@ == seq!['k', 'w', '_', 'r', 'e', 't', 'u', 'r', 'n'],
        "lbrace"@ == seq!['l', 'b', 'r', 'a', 'c', 'e'],
        "lbracket"@ == seq!['l', 'b', 'r', 'a', 'c', 'k', 'e', 't'],
        "lparenthesis"@ == seq!['l', 'p', 'a', 'r', 'e', 'n', 't', 'h', 'e', 's', 'i', 's'],
        "op_assign"@ == seq!['o', 'p', '_', 'a', 's', 's', 'i', 'g', 'n'],
        "op_division"@ == seq!['o', 'p', '_', 'd', 'i', 'v', 'i', 's', 'i', 'o', 'n'],
        "op_eq"@ == seq!['o', 'p', '_', 'e', 'q'],
        "op_ge"@ == seq!['o', 'p', '_', 'g', 'e'],
        "op_gt"@ == seq!['o', 'p', '_', 'g', 't'],
        "op_le"@ == seq!['o', 'p', '_', 'l', 'e'],
        "op_lt"@ == seq!['o', 'p', '_', 'l', 't'],
        "op_minus"@ == seq!['o', 'p', '_', 'm', 'i', 'n', 'u', 's'],
        "op_modular"@ == seq!['o', 'p', '_', 'm', 'o', 'd', 'u', 'l', 'a', 'r'],
        "op_multiply"@ == seq!['o', 'p', '_', 'm', 'u', 'l', 't', 'i', 'p', 'l', 'y'],
        "op_ne"@ == seq!['o', 'p', '_', 'n', 'e'],
        "op_plus"@ == seq!['o', 'p', '_', 'p', 'l', 'u', 's'],
        "rbrace"@ == seq!['r', 'b', 'r', 'a', 'c', 'e'],
        "rbracket"@ == seq!['r', 'b', 'r', 'a', 'c', 'k', 'e', 't'],
        "rparenthesis"@ == seq!['r', 'p', 'a', 'r', 'e', 'n', 't', 'h', 'e', 's', 'i', 's'],
        "semicolon"@ == seq!['s', 'e', 'm', 'i', 'c', 'o', 'l', 'o', 'n'],
        "var_type"@ == seq!['v', 'a', 'r', '_', 't', 'y', 'p', 'e'],
{
    reveal_strlit("comma");
    reveal_strlit("const_float");
    reveal_strlit("const_int");
    reveal_strlit("const_null");
    reveal_strlit("const_string");
    reveal_strlit("eof");
    reveal_strlit("func_id");
    reveal_strlit("id");
    reveal_strlit("kw_break");
    reveal_strlit("kw_def");
    reveal_strlit("kw_else");
    reveal_strlit("kw_for");
    reveal_strlit("kw_if");
    reveal_strlit("kw_new");
    reveal_strlit("kw_print");
    reveal_strlit("kw_read");
    reveal_strlit("kw_return");
    reveal_strlit("lbrace");
    reveal_strlit("lbracket");
    reveal_strlit("lparenthesis");
    reveal_strlit("op_assign");
    reveal_strlit("op_division");
    reveal_strlit("op_eq");
    reveal_strlit("op_ge");
    reveal_strlit("op_gt");
    reveal_strlit("op_le");
    reveal_strlit("op_lt");
    reveal_strlit("op_minus");
    reveal_strlit("op_modular");
    reveal_strlit("op_multiply");
    reveal_strlit("op_ne");
    reveal_strlit("op_plus");
    reveal_strlit("rbrace");
    reveal_strlit("rbracket");
    reveal_strlit("rparenthesis");
    reveal_strlit("semicolon");
    reveal_strlit("var_type");
    assert("comma"@ =~= seq!['c', 'o', 'm', 'm', 'a']);
    assert("const_float"@ =~= seq!['c', 'o', 'n', 's', 't', '_', 'f', 'l', 'o', 'a', 't']);
    assert("const_int"@ =~= seq!['c', 'o', 'n', 's', 't', '_', 'i', 'n', 't']);
    assert("const_null"@ =~= seq!['c', 'o', 'n', 's', 't', '_', 'n', 'u', 'l', 'l']);
    assert("const_string"@ =~= seq!['c', 'o', 'n', 's', 't', '_', 's', 't', 'r', 'i', 'n', 'g']);
    assert("eof"@ =~= seq!['e', 'o', 'f']);
    assert("func_id"@ =~= seq!['f', 'u', 'n', 'c', '_', 'i', 'd']);
    assert("id"@ =~= seq!['i', 'd']);
    assert("kw_break"@ =~= seq!['k', 'w', '_', 'b', 'r', 'e', 'a', 'k']);
    assert("kw_def"@ =~= seq!['k', 'w', '_', 'd', 'e', 'f']);
    assert("kw_else"@ =~= seq!['k', 'w', '_', 'e', 'l', 's', 'e']);
    assert("kw_for"@ =~= seq!['k', 'w', '_', 'f', 'o', 'r']);
    assert("kw_if"@ =~= seq!['k', 'w', '_', 'i', 'f']);
    assert("kw_new"@ =~= seq!['k', 'w', '_', 'n', 'e', 'w']);
    assert("kw_print"@ =~= seq!['k', 'w', '_', 'p', 'r', 'i', 'n', 't']);
    assert("kw_read"@ =~= seq!['k', 'w', '_', 'r', 'e', 'a', 'd']);
    assert("kw_return"@ =~= seq!['k', 'w', '_', 'r', 'e', 't', 'u', 'r', 'n']);
    assert("lbrace"@ =~= seq!['l', 'b', 'r', 'a', 'c', 'e']);
    assert("lbracket"@ =~= seq!['l', 'b', 'r', 'a', 'c', 'k', 'e', 't']);
    assert("lparenthesis"@ =~= seq!['l', 'p', 'a', 'r', 'e', 'n', 't', 'h', 'e', 's', 'i', 's']);
    assert("op_assign"@ =~= seq!['o', 'p', '_', 'a', 's', 's', 'i', 'g', 'n']);
    assert("op_division"@ =~= seq!['o', 'p', '_', 'd', 'i', 'v', 'i', 's', 'i', 'o', 'n']);
    assert("op_eq"@ =~= seq!['o', 'p', '_', 'e', 'q']);
    assert("op_ge"@ =~= seq!['o', 'p', '_', 'g', 'e']);
    assert("op_gt"@ =~= seq!['o', 'p', '_', 'g', 't']);
    assert("op_le"@ =~= seq!['o', 'p', '_', 'l', 'e']);
    assert("op_lt"@ =~= seq!['o', 'p', '_', 'l', 't']);
    assert("op_minus"@ =~= seq!['o', 'p', '_', 'm', 'i', 'n', 'u', 's']);
    assert("op_modular"@ =~= seq!['o', 'p', '_', 'm', 'o', 'd', 'u', 'l', 'a', 'r']);
    assert("op_multiply"@ =~= seq!['o', 'p', '_', 'm', 'u', 'l', 't', 'i', 'p', 'l', 'y']);
    assert("op_ne"@ =~= seq!['o', 'p', '_', 'n', 'e']);
    assert("op_plus"@ =~= seq!['o', 'p', '_', 'p', 'l', 'u', 's']);
    assert("rbrace"@ =~= seq!['r', 'b', 'r', 'a', 'c', 'e']);
    assert("rbracket"@ =~= seq!['r', 'b', 'r', 'a', 'c', 'k', 'e', 't']);
    assert("rparenthesis"@ =~= seq!['r', 'p', 'a', 'r', 'e', 'n', 't', 'h', 'e', 's', 'i', 's']);
    assert("semicolon"@ =~= seq!['s', 'e', 'm', 'i', 'c', 'o', 'l', 'o', 'n']);
    assert("var_type"@ =~= seq!['v', 'a', 'r', '_', 't', 'y', 'p', 'e']);
}

} // verus!
