//! The grammar model: non-terminals, production rules and the LL(1)
//! decision table.

use vstd::prelude::*;
use crate::grammar::token_type::{TokenType, UnknownName, TOKEN_TYPE_COUNT};
use crate::text::str_eq;

verus! {

/// The non-terminals of the language's grammar.
#[derive(Debug, Clone, Copy, PartialEq, Eq, Hash, Structural)]
pub enum NonTerminal {
    Program,
    Funclist,
    Funcdef,
    Paramlist,
    Paramlist1,
    Statelist,
    Statelist1,
    Statement,
    Vardecl,
    ConstIndex,
    VarIndex,
    Atribstat,
    Atribstatevalue,
    Funccall,
    Paramlistcall,
    Paramlistcall1,
    Printstat,
    Readstat,
    Returnstat,
    Ifstat,
    Elsestat,
    Elsestat1,
    Forstat,
    Allocexpression,
    Expression,
    Expression1,
    Numexpression,
    Numexpression1,
    Term,
    Term1,
    Unaryexpression,
    Factor,
    Lvalue,
    Constant,
    OpExpression,
    OpNumexpression,
    OpTerm,
}

/// How many non-terminals there are.
pub const NON_TERMINAL_COUNT: usize = 37;

impl NonTerminal {
    /// The name of the non-terminal in grammar descriptions.
    pub open spec fn name(self) -> Seq<char> {
        match self {
            NonTerminal::Program => "PROGRAM"@,
            NonTerminal::Funclist => "FUNCLIST"@,
            NonTerminal::Funcdef => "FUNCDEF"@,
            NonTerminal::Paramlist => "PARAMLIST"@,
            NonTerminal::Paramlist1 => "PARAMLIST1"@,
            NonTerminal::Statelist => "STATELIST"@,
            NonTerminal::Statelist1 => "STATELIST1"@,
            NonTerminal::Statement => "STATEMENT"@,
            NonTerminal::Vardecl => "VARDECL"@,
            NonTerminal::ConstIndex => "CONST_INDEX"@,
            NonTerminal::VarIndex => "VAR_INDEX"@,
            NonTerminal::Atribstat => "ATRIBSTAT"@,
            NonTerminal::Atribstatevalue => "ATRIBSTATEVALUE"@,
            NonTerminal::Funccall => "FUNCCALL"@,
            NonTerminal::Paramlistcall => "PARAMLISTCALL"@,
            NonTerminal::Paramlistcall1 => "PARAMLISTCALL1"@,
            NonTerminal::Printstat => "PRINTSTAT"@,
            NonTerminal::Readstat => "READSTAT"@,
            NonTerminal::Returnstat => "RETURNSTAT"@,
            NonTerminal::Ifstat => "IFSTAT"@,
            NonTerminal::Elsestat => "ELSESTAT"@,
            NonTerminal::Elsestat1 => "ELSESTAT1"@,
            NonTerminal::Forstat => "FORSTAT"@,
            NonTerminal::Allocexpression => "ALLOCEXPRESSION"@,
            NonTerminal::Expression => "EXPRESSION"@,
            NonTerminal::Expression1 => "EXPRESSION1"@,
            NonTerminal::Numexpression => "NUMEXPRESSION"@,
            NonTerminal::Numexpression1 => "NUMEXPRESSION1"@,
            NonTerminal::Term => "TERM"@,
            NonTerminal::Term1 => "TERM1"@,
            NonTerminal::Unaryexpression => "UNARYEXPRESSION"@,
            NonTerminal::Factor => "FACTOR"@,
            NonTerminal::Lvalue => "LVALUE"@,
            NonTerminal::Constant => "CONSTANT"@,
            NonTerminal::OpExpression => "OP_EXPRESSION"@,
            NonTerminal::OpNumexpression => "OP_NUMEXPRESSION"@,
            NonTerminal::OpTerm => "OP_TERM"@,
        }
    }

    /// The identifier of the variant.
    pub open spec fn variant_name(self) -> Seq<char> {
        match self {
            NonTerminal::Program => "Program"@,
            NonTerminal::Funclist => "Funclist"@,
            NonTerminal::Funcdef => "Funcdef"@,
            NonTerminal::Paramlist => "Paramlist"@,
            NonTerminal::Paramlist1 => "Paramlist1"@,
            NonTerminal::Statelist => "Statelist"@,
            NonTerminal::Statelist1 => "Statelist1"@,
            NonTerminal::Statement => "Statement"@,
            NonTerminal::Vardecl => "Vardecl"@,
            NonTerminal::ConstIndex => "ConstIndex"@,
            NonTerminal::VarIndex => "VarIndex"@,
            NonTerminal::Atribstat => "Atribstat"@,
            NonTerminal::Atribstatevalue => "Atribstatevalue"@,
            NonTerminal::Funccall => "Funccall"@,
            NonTerminal::Paramlistcall => "Paramlistcall"@,
            NonTerminal::Paramlistcall1 => "Paramlistcall1"@,
            NonTerminal::Printstat => "Printstat"@,
            NonTerminal::Readstat => "Readstat"@,
            NonTerminal::Returnstat => "Returnstat"@,
            NonTerminal::Ifstat => "Ifstat"@,
            NonTerminal::Elsestat => "Elsestat"@,
            NonTerminal::Elsestat1 => "Elsestat1"@,
            NonTerminal::Forstat => "Forstat"@,
            NonTerminal::Allocexpression => "Allocexpression"@,
            NonTerminal::Expression => "Expression"@,
            NonTerminal::Expression1 => "Expression1"@,
            NonTerminal::Numexpression => "Numexpression"@,
            NonTerminal::Numexpression1 => "Numexpression1"@,
            NonTerminal::Term => "Term"@,
            NonTerminal::Term1 => "Term1"@,
            NonTerminal::Unaryexpression => "Unaryexpression"@,
            NonTerminal::Factor => "Factor"@,
            NonTerminal::Lvalue => "Lvalue"@,
            NonTerminal::Constant => "Constant"@,
            NonTerminal::OpExpression => "OpExpression"@,
            NonTerminal::OpNumexpression => "OpNumexpression"@,
            NonTerminal::OpTerm => "OpTerm"@,
        }
    }

    /// The position of the non-terminal in the vocabulary.
    pub open spec fn spec_index(self) -> nat {
        match self {
            NonTerminal::Program => 0,
            NonTerminal::Funclist => 1,
            NonTerminal::Funcdef => 2,
            NonTerminal::Paramlist => 3,
            NonTerminal::Paramlist1 => 4,
            NonTerminal::Statelist => 5,
            NonTerminal::Statelist1 => 6,
            NonTerminal::Statement => 7,
            NonTerminal::Vardecl => 8,
            NonTerminal::ConstIndex => 9,
            NonTerminal::VarIndex => 10,
            NonTerminal::Atribstat => 11,
            NonTerminal::Atribstatevalue => 12,
            NonTerminal::Funccall => 13,
            NonTerminal::Paramlistcall => 14,
            NonTerminal::Paramlistcall1 => 15,
            NonTerminal::Printstat => 16,
            NonTerminal::Readstat => 17,
            NonTerminal::Returnstat => 18,
            NonTerminal::Ifstat => 19,
            NonTerminal::Elsestat => 20,
            NonTerminal::Elsestat1 => 21,
            NonTerminal::Forstat => 22,
            NonTerminal::Allocexpression => 23,
            NonTerminal::Expression => 24,
            NonTerminal::Expression1 => 25,
            NonTerminal::Numexpression => 26,
            NonTerminal::Numexpression1 => 27,
            NonTerminal::Term => 28,
            NonTerminal::Term1 => 29,
            NonTerminal::Unaryexpression => 30,
            NonTerminal::Factor => 31,
            NonTerminal::Lvalue => 32,
            NonTerminal::Constant => 33,
            NonTerminal::OpExpression => 34,
            NonTerminal::OpNumexpression => 35,
            NonTerminal::OpTerm => 36,
        }
    }

    /// Resolves a non-terminal from its name. A name outside the
    /// vocabulary is refused.
    pub fn from_char(s: &str) -> (r: Result<NonTerminal, UnknownName>)
        ensures
            match r {
                Ok(n) => s@ == n.name(),
                Err(e) => e.name@ == s@ && forall|n: NonTerminal| s@ != #[trigger] n.name(),
            },
    {
        if str_eq(s, "PROGRAM") {
            Ok(NonTerminal::Program)
        } else if str_eq(s, "FUNCLIST") {
            Ok(NonTerminal::Funclist)
        } else if str_eq(s, "FUNCDEF") {
            Ok(NonTerminal::Funcdef)
        } else if str_eq(s, "PARAMLIST") {
            Ok(NonTerminal::Paramlist)
        } else if str_eq(s, "PARAMLIST1") {
            Ok(NonTerminal::Paramlist1)
        } else if str_eq(s, "STATELIST") {
            Ok(NonTerminal::Statelist)
        } else if str_eq(s, "STATELIST1") {
            Ok(NonTerminal::Statelist1)
        } else if str_eq(s, "STATEMENT") {
            Ok(NonTerminal::Statement)
        } else if str_eq(s, "VARDECL") {
            Ok(NonTerminal::Vardecl)
        } else if str_eq(s, "CONST_INDEX") {
            Ok(NonTerminal::ConstIndex)
        } else if str_eq(s, "VAR_INDEX") {
            Ok(NonTerminal::VarIndex)
        } else if str_eq(s, "ATRIBSTAT") {
            Ok(NonTerminal::Atribstat)
        } else if str_eq(s, "ATRIBSTATEVALUE") {
            Ok(NonTerminal::Atribstatevalue)
        } else if str_eq(s, "FUNCCALL") {
            Ok(NonTerminal::Funccall)
        } else if str_eq(s, "PARAMLISTCALL") {
            Ok(NonTerminal::Paramlistcall)
        } else if str_eq(s, "PARAMLISTCALL1") {
            Ok(NonTerminal::Paramlistcall1)
        } else if str_eq(s, "PRINTSTAT") {
            Ok(NonTerminal::Printstat)
        } else if str_eq(s, "READSTAT") {
            Ok(NonTerminal::Readstat)
        } else if str_eq(s, "RETURNSTAT") {
            Ok(NonTerminal::Returnstat)
        } else if str_eq(s, "IFSTAT") {
            Ok(NonTerminal::Ifstat)
        } else if str_eq(s, "ELSESTAT") {
            Ok(NonTerminal::Elsestat)
        } else if str_eq(s, "ELSESTAT1") {
            Ok(NonTerminal::Elsestat1)
        } else if str_eq(s, "FORSTAT") {
            Ok(NonTerminal::Forstat)
        } else if str_eq(s, "ALLOCEXPRESSION") {
            Ok(NonTerminal::Allocexpression)
        } else if str_eq(s, "EXPRESSION") {
            Ok(NonTerminal::Expression)
        } else if str_eq(s, "EXPRESSION1") {
            Ok(NonTerminal::Expression1)
        } else if str_eq(s, "NUMEXPRESSION") {
            Ok(NonTerminal::Numexpression)
        } else if str_eq(s, "NUMEXPRESSION1") {
            Ok(NonTerminal::Numexpression1)
        } else if str_eq(s, "TERM") {
            Ok(NonTerminal::Term)
        } else if str_eq(s, "TERM1") {
            Ok(NonTerminal::Term1)
        } else if str_eq(s, "UNARYEXPRESSION") {
            Ok(NonTerminal::Unaryexpression)
        } else if str_eq(s, "FACTOR") {
            Ok(NonTerminal::Factor)
        } else if str_eq(s, "LVALUE") {
            Ok(NonTerminal::Lvalue)
        } else if str_eq(s, "CONSTANT") {
            Ok(NonTerminal::Constant)
        } else if str_eq(s, "OP_EXPRESSION") {
            Ok(NonTerminal::OpExpression)
        } else if str_eq(s, "OP_NUMEXPRESSION") {
            Ok(NonTerminal::OpNumexpression)
        } else if str_eq(s, "OP_TERM") {
            Ok(NonTerminal::OpTerm)
        } else {
            Err(UnknownName { name: s.to_owned() })
        }
    }

    /// The position of the non-terminal in the vocabulary.
    pub fn index(&self) -> (r: usize)
        ensures
            r == self.spec_index(),
            r < NON_TERMINAL_COUNT,
    {
        match self {
            NonTerminal::Program => 0,
            NonTerminal::Funclist => 1,
            NonTerminal::Funcdef => 2,
            NonTerminal::Paramlist => 3,
            NonTerminal::Paramlist1 => 4,
            NonTerminal::Statelist => 5,
            NonTerminal::Statelist1 => 6,
            NonTerminal::Statement => 7,
            NonTerminal::Vardecl => 8,
            NonTerminal::ConstIndex => 9,
            NonTerminal::VarIndex => 10,
            NonTerminal::Atribstat => 11,
            NonTerminal::Atribstatevalue => 12,
            NonTerminal::Funccall => 13,
            NonTerminal::Paramlistcall => 14,
            NonTerminal::Paramlistcall1 => 15,
            NonTerminal::Printstat => 16,
            NonTerminal::Readstat => 17,
            NonTerminal::Returnstat => 18,
            NonTerminal::Ifstat => 19,
            NonTerminal::Elsestat => 20,
            NonTerminal::Elsestat1 => 21,
            NonTerminal::Forstat => 22,
            NonTerminal::Allocexpression => 23,
            NonTerminal::Expression => 24,
            NonTerminal::Expression1 => 25,
            NonTerminal::Numexpression => 26,
            NonTerminal::Numexpression1 => 27,
            NonTerminal::Term => 28,
            NonTerminal::Term1 => 29,
            NonTerminal::Unaryexpression => 30,
            NonTerminal::Factor => 31,
            NonTerminal::Lvalue => 32,
            NonTerminal::Constant => 33,
            NonTerminal::OpExpression => 34,
            NonTerminal::OpNumexpression => 35,
            NonTerminal::OpTerm => 36,
        }
    }

    /// The identifier of the variant.
    pub fn as_variant_name(&self) -> (r: &'static str)
        ensures
            r@ == self.variant_name(),
    {
        match self {
            NonTerminal::Program => "Program",
            NonTerminal::Funclist => "Funclist",
            NonTerminal::Funcdef => "Funcdef",
            NonTerminal::Paramlist => "Paramlist",
            NonTerminal::Paramlist1 => "Paramlist1",
            NonTerminal::Statelist => "Statelist",
            NonTerminal::Statelist1 => "Statelist1",
            NonTerminal::Statement => "Statement",
            NonTerminal::Vardecl => "Vardecl",
            NonTerminal::ConstIndex => "ConstIndex",
            NonTerminal::VarIndex => "VarIndex",
            NonTerminal::Atribstat => "Atribstat",
            NonTerminal::Atribstatevalue => "Atribstatevalue",
            NonTerminal::Funccall => "Funccall",
            NonTerminal::Paramlistcall => "Paramlistcall",
            NonTerminal::Paramlistcall1 => "Paramlistcall1",
            NonTerminal::Printstat => "Printstat",
            NonTerminal::Readstat => "Readstat",
            NonTerminal::Returnstat => "Returnstat",
            NonTerminal::Ifstat => "Ifstat",
            NonTerminal::Elsestat => "Elsestat",
            NonTerminal::Elsestat1 => "Elsestat1",
            NonTerminal::Forstat => "Forstat",
            NonTerminal::Allocexpression => "Allocexpression",
            NonTerminal::Expression => "Expression",
            NonTerminal::Expression1 => "Expression1",
            NonTerminal::Numexpression => "Numexpression",
            NonTerminal::Numexpression1 => "Numexpression1",
            NonTerminal::Term => "Term",
            NonTerminal::Term1 => "Term1",
            NonTerminal::Unaryexpression => "Unaryexpression",
            NonTerminal::Factor => "Factor",
            NonTerminal::Lvalue => "Lvalue",
            NonTerminal::Constant => "Constant",
            NonTerminal::OpExpression => "OpExpression",
            NonTerminal::OpNumexpression => "OpNumexpression",
            NonTerminal::OpTerm => "OpTerm",
        }
    }
}

/// Distinct non-terminals have distinct names.
pub proof fn lemma_non_terminal_names_distinct(a: NonTerminal, b: NonTerminal)
    requires
        a.name() == b.name(),
    ensures
        a == b,
{
    reveal_non_terminal_names();
}

/// Distinct non-terminals have distinct positions, all below the count.
pub proof fn lemma_non_terminal_index_distinct(a: NonTerminal, b: NonTerminal)
    ensures
        a.spec_index() < NON_TERMINAL_COUNT,
        a.spec_index() == b.spec_index() ==> a == b,
{
}

proof fn reveal_non_terminal_names()
    ensures
        "PROGRAM"@ == seq!['P', 'R', 'O', 'G', 'R', 'A', 'M'],
        "PROGRAM"@.len() == 7,
        "FUNCLIST"@ == seq!['F', 'U', 'N', 'C', 'L', 'I', 'S', 'T'],
        "FUNCLIST"@.len() == 8,
        "FUNCDEF"@ == seq!['F', 'U', 'N', 'C', 'D', 'E', 'F'],
        "FUNCDEF"@.len() == 7,
        "PARAMLIST"@ == seq!['P', 'A', 'R', 'A', 'M', 'L', 'I', 'S', 'T'],
        "PARAMLIST"@.len() == 9,
        "PARAMLIST1"@ == seq!['P', 'A', 'R', 'A', 'M', 'L', 'I', 'S', 'T', '1'],
        "PARAMLIST1"@.len() == 10,
        "STATELIST"@ == seq!['S', 'T', 'A', 'T', 'E', 'L', 'I', 'S', 'T'],
        "STATELIST"@.len() == 9,
        "STATELIST1"@ == seq!['S', 'T', 'A', 'T', 'E', 'L', 'I', 'S', 'T', '1'],
        "STATELIST1"@.len() == 10,
        "STATEMENT"@ == seq!['S', 'T', 'A', 'T', 'E', 'M', 'E', 'N', 'T'],
        "STATEMENT"@.len() == 9,
        "VARDECL"@ == seq!['V', 'A', 'R', 'D', 'E', 'C', 'L'],
        "VARDECL"@.len() == 7,
        "CONST_INDEX"@ == seq!['C', 'O', 'N', 'S', 'T', '_', 'I', 'N', 'D', 'E', 'X'],
        "CONST_INDEX"@.len() == 11,
        "VAR_INDEX"@ == seq!['V', 'A', 'R', '_', 'I', 'N', 'D', 'E', 'X'],
        "VAR_INDEX"@.len() == 9,
        "ATRIBSTAT"@ == seq!['A', 'T', 'R', 'I', 'B', 'S', 'T', 'A', 'T'],
        "ATRIBSTAT"@.len() == 9,
        "ATRIBSTATEVALUE"@ == seq!['A', 'T', 'R', 'I', 'B', 'S', 'T', 'A', 'T', 'E', 'V', 'A', 'L', 'U', 'E'],
        "ATRIBSTATEVALUE"@.len() == 15,
        "FUNCCALL"@ == seq!['F', 'U', 'N', 'C', 'C', 'A', 'L', 'L'],
        "FUNCCALL"@.len() == 8,
        "PARAMLISTCALL"@ == seq!['P', 'A', 'R', 'A', 'M', 'L', 'I', 'S', 'T', 'C', 'A', 'L', 'L'],
        "PARAMLISTCALL"@.len() == 13,
        "PARAMLISTCALL1"@ == seq!['P', 'A', 'R', 'A', 'M', 'L', 'I', 'S', 'T', 'C', 'A', 'L', 'L', '1'],
        "PARAMLISTCALL1"@.len() == 14,
        "PRINTSTAT"@ == seq!['P', 'R', 'I', 'N', 'T', 'S', 'T', 'A', 'T'],
        "PRINTSTAT"@.len() == 9,
        "READSTAT"@ == seq!['R', 'E', 'A', 'D', 'S', 'T', 'A', 'T'],
        "READSTAT"@.len() == 8,
        "RETURNSTAT"@ == seq!['R', 'E', 'T', 'U', 'R', 'N', 'S', 'T', 'A', 'T'],
        "RETURNSTAT"@.len() == 10,
        "IFSTAT"@ == seq!['I', 'F', 'S', 'T', 'A', 'T'],
        "IFSTAT"@.len() == 6,
        "ELSESTAT"@ == seq!['E', 'L', 'S', 'E', 'S', 'T', 'A', 'T'],
        "ELSESTAT"@.len() == 8,
        "ELSESTAT1"@ == seq!['E', 'L', 'S', 'E', 'S', 'T', 'A', 'T', '1'],
        "ELSESTAT1"@.len() == 9,
        "FORSTAT"@ == seq!['F', 'O', 'R', 'S', 'T', 'A', 'T'],
        "FORSTAT"@.len() == 7,
        "ALLOCEXPRESSION"@ == seq!['A', 'L', 'L', 'O', 'C', 'E', 'X', 'P', 'R', 'E', 'S', 'S', 'I', 'O', 'N'],
        "ALLOCEXPRESSION"@.len() == 15,
        "EXPRESSION"@ == seq!['E', 'X', 'P', 'R', 'E', 'S', 'S', 'I', 'O', 'N'],
        "EXPRESSION"@.len() == 10,
        "EXPRESSION1"@ == seq!['E', 'X', 'P', 'R', 'E', 'S', 'S', 'I', 'O', 'N', '1'],
        "EXPRESSION1"@.len() == 11,
        "NUMEXPRESSION"@ == seq!['N', 'U', 'M', 'E', 'X', 'P', 'R', 'E', 'S', 'S', 'I', 'O', 'N'],
        "NUMEXPRESSION"@.len() == 13,
        "NUMEXPRESSION1"@ == seq!['N', 'U', 'M', 'E', 'X', 'P', 'R', 'E', 'S', 'S', 'I', 'O', 'N', '1'],
        "NUMEXPRESSION1"@.len() == 14,
        "TERM"@ == seq!['T', 'E', 'R', 'M'],
        "TERM"@.len() == 4,
        "TERM1"@ == seq!['T', 'E', 'R', 'M', '1'],
        "TERM1"@.len() == 5,
        "UNARYEXPRESSION"@ == seq!['U', 'N', 'A', 'R', 'Y', 'E', 'X', 'P', 'R', 'E', 'S', 'S', 'I', 'O', 'N'],
        "UNARYEXPRESSION"@.len() == 15,
        "FACTOR"@ == seq!['F', 'A', 'C', 'T', 'O', 'R'],
        "FACTOR"@.len() == 6,
        "LVALUE"@ == seq!['L', 'V', 'A', 'L', 'U', 'E'],
        "LVALUE"@.len() == 6,
        "CONSTANT"@ == seq!['C', 'O', 'N', 'S', 'T', 'A', 'N', 'T'],
        "CONSTANT"@.len() == 8,
        "OP_EXPRESSION"@ == seq!['O', 'P', '_', 'E', 'X', 'P', 'R', 'E', 'S', 'S', 'I', 'O', 'N'],
        "OP_EXPRESSION"@.len() == 13,
        "OP_NUMEXPRESSION"@ == seq!['O', 'P', '_', 'N', 'U', 'M', 'E', 'X', 'P', 'R', 'E', 'S', 'S', 'I', 'O', 'N'],
        "OP_NUMEXPRESSION"@.len() == 16,
        "OP_TERM"@ == seq!['O', 'P', '_', 'T', 'E', 'R', 'M'],
        "OP_TERM"@.len() == 7,
{
    reveal_strlit("PROGRAM");
    reveal_strlit("FUNCLIST");
    reveal_strlit("FUNCDEF");
    reveal_strlit("PARAMLIST");
    reveal_strlit("PARAMLIST1");
    reveal_strlit("STATELIST");
    reveal_strlit("STATELIST1");
    reveal_strlit("STATEMENT");
    reveal_strlit("VARDECL");
    reveal_strlit("CONST_INDEX");
    reveal_strlit("VAR_INDEX");
    reveal_strlit("ATRIBSTAT");
    reveal_strlit("ATRIBSTATEVALUE");
    reveal_strlit("FUNCCALL");
    reveal_strlit("PARAMLISTCALL");
    reveal_strlit("PARAMLISTCALL1");
    reveal_strlit("PRINTSTAT");
    reveal_strlit("READSTAT");
    reveal_strlit("RETURNSTAT");
    reveal_strlit("IFSTAT");
    reveal_strlit("ELSESTAT");
    reveal_strlit("ELSESTAT1");
    reveal_strlit("FORSTAT");
    reveal_strlit("ALLOCEXPRESSION");
    reveal_strlit("EXPRESSION");
    reveal_strlit("EXPRESSION1");
    reveal_strlit("NUMEXPRESSION");
    reveal_strlit("NUMEXPRESSION1");
    reveal_strlit("TERM");
    reveal_strlit("TERM1");
    reveal_strlit("UNARYEXPRESSION");
    reveal_strlit("FACTOR");
    reveal_strlit("LVALUE");
    reveal_strlit("CONSTANT");
    reveal_strlit("OP_EXPRESSION");
    reveal_strlit("OP_NUMEXPRESSION");
    reveal_strlit("OP_TERM");
    assert("PROGRAM"@ =~= seq!['P', 'R', 'O', 'G', 'R', 'A', 'M']);
    assert("FUNCLIST"@ =~= seq!['F', 'U', 'N', 'C', 'L', 'I', 'S', 'T']);
    assert("FUNCDEF"@ =~= seq!['F', 'U', 'N', 'C', 'D', 'E', 'F']);
    assert("PARAMLIST"@ =~= seq!['P', 'A', 'R', 'A', 'M', 'L', 'I', 'S', 'T']);
    assert("PARAMLIST1"@ =~= seq!['P', 'A', 'R', 'A', 'M', 'L', 'I', 'S', 'T', '1']);
    assert("STATELIST"@ =~= seq!['S', 'T', 'A', 'T', 'E', 'L', 'I', 'S', 'T']);
    assert("STATELIST1"@ =~= seq!['S', 'T', 'A', 'T', 'E', 'L', 'I', 'S', 'T', '1']);
    assert("STATEMENT"@ =~= seq!['S', 'T', 'A', 'T', 'E', 'M', 'E', 'N', 'T']);
    assert("VARDECL"@ =~= seq!['V', 'A', 'R', 'D', 'E', 'C', 'L']);
    assert("CONST_INDEX"@ =~= seq!['C', 'O', 'N', 'S', 'T', '_', 'I', 'N', 'D', 'E', 'X']);
    assert("VAR_INDEX"@ =~= seq!['V', 'A', 'R', '_', 'I', 'N', 'D', 'E', 'X']);
    assert("ATRIBSTAT"@ =~= seq!['A', 'T', 'R', 'I', 'B', 'S', 'T', 'A', 'T']);
    assert("ATRIBSTATEVALUE"@ =~= seq!['A', 'T', 'R', 'I', 'B', 'S', 'T', 'A', 'T', 'E', 'V', 'A', 'L', 'U', 'E']);
    assert("FUNCCALL"@ =~= seq!['F', 'U', 'N', 'C', 'C', 'A', 'L', 'L']);
    assert("PARAMLISTCALL"@ =~= seq!['P', 'A', 'R', 'A', 'M', 'L', 'I', 'S', 'T', 'C', 'A', 'L', 'L']);
    assert("PARAMLISTCALL1"@ =~= seq!['P', 'A', 'R', 'A', 'M', 'L', 'I', 'S', 'T', 'C', 'A', 'L', 'L', '1']);
    assert("PRINTSTAT"@ =~= seq!['P', 'R', 'I', 'N', 'T', 'S', 'T', 'A', 'T']);
    assert("READSTAT"@ =~= seq!['R', 'E', 'A', 'D', 'S', 'T', 'A', 'T']);
    assert("RETURNSTAT"@ =~= seq!['R', 'E', 'T', 'U', 'R', 'N', 'S', 'T', 'A', 'T']);
    assert("IFSTAT"@ =~= seq!['I', 'F', 'S', 'T', 'A', 'T']);
    assert("ELSESTAT"@ =~= seq!['E', 'L', 'S', 'E', 'S', 'T', 'A', 'T']);
    assert("ELSESTAT1"@ =~= seq!['E', 'L', 'S', 'E', 'S', 'T', 'A', 'T', '1']);
    assert("FORSTAT"@ =~= seq!['F', 'O', 'R', 'S', 'T', 'A', 'T']);
    assert("ALLOCEXPRESSION"@ =~= seq!['A', 'L', 'L', 'O', 'C', 'E', 'X', 'P', 'R', 'E', 'S', 'S', 'I', 'O', 'N']);
    assert("EXPRESSION"@ =~= seq!['E', 'X', 'P', 'R', 'E', 'S', 'S', 'I', 'O', 'N']);
    assert("EXPRESSION1"@ =~= seq!['E', 'X', 'P', 'R', 'E', 'S', 'S', 'I', 'O', 'N', '1']);
    assert("NUMEXPRESSION"@ =~= seq!['N', 'U', 'M', 'E', 'X', 'P', 'R', 'E', 'S', 'S', 'I', 'O', 'N']);
    assert("NUMEXPRESSION1"@ =~= seq!['N', 'U', 'M', 'E', 'X', 'P', 'R', 'E', 'S', 'S', 'I', 'O', 'N', '1']);
    assert("TERM"@ =~= seq!['T', 'E', 'R', 'M']);
    assert("TERM1"@ =~= seq!['T', 'E', 'R', 'M', '1']);
    assert("UNARYEXPRESSION"@ =~= seq!['U', 'N', 'A', 'R', 'Y', 'E', 'X', 'P', 'R', 'E', 'S', 'S', 'I', 'O', 'N']);
    assert("FACTOR"@ =~= seq!['F', 'A', 'C', 'T', 'O', 'R']);
    assert("LVALUE"@ =~= seq!['L', 'V', 'A', 'L', 'U', 'E']);
    assert("CONSTANT"@ =~= seq!['C', 'O', 'N', 'S', 'T', 'A', 'N', 'T']);
    assert("OP_EXPRESSION"@ =~= seq!['O', 'P', '_', 'E', 'X', 'P', 'R', 'E', 'S', 'S', 'I', 'O', 'N']);
    assert("OP_NUMEXPRESSION"@ =~= seq!['O', 'P', '_', 'N', 'U', 'M', 'E', 'X', 'P', 'R', 'E', 'S', 'S', 'I', 'O', 'N']);
    assert("OP_TERM"@ =~= seq!['O', 'P', '_', 'T', 'E', 'R', 'M']);
}

/// A grammar symbol: a non-terminal, or a terminal that stands for one
/// kind of token.
#[derive(Debug, Clone, Copy, PartialEq, Eq, Hash, Structural)]
pub enum Symbol {
    NonTerminal(NonTerminal),
    Terminal(TokenType),
}

/// A production rule. A rule without a body produces the empty word.
#[derive(Debug, PartialEq, Eq)]
pub struct Rule {
    pub head: NonTerminal,
    pub body: Option<Vec<Symbol>>,
}

/// The mathematical value of a [`Rule`].
pub struct RuleView {
    pub head: NonTerminal,
    pub body: Option<Seq<Symbol>>,
}

impl View for Rule {
    type V = RuleView;

    open spec fn view(&self) -> RuleView {
        RuleView {
            head: self.head,
            body: match self.body {
                Some(b) => Some(b@),
                None => None,
            },
        }
    }
}

/// The views of a sequence of rules.
pub open spec fn rule_views(rules: Seq<Rule>) -> Seq<RuleView> {
    Seq::new(rules.len(), |i: int| rules[i]@)
}

/// How many pairs of a non-terminal and a lookahead there are.
pub const CELL_COUNT: usize = 1369;

/// Where the entry for a non-terminal and a lookahead stands among the
/// cells of a table.
pub open spec fn cell_index(key: (NonTerminal, TokenType)) -> int {
    key.0.spec_index() * TOKEN_TYPE_COUNT + key.1.spec_index()
}

/// Each pair of a non-terminal and a lookahead has a cell of its own.
pub proof fn lemma_cell_index_distinct(a: (NonTerminal, TokenType), b: (NonTerminal, TokenType))
    ensures
        0 <= cell_index(a) < NON_TERMINAL_COUNT * TOKEN_TYPE_COUNT,
        cell_index(a) == cell_index(b) ==> a == b,
{
    lemma_non_terminal_index_distinct(a.0, b.0);
    crate::grammar::token_type::lemma_index_distinct(a.1, b.1);
}

/// The LL(1) decision table: for a non-terminal and the kind of the
/// lookahead token, the index of the rule to expand. A pair without an
/// entry is a syntax error.
#[derive(Debug, PartialEq, Eq)]
pub struct ParseTable {
    cells: [Option<u32>; CELL_COUNT],
}

impl View for ParseTable {
    type V = Map<(NonTerminal, TokenType), u32>;

    closed spec fn view(&self) -> Map<(NonTerminal, TokenType), u32> {
        Map::new(
            |key: (NonTerminal, TokenType)| self.cells@[cell_index(key)].is_some(),
            |key: (NonTerminal, TokenType)| self.cells@[cell_index(key)].unwrap(),
        )
    }
}

impl ParseTable {
    /// The table without entries.
    pub fn new() -> (r: ParseTable)
        ensures
            r@ == Map::<(NonTerminal, TokenType), u32>::empty(),
    {
        let r = ParseTable { cells: [None; CELL_COUNT] };
        proof {
            assert forall|key: (NonTerminal, TokenType)| !r@.dom().contains(key) by {
                lemma_cell_index_distinct(key, key);
            }
            assert(r@ =~= Map::<(NonTerminal, TokenType), u32>::empty());
        }
        r
    }

    /// Sets the entry for `non_terminal` and `lookahead`, and returns
    /// the entry that was there.
    pub fn insert(&mut self, non_terminal: NonTerminal, lookahead: TokenType, rule: u32) -> (r:
        Option<u32>)
        ensures
            final(self)@ == old(self)@.insert((non_terminal, lookahead), rule),
            r == if old(self)@.dom().contains((non_terminal, lookahead)) {
                Some(old(self)@[(non_terminal, lookahead)])
            } else {
                None
            },
    {
        proof {
            lemma_cell_index_distinct((non_terminal, lookahead), (non_terminal, lookahead));
        }
        let at = non_terminal.index() * TOKEN_TYPE_COUNT + lookahead.index();
        let before = self.cells[at];
        self.cells[at] = Some(rule);
        proof {
            assert forall|key: (NonTerminal, TokenType)|
                final(self)@.dom().contains(key) == old(self)@.insert(
                    (non_terminal, lookahead),
                    rule,
                ).dom().contains(key) && (final(self)@.dom().contains(key) ==> final(self)@[key]
                    == old(self)@.insert((non_terminal, lookahead), rule)[key]) by {
                lemma_cell_index_distinct(key, (non_terminal, lookahead));
            }
            assert(final(self)@ =~= old(self)@.insert((non_terminal, lookahead), rule));
        }
        before
    }

    /// The entry for `non_terminal` and `lookahead`, if there is one.
    pub fn get(&self, non_terminal: NonTerminal, lookahead: TokenType) -> (r: Option<u32>)
        ensures
            r == if self@.dom().contains((non_terminal, lookahead)) {
                Some(self@[(non_terminal, lookahead)])
            } else {
                None
            },
    {
        proof {
            lemma_cell_index_distinct((non_terminal, lookahead), (non_terminal, lookahead));
        }
        self.cells[non_terminal.index() * TOKEN_TYPE_COUNT + lookahead.index()]
    }

    /// The largest rule index among the entries, if there is an entry.
    fn largest_rule(&self) -> (r: Option<u32>)
        ensures
            match r {
                Some(top) => {
                    &&& exists|key: (NonTerminal, TokenType)|
                        self@.dom().contains(key) && self@[key] == top
                    &&& forall|key: (NonTerminal, TokenType)|
                        self@.dom().contains(key) ==> self@[key] <= top
                },
                None => self@ == Map::<(NonTerminal, TokenType), u32>::empty(),
            },
    {
        let mut top: Option<u32> = None;
        let mut i: usize = 0;
        while i < self.cells.len()
            invariant
                i <= self.cells@.len(),
                self.cells@.len() == CELL_COUNT,
                match top {
                    Some(t) => {
                        &&& exists|j: int| 0 <= j < i && self.cells@[j] == Some(t)
                        &&& forall|j: int|
                            0 <= j < i && self.cells@[j].is_some() ==> self.cells@[j].unwrap() <= t
                    },
                    None => forall|j: int| 0 <= j < i ==> self.cells@[j].is_none(),
                },
            decreases self.cells@.len() - i,
        {
            match self.cells[i] {
                Some(rule) => {
                    let larger = match top {
                        Some(t) => rule > t,
                        None => true,
                    };
                    if larger {
                        top = Some(rule);
                    }
                },
                None => {},
            }
            i = i + 1;
        }
        proof {
            match top {
                Some(t) => {
                    let j = choose|j: int| 0 <= j < i && self.cells@[j] == Some(t);
                    let n: int = j / (TOKEN_TYPE_COUNT as int);
                    let t_at: int = j % (TOKEN_TYPE_COUNT as int);
                    let key = (non_terminal_at(n), token_type_at(t_at));
                    lemma_positions(n, t_at);
                    assert(cell_index(key) == j);
                    assert(self@.dom().contains(key) && self@[key] == t);
                    assert forall|key: (NonTerminal, TokenType)|
                        self@.dom().contains(key) implies self@[key] <= t by {
                        lemma_cell_index_distinct(key, key);
                    }
                },
                None => {
                    assert forall|key: (NonTerminal, TokenType)| !self@.dom().contains(key) by {
                        lemma_cell_index_distinct(key, key);
                    }
                    assert(self@ =~= Map::<(NonTerminal, TokenType), u32>::empty());
                },
            }
        }
        top
    }
}

/// The non-terminal at a position of the vocabulary.
pub open spec fn non_terminal_at(i: int) -> NonTerminal {
    if i == 0 {
        NonTerminal::Program
    } else if i == 1 {
        NonTerminal::Funclist
    } else if i == 2 {
        NonTerminal::Funcdef
    } else if i == 3 {
        NonTerminal::Paramlist
    } else if i == 4 {
        NonTerminal::Paramlist1
    } else if i == 5 {
        NonTerminal::Statelist
    } else if i == 6 {
        NonTerminal::Statelist1
    } else if i == 7 {
        NonTerminal::Statement
    } else if i == 8 {
        NonTerminal::Vardecl
    } else if i == 9 {
        NonTerminal::ConstIndex
    } else if i == 10 {
        NonTerminal::VarIndex
    } else if i == 11 {
        NonTerminal::Atribstat
    } else if i == 12 {
        NonTerminal::Atribstatevalue
    } else if i == 13 {
        NonTerminal::Funccall
    } else if i == 14 {
        NonTerminal::Paramlistcall
    } else if i == 15 {
        NonTerminal::Paramlistcall1
    } else if i == 16 {
        NonTerminal::Printstat
    } else if i == 17 {
        NonTerminal::Readstat
    } else if i == 18 {
        NonTerminal::Returnstat
    } else if i == 19 {
        NonTerminal::Ifstat
    } else if i == 20 {
        NonTerminal::Elsestat
    } else if i == 21 {
        NonTerminal::Elsestat1
    } else if i == 22 {
        NonTerminal::Forstat
    } else if i == 23 {
        NonTerminal::Allocexpression
    } else if i == 24 {
        NonTerminal::Expression
    } else if i == 25 {
        NonTerminal::Expression1
    } else if i == 26 {
        NonTerminal::Numexpression
    } else if i == 27 {
        NonTerminal::Numexpression1
    } else if i == 28 {
        NonTerminal::Term
    } else if i == 29 {
        NonTerminal::Term1
    } else if i == 30 {
        NonTerminal::Unaryexpression
    } else if i == 31 {
        NonTerminal::Factor
    } else if i == 32 {
        NonTerminal::Lvalue
    } else if i == 33 {
        NonTerminal::Constant
    } else if i == 34 {
        NonTerminal::OpExpression
    } else if i == 35 {
        NonTerminal::OpNumexpression
    } else {
        NonTerminal::OpTerm
    }
}

/// The token kind at a position of the vocabulary.
pub open spec fn token_type_at(i: int) -> TokenType {
    if i == 0 {
        TokenType::Comma
    } else if i == 1 {
        TokenType::ConstFloat
    } else if i == 2 {
        TokenType::ConstInt
    } else if i == 3 {
        TokenType::ConstNull
    } else if i == 4 {
        TokenType::ConstString
    } else if i == 5 {
        TokenType::Eof
    } else if i == 6 {
        TokenType::FuncId
    } else if i == 7 {
        TokenType::Id
    } else if i == 8 {
        TokenType::KwBreak
    } else if i == 9 {
        TokenType::KwDef
    } else if i == 10 {
        TokenType::KwElse
    } else if i == 11 {
        TokenType::KwFor
    } else if i == 12 {
        TokenType::KwIf
    } else if i == 13 {
        TokenType::KwNew
    } else if i == 14 {
        TokenType::KwPrint
    } else if i == 15 {
        TokenType::KwRead
    } else if i == 16 {
        TokenType::KwReturn
    } else if i == 17 {
        TokenType::Lbrace
    } else if i == 18 {
        TokenType::Lbracket
    } else if i == 19 {
        TokenType::Lparenthesis
    } else if i == 20 {
        TokenType::OpAssign
    } else if i == 21 {
        TokenType::OpDivision
    } else if i == 22 {
        TokenType::OpEq
    } else if i == 23 {
        TokenType::OpGe
    } else if i == 24 {
        TokenType::OpGt
    } else if i == 25 {
        TokenType::OpLe
    } else if i == 26 {
        TokenType::OpLt
    } else if i == 27 {
        TokenType::OpMinus
    } else if i == 28 {
        TokenType::OpModular
    } else if i == 29 {
        TokenType::OpMultiply
    } else if i == 30 {
        TokenType::OpNe
    } else if i == 31 {
        TokenType::OpPlus
    } else if i == 32 {
        TokenType::Rbrace
    } else if i == 33 {
        TokenType::Rbracket
    } else if i == 34 {
        TokenType::Rparenthesis
    } else if i == 35 {
        TokenType::Semicolon
    } else {
        TokenType::VarType
    }
}

/// Every position below the counts is that of a symbol.
pub proof fn lemma_positions(n: int, t: int)
    requires
        0 <= n < NON_TERMINAL_COUNT,
        0 <= t < TOKEN_TYPE_COUNT,
    ensures
        non_terminal_at(n).spec_index() == n,
        token_type_at(t).spec_index() == t,
{
}

/// Whether `rule` is the largest rule index among the entries of a
/// table.
pub open spec fn is_largest_rule(table: Map<(NonTerminal, TokenType), u32>, rule: u32) -> bool {
    &&& exists|key: (NonTerminal, TokenType)| table.dom().contains(key) && table[key] == rule
    &&& forall|key: (NonTerminal, TokenType)| table.dom().contains(key) ==> table[key] <= rule
}

/// Why a set of rules and a table do not make a grammar.
#[derive(Debug, Clone, Copy, PartialEq, Eq, Structural)]
pub enum GrammarError {
    /// The table holds the index of a rule that does not exist. `rule`
    /// is the largest index in the table.
    MissingRule { rule: u32 },
}

/// The mathematical value of a [`Grammar`].
pub struct GrammarView {
    pub rules: Seq<RuleView>,
    pub table: Map<(NonTerminal, TokenType), u32>,
}

impl GrammarView {
    /// Every entry of the table is the index of a rule.
    pub open spec fn well_formed(self) -> bool {
        forall|key: (NonTerminal, TokenType)| #[trigger]
            self.table.dom().contains(key) ==> self.table[key] < self.rules.len()
    }
}

/// Production rules with the decision table that selects among them.
/// Every entry of the table is the index of one of the rules.
#[derive(Debug, PartialEq, Eq)]
pub struct Grammar {
    rules: Vec<Rule>,
    table: ParseTable,
}

impl View for Grammar {
    type V = GrammarView;

    closed spec fn view(&self) -> GrammarView {
        GrammarView { rules: rule_views(self.rules@), table: self.table@ }
    }
}

impl Grammar {
    #[verifier::type_invariant]
    spec fn well_formed(self) -> bool {
        self@.well_formed()
    }

    /// Makes a grammar of `rules` and `table`, if every entry of the
    /// table is the index of a rule.
    pub fn new(rules: Vec<Rule>, table: ParseTable) -> (r: Result<Grammar, GrammarError>)
        ensures
            match r {
                Ok(g) => {
                    &&& g@.rules == rule_views(rules@)
                    &&& g@.table == table@
                    &&& g@.well_formed()
                },
                Err(GrammarError::MissingRule { rule }) => {
                    &&& rule >= rules@.len()
                    &&& is_largest_rule(table@, rule)
                },
            },
    {
        match table.largest_rule() {
            Some(top) => {
                if top as usize >= rules.len() {
                    return Err(GrammarError::MissingRule { rule: top });
                }
            },
            None => {},
        }
        Ok(Grammar { rules, table })
    }

    /// The rules, in the order in which the table counts them.
    pub fn rules(&self) -> (r: &Vec<Rule>)
        ensures
            rule_views(r@) == self@.rules,
    {
        &self.rules
    }

    /// The decision table.
    pub fn table(&self) -> (r: &ParseTable)
        ensures
            r@ == self@.table,
    {
        &self.table
    }

    /// The rule that the table selects for `non_terminal` and
    /// `lookahead`, if it has an entry for them.
    pub fn select(&self, non_terminal: NonTerminal, lookahead: TokenType) -> (r: Option<&Rule>)
        ensures
            self@.well_formed(),
            match r {
                Some(rule) => {
                    &&& self@.table.dom().contains((non_terminal, lookahead))
                    &&& rule@ == self@.rules[self@.table[(non_terminal, lookahead)] as int]
                },
                None => !self@.table.dom().contains((non_terminal, lookahead)),
            },
    {
        proof {
            use_type_invariant(self);
        }
        match self.table.get(non_terminal, lookahead) {
            Some(rule) => {
                assert(self@.table.dom().contains((non_terminal, lookahead)));
                Some(&self.rules[rule as usize])
            },
            None => None,
        }
    }
}

} // verus!
