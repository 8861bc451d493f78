//! The errors of the semantic analysis.

use vstd::prelude::*;
use vstd::string::*;
use crate::grammar::const_type::VarType;
use crate::text::{append_decimal, decimal};

verus! {

/// The kinds of semantic error.
#[derive(Debug, Clone, Copy, PartialEq, Eq, Hash, Structural)]
pub enum SemanticErrorKind {
    /// A name declared twice in one scope.
    Redefinition,
    /// A name used without a declaration in any open scope.
    UndeclaredSymbol,
    /// Types that should be equal and are not.
    TypeMismatch,
    /// A `break` outside every loop.
    IllegalBreak,
    /// A `return` outside every function.
    IllegalReturn,
    /// An array element with more indices than the array was declared
    /// with bounds.
    ArityOrBounds,
    /// A tree that no parse tree gives.
    MalformedTree,
}

/// A semantic error: the rule that was broken, the name it is about and
/// the place in the source, as far as there is one.
#[derive(Debug, PartialEq, Eq)]
pub enum SemanticError {
    /// A name is declared a second time in the same scope.
    Redefinition { name: String, line: usize, column: usize },
    /// A name is used that no open scope declares.
    SymbolNotFound { name: String, line: usize, column: usize },
    /// A function is called that no open scope declares, or the name
    /// that is called is that of a variable.
    UndefinedFunction { name: String, line: usize, column: usize },
    /// An argument of a call names a variable that no open scope declares.
    UndefinedArgument { name: String, line: usize, column: usize },
    /// The value assigned to a variable is not of the variable's type. The
    /// place is that of the value.
    AssignmentMismatch { name: String, line: usize, column: usize },
    /// The two sides of a comparison differ in type. The place is that of the right side.
    ExpressionMismatch { line: usize, column: usize },
    /// The two operands of an arithmetic operator differ in type. The place
    /// is that of the right operand.
    NumericMismatch { line: usize, column: usize },
    /// The arguments of a call differ from the parameters of the function in number or in type.
    ArgumentMismatch { name: String, line: usize, column: usize },
    /// The name of a function is passed as an argument.
    FunctionAsArgument { name: String },
    /// The name of a function stands where a variable is expected.
    FunctionAsValue { name: String, line: usize, column: usize },
    /// A read statement names a variable that is not a string.
    ReadNotString { found: VarType, line: usize, column: usize },
    /// An index of an array element or a dimension of an allocation is
    /// not an integer.
    IndexNotInt { found: VarType, line: usize, column: usize },
    /// A variable that was declared with bounds is given more indices
    /// than it has bounds. The place is that of the variable's name.
    TooManyIndices { name: String, line: usize, column: usize },
    /// A `break` stands outside every loop.
    IllegalBreak { line: usize, column: usize },
    /// A `return` stands outside every function.
    IllegalReturn { line: usize, column: usize },
    /// The tree does not have a shape that a parse tree gives.
    MalformedTree,
}

/// The mathematical value of a [`SemanticError`].
pub enum SemanticErrorView {
    Redefinition { name: Seq<char>, line: usize, column: usize },
    SymbolNotFound { name: Seq<char>, line: usize, column: usize },
    UndefinedFunction { name: Seq<char>, line: usize, column: usize },
    UndefinedArgument { name: Seq<char>, line: usize, column: usize },
    AssignmentMismatch { name: Seq<char>, line: usize, column: usize },
    ExpressionMismatch { line: usize, column: usize },
    NumericMismatch { line: usize, column: usize },
    ArgumentMismatch { name: Seq<char>, line: usize, column: usize },
    FunctionAsArgument { name: Seq<char> },
    FunctionAsValue { name: Seq<char>, line: usize, column: usize },
    ReadNotString { found: VarType, line: usize, column: usize },
    IndexNotInt { found: VarType, line: usize, column: usize },
    TooManyIndices { name: Seq<char>, line: usize, column: usize },
    IllegalBreak { line: usize, column: usize },
    IllegalReturn { line: usize, column: usize },
    MalformedTree,
}

impl View for SemanticError {
    type V = SemanticErrorView;

    open spec fn view(&self) -> SemanticErrorView {
        match self {
            SemanticError::Redefinition { name, line, column } => SemanticErrorView::Redefinition {
                name: name@,
                line: *line,
                column: *column,
            },
            SemanticError::SymbolNotFound { name, line, column } => SemanticErrorView::SymbolNotFound {
                name: name@,
                line: *line,
                column: *column,
            },
            SemanticError::UndefinedFunction { name, line, column } => SemanticErrorView::UndefinedFunction {
                name: name@,
                line: *line,
                column: *column,
            },
            SemanticError::UndefinedArgument { name, line, column } => SemanticErrorView::UndefinedArgument {
                name: name@,
                line: *line,
                column: *column,
            },
            SemanticError::AssignmentMismatch { name, line, column } => SemanticErrorView::AssignmentMismatch {
                name: name@,
                line: *line,
                column: *column,
            },
            SemanticError::ExpressionMismatch { line, column } => SemanticErrorView::ExpressionMismatch {
                line: *line,
                column: *column,
            },
            SemanticError::NumericMismatch { line, column } => SemanticErrorView::NumericMismatch {
                line: *line,
                column: *column,
            },
            SemanticError::ArgumentMismatch { name, line, column } => SemanticErrorView::ArgumentMismatch {
                name: name@,
                line: *line,
                column: *column,
            },
            SemanticError::FunctionAsArgument { name } => SemanticErrorView::FunctionAsArgument {
                name: name@,
            },
            SemanticError::FunctionAsValue { name, line, column } => SemanticErrorView::FunctionAsValue {
                name: name@,
                line: *line,
                column: *column,
            },
            SemanticError::ReadNotString { found, line, column } => SemanticErrorView::ReadNotString {
                found: *found,
                line: *line,
                column: *column,
            },
            SemanticError::IndexNotInt { found, line, column } => SemanticErrorView::IndexNotInt {
                found: *found,
                line: *line,
                column: *column,
            },
            SemanticError::TooManyIndices { name, line, column } => SemanticErrorView::TooManyIndices {
                name: name@,
                line: *line,
                column: *column,
            },
            SemanticError::IllegalBreak { line, column } => SemanticErrorView::IllegalBreak {
                line: *line,
                column: *column,
            },
            SemanticError::IllegalReturn { line, column } => SemanticErrorView::IllegalReturn {
                line: *line,
                column: *column,
            },
            SemanticError::MalformedTree => SemanticErrorView::MalformedTree,
        }
    }
}

impl SemanticErrorView {
    /// The kind of the error.
    pub open spec fn kind(self) -> SemanticErrorKind {
        match self {
            SemanticErrorView::Redefinition { .. } => SemanticErrorKind::Redefinition,
            SemanticErrorView::SymbolNotFound { .. } => SemanticErrorKind::UndeclaredSymbol,
            SemanticErrorView::UndefinedFunction { .. } => SemanticErrorKind::UndeclaredSymbol,
            SemanticErrorView::UndefinedArgument { .. } => SemanticErrorKind::UndeclaredSymbol,
            SemanticErrorView::AssignmentMismatch { .. } => SemanticErrorKind::TypeMismatch,
            SemanticErrorView::ExpressionMismatch { .. } => SemanticErrorKind::TypeMismatch,
            SemanticErrorView::NumericMismatch { .. } => SemanticErrorKind::TypeMismatch,
            SemanticErrorView::ArgumentMismatch { .. } => SemanticErrorKind::TypeMismatch,
            SemanticErrorView::FunctionAsArgument { .. } => SemanticErrorKind::TypeMismatch,
            SemanticErrorView::FunctionAsValue { .. } => SemanticErrorKind::TypeMismatch,
            SemanticErrorView::ReadNotString { .. } => SemanticErrorKind::TypeMismatch,
            SemanticErrorView::IndexNotInt { .. } => SemanticErrorKind::TypeMismatch,
            SemanticErrorView::TooManyIndices { .. } => SemanticErrorKind::ArityOrBounds,
            SemanticErrorView::IllegalBreak { .. } => SemanticErrorKind::IllegalBreak,
            SemanticErrorView::IllegalReturn { .. } => SemanticErrorKind::IllegalReturn,
            SemanticErrorView::MalformedTree => SemanticErrorKind::MalformedTree,
        }
    }

    /// The place in the source that the error points at, if it has one.
    pub open spec fn position(self) -> Option<(usize, usize)> {
        match self {
            SemanticErrorView::Redefinition { line, column, .. } => Some((line, column)),
            SemanticErrorView::SymbolNotFound { line, column, .. } => Some((line, column)),
            SemanticErrorView::UndefinedFunction { line, column, .. } => Some((line, column)),
            SemanticErrorView::UndefinedArgument { line, column, .. } => Some((line, column)),
            SemanticErrorView::AssignmentMismatch { line, column, .. } => Some((line, column)),
            SemanticErrorView::ExpressionMismatch { line, column, .. } => Some((line, column)),
            SemanticErrorView::NumericMismatch { line, column, .. } => Some((line, column)),
            SemanticErrorView::ArgumentMismatch { line, column, .. } => Some((line, column)),
            SemanticErrorView::FunctionAsArgument { .. } => None,
            SemanticErrorView::FunctionAsValue { line, column, .. } => Some((line, column)),
            SemanticErrorView::ReadNotString { line, column, .. } => Some((line, column)),
            SemanticErrorView::IndexNotInt { line, column, .. } => Some((line, column)),
            SemanticErrorView::TooManyIndices { line, column, .. } => Some((line, column)),
            SemanticErrorView::IllegalBreak { line, column, .. } => Some((line, column)),
            SemanticErrorView::IllegalReturn { line, column, .. } => Some((line, column)),
            SemanticErrorView::MalformedTree => None,
        }
    }

    /// The message of the error.
    pub open spec fn message(self) -> Seq<char> {
        match self {
            SemanticErrorView::Redefinition { name, line, column } => "Erro semântico: Redefinição de símbolo na linha "@ + decimal(line as nat) + ", coluna "@ + decimal(column as nat) + ": '"@ + name + "'"@,
            SemanticErrorView::SymbolNotFound { name, line, column } => "Erro semântico: Símbolo não encontrado na linha "@ + decimal(line as nat) + ", coluna "@ + decimal(column as nat) + ": "@ + name,
            SemanticErrorView::UndefinedFunction { name, line, column } => "Erro Semântico: função '"@ + name + "' não definida nesse escopo na linha "@ + decimal(line as nat) + ", coluna "@ + decimal(column as nat),
            SemanticErrorView::UndefinedArgument { name, line, column } => "Erro semântico: variável '"@ + name + "' não definida no escopo atual na linha "@ + decimal(line as nat) + ", coluna "@ + decimal(column as nat),
            SemanticErrorView::AssignmentMismatch { name, line, column } => "Erro semântico: tipo incompatível na atribuição de '"@ + name + "' na linha "@ + decimal(line as nat) + " coluna "@ + decimal(column as nat),
            SemanticErrorView::ExpressionMismatch { line, column } => "Erro semântico: Tipos incompátiveis na expressão na linha "@ + decimal(line as nat) + " coluna "@ + decimal(column as nat),
            SemanticErrorView::NumericMismatch { line, column } => "Erro semântico: tipos incompatíveis na expressão numérica na linha "@ + decimal(line as nat) + " coluna "@ + decimal(column as nat),
            SemanticErrorView::ArgumentMismatch { name, line, column } => "Erro semântico: tipos de parâmetros incompatíveis na chamada da função '"@ + name + "' na linha "@ + decimal(line as nat) + ", coluna "@ + decimal(column as nat),
            SemanticErrorView::FunctionAsArgument { name } => "Erro semântico: função '"@ + name + "' não pode ser passada como parâmetro de outra função"@,
            SemanticErrorView::FunctionAsValue { name, line, column } => "Erro semântico: função '"@ + name + "' usada como variável na linha "@ + decimal(line as nat) + ", coluna "@ + decimal(column as nat),
            SemanticErrorView::ReadNotString { found, line, column } => "Erro semântico: comando Read deve atribuir valor a uma variável de tipo string, mas tipo "@ + found.variant_name() + " foi encontrado na linha "@ + decimal(line as nat) + " coluna "@ + decimal(column as nat),
            SemanticErrorView::IndexNotInt { found, line, column } => "Erro semântico: índice de variável deve ser do tipo 'int', encontrado '"@ + found.variant_name() + "' na linha "@ + decimal(line as nat) + ", coluna "@ + decimal(column as nat),
            SemanticErrorView::TooManyIndices { name, line, column } => "Erro semântico: variável '"@ + name + "' usada com mais índices do que as dimensões declaradas na linha "@ + decimal(line as nat) + ", coluna "@ + decimal(column as nat),
            SemanticErrorView::IllegalBreak { line, column } => "Erro semântico: Comando 'break' fora de um laço de repetição na linha "@ + decimal(line as nat) + " coluna "@ + decimal(column as nat),
            SemanticErrorView::IllegalReturn { line, column } => "Erro semântico: Comando 'return' fora de uma função na linha "@ + decimal(line as nat) + " coluna "@ + decimal(column as nat),
            SemanticErrorView::MalformedTree => "Erro semântico: árvore sintática abstrata malformada"@,
        }
    }
}

impl SemanticError {
    /// The kind of the error.
    pub fn kind(&self) -> (r: SemanticErrorKind)
        ensures
            r == self@.kind(),
    {
        match self {
            SemanticError::Redefinition { .. } => SemanticErrorKind::Redefinition,
            SemanticError::SymbolNotFound { .. } => SemanticErrorKind::UndeclaredSymbol,
            SemanticError::UndefinedFunction { .. } => SemanticErrorKind::UndeclaredSymbol,
            SemanticError::UndefinedArgument { .. } => SemanticErrorKind::UndeclaredSymbol,
            SemanticError::AssignmentMismatch { .. } => SemanticErrorKind::TypeMismatch,
            SemanticError::ExpressionMismatch { .. } => SemanticErrorKind::TypeMismatch,
            SemanticError::NumericMismatch { .. } => SemanticErrorKind::TypeMismatch,
            SemanticError::ArgumentMismatch { .. } => SemanticErrorKind::TypeMismatch,
            SemanticError::FunctionAsArgument { .. } => SemanticErrorKind::TypeMismatch,
            SemanticError::FunctionAsValue { .. } => SemanticErrorKind::TypeMismatch,
            SemanticError::ReadNotString { .. } => SemanticErrorKind::TypeMismatch,
            SemanticError::IndexNotInt { .. } => SemanticErrorKind::TypeMismatch,
            SemanticError::TooManyIndices { .. } => SemanticErrorKind::ArityOrBounds,
            SemanticError::IllegalBreak { .. } => SemanticErrorKind::IllegalBreak,
            SemanticError::IllegalReturn { .. } => SemanticErrorKind::IllegalReturn,
            SemanticError::MalformedTree => SemanticErrorKind::MalformedTree,
        }
    }

    /// The place in the source that the error points at, if it has one.
    pub fn position(&self) -> (r: Option<(usize, usize)>)
        ensures
            r == self@.position(),
    {
        match self {
            SemanticError::Redefinition { line, column, .. } => Some((*line, *column)),
            SemanticError::SymbolNotFound { line, column, .. } => Some((*line, *column)),
            SemanticError::UndefinedFunction { line, column, .. } => Some((*line, *column)),
            SemanticError::UndefinedArgument { line, column, .. } => Some((*line, *column)),
            SemanticError::AssignmentMismatch { line, column, .. } => Some((*line, *column)),
            SemanticError::ExpressionMismatch { line, column, .. } => Some((*line, *column)),
            SemanticError::NumericMismatch { line, column, .. } => Some((*line, *column)),
            SemanticError::ArgumentMismatch { line, column, .. } => Some((*line, *column)),
            SemanticError::FunctionAsArgument { .. } => None,
            SemanticError::FunctionAsValue { line, column, .. } => Some((*line, *column)),
            SemanticError::ReadNotString { line, column, .. } => Some((*line, *column)),
            SemanticError::IndexNotInt { line, column, .. } => Some((*line, *column)),
            SemanticError::TooManyIndices { line, column, .. } => Some((*line, *column)),
            SemanticError::IllegalBreak { line, column, .. } => Some((*line, *column)),
            SemanticError::IllegalReturn { line, column, .. } => Some((*line, *column)),
            SemanticError::MalformedTree => None,
        }
    }

    /// The message of the error.
    pub fn message(&self) -> (r: String)
        ensures
            r@ == self@.message(),
    {
        let mut out = String::new();
        match self {
            SemanticError::Redefinition { name, line, column } => {
                out.append("Erro semântico: Redefinição de símbolo na linha ");
                append_decimal(&mut out, *line as u64);
                out.append(", coluna ");
                append_decimal(&mut out, *column as u64);
                out.append(": '");
                out.append(name.as_str());
                out.append("'");
            },
            SemanticError::SymbolNotFound { name, line, column } => {
                out.append("Erro semântico: Símbolo não encontrado na linha ");
                append_decimal(&mut out, *line as u64);
                out.append(", coluna ");
                append_decimal(&mut out, *column as u64);
                out.append(": ");
                out.append(name.as_str());
            },
            SemanticError::UndefinedFunction { name, line, column } => {
                out.append("Erro Semântico: função '");
                out.append(name.as_str());
                out.append("' não definida nesse escopo na linha ");
                append_decimal(&mut out, *line as u64);
                out.append(", coluna ");
                append_decimal(&mut out, *column as u64);
            },
            SemanticError::UndefinedArgument { name, line, column } => {
                out.append("Erro semântico: variável '");
                out.append(name.as_str());
                out.append("' não definida no escopo atual na linha ");
                append_decimal(&mut out, *line as u64);
                out.append(", coluna ");
                append_decimal(&mut out, *column as u64);
            },
            SemanticError::AssignmentMismatch { name, line, column } => {
                out.append("Erro semântico: tipo incompatível na atribuição de '");
                out.append(name.as_str());
                out.append("' na linha ");
                append_decimal(&mut out, *line as u64);
                out.append(" coluna ");
                append_decimal(&mut out, *column as u64);
            },
            SemanticError::ExpressionMismatch { line, column } => {
                out.append("Erro semântico: Tipos incompátiveis na expressão na linha ");
                append_decimal(&mut out, *line as u64);
                out.append(" coluna ");
                append_decimal(&mut out, *column as u64);
            },
            SemanticError::NumericMismatch { line, column } => {
                out.append("Erro semântico: tipos incompatíveis na expressão numérica na linha ");
                append_decimal(&mut out, *line as u64);
                out.append(" coluna ");
                append_decimal(&mut out, *column as u64);
            },
            SemanticError::ArgumentMismatch { name, line, column } => {
                out.append("Erro semântico: tipos de parâmetros incompatíveis na chamada da função '");
                out.append(name.as_str());
                out.append("' na linha ");
                append_decimal(&mut out, *line as u64);
                out.append(", coluna ");
                append_decimal(&mut out, *column as u64);
            },
            SemanticError::FunctionAsArgument { name } => {
                out.append("Erro semântico: função '");
                out.append(name.as_str());
                out.append("' não pode ser passada como parâmetro de outra função");
            },
            SemanticError::FunctionAsValue { name, line, column } => {
                out.append("Erro semântico: função '");
                out.append(name.as_str());
                out.append("' usada como variável na linha ");
                append_decimal(&mut out, *line as u64);
                out.append(", coluna ");
                append_decimal(&mut out, *column as u64);
            },
            SemanticError::ReadNotString { found, line, column } => {
                out.append("Erro semântico: comando Read deve atribuir valor a uma variável de tipo string, mas tipo ");
                out.append(found.as_variant_name());
                out.append(" foi encontrado na linha ");
                append_decimal(&mut out, *line as u64);
                out.append(" coluna ");
                append_decimal(&mut out, *column as u64);
            },
            SemanticError::IndexNotInt { found, line, column } => {
                out.append("Erro semântico: índice de variável deve ser do tipo 'int', encontrado '");
                out.append(found.as_variant_name());
                out.append("' na linha ");
                append_decimal(&mut out, *line as u64);
                out.append(", coluna ");
                append_decimal(&mut out, *column as u64);
            },
            SemanticError::TooManyIndices { name, line, column } => {
                out.append("Erro semântico: variável '");
                out.append(name.as_str());
                out.append("' usada com mais índices do que as dimensões declaradas na linha ");
                append_decimal(&mut out, *line as u64);
                out.append(", coluna ");
                append_decimal(&mut out, *column as u64);
            },
            SemanticError::IllegalBreak { line, column } => {
                out.append("Erro semântico: Comando 'break' fora de um laço de repetição na linha ");
                append_decimal(&mut out, *line as u64);
                out.append(" coluna ");
                append_decimal(&mut out, *column as u64);
            },
            SemanticError::IllegalReturn { line, column } => {
                out.append("Erro semântico: Comando 'return' fora de uma função na linha ");
                append_decimal(&mut out, *line as u64);
                out.append(" coluna ");
                append_decimal(&mut out, *column as u64);
            },
            SemanticError::MalformedTree => {
                out.append("Erro semântico: árvore sintática abstrata malformada");
            },
        }
        assert(out@ =~= self@.message());
        out
    }
}

} // verus!
