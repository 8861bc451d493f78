//! Tokens: what the lexical analysis hands to the parser.

use vstd::prelude::*;
use crate::grammar::const_type::{ConstType, ConstValue, VarType};
use crate::grammar::token_type::TokenType;

verus! {

/// A token: its kind, the literal value it carries if any, and where it
/// starts in the source (line from 1, column within the line).
#[derive(Debug, PartialEq)]
pub struct Token {
    pub token_type: TokenType,
    pub value: Option<ConstType>,
    pub line: usize,
    pub column: usize,
}

/// The mathematical value of a [`Token`].
pub struct TokenView {
    pub token_type: TokenType,
    pub value: Option<ConstValue>,
    pub line: usize,
    pub column: usize,
}

impl View for Token {
    type V = TokenView;

    open spec fn view(&self) -> TokenView {
        TokenView {
            token_type: self.token_type,
            value: match self.value {
                Some(v) => Some(v@),
                None => None,
            },
            line: self.line,
            column: self.column,
        }
    }
}

/// The views of a sequence of tokens.
pub open spec fn token_views(tokens: Seq<Token>) -> Seq<TokenView> {
    Seq::new(tokens.len(), |i: int| tokens[i]@)
}

impl TokenView {
    /// The type of a literal or of a type keyword; `None` for a token
    /// that has no type.
    pub open spec fn var_type(self) -> Option<VarType> {
        match self.token_type {
            TokenType::ConstFloat => Some(VarType::Float),
            TokenType::ConstInt => Some(VarType::Int),
            TokenType::ConstString => Some(VarType::String),
            TokenType::VarType => match self.value {
                Some(ConstValue::VarType(v)) => Some(v),
                _ => None,
            },
            _ => None,
        }
    }

    /// The name that an identifier token carries.
    pub open spec fn name(self) -> Option<Seq<char>> {
        match self.value {
            Some(ConstValue::String(s)) => Some(s),
            _ => None,
        }
    }

    /// The token as it is shown to a reader: its value where it has
    /// one, else its kind.
    pub open spec fn text(self) -> Seq<char> {
        match self.value {
            Some(v) => v.plain_text(),
            None => self.token_type.text(),
        }
    }
}

impl Clone for Token {
    fn clone(&self) -> (r: Self)
        ensures
            r@ == self@,
    {
        Token {
            token_type: self.token_type,
            value: match &self.value {
                Some(v) => Some(v.clone()),
                None => None,
            },
            line: self.line,
            column: self.column,
        }
    }
}

impl Token {
    /// Whether the token is a literal or a type keyword with its type.
    pub fn has_type(&self) -> (r: bool)
        ensures
            r == self@.var_type().is_some(),
    {
        match self.token_type {
            TokenType::ConstFloat | TokenType::ConstInt | TokenType::ConstString => true,
            TokenType::VarType => match &self.value {
                Some(ConstType::VarType(_)) => true,
                _ => false,
            },
            _ => false,
        }
    }

    /// The type of a literal or of a type keyword.
    pub fn get_type(&self) -> (r: VarType)
        requires
            self@.var_type().is_some(),
        ensures
            Some(r) == self@.var_type(),
    {
        match self.token_type {
            TokenType::ConstFloat => VarType::Float,
            TokenType::ConstInt => VarType::Int,
            TokenType::ConstString => VarType::String,
            _ => match &self.value {
                Some(ConstType::VarType(v)) => *v,
                _ => VarType::Int,
            },
        }
    }

    /// The token as it is shown to a reader.
    pub fn to_string(&self) -> (r: String)
        ensures
            r@ == self@.text(),
    {
        match &self.value {
            Some(v) => v.to_plain_string(),
            None => self.token_type.to_string(),
        }
    }
}

} // verus!
