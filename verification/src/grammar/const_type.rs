//! Literal values and the types of the language.

use vstd::prelude::*;
use vstd::string::*;
use crate::lines::{integer_of, parse_integer};
use crate::text::{
    append_escaped,
    append_signed_decimal,
    chars_of,
    escape_quotes,
    signed_decimal,
    str_eq,
};

verus! {

/// A type that a variable, a parameter or an expression can have.
#[derive(Debug, Clone, Copy, PartialEq, Eq, Hash, Structural)]
pub enum VarType {
    Int,
    Float,
    String,
}

impl VarType {
    /// The keyword that names the type.
    pub open spec fn keyword(self) -> Seq<char> {
        match self {
            VarType::Int => "int"@,
            VarType::Float => "float"@,
            VarType::String => "string"@,
        }
    }

    /// The identifier of the variant.
    pub open spec fn variant_name(self) -> Seq<char> {
        match self {
            VarType::Int => "Int"@,
            VarType::Float => "Float"@,
            VarType::String => "String"@,
        }
    }

    /// The keyword that names the type.
    pub fn as_keyword(&self) -> (r: &'static str)
        ensures
            r@ == self.keyword(),
    {
        match self {
            VarType::Int => "int",
            VarType::Float => "float",
            VarType::String => "string",
        }
    }

    /// The identifier of the variant.
    pub fn as_variant_name(&self) -> (r: &'static str)
        ensures
            r@ == self.variant_name(),
    {
        match self {
            VarType::Int => "Int",
            VarType::Float => "Float",
            VarType::String => "String",
        }
    }

    /// The keyword that names the type, as an owned string.
    pub fn to_string(&self) -> (r: String)
        ensures
            r@ == self.keyword(),
    {
        self.as_keyword().to_owned()
    }
}

/// The value that a token carries: an integer literal, the text of a
/// floating-point literal, a string or identifier, or a type keyword.
///
/// A floating-point literal is kept as the text that renders it, which
/// is all that the passes read of it.
#[derive(Debug, PartialEq)]
pub enum ConstType {
    Int(i64),
    Float(String),
    String(String),
    VarType(VarType),
}

/// The mathematical value of a [`ConstType`].
pub enum ConstValue {
    Int(i64),
    Float(Seq<char>),
    String(Seq<char>),
    VarType(VarType),
}

impl View for ConstType {
    type V = ConstValue;

    open spec fn view(&self) -> ConstValue {
        match self {
            ConstType::Int(i) => ConstValue::Int(*i),
            ConstType::Float(f) => ConstValue::Float(f@),
            ConstType::String(s) => ConstValue::String(s@),
            ConstType::VarType(v) => ConstValue::VarType(*v),
        }
    }
}

impl ConstValue {
    /// The type of the value; a type keyword has the type it names.
    pub open spec fn var_type(self) -> VarType {
        match self {
            ConstValue::Int(_) => VarType::Int,
            ConstValue::Float(_) => VarType::Float,
            ConstValue::String(_) => VarType::String,
            ConstValue::VarType(v) => v,
        }
    }

    /// The value as it is written into generated code: strings with
    /// their double quotes escaped.
    pub open spec fn code_text(self) -> Seq<char> {
        match self {
            ConstValue::Int(i) => signed_decimal(i as int),
            ConstValue::Float(f) => f,
            ConstValue::String(s) => escape_quotes(s),
            ConstValue::VarType(v) => v.keyword(),
        }
    }

    /// The value as it is shown to a reader: strings as they are.
    pub open spec fn plain_text(self) -> Seq<char> {
        match self {
            ConstValue::Int(i) => signed_decimal(i as int),
            ConstValue::Float(f) => f,
            ConstValue::String(s) => s,
            ConstValue::VarType(v) => v.keyword(),
        }
    }
}

impl Clone for ConstType {
    fn clone(&self) -> (r: Self)
        ensures
            r@ == self@,
    {
        match self {
            ConstType::Int(i) => ConstType::Int(*i),
            ConstType::Float(f) => ConstType::Float(f.clone()),
            ConstType::String(s) => ConstType::String(s.clone()),
            ConstType::VarType(v) => ConstType::VarType(*v),
        }
    }
}

/// The value that a text writes, where `float` says whether the text is
/// a floating-point literal and, if it is, gives the text that renders
/// its value: an integer if the text writes one, else a floating-point
/// number if it writes one, else the type that the text names, else the
/// text itself.
pub open spec fn value_of(text: Seq<char>, float: Option<Seq<char>>) -> ConstValue {
    match integer_of(text) {
        Some(i) => ConstValue::Int(i),
        None => match float {
            Some(rendered) => ConstValue::Float(rendered),
            None => if text == "int"@ {
                ConstValue::VarType(VarType::Int)
            } else if text == "float"@ {
                ConstValue::VarType(VarType::Float)
            } else if text == "string"@ {
                ConstValue::VarType(VarType::String)
            } else {
                ConstValue::String(text)
            },
        },
    }
}

impl ConstType {
    /// The value that the text `s` writes. Whether the text is a
    /// floating-point literal is for the caller to say: `float` is the
    /// text that renders the value of the literal, or `None` where the
    /// text is no such literal. See [`value_of`].
    pub fn from_str(s: &str, float: Option<String>) -> (r: ConstType)
        ensures
            r@ == value_of(
                s@,
                match float {
                    Some(rendered) => Some(rendered@),
                    None => None,
                },
            ),
    {
        let chars = chars_of(s);
        if let Some(i) = parse_integer(&chars) {
            return ConstType::Int(i);
        }
        if let Some(rendered) = float {
            return ConstType::Float(rendered);
        }
        if str_eq(s, "int") {
            ConstType::VarType(VarType::Int)
        } else if str_eq(s, "float") {
            ConstType::VarType(VarType::Float)
        } else if str_eq(s, "string") {
            ConstType::VarType(VarType::String)
        } else {
            ConstType::String(s.to_owned())
        }
    }

    /// The type of the value; a type keyword has the type it names.
    pub fn get_type(&self) -> (r: VarType)
        ensures
            r == self@.var_type(),
    {
        match self {
            ConstType::Int(_) => VarType::Int,
            ConstType::Float(_) => VarType::Float,
            ConstType::String(_) => VarType::String,
            ConstType::VarType(v) => *v,
        }
    }

    /// The type that a type keyword names.
    pub fn get_keyword_type(&self) -> (r: VarType)
        requires
            self@ is VarType,
        ensures
            self@ == ConstValue::VarType(r),
    {
        match self {
            ConstType::VarType(v) => *v,
            _ => VarType::Int,
        }
    }

    /// The value as it is written into generated code.
    pub fn to_string(&self) -> (r: String)
        ensures
            r@ == self@.code_text(),
    {
        let mut out = String::new();
        match self {
            ConstType::Int(i) => {
                append_signed_decimal(&mut out, *i);
            },
            ConstType::Float(f) => {
                out.append(f.as_str());
            },
            ConstType::String(s) => {
                append_escaped(&mut out, s.as_str());
            },
            ConstType::VarType(v) => {
                out.append(v.as_keyword());
            },
        }
        assert(out@ =~= self@.code_text());
        out
    }

    /// The value as it is shown to a reader.
    pub fn to_plain_string(&self) -> (r: String)
        ensures
            r@ == self@.plain_text(),
    {
        let mut out = String::new();
        match self {
            ConstType::Int(i) => {
                append_signed_decimal(&mut out, *i);
            },
            ConstType::Float(f) => {
                out.append(f.as_str());
            },
            ConstType::String(s) => {
                out.append(s.as_str());
            },
            ConstType::VarType(v) => {
                out.append(v.as_keyword());
            },
        }
        assert(out@ =~= self@.plain_text());
        out
    }
}

} // verus!
