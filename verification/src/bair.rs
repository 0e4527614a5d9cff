//! Definitions that are common to all intermediate representations.

use vstd::prelude::*;
use crate::text::text_is;

verus! {

/// A `PrimitiveType` is one that is native to the language. It does not
/// require any definitions, or any modules, to be understood by the compiler.
#[derive(Clone, Copy, Debug, PartialEq, Eq, Structural)]
pub enum PrimitiveType {
    Bool,
    Char,
    F32,
    F64,
    I8,
    I16,
    I32,
    I64,
    Str,
    U8,
    U16,
    U32,
    U64,
    USize,
    Void,
}

impl PrimitiveType {
    /// The name of the type in the source.
    pub open spec fn spec_name(self) -> Seq<char> {
        match self {
            PrimitiveType::Bool => "bool"@,
            PrimitiveType::Char => "char"@,
            PrimitiveType::F32 => "f32"@,
            PrimitiveType::F64 => "f64"@,
            PrimitiveType::I8 => "i8"@,
            PrimitiveType::I16 => "i16"@,
            PrimitiveType::I32 => "i32"@,
            PrimitiveType::I64 => "i64"@,
            PrimitiveType::Str => "string"@,
            PrimitiveType::U8 => "u8"@,
            PrimitiveType::U16 => "u16"@,
            PrimitiveType::U32 => "u32"@,
            PrimitiveType::U64 => "u64"@,
            PrimitiveType::USize => "usize"@,
            PrimitiveType::Void => "void"@,
        }
    }

    /// The name of the type in the source.
    pub fn name(self) -> (name: &'static str)
        ensures
            name@ == self.spec_name(),
    {
        match self {
            PrimitiveType::Bool => "bool",
            PrimitiveType::Char => "char",
            PrimitiveType::F32 => "f32",
            PrimitiveType::F64 => "f64",
            PrimitiveType::I8 => "i8",
            PrimitiveType::I16 => "i16",
            PrimitiveType::I32 => "i32",
            PrimitiveType::I64 => "i64",
            PrimitiveType::Str => "string",
            PrimitiveType::U8 => "u8",
            PrimitiveType::U16 => "u16",
            PrimitiveType::U32 => "u32",
            PrimitiveType::U64 => "u64",
            PrimitiveType::USize => "usize",
            PrimitiveType::Void => "void",
        }
    }

    /// The primitive type that a name denotes.
    pub open spec fn spec_named(name: Seq<char>) -> Option<PrimitiveType> {
        if name == "bool"@ {
            Some(PrimitiveType::Bool)
        } else if name == "char"@ {
            Some(PrimitiveType::Char)
        } else if name == "f32"@ {
            Some(PrimitiveType::F32)
        } else if name == "f64"@ {
            Some(PrimitiveType::F64)
        } else if name == "i8"@ {
            Some(PrimitiveType::I8)
        } else if name == "i16"@ {
            Some(PrimitiveType::I16)
        } else if name == "i32"@ {
            Some(PrimitiveType::I32)
        } else if name == "i64"@ {
            Some(PrimitiveType::I64)
        } else if name == "string"@ {
            Some(PrimitiveType::Str)
        } else if name == "u8"@ {
            Some(PrimitiveType::U8)
        } else if name == "u16"@ {
            Some(PrimitiveType::U16)
        } else if name == "u32"@ {
            Some(PrimitiveType::U32)
        } else if name == "u64"@ {
            Some(PrimitiveType::U64)
        } else if name == "usize"@ {
            Some(PrimitiveType::USize)
        } else if name == "void"@ {
            Some(PrimitiveType::Void)
        } else {
            None
        }
    }

    /// The primitive type that a name denotes.
    pub fn named(name: &String) -> (p: Option<PrimitiveType>)
        ensures
            p == Self::spec_named(name@),
    {
        if text_is(name, "bool") {
            Some(PrimitiveType::Bool)
        } else if text_is(name, "char") {
            Some(PrimitiveType::Char)
        } else if text_is(name, "f32") {
            Some(PrimitiveType::F32)
        } else if text_is(name, "f64") {
            Some(PrimitiveType::F64)
        } else if text_is(name, "i8") {
            Some(PrimitiveType::I8)
        } else if text_is(name, "i16") {
            Some(PrimitiveType::I16)
        } else if text_is(name, "i32") {
            Some(PrimitiveType::I32)
        } else if text_is(name, "i64") {
            Some(PrimitiveType::I64)
        } else if text_is(name, "string") {
            Some(PrimitiveType::Str)
        } else if text_is(name, "u8") {
            Some(PrimitiveType::U8)
        } else if text_is(name, "u16") {
            Some(PrimitiveType::U16)
        } else if text_is(name, "u32") {
            Some(PrimitiveType::U32)
        } else if text_is(name, "u64") {
            Some(PrimitiveType::U64)
        } else if text_is(name, "usize") {
            Some(PrimitiveType::USize)
        } else if text_is(name, "void") {
            Some(PrimitiveType::Void)
        } else {
            None
        }
    }
}

} // verus!
