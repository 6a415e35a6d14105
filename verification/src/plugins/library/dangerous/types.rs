//! The native types a plugin can name, and how native values are seen from Lua.
use vstd::prelude::*;

use crate::text::str_equals;

verus! {

/// Supported types for lua to/from native conversion.
#[derive(Debug, Clone, Copy, PartialEq, Eq, Structural)]
pub enum Type {
    String,
    Integer,
    Byte,
    Short,
    Float,
    Void,
}

/// The most bytes read of a native string.
pub const MAX_STRING: u16 = 1024;

/// The type a plugin names `name`, if any.
pub open spec fn type_named(name: Seq<char>) -> Option<Type> {
    if name == "string"@ {
        Some(Type::String)
    } else if name == "int"@ {
        Some(Type::Integer)
    } else if name == "float"@ {
        Some(Type::Float)
    } else if name == "void"@ {
        Some(Type::Void)
    } else if name == "short"@ {
        Some(Type::Short)
    } else if name == "byte"@ {
        Some(Type::Byte)
    } else {
        None
    }
}

impl Type {
    /// The type a plugin names `name`, if any.
    pub fn try_from_str(name: &str) -> (r: Option<Type>)
        ensures
            r == type_named(name@),
    {
        if str_equals(name, "string") {
            Some(Type::String)
        } else if str_equals(name, "int") {
            Some(Type::Integer)
        } else if str_equals(name, "float") {
            Some(Type::Float)
        } else if str_equals(name, "void") {
            Some(Type::Void)
        } else if str_equals(name, "short") {
            Some(Type::Short)
        } else if str_equals(name, "byte") {
            Some(Type::Byte)
        } else {
            None
        }
    }
}

/// How a native value of a type is handed to Lua.
#[derive(Debug, Clone, Copy, PartialEq, Eq, Structural)]
pub enum NativeValue {
    /// An integer.
    Integer(i32),
    /// The zero-terminated string at this address, read up to [`MAX_STRING`] bytes.
    StringAt(u32),
    /// The single-precision float whose bits are `raw`.
    Float(u32),
    /// Nothing (`nil`).
    Nil,
}

/// How the native 32-bit value `raw` of type `native_type` is handed to Lua.
pub open spec fn native_value_of(native_type: Type, raw: u32) -> NativeValue {
    match native_type {
        Type::Integer => NativeValue::Integer(raw as i32),
        Type::String => NativeValue::StringAt(raw),
        Type::Float => NativeValue::Float(raw),
        Type::Void => NativeValue::Nil,
        Type::Short => NativeValue::Integer((raw as i16) as i32),
        Type::Byte => NativeValue::Integer((raw as i8) as i32),
    }
}

/// How the native 32-bit value `raw` of type `native_type` is handed to Lua: integers are
/// the low bits of `raw` read as signed numbers, strings are read at the address `raw`,
/// floats are the single-precision float whose bits are `raw`.
pub fn native_value(native_type: Type, raw: u32) -> (r: NativeValue)
    ensures
        r == native_value_of(native_type, raw),
{
    match native_type {
        Type::Integer => NativeValue::Integer(raw as i32),
        Type::String => NativeValue::StringAt(raw),
        Type::Float => NativeValue::Float(raw),
        Type::Void => NativeValue::Nil,
        Type::Short => NativeValue::Integer((raw as i16) as i32),
        Type::Byte => NativeValue::Integer((raw as i8) as i32),
    }
}

/// The types named by `names`, in order, or the position of the first name that names none.
pub fn parse_types(names: &Vec<String>) -> (r: Result<Vec<Type>, usize>)
    ensures
        match r {
            Ok(types) => types@.len() == names@.len() && forall|i: int|
                0 <= i < names@.len() ==> Some(#[trigger] types@[i]) == type_named(names@[i]@),
            Err(i) => i < names@.len() && type_named(names@[i as int]@) is None && forall|j: int|
                0 <= j < i ==> #[trigger] type_named(names@[j]@) is Some,
        },
{
    let mut types: Vec<Type> = Vec::new();
    let mut i: usize = 0;
    while i < names.len()
        invariant
            i <= names@.len(),
            types@.len() == i,
            forall|j: int| 0 <= j < i ==> Some(#[trigger] types@[j]) == type_named(names@[j]@),
        decreases names@.len() - i,
    {
        match Type::try_from_str(names[i].as_str()) {
            Some(t) => types.push(t),
            None => {
                proof {
                    assert forall|j: int| 0 <= j < i implies #[trigger] type_named(names@[j]@) is Some by {
                        assert(Some(types@[j]) == type_named(names@[j]@));
                    }
                }
                return Err(i);
            },
        }
        i = i + 1;
    }
    Ok(types)
}

} // verus!
