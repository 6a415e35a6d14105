//! Hooks and native functions: the signatures plugins give them, and the machine code of
//! the trampoline through which native code calls a Lua function.
use vstd::prelude::*;
use vstd::string::*;

use crate::plugins::library::dangerous::types::{parse_types, type_named, Type};
use crate::text::concat;

verus! {

/// The argument types and the return type of a hooked or native function.
pub struct Signature {
    pub argument_types: Vec<Type>,
    pub return_type: Type,
}

/// Whether `types` are the types named by `names`.
pub open spec fn types_named(names: Seq<String>, types: Seq<Type>) -> bool {
    types.len() == names.len() && forall|i: int|
        0 <= i < names.len() ==> Some(#[trigger] types[i]) == type_named(names[i]@)
}

/// Whether every name of `names` names a type.
pub open spec fn all_named(names: Seq<String>) -> bool {
    forall|i: int| 0 <= i < names.len() ==> #[trigger] type_named(names[i]@) is Some
}

/// The position of the first name of `names` that names no type.
pub open spec fn first_unnamed(names: Seq<String>, i: int) -> bool {
    0 <= i < names.len() && type_named(names[i]@) is None && forall|j: int|
        0 <= j < i ==> #[trigger] type_named(names[j]@) is Some
}

/// The message of a hook whose return type `name` does not exist.
pub open spec fn unknown_return_type_message(name: Seq<char>) -> Seq<char> {
    "return type invalid: type '"@ + name + "' doesn't exist"@
}

/// The message of a hook whose argument type `name` does not exist.
pub open spec fn unknown_argument_type_message(name: Seq<char>) -> Seq<char> {
    "argument type invalid: type '"@ + name + "' doesn't exist"@
}

/// The signature of a hook on a function whose arguments have the types named
/// `arg_type_names` and whose return value has the type named `return_type_name`.
/// The return type is checked first.
pub fn hook_signature(arg_type_names: &Vec<String>, return_type_name: &str) -> (r: Result<Signature, String>)
    ensures
        match r {
            Ok(s) => type_named(return_type_name@) == Some(s.return_type) && types_named(
                arg_type_names@,
                s.argument_types@,
            ),
            Err(m) => if type_named(return_type_name@) is None {
                m@ == unknown_return_type_message(return_type_name@)
            } else {
                exists|i: int| first_unnamed(arg_type_names@, i) && m@ == unknown_argument_type_message(
                    arg_type_names@[i]@,
                )
            },
        },
{
    let return_type = match Type::try_from_str(return_type_name) {
        Some(value) => value,
        None => {
            let start = concat("return type invalid: type '", return_type_name);
            return Err(concat(start.as_str(), "' doesn't exist"));
        },
    };
    match parse_types(arg_type_names) {
        Ok(argument_types) => Ok(Signature { argument_types, return_type }),
        Err(i) => {
            let start = concat("argument type invalid: type '", arg_type_names[i].as_str());
            let message = concat(start.as_str(), "' doesn't exist");
            proof {
                assert(first_unnamed(arg_type_names@, i as int));
            }
            Err(message)
        },
    }
}

/// The signature of a native function that calls a Lua function; the argument types are
/// checked first.
pub fn native_function_signature(arg_types: &Vec<String>, return_type: &str) -> (r: Result<Signature, String>)
    ensures
        match r {
            Ok(s) => type_named(return_type@) == Some(s.return_type) && types_named(arg_types@, s.argument_types@),
            Err(m) => if !all_named(arg_types@) {
                m@ == "unsupported argument type"@
            } else {
                type_named(return_type@) is None && m@ == "unsupported return type"@
            },
        },
{
    let argument_types = match parse_types(arg_types) {
        Ok(types) => types,
        Err(i) => {
            proof {
                assert(type_named(arg_types@[i as int]@) is None);
            }
            return Err(String::from_str("unsupported argument type"));
        },
    };
    proof {
        assert forall|i: int| 0 <= i < arg_types@.len() implies #[trigger] type_named(arg_types@[i]@) is Some by {
            assert(Some(argument_types@[i]) == type_named(arg_types@[i]@));
        }
    }
    match Type::try_from_str(return_type) {
        Some(return_type) => Ok(Signature { argument_types, return_type }),
        None => Err(String::from_str("unsupported return type")),
    }
}

/// A native function a plugin can call: its address and signature.
pub struct NativeFunction {
    pub address: u32,
    pub arg_types: Vec<Type>,
    pub return_type: Type,
}

impl NativeFunction {
    /// The native function at `address` with the given signature.
    pub fn new(address: u32, arg_types: Vec<Type>, return_type: Type) -> (r: NativeFunction)
        ensures
            r.address == address,
            r.arg_types == arg_types,
            r.return_type == return_type,
    {
        NativeFunction { address, arg_types, return_type }
    }
}

/// The native function at `address` whose arguments have the types named `arg_types` and
/// whose return value has the type named `return_type`.
pub fn get_native_function(address: u32, arg_types: &Vec<String>, return_type: &str) -> (r: Result<NativeFunction, String>)
    ensures
        match r {
            Ok(f) => f.address == address && type_named(return_type@) == Some(f.return_type) && types_named(
                arg_types@,
                f.arg_types@,
            ),
            Err(m) => if !all_named(arg_types@) {
                m@ == "unsupported argument type"@
            } else {
                type_named(return_type@) is None && m@ == "invalid return type"@
            },
        },
{
    let lua_arg_types = match parse_types(arg_types) {
        Ok(types) => types,
        Err(i) => {
            proof {
                assert(type_named(arg_types@[i as int]@) is None);
            }
            return Err(String::from_str("unsupported argument type"));
        },
    };
    proof {
        assert forall|i: int| 0 <= i < arg_types@.len() implies #[trigger] type_named(arg_types@[i]@) is Some by {
            assert(Some(lua_arg_types@[i]) == type_named(arg_types@[i]@));
        }
    }
    let lua_ret_type = match Type::try_from_str(return_type) {
        Some(ret) => ret,
        None => return Err(String::from_str("invalid return type")),
    };
    Ok(NativeFunction::new(address, lua_arg_types, lua_ret_type))
}

/// The four bytes of `x`, least significant first.
pub open spec fn le_bytes(x: u32) -> Seq<u8> {
    seq![(x % 256) as u8, ((x / 256) % 256) as u8, ((x / 65536) % 256) as u8, (x / 16777216) as u8]
}

/// The trampoline's loop that pushes the caller's arguments again:
/// `mov ecx, esp; add ecx, eax; mov edx, esp; loop: push dword [ecx]; sub ecx, 4; cmp edx, ecx; jb loop`.
pub open spec fn argument_loop() -> Seq<u8> {
    seq![0x89u8, 0xe1, 0x01, 0xc1, 0x89, 0xe2, 0xff, 0x31, 0x83, 0xe9, 0x04, 0x39, 0xca, 0x72, 0xf7]
}

/// The offset, within the trampoline, of the instruction after the call of the closure.
pub open spec fn after_call_offset() -> int {
    30
}

/// The machine code of the trampoline at `wrapper` through which native code calls the
/// closure at `closure` with the data pointer `data`, for `arg_count` 32-bit arguments:
/// `mov eax, args; <argument loop>; push data; call closure; mov ecx, args + 4; add esp, ecx; ret`.
pub open spec fn trampoline(arg_count: nat, data: u32, closure: u32, wrapper: u32) -> Seq<u8> {
    let arg_bytes = (arg_count * 4) as u32;
    let delta = ((closure as i32) - ((wrapper + after_call_offset()) as u32 as i32)) as i32 as u32;
    seq![0xb8u8] + le_bytes(arg_bytes) + argument_loop() + seq![0x68u8] + le_bytes(data) + seq![0xe8u8]
        + le_bytes(delta) + seq![0xb9u8] + le_bytes((arg_bytes + 4) as u32) + seq![0x01u8, 0xcc, 0xc3]
}

/// Appends the four bytes of `x`, least significant first.
fn push_le(code: &mut Vec<u8>, x: u32)
    ensures
        final(code)@ == old(code)@ + le_bytes(x),
{
    code.push((x % 256) as u8);
    code.push(((x / 256) % 256) as u8);
    code.push(((x / 65536) % 256) as u8);
    code.push((x / 16777216) as u8);
    assert(final(code)@ =~= old(code)@ + le_bytes(x));
}

/// The machine code of the trampoline at `wrapper` through which native code calls the
/// closure at `closure` with the data pointer `data`, for `arg_count` 32-bit arguments.
pub fn closure_wrapper_code(arg_count: usize, data: u32, closure: u32, wrapper: u32) -> (code: Vec<u8>)
    requires
        arg_count * 4 + 4 <= u32::MAX,
        wrapper + after_call_offset() <= u32::MAX,
        i32::MIN <= (closure as i32) - ((wrapper + after_call_offset()) as u32 as i32) <= i32::MAX,
    ensures
        code@ == trampoline(arg_count as nat, data, closure, wrapper),
        code@.len() == 38,
{
    let arg_len_in_bytes: u32 = arg_count as u32 * 4;
    let mut code: Vec<u8> = Vec::new();

    // mov eax, {arg_len}
    code.push(0xb8u8);
    push_le(&mut code, arg_len_in_bytes);

    // mov ecx, esp; add ecx, eax; mov edx, esp; loop: push dword [ecx]; sub ecx, 0x4; cmp edx, ecx; jb loop
    code.push(0x89u8);
    code.push(0xe1u8);
    code.push(0x01u8);
    code.push(0xc1u8);
    code.push(0x89u8);
    code.push(0xe2u8);
    code.push(0xffu8);
    code.push(0x31u8);
    code.push(0x83u8);
    code.push(0xe9u8);
    code.push(0x04u8);
    code.push(0x39u8);
    code.push(0xcau8);
    code.push(0x72u8);
    code.push(0xf7u8);

    // push data
    code.push(0x68u8);
    push_le(&mut code, data);

    // call native_closure
    let jmp_src: u32 = wrapper + 30;
    let jmp_delta: i32 = closure as i32 - jmp_src as i32;
    code.push(0xe8u8);
    push_le(&mut code, jmp_delta as u32);

    // mov ecx, {arg_len+0x4}
    code.push(0xb9u8);
    push_le(&mut code, arg_len_in_bytes + 4);

    // add esp, ecx; ret
    code.push(0x01u8);
    code.push(0xccu8);
    code.push(0xc3u8);

    assert(code@ =~= trampoline(arg_count as nat, data, closure, wrapper));
    code
}

} // verus!
