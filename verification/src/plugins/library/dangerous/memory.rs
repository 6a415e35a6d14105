//! Writing to the game's memory: which bytes a plugin's value stands for.
use vstd::prelude::*;
use vstd::string::*;

use crate::plugins::library::dangerous::hook::le_bytes;
use crate::text::concat;

verus! {

/// An item of the Lua array a plugin hands over as the bytes to write.
pub enum ByteArrayItem {
    /// An integer item.
    Integer(i32),
    /// An item of another type, rendered for the error message.
    Other(String),
}

/// The message of an item out of the byte range.
pub open spec fn byte_range_message() -> Seq<char> {
    "supply the memory to write as a byte array (each item must be between 0 and 255"@
}

/// The message of an item that is not an integer, rendered as `item`.
pub open spec fn unsupported_item_message(item: Seq<char>) -> Seq<char> {
    "unsupported argument, provide memory as a byte array. Expected array, got "@ + item
}

/// Whether `item` is a byte.
pub open spec fn is_byte(item: ByteArrayItem) -> bool {
    item matches ByteArrayItem::Integer(v) && 0 <= v <= 255
}

/// The bytes a plugin's byte array stands for: every item must be an integer from 0 to
/// 255; the first item that is not gives the error.
pub fn bytes_from_array(items: &Vec<ByteArrayItem>) -> (r: Result<Vec<u8>, String>)
    ensures
        match r {
            Ok(bytes) => bytes@.len() == items@.len() && forall|i: int|
                0 <= i < items@.len() ==> #[trigger] items@[i] == ByteArrayItem::Integer(bytes@[i] as i32),
            Err(m) => exists|i: int|
                0 <= i < items@.len() && !is_byte(#[trigger] items@[i]) && (forall|j: int|
                    0 <= j < i ==> is_byte(#[trigger] items@[j])) && match items@[i] {
                    ByteArrayItem::Integer(_) => m@ == byte_range_message(),
                    ByteArrayItem::Other(item) => m@ == unsupported_item_message(item@),
                },
        },
{
    let mut bytes: Vec<u8> = Vec::new();
    let mut i: usize = 0;
    while i < items.len()
        invariant
            i <= items@.len(),
            bytes@.len() == i,
            forall|j: int| 0 <= j < i ==> #[trigger] items@[j] == ByteArrayItem::Integer(bytes@[j] as i32),
        decreases items@.len() - i,
    {
        match &items[i] {
            ByteArrayItem::Integer(byte) => {
                if *byte < 0 || 0xff < *byte {
                    proof {
                        assert(forall|j: int| 0 <= j < i ==> is_byte(#[trigger] items@[j]));
                    }
                    return Err(String::from_str(
                        "supply the memory to write as a byte array (each item must be between 0 and 255",
                    ));
                }
                bytes.push(*byte as u8);
            },
            ByteArrayItem::Other(item) => {
                proof {
                    assert(forall|j: int| 0 <= j < i ==> is_byte(#[trigger] items@[j]));
                }
                return Err(concat(
                    "unsupported argument, provide memory as a byte array. Expected array, got ",
                    item.as_str(),
                ));
            },
        }
        i = i + 1;
    }
    Ok(bytes)
}

/// The bytes of a Lua integer, least significant first.
pub fn integer_bytes(value: i32) -> (r: Vec<u8>)
    ensures
        r@ == le_bytes(value as u32),
{
    let x = value as u32;
    let mut r: Vec<u8> = Vec::new();
    r.push((x % 256) as u8);
    r.push(((x / 256) % 256) as u8);
    r.push(((x / 65536) % 256) as u8);
    r.push((x / 16777216) as u8);
    assert(r@ =~= le_bytes(value as u32));
    r
}

} // verus!
