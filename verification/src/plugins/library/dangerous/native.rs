//! Native structs: how a plugin describes the layout of a structure in the game's memory,
//! and where each field of a structure at an address lies.
use vstd::prelude::*;
use vstd::string::*;

use crate::named_map::{has_name, NamedMap};
use crate::plugins::library::dangerous::types::{type_named, Type};
use crate::text::concat;

verus! {

/// The type of a field as a plugin defines it: a native type, or a complex type given as
/// a Lua value with `toBytes` and `fromBytes`.
pub enum FieldDefinitionType {
    Primitive(Type),
    Complex(String),
}

/// A field of a native struct definition: its offset and type.
pub struct FieldDefinition {
    pub offset: u32,
    pub field_type: FieldDefinitionType,
}

/// A native struct definition: its fields by name.
pub struct NativeStructDefinition {
    pub fields: NamedMap<FieldDefinition>,
}

/// The type of a field of a native struct; a complex type is stored under the field's name.
pub enum FieldType {
    Primitive(Type),
    Complex(String),
}

/// A field of a native struct.
pub struct NativeStructField {
    pub offset: u32,
    pub field_type: FieldType,
}

/// A native struct: a definition applied to an address.
pub struct NativeStruct {
    pub fields: NamedMap<NativeStructField>,
    pub address: u32,
}

/// What a plugin gave as the type of a field.
pub enum TypeSpecification {
    /// No type was given.
    Missing,
    /// A string naming a native type.
    Named(String),
    /// A string that could not be read.
    UnreadableName,
    /// A userdata value; whether it has the functions `toBytes` and `fromBytes`.
    Complex { to_bytes: bool, from_bytes: bool },
    /// A userdata value that could not be read.
    UnreadableUserData,
    /// A value of another type.
    Other,
}

/// The definition of the field `key` from the offset and type a plugin gave.
pub fn field_definition(key: &str, offset: Option<u32>, type_specification: TypeSpecification) -> (r: Result<
    FieldDefinition,
    String,
>)
    ensures
        offset is None ==> (r matches Err(m) && m@ == "Field definition of "@ + key@ + " is missing 'offset'"@),
        offset matches Some(o) ==> match type_specification {
            TypeSpecification::Missing => r matches Err(m) && m@ == "Field definition of "@ + key@
                + " is missing 'type'"@,
            TypeSpecification::Named(name) => match type_named(name@) {
                Some(t) => r matches Ok(d) && d.offset == o && d.field_type == FieldDefinitionType::Primitive(t),
                None => r matches Err(m) && m@ == "Unsupported type"@,
            },
            TypeSpecification::UnreadableName => r matches Err(m) && m@ == "Could not convert type to string"@,
            TypeSpecification::Complex { to_bytes, from_bytes } => if !to_bytes {
                r matches Err(m) && m@ == "Complex type is missing function 'toBytes'"@
            } else if !from_bytes {
                r matches Err(m) && m@ == "Complex type is missing function 'fromBytes'"@
            } else {
                r matches Ok(d) && d.offset == o && (d.field_type matches FieldDefinitionType::Complex(k) && k@
                    == key@)
            },
            TypeSpecification::UnreadableUserData => r matches Err(m) && m@
                == "Could not convert type userdata to userdata"@,
            TypeSpecification::Other => r matches Err(m) && m@ == "Unsupported type"@,
        },
{
    let offset = match offset {
        Some(offset) => offset,
        None => {
            let start = concat("Field definition of ", key);
            return Err(concat(start.as_str(), " is missing 'offset'"));
        },
    };
    let field_type = match type_specification {
        TypeSpecification::Missing => {
            let start = concat("Field definition of ", key);
            return Err(concat(start.as_str(), " is missing 'type'"));
        },
        TypeSpecification::Named(name) => match Type::try_from_str(name.as_str()) {
            Some(value) => FieldDefinitionType::Primitive(value),
            None => return Err(String::from_str("Unsupported type")),
        },
        TypeSpecification::UnreadableName => return Err(String::from_str("Could not convert type to string")),
        TypeSpecification::Complex { to_bytes, from_bytes } => {
            if !to_bytes {
                return Err(String::from_str("Complex type is missing function 'toBytes'"));
            }
            if !from_bytes {
                return Err(String::from_str("Complex type is missing function 'fromBytes'"));
            }
            FieldDefinitionType::Complex(String::from_str(key))
        },
        TypeSpecification::UnreadableUserData => return Err(
            String::from_str("Could not convert type userdata to userdata"),
        ),
        TypeSpecification::Other => return Err(String::from_str("Unsupported type")),
    };
    Ok(FieldDefinition { offset, field_type })
}

/// Whether `field` is the field of a native struct made from the definition `definition`
/// of the field `name`: same offset; a complex type is stored under the field's name.
pub open spec fn field_from_definition(name: Seq<char>, definition: FieldDefinition, field: NativeStructField) -> bool {
    &&& field.offset == definition.offset
    &&& match definition.field_type {
        FieldDefinitionType::Primitive(p) => field.field_type == FieldType::Primitive(p),
        FieldDefinitionType::Complex(_) => (field.field_type matches FieldType::Complex(k) && k@ == name),
    }
}

/// The native struct at `address` laid out as `definition`.
pub fn native_struct_from_definition(address: u32, definition: &NativeStructDefinition) -> (r: NativeStruct)
    ensures
        r.address == address,
        r.fields@.dom() == definition.fields@.dom(),
        forall|k: Seq<char>| #[trigger] r.fields@.contains_key(k) ==> field_from_definition(
            k,
            definition.fields@[k],
            r.fields@[k],
        ),
{
    let fields = &definition.fields;
    let mut struct_fields: NamedMap<NativeStructField> = NamedMap::new();
    let n = fields.len();
    let mut i: usize = 0;
    while i < n
        invariant
            n == fields.entries().len(),
            i <= n,
            forall|j: int| 0 <= j < i ==> {
                &&& fields@.contains_key(#[trigger] fields.entries()[j].name@)
                &&& struct_fields@.contains_key(fields.entries()[j].name@)
                &&& field_from_definition(
                    fields.entries()[j].name@,
                    fields@[fields.entries()[j].name@],
                    struct_fields@[fields.entries()[j].name@],
                )
            },
            forall|k: Seq<char>| #[trigger] struct_fields@.contains_key(k) ==> has_name(
                fields.entries().subrange(0, i as int),
                k,
            ),
        decreases n - i,
    {
        let entry = fields.entry_at(i);
        let field_type = match &entry.value.field_type {
            FieldDefinitionType::Primitive(primitive) => FieldType::Primitive(*primitive),
            FieldDefinitionType::Complex(_) => FieldType::Complex(entry.name.clone()),
        };
        let ghost before = struct_fields@;
        struct_fields.insert(entry.name.clone(), NativeStructField { offset: entry.value.offset, field_type });
        proof {
            assert forall|k: Seq<char>| #[trigger] struct_fields@.contains_key(k) implies has_name(
                fields.entries().subrange(0, i + 1),
                k,
            ) by {
                if k == entry.name@ {
                    assert(fields.entries().subrange(0, i + 1)[i as int].name@ == k);
                } else {
                    assert(before.contains_key(k));
                    let j = choose|j: int|
                        0 <= j < i && #[trigger] fields.entries().subrange(0, i as int)[j].name@ == k;
                    assert(fields.entries().subrange(0, i + 1)[j].name@ == k);
                }
            }
        }
        i = i + 1;
    }
    proof {
        fields.lemma_domain();
        assert(fields.entries().subrange(0, n as int) =~= fields.entries());
        assert forall|k: Seq<char>| #[trigger] fields@.contains_key(k) implies struct_fields@.contains_key(k) by {
            let j = choose|j: int| 0 <= j < n && #[trigger] fields.entries()[j].name@ == k;
        }
        assert(struct_fields@.dom() =~= fields@.dom());
    }
    NativeStruct { fields: struct_fields, address }
}

/// Where a field of a native struct lies, and its type.
pub struct FieldAccess {
    pub address: u32,
    pub field_type: FieldType,
}

impl NativeStruct {
    /// Where the field `name` lies: the struct's address plus the field's offset, wrapping
    /// around at the end of the 32-bit address space as the mod's release build does.
    pub fn field(&self, name: &str) -> (r: Option<FieldAccess>)
        ensures
            match r {
                Some(access) => self.fields@.contains_key(name@) && access.address == (self.address as int
                    + self.fields@[name@].offset as int) % 0x1_0000_0000 && access.field_type
                    == self.fields@[name@].field_type,
                None => !self.fields@.contains_key(name@),
            },
    {
        match self.fields.get(name) {
            Some(field) => {
                let field_type = match &field.field_type {
                    FieldType::Primitive(p) => FieldType::Primitive(*p),
                    FieldType::Complex(k) => FieldType::Complex(k.clone()),
                };
                Some(FieldAccess { address: self.address.wrapping_add(field.offset), field_type })
            },
            None => None,
        }
    }
}

/// The bytes written to a field of the native type `field_type` for the native value
/// `value`: one byte for a byte, two for a short, four otherwise; least significant first.
pub open spec fn primitive_field_bytes(field_type: Type, value: u32) -> Seq<u8> {
    match field_type {
        Type::Byte => seq![(value % 256) as u8],
        Type::Short => seq![(value % 256) as u8, ((value / 256) % 256) as u8],
        _ => seq![(value % 256) as u8, ((value / 256) % 256) as u8, ((value / 65536) % 256) as u8, (value / 16777216) as u8],
    }
}

/// The bytes written to a field of the native type `field_type` for the native value `value`.
pub fn primitive_field_write(field_type: Type, value: u32) -> (r: Vec<u8>)
    ensures
        r@ == primitive_field_bytes(field_type, value),
{
    let mut r: Vec<u8> = Vec::new();
    r.push((value % 256) as u8);
    match field_type {
        Type::Byte => {},
        Type::Short => {
            r.push(((value / 256) % 256) as u8);
        },
        _ => {
            r.push(((value / 256) % 256) as u8);
            r.push(((value / 65536) % 256) as u8);
            r.push((value / 16777216) as u8);
        },
    }
    assert(r@ =~= primitive_field_bytes(field_type, value));
    r
}

} // verus!
