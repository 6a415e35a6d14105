use futurecop_mod::named_map::NamedMap;
use futurecop_mod::plugins::library::dangerous::hook::{
    closure_wrapper_code, get_native_function, hook_signature, native_function_signature, NativeFunction,
};
use futurecop_mod::plugins::library::dangerous::memory::{bytes_from_array, integer_bytes, ByteArrayItem};
use futurecop_mod::plugins::library::dangerous::native::{
    field_definition, native_struct_from_definition, primitive_field_write, FieldDefinition, FieldDefinitionType,
    FieldType, NativeStructDefinition, TypeSpecification,
};
use futurecop_mod::plugins::library::dangerous::types::{native_value, parse_types, NativeValue, Type, MAX_STRING};

fn names(list: &[&str]) -> Vec<String> {
    list.iter().map(|s| s.to_string()).collect()
}

#[test]
fn type_names() {
    assert_eq!(Type::try_from_str("string"), Some(Type::String));
    assert_eq!(Type::try_from_str("int"), Some(Type::Integer));
    assert_eq!(Type::try_from_str("float"), Some(Type::Float));
    assert_eq!(Type::try_from_str("void"), Some(Type::Void));
    assert_eq!(Type::try_from_str("short"), Some(Type::Short));
    assert_eq!(Type::try_from_str("byte"), Some(Type::Byte));
    assert_eq!(Type::try_from_str("Int"), None);
    assert_eq!(Type::try_from_str(""), None);
    assert_eq!(MAX_STRING, 1024);
}

#[test]
fn parse_types_reports_first_unknown_name() {
    assert_eq!(parse_types(&names(&["int", "byte"])), Ok(vec![Type::Integer, Type::Byte]));
    assert_eq!(parse_types(&names(&["int", "long", "double"])), Err(1));
    assert_eq!(parse_types(&names(&[])), Ok(vec![]));
}

#[test]
fn native_values_seen_from_lua() {
    assert_eq!(native_value(Type::Integer, 0xffff_ffff), NativeValue::Integer(-1));
    assert_eq!(native_value(Type::Short, 0x0001_ffff), NativeValue::Integer(-1));
    assert_eq!(native_value(Type::Short, 0x0000_7fff), NativeValue::Integer(0x7fff));
    assert_eq!(native_value(Type::Byte, 0x1_80), NativeValue::Integer(-128));
    assert_eq!(native_value(Type::String, 0x1234), NativeValue::StringAt(0x1234));
    assert_eq!(native_value(Type::Float, 0x3f80_0000), NativeValue::Float(0x3f80_0000));
    assert_eq!(native_value(Type::Void, 5), NativeValue::Nil);
}

#[test]
fn hook_signature_checks_return_type_first() {
    let ok = hook_signature(&names(&["int", "string"]), "void").unwrap();
    assert_eq!(ok.argument_types, vec![Type::Integer, Type::String]);
    assert_eq!(ok.return_type, Type::Void);
    match hook_signature(&names(&["nope"]), "bad") {
        Err(m) => assert_eq!(m, "return type invalid: type 'bad' doesn't exist"),
        Ok(_) => panic!("expected an error"),
    }
    match hook_signature(&names(&["int", "nope", "worse"]), "int") {
        Err(m) => assert_eq!(m, "argument type invalid: type 'nope' doesn't exist"),
        Ok(_) => panic!("expected an error"),
    }
}

#[test]
fn native_function_signature_checks_arguments_first() {
    match native_function_signature(&names(&["nope"]), "bad") {
        Err(m) => assert_eq!(m, "unsupported argument type"),
        Ok(_) => panic!("expected an error"),
    }
    match native_function_signature(&names(&["int"]), "bad") {
        Err(m) => assert_eq!(m, "unsupported return type"),
        Ok(_) => panic!("expected an error"),
    }
    let ok = native_function_signature(&names(&["short"]), "byte").unwrap();
    assert_eq!(ok.argument_types, vec![Type::Short]);
    assert_eq!(ok.return_type, Type::Byte);
}

#[test]
fn native_functions() {
    let f = NativeFunction::new(0x40_1000, vec![Type::Integer], Type::Void);
    assert_eq!(f.address, 0x40_1000);
    assert_eq!(f.arg_types, vec![Type::Integer]);
    assert_eq!(f.return_type, Type::Void);
    let g = get_native_function(0x1234, &names(&["int", "float"]), "string").unwrap();
    assert_eq!(g.address, 0x1234);
    assert_eq!(g.arg_types, vec![Type::Integer, Type::Float]);
    assert_eq!(g.return_type, Type::String);
    assert!(get_native_function(0x1234, &names(&["x"]), "int").is_err());
}

#[test]
fn trampoline_machine_code() {
    let code = closure_wrapper_code(2, 0x1122_3344, 0x0000_2000, 0x0000_1000);
    assert_eq!(code.len(), 38);
    // mov eax, 8
    assert_eq!(&code[0..5], &[0xb8, 0x08, 0x00, 0x00, 0x00]);
    // argument loop
    assert_eq!(
        &code[5..20],
        &[0x89, 0xe1, 0x01, 0xc1, 0x89, 0xe2, 0xff, 0x31, 0x83, 0xe9, 0x04, 0x39, 0xca, 0x72, 0xf7]
    );
    // push data
    assert_eq!(&code[20..25], &[0x68, 0x44, 0x33, 0x22, 0x11]);
    // call closure: relative to the end of the call, 0x1000 + 30
    let delta = (0x2000u32).wrapping_sub(0x1000 + 30);
    assert_eq!(code[25], 0xe8);
    assert_eq!(&code[26..30], &delta.to_le_bytes());
    // mov ecx, 12; add esp, ecx; ret
    assert_eq!(&code[30..38], &[0xb9, 0x0c, 0x00, 0x00, 0x00, 0x01, 0xcc, 0xc3]);
}

#[test]
fn trampoline_with_closure_below_wrapper() {
    let code = closure_wrapper_code(0, 0, 0x1000, 0x2000);
    let delta = (0x1000i32 - (0x2000 + 30)) as u32;
    assert_eq!(&code[26..30], &delta.to_le_bytes());
    assert_eq!(&code[1..5], &[0, 0, 0, 0]);
    assert_eq!(&code[31..35], &[4, 0, 0, 0]);
}

#[test]
fn byte_arrays() {
    let ok = bytes_from_array(&vec![ByteArrayItem::Integer(0), ByteArrayItem::Integer(255), ByteArrayItem::Integer(7)]);
    assert_eq!(ok, Ok(vec![0, 255, 7]));
    let too_big = bytes_from_array(&vec![ByteArrayItem::Integer(1), ByteArrayItem::Integer(256)]);
    assert_eq!(
        too_big,
        Err("supply the memory to write as a byte array (each item must be between 0 and 255".to_string())
    );
    let negative = bytes_from_array(&vec![ByteArrayItem::Integer(-1)]);
    assert!(negative.is_err());
    let other = bytes_from_array(&vec![ByteArrayItem::Other("true".to_string()), ByteArrayItem::Integer(999)]);
    assert_eq!(
        other,
        Err("unsupported argument, provide memory as a byte array. Expected array, got true".to_string())
    );
    assert_eq!(bytes_from_array(&vec![]), Ok(vec![]));
}

#[test]
fn integers_are_little_endian() {
    assert_eq!(integer_bytes(0x0102_0304), vec![4, 3, 2, 1]);
    assert_eq!(integer_bytes(-1), vec![0xff, 0xff, 0xff, 0xff]);
    assert_eq!(integer_bytes(i32::MIN), vec![0, 0, 0, 0x80]);
}

#[test]
fn field_definitions() {
    match field_definition("hp", None, TypeSpecification::Named("int".to_string())) {
        Err(m) => assert_eq!(m, "Field definition of hp is missing 'offset'"),
        Ok(_) => panic!("expected an error"),
    }
    match field_definition("hp", Some(4), TypeSpecification::Missing) {
        Err(m) => assert_eq!(m, "Field definition of hp is missing 'type'"),
        Ok(_) => panic!("expected an error"),
    }
    let d = field_definition("hp", Some(4), TypeSpecification::Named("short".to_string())).unwrap();
    assert_eq!(d.offset, 4);
    assert!(matches!(d.field_type, FieldDefinitionType::Primitive(Type::Short)));
    match field_definition("hp", Some(4), TypeSpecification::Named("long".to_string())) {
        Err(m) => assert_eq!(m, "Unsupported type"),
        Ok(_) => panic!("expected an error"),
    }
    match field_definition("hp", Some(4), TypeSpecification::UnreadableName) {
        Err(m) => assert_eq!(m, "Could not convert type to string"),
        Ok(_) => panic!("expected an error"),
    }
    match field_definition("pos", Some(8), TypeSpecification::Complex { to_bytes: false, from_bytes: true }) {
        Err(m) => assert_eq!(m, "Complex type is missing function 'toBytes'"),
        Ok(_) => panic!("expected an error"),
    }
    match field_definition("pos", Some(8), TypeSpecification::Complex { to_bytes: true, from_bytes: false }) {
        Err(m) => assert_eq!(m, "Complex type is missing function 'fromBytes'"),
        Ok(_) => panic!("expected an error"),
    }
    let c = field_definition("pos", Some(8), TypeSpecification::Complex { to_bytes: true, from_bytes: true }).unwrap();
    assert_eq!(c.offset, 8);
    assert!(matches!(c.field_type, FieldDefinitionType::Complex(ref k) if k == "pos"));
    match field_definition("pos", Some(8), TypeSpecification::UnreadableUserData) {
        Err(m) => assert_eq!(m, "Could not convert type userdata to userdata"),
        Ok(_) => panic!("expected an error"),
    }
    match field_definition("pos", Some(8), TypeSpecification::Other) {
        Err(m) => assert_eq!(m, "Unsupported type"),
        Ok(_) => panic!("expected an error"),
    }
}

#[test]
fn native_struct_fields_lie_at_offsets() {
    let mut fields: NamedMap<FieldDefinition> = NamedMap::new();
    fields.insert("hp".to_string(), FieldDefinition { offset: 4, field_type: FieldDefinitionType::Primitive(Type::Short) });
    fields.insert(
        "pos".to_string(),
        FieldDefinition { offset: 0x10, field_type: FieldDefinitionType::Complex("ignored".to_string()) },
    );
    let definition = NativeStructDefinition { fields };
    let native = native_struct_from_definition(0x1000, &definition);
    assert_eq!(native.address, 0x1000);
    let hp = native.field("hp").unwrap();
    assert_eq!(hp.address, 0x1004);
    assert!(matches!(hp.field_type, FieldType::Primitive(Type::Short)));
    let pos = native.field("pos").unwrap();
    assert_eq!(pos.address, 0x1010);
    assert!(matches!(pos.field_type, FieldType::Complex(ref k) if k == "pos"));
    assert!(native.field("missing").is_none());

    let wrapped = native_struct_from_definition(0xffff_fffe, &definition);
    assert_eq!(wrapped.field("hp").unwrap().address, 2);
}

#[test]
fn field_writes_by_width() {
    assert_eq!(primitive_field_write(Type::Byte, 0x1234), vec![0x34]);
    assert_eq!(primitive_field_write(Type::Short, 0x0012_3456), vec![0x56, 0x34]);
    assert_eq!(primitive_field_write(Type::Integer, 0x1234_5678), vec![0x78, 0x56, 0x34, 0x12]);
    assert_eq!(primitive_field_write(Type::Float, 0x3f80_0000), vec![0, 0, 0x80, 0x3f]);
}
