use pointer_debug::model::{Field, FieldValue};
use pointer_debug::numfmt::addr_hex;
use pointer_debug::text::{contains_substr, name_is_padding, tag_is_pointer};

#[test]
fn substring_search() {
    assert!(contains_substr("hello_pad_x", "_pad"));
    assert!(contains_substr("_pad", "_pad"));
    assert!(!contains_substr("hello", "_pad"));
    assert!(!contains_substr("pa", "_pad"));
    assert!(contains_substr("abc", ""));
    assert!(contains_substr("", ""));
    assert!(!contains_substr("", "x"));
    assert!(contains_substr("xxPointer64yy", "Pointer"));
}

#[test]
fn padding_names() {
    assert!(name_is_padding("_pad0"));
    assert!(name_is_padding("tail_padding"));
    assert!(!name_is_padding("padding")); // no underscore before "pad"
    assert!(!name_is_padding("id"));
}

#[test]
fn pointer_tags() {
    assert!(tag_is_pointer("Pointer"));
    assert!(tag_is_pointer("Pointer64"));
    assert!(tag_is_pointer("MyPointerWrapper"));
    assert!(!tag_is_pointer("u32"));
    assert!(!tag_is_pointer("pointer")); // the convention is case-sensitive
}

#[test]
fn plain_constructor_rejects_pointer_tags() {
    assert!(Field::plain("x".to_string(), "u32".to_string(), "1".to_string()).is_some());
    assert!(Field::plain("x".to_string(), "Pointer64".to_string(), "1".to_string()).is_none());
}

#[test]
fn pointer_constructor_requires_pointer_tags() {
    let f = Field::pointer("next".to_string(), "Pointer64".to_string(), 0x10).unwrap();
    assert_eq!(f.name, "next");
    assert_eq!(f.type_tag, "Pointer64");
    match f.value {
        FieldValue::Pointer(a) => assert_eq!(a, 0x10),
        FieldValue::Plain(_) => panic!("pointer field must carry an address"),
    }
    assert!(Field::pointer("next".to_string(), "u32".to_string(), 0x10).is_none());
}

#[test]
fn hex_rendering() {
    assert_eq!(addr_hex(0), "0x0");
    assert_eq!(addr_hex(1), "0x1");
    assert_eq!(addr_hex(15), "0xf");
    assert_eq!(addr_hex(16), "0x10");
    assert_eq!(addr_hex(0x1000), "0x1000");
    assert_eq!(addr_hex(0xdeadbeef), "0xdeadbeef");
    assert_eq!(addr_hex(u64::MAX), "0xffffffffffffffff");
}
