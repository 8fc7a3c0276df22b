use soa_derive_internal::input::{
    is_excepted_capability, AttrValue, Attribute, Data, DeriveInput, Field, Input, InputError,
    Visibility,
};
use soa_derive_internal::tokens::{is_identifier, is_white_space, split_capabilities, trim_str};

fn field(name: &str, ty: &str) -> Field {
    Field { name: name.to_string(), ty: ty.to_string() }
}

fn attr(key: &str, value: AttrValue, text: &str) -> Attribute {
    Attribute { key: key.to_string(), value, text: text.to_string() }
}

fn marker(list: &str) -> Attribute {
    attr(
        "soa_derive",
        AttrValue::Str(list.to_string()),
        &format!("soa_derive = \"{}\"", list),
    )
}

fn record(name: &str, attrs: Vec<Attribute>, data: Data) -> DeriveInput {
    DeriveInput { ident: name.to_string(), vis: Visibility::Public, attrs, data }
}

fn strings(v: &[&str]) -> Vec<String> {
    v.iter().map(|s| s.to_string()).collect()
}

fn foo(list: &str) -> Input {
    Input::new(record("Foo", vec![marker(list)], Data::Struct(vec![]))).unwrap()
}

#[test]
fn point_end_to_end() {
    let input = record(
        "Point",
        vec![marker("Debug, Clone, PartialEq, Serialize")],
        Data::Struct(vec![field("x", "f64"), field("y", "f64")]),
    );
    let s = Input::new(input).unwrap();
    assert_eq!(s.name, "Point");
    assert_eq!(s.visibility, Visibility::Public);
    assert_eq!(s.fields, vec![field("x", "f64"), field("y", "f64")]);
    assert_eq!(s.derives, strings(&["Debug", "Clone", "PartialEq", "Serialize"]));
    assert_eq!(s.vec_name(), "PointVec");
    assert_eq!(s.derive(), Some(strings(&["Debug", "Clone", "PartialEq", "Serialize"])));
    assert_eq!(s.derive_with_exceptions(), Some(strings(&["Debug", "PartialEq"])));
}

#[test]
fn fields_keep_length_and_order() {
    let fields = vec![field("c", "u8"), field("a", "Vec<u32>"), field("b", "String")];
    let s = Input::new(record("R", vec![], Data::Struct(fields.clone()))).unwrap();
    assert_eq!(s.fields, fields);
}

#[test]
fn unit_struct_has_no_fields() {
    let s = Input::new(record("Empty", vec![], Data::Unit)).unwrap();
    assert!(s.fields.is_empty());
    assert!(s.derives.is_empty());
    assert_eq!(s.vec_name(), "EmptyVec");
}

#[test]
fn capability_list_is_trimmed() {
    assert_eq!(foo("A, B , C").derives, strings(&["A", "B", "C"]));
}

#[test]
fn capability_list_keeps_duplicates_and_order() {
    assert_eq!(foo("Ord,Debug, Ord ,Eq").derives, strings(&["Ord", "Debug", "Ord", "Eq"]));
}

#[test]
fn several_declarations_append() {
    let input = record(
        "Foo",
        vec![marker("Debug"), attr("doc", AttrValue::Str("x".to_string()), "doc = \"x\""), marker("Clone, Eq")],
        Data::Struct(vec![]),
    );
    assert_eq!(Input::new(input).unwrap().derives, strings(&["Debug", "Clone", "Eq"]));
}

#[test]
fn other_attributes_are_ignored() {
    let input = record(
        "Foo",
        vec![
            attr("repr", AttrValue::List, "repr(C)"),
            attr("other::soa_derive", AttrValue::Bare, "other::soa_derive"),
            attr("inline", AttrValue::Bare, "inline"),
        ],
        Data::Struct(vec![field("a", "i32")]),
    );
    let s = Input::new(input).unwrap();
    assert!(s.derives.is_empty());
    assert_eq!(s.fields.len(), 1);
}

#[test]
fn visibility_is_copied() {
    let mut input = record("Foo", vec![], Data::Unit);
    input.vis = Visibility::Restricted("crate".to_string());
    assert_eq!(Input::new(input).unwrap().visibility, Visibility::Restricted("crate".to_string()));
    let mut input = record("Foo", vec![], Data::Unit);
    input.vis = Visibility::Private;
    assert_eq!(Input::new(input).unwrap().visibility, Visibility::Private);
}

#[test]
fn enum_is_refused() {
    assert_eq!(Input::new(record("E", vec![], Data::Enum)), Err(InputError::NotAStruct));
}

#[test]
fn tuple_struct_is_refused() {
    let input = record("T", vec![], Data::Tuple(strings(&["u8", "u16"])));
    assert_eq!(Input::new(input), Err(InputError::NotAStruct));
}

#[test]
fn union_is_refused_before_attributes_are_read() {
    let input = record("U", vec![attr("soa_derive", AttrValue::Bare, "soa_derive")], Data::Union);
    assert_eq!(Input::new(input), Err(InputError::NotAStruct));
}

#[test]
fn bare_declaration_is_malformed() {
    let input = record("F", vec![attr("soa_derive", AttrValue::Bare, "soa_derive")], Data::Unit);
    let e = Input::new(input).unwrap_err();
    assert_eq!(e, InputError::MalformedDeclaration("soa_derive".to_string()));
    assert_eq!(e.message(), "expected #[soa_derive = \"Traits, To, Derive\"], got #[soa_derive]");
}

#[test]
fn list_declaration_is_malformed() {
    let input = record(
        "F",
        vec![attr("soa_derive", AttrValue::List, "soa_derive (Debug , Clone)")],
        Data::Struct(vec![]),
    );
    assert_eq!(
        Input::new(input),
        Err(InputError::MalformedDeclaration("soa_derive (Debug , Clone)".to_string()))
    );
}

#[test]
fn non_string_declaration_is_malformed() {
    let input = record(
        "F",
        vec![marker("Debug"), attr("soa_derive", AttrValue::OtherLit, "soa_derive = 42"), attr("soa_derive", AttrValue::Bare, "soa_derive")],
        Data::Unit,
    );
    assert_eq!(
        Input::new(input),
        Err(InputError::MalformedDeclaration("soa_derive = 42".to_string()))
    );
}

#[test]
fn not_a_struct_message() {
    assert_eq!(InputError::NotAStruct.message(), "#[derive(StructOfArray)] only supports structs.");
}

#[test]
fn seven_names() {
    let s = foo("Debug");
    assert_eq!(s.vec_name(), "FooVec");
    assert_eq!(s.slice_name(), "FooSlice");
    assert_eq!(s.slice_mut_name(), "FooSliceMut");
    assert_eq!(s.ref_name(), "FooRef");
    assert_eq!(s.ref_mut_name(), "FooRefMut");
    assert_eq!(s.ptr_name(), "FooPtr");
    assert_eq!(s.ptr_mut_name(), "FooPtrMut");
}

#[test]
fn no_capabilities_attach_nothing() {
    let s = Input::new(record("Foo", vec![], Data::Unit)).unwrap();
    assert_eq!(s.derive(), None);
    assert_eq!(s.derive_with_exceptions(), None);
}

#[test]
fn exceptions_are_filtered_everywhere() {
    let s = foo("Serialize, Debug, Clone, Deserialize, Hash, Clone, MyTrait");
    assert_eq!(
        s.derive(),
        Some(strings(&["Serialize", "Debug", "Clone", "Deserialize", "Hash", "Clone", "MyTrait"]))
    );
    assert_eq!(s.derive_with_exceptions(), Some(strings(&["Debug", "Hash", "MyTrait"])));
}

#[test]
fn only_exceptions_give_an_empty_annotation() {
    let s = foo("Clone, Serialize");
    assert_eq!(s.derive_with_exceptions(), Some(vec![]));
    assert_eq!(s.derive(), Some(strings(&["Clone", "Serialize"])));
}

#[test]
fn exceptions_match_exactly() {
    let s = foo("clone, CloneX, Serialize2");
    assert_eq!(s.derive_with_exceptions(), Some(strings(&["clone", "CloneX", "Serialize2"])));
    assert!(is_excepted_capability(&"Deserialize".to_string()));
    assert!(!is_excepted_capability(&"Debug".to_string()));
}

#[test]
fn queries_repeat() {
    let s = foo("Debug, Clone");
    assert_eq!(s.vec_name(), s.vec_name());
    assert_eq!(s.ptr_mut_name(), s.ptr_mut_name());
    assert_eq!(s.derive(), s.derive());
    assert_eq!(s.derive_with_exceptions(), s.derive_with_exceptions());
}

#[test]
fn trimming_uses_unicode_white_space() {
    assert_eq!(trim_str("\u{3000}\t A b\n\u{A0}"), "A b");
    assert_eq!(trim_str("   "), "");
    assert_eq!(trim_str(""), "");
    assert_eq!(trim_str("x"), "x");
}

#[test]
fn splitting_keeps_empty_pieces() {
    assert_eq!(split_capabilities(""), strings(&[""]));
    assert_eq!(split_capabilities("A,, B ,"), strings(&["A", "", "B", ""]));
}

fn refused_list(list: &str) {
    let input = record("F", vec![marker("Debug"), marker(list)], Data::Struct(vec![]));
    assert_eq!(
        Input::new(input),
        Err(InputError::MalformedDeclaration(format!("soa_derive = \"{}\"", list)))
    );
}

#[test]
fn empty_piece_is_malformed() {
    refused_list("A,,B");
}

#[test]
fn trailing_comma_is_malformed() {
    refused_list("A, B,");
}

#[test]
fn empty_list_is_malformed() {
    refused_list("");
}

#[test]
fn non_identifier_pieces_are_malformed() {
    refused_list("Debug, 1x");
    refused_list("123");
    refused_list("serde::Serialize");
    refused_list("Partial Eq");
    refused_list("fn");
}

#[test]
fn identifier_check() {
    assert!(is_identifier(&"Debug".to_string()));
    assert!(is_identifier(&"_Private2".to_string()));
    assert!(is_identifier(&"Débug".to_string()));
    assert!(!is_identifier(&"".to_string()));
    assert!(!is_identifier(&"42".to_string()));
    assert!(!is_identifier(&"a::b".to_string()));
    assert!(!is_identifier(&"_".to_string()));
    assert!(!is_identifier(&"struct".to_string()));
}

#[test]
fn white_space_characters() {
    for c in ['\t', '\n', '\u{B}', '\u{C}', '\r', ' ', '\u{85}', '\u{A0}', '\u{1680}', '\u{2000}', '\u{200A}', '\u{2028}', '\u{2029}', '\u{202F}', '\u{205F}', '\u{3000}'] {
        assert!(is_white_space(c));
        assert_eq!(is_white_space(c), c.is_whitespace());
    }
    for c in ['a', ',', '\u{200B}', '\u{8}', '\u{E}', '\u{1F}', '\u{FEFF}', '_'] {
        assert!(!is_white_space(c));
        assert_eq!(is_white_space(c), c.is_whitespace());
    }
}
