use xsd_parser::builder::{GeneratorBuilder, NodeKind};
use xsd_parser::case::{to_pascal_case, to_snake_case};
use xsd_parser::error::ErrorKind;
use xsd_parser::generator::{get_module_name, Generator};
use xsd_parser::merge::{merge_extension, merge_restriction};
use xsd_parser::naming::namespace_to_module_name;
use xsd_parser::parser::{parse_choice, parse_element, parse_sequence};
use xsd_parser::schema::{parse_complex_type, parse_schema};
use xsd_parser::types::{
    Import, ImportEntry, RsEntity, RsFile, StructField, TupleStruct, TypeModifier,
};
use xsd_parser::xml::{Attribute, ElementType, XmlNode};

const XS: &str = "http://www.w3.org/2001/XMLSchema";

fn node(tag: &str, attrs: &[(&str, &str)], children: Vec<XmlNode>) -> XmlNode {
    XmlNode {
        tag: tag.to_string(),
        namespace: XS.to_string(),
        attributes: attrs
            .iter()
            .map(|(n, v)| Attribute { name: n.to_string(), value: v.to_string() })
            .collect(),
        children,
        text: String::new(),
        position: 0,
    }
}

fn element(name: &str, ty: &str) -> XmlNode {
    node("element", &[("name", name), ("type", ty)], vec![])
}

fn field(name: &str, ty: &str) -> StructField {
    StructField {
        name: name.to_string(),
        type_ref: ty.to_string(),
        comment: None,
        type_modifiers: vec![],
        default: None,
        choice: None,
    }
}

fn schema(target: &str, children: Vec<XmlNode>) -> XmlNode {
    node("schema", &[("targetNamespace", target)], children)
}

fn struct_fields(e: &RsEntity) -> Vec<(String, String, Vec<TypeModifier>)> {
    match e {
        RsEntity::Struct(s) => s
            .fields
            .iter()
            .map(|f| (f.name.clone(), f.type_ref.clone(), f.type_modifiers.clone()))
            .collect(),
        other => panic!("not a record: {:?}", other),
    }
}

fn any_type_schema() -> XmlNode {
    schema(
        "http://www.company.org/cum/sonoras",
        vec![node(
            "complexType",
            &[("name", "AppSequenceType")],
            vec![node(
                "complexContent",
                &[],
                vec![node(
                    "restriction",
                    &[("base", "xs:anyType")],
                    vec![
                        node(
                            "attribute",
                            &[("name", "InstanceId"), ("type", "xs:unsignedInt"), ("use", "required")],
                            vec![],
                        ),
                        node("attribute", &[("name", "SequenceId"), ("type", "xs:anyURI")], vec![]),
                        node(
                            "attribute",
                            &[("name", "MessageNumber"), ("type", "xs:unsignedInt"), ("use", "required")],
                            vec![],
                        ),
                    ],
                )],
            )],
        )],
    )
}

fn default_generator() -> Generator {
    GeneratorBuilder::default().build()
}

#[test]
fn generator_output_has_correct_ast() {
    let doc = parse_schema(&any_type_schema(), "input", &vec![]).unwrap();
    assert_eq!(doc.types.len(), 1);
    assert_eq!(doc.types[0].name(), "AppSequenceType");
    assert_eq!(
        struct_fields(&doc.types[0]),
        vec![
            ("InstanceId".to_string(), "xs:unsignedInt".to_string(), vec![]),
            ("SequenceId".to_string(), "xs:anyURI".to_string(), vec![TypeModifier::Optional]),
            ("MessageNumber".to_string(), "xs:unsignedInt".to_string(), vec![]),
        ]
    );
    let text = default_generator().generate_rs_file(&doc).unwrap();
    assert!(text.starts_with("pub mod http_//www.company.org/cum/sonoras {\nuse super::*;\n\n"));
    assert!(text.contains("pub struct AppSequenceType {\n"));
    assert!(text.contains("    pub instance_id: u32,\n"));
    assert!(text.contains("    pub sequence_id: Option<String>,\n"));
    assert!(text.contains("    pub message_number: u32,\n"));
}

#[test]
fn generator_does_not_panic() {
    let doc = parse_schema(&any_type_schema(), "input", &vec![]).unwrap();
    println!("{}", default_generator().generate_rs_file(&doc).unwrap())
}

#[test]
fn test_generate_rs_file() {
    let gen = default_generator();
    let entity = RsEntity::TupleStruct(TupleStruct {
        name: "name".to_string(),
        comment: Some("comment".into()),
        type_ref: "type".to_string(),
        type_modifiers: vec![],
    });
    let expected = "// comment\n#[derive(Default, PartialEq, Debug, UtilsTupleIo, UtilsDefaultSerde)]\npub struct Name (pub Type);\n\nimpl Validate for Name {}\n";
    assert_eq!(gen.generate(None, &entity).unwrap(), expected);
    let rs_file = RsFile { name: String::new(), target_ns: None, types: vec![entity], imports: vec![] };
    assert_eq!(
        gen.generate_rs_file(&rs_file).unwrap(),
        format!("pub mod  {{\nuse super::*;\n\n{}\n}}", expected)
    );
}

#[test]
fn empty_document_renders_empty_module() {
    let gen = default_generator();
    let rs_file = RsFile { name: "doc".to_string(), target_ns: None, types: vec![], imports: vec![] };
    assert_eq!(gen.generate_rs_file(&rs_file).unwrap(), "pub mod doc {\nuse super::*;\n\n\n}");
}

#[test]
fn module_names_follow_the_namespace() {
    assert_eq!(namespace_to_module_name("urn:foo:bar#x"), "foo_barx");
    assert_eq!(namespace_to_module_name("urn:urn:a"), "a");
    assert_eq!(namespace_to_module_name("plain"), "plain");
    assert_eq!(namespace_to_module_name(""), "");
    assert_eq!(
        namespace_to_module_name("http://www.w3.org/2000/09/xmldsig#"),
        "www_w3_org_2000_09_xmldsig"
    );
    let doc = RsFile { name: "fallback:name".to_string(), target_ns: None, types: vec![], imports: vec![] };
    assert_eq!(get_module_name(&doc), "fallback_name");
}

#[test]
fn module_name_is_idempotent() {
    for ns in ["urn:a:b#c", "http://www.w3.org/2000/09/xmldsig#", "urn:urn:x", "http://e.com/a#b"] {
        let once = namespace_to_module_name(ns);
        assert_eq!(namespace_to_module_name(&once), once);
    }
}

fn nested(k: usize) -> XmlNode {
    let mut seq = node(
        "sequence",
        &[],
        vec![element("a", "xs:int"), element("b", "xs:string")],
    );
    for _ in 0..k {
        seq = node("sequence", &[], vec![seq]);
    }
    seq
}

#[test]
fn nested_sequences_collapse() {
    let parent = node("complexType", &[("name", "T")], vec![]);
    let inner = struct_fields(&parse_sequence(&nested(0), &parent, "T").unwrap());
    for k in [1usize, 2, 5] {
        let got = struct_fields(&parse_sequence(&nested(k), &parent, "T").unwrap());
        assert_eq!(got, inner);
    }
    assert_eq!(inner.len(), 2);
}

fn three_case_choice() -> XmlNode {
    node(
        "choice",
        &[],
        vec![element("x", "xs:int"), element("y", "xs:string"), element("z", "Other")],
    )
}

#[test]
fn sole_choice_becomes_enumeration() {
    let ct = node("complexType", &[("name", "Pick")], vec![three_case_choice()]);
    match parse_complex_type(&ct, &vec![]).unwrap() {
        RsEntity::Enum(e) => {
            assert_eq!(e.name, "Pick");
            assert_eq!(e.cases.len(), 3);
            assert_eq!(e.cases[2].type_ref.as_deref(), Some("Other"));
        }
        other => panic!("expected an enumeration: {:?}", other),
    }
}

#[test]
fn choice_among_elements_becomes_field() {
    let seq = node(
        "sequence",
        &[],
        vec![element("first", "xs:int"), three_case_choice(), element("last", "xs:string")],
    );
    let ct = node("complexType", &[("name", "Rec")], vec![seq]);
    let e = parse_complex_type(&ct, &vec![]).unwrap();
    let fs = struct_fields(&e);
    assert_eq!(fs.len(), 3);
    assert_eq!(fs[1].0, "RecChoice");
    match &e {
        RsEntity::Struct(s) => {
            let en = s.fields[1].choice.as_ref().unwrap();
            assert_eq!(en.name, "RecChoice");
            assert_eq!(en.cases.len(), 3);
        }
        _ => unreachable!(),
    }
    let text = default_generator().generate(None, &e).unwrap();
    assert!(text.contains("    pub rec_choice: RecChoice,\n"));
    assert!(text.contains("pub enum RecChoice {\n"));
}

#[test]
fn extension_keeps_base_fields_first() {
    let base = vec![field("a", "A"), field("b", "B")];
    let local = vec![field("c", "C")];
    let names: Vec<String> = merge_extension(&base, &local).into_iter().map(|f| f.name).collect();
    assert_eq!(names, vec!["a", "b", "c"]);
    let over = vec![field("b", "B2")];
    let merged = merge_extension(&base, &over);
    assert_eq!(merged.len(), 2);
    assert_eq!(merged[1].type_ref, "B2");
}

#[test]
fn restriction_replaces_fields() {
    let base = vec![field("a", "A"), field("b", "B")];
    let local = vec![field("a", "A"), field("b", "Restricted")];
    let merged = merge_restriction(&base, &local);
    let got: Vec<(String, String)> = merged.into_iter().map(|f| (f.name, f.type_ref)).collect();
    assert_eq!(got, vec![("a".to_string(), "A".to_string()), ("b".to_string(), "Restricted".to_string())]);
    let dropped = merge_restriction(&base, &vec![field("b", "R")]);
    assert_eq!(dropped.len(), 1);
}

#[test]
fn extension_through_document() {
    let doc = schema(
        "urn:t",
        vec![
            node("complexType", &[("name", "Base")], vec![node("sequence", &[], vec![element("a", "xs:int"), element("b", "xs:int")])]),
            node(
                "complexType",
                &[("name", "Derived")],
                vec![node(
                    "complexContent",
                    &[],
                    vec![node("extension", &[("base", "tns:Base")], vec![node("sequence", &[], vec![element("c", "xs:int")])])],
                )],
            ),
        ],
    );
    let f = parse_schema(&doc, "t", &vec![]).unwrap();
    let names: Vec<String> = struct_fields(&f.types[1]).into_iter().map(|x| x.0).collect();
    assert_eq!(names, vec!["a", "b", "c"]);
}

#[test]
fn optional_and_required_fields() {
    let seq = node(
        "sequence",
        &[],
        vec![
            node("element", &[("name", "count"), ("type", "xs:int"), ("minOccurs", "0")], vec![]),
            element("label", "xs:string"),
        ],
    );
    let doc = schema("urn:example:rt", vec![node("complexType", &[("name", "Rec")], vec![seq])]);
    let f = parse_schema(&doc, "rt", &vec![]).unwrap();
    assert_eq!(f.types.len(), 1);
    let fs = struct_fields(&f.types[0]);
    assert_eq!(fs[0].2, vec![TypeModifier::Optional]);
    assert_eq!(fs[1].2, vec![]);
    let module = get_module_name(&f);
    assert_eq!(module, "example_rt");
    assert_eq!(namespace_to_module_name(&module), module);
    let text = default_generator().generate_rs_file(&f).unwrap();
    assert!(text.contains("    pub count: Option<i32>,\n    pub label: String,\n"));
}

#[test]
fn unresolved_import_is_reported() {
    let doc = schema(
        "urn:a",
        vec![node("import", &[("namespace", "urn:missing")], vec![]), node("complexType", &[("name", "T")], vec![])],
    );
    let err = parse_schema(&doc, "a", &vec![]).unwrap_err();
    assert_eq!(err.kind, ErrorKind::UnresolvedImport);

    let rs_file = RsFile {
        name: "a".to_string(),
        target_ns: None,
        types: vec![RsEntity::Import(Import { name: "urn:missing".to_string(), location: "m".to_string(), comment: None })],
        imports: vec![],
    };
    let err = default_generator().generate_rs_file(&rs_file).unwrap_err();
    assert_eq!(err.kind, ErrorKind::UnresolvedImport);
}

#[test]
fn resolved_import_uses_alias_and_module() {
    let modules = vec![ImportEntry { namespace: "urn:b".to_string(), alias: "b".to_string(), module: "b_mod".to_string() }];
    let doc = schema("urn:a", vec![node("import", &[("namespace", "urn:b")], vec![])]);
    let f = parse_schema(&doc, "a", &modules).unwrap();
    let text = default_generator().generate_rs_file(&f).unwrap();
    assert!(text.contains("use super::b_mod as b;\n"));
    let standalone = default_generator().generate(None, &f.types[0]).unwrap();
    assert_eq!(standalone, "use b_mod as urn:b;\n");
}

#[test]
fn duplicate_names_collide() {
    let doc = schema(
        "urn:a",
        vec![node("complexType", &[("name", "T")], vec![]), node("complexType", &[("name", "T")], vec![])],
    );
    assert_eq!(parse_schema(&doc, "a", &vec![]).unwrap_err().kind, ErrorKind::NameCollision);
}

#[test]
fn recursive_field_is_boxed() {
    let seq = node("sequence", &[], vec![node("element", &[("name", "next"), ("type", "tns:Node"), ("minOccurs", "0")], vec![])]);
    let doc = schema("urn:a", vec![node("complexType", &[("name", "Node")], vec![seq])]);
    let f = parse_schema(&doc, "a", &vec![]).unwrap();
    let fs = struct_fields(&f.types[0]);
    assert_eq!(fs[0].2, vec![TypeModifier::Optional, TypeModifier::Recursive]);
    let text = default_generator().generate_rs_file(&f).unwrap();
    assert!(text.contains("    pub next: Option<Box<Node>>,\n"));
}

#[test]
fn compiling_twice_is_identical() {
    let a = parse_schema(&any_type_schema(), "input", &vec![]).unwrap();
    let b = parse_schema(&any_type_schema(), "input", &vec![]).unwrap();
    let g = default_generator();
    assert_eq!(g.generate_rs_file(&a).unwrap(), g.generate_rs_file(&b).unwrap());
}

#[test]
fn unknown_construct_is_reported() {
    let seq = node("sequence", &[], vec![node("any", &[], vec![])]);
    let mut foreign = element("x", "y");
    foreign.namespace = "urn:other".to_string();
    let parent = node("complexType", &[("name", "T")], vec![]);
    assert_eq!(parse_sequence(&seq, &parent, "T").unwrap_err().kind, ErrorKind::UnrecognizedConstruct);
    let seq2 = node("sequence", &[], vec![foreign]);
    assert_eq!(parse_sequence(&seq2, &parent, "T").unwrap_err().kind, ErrorKind::UnrecognizedConstruct);
    let seq3 = node("sequence", &[], vec![node("attribute", &[("name", "a"), ("type", "b")], vec![])]);
    assert_eq!(parse_sequence(&seq3, &parent, "T").unwrap_err().kind, ErrorKind::UnexpectedChildShape);
}

#[test]
fn missing_renderer_is_reported() {
    let gen = GeneratorBuilder::empty().build();
    let entity = RsEntity::TupleStruct(TupleStruct { name: "n".to_string(), comment: None, type_ref: "t".to_string(), type_modifiers: vec![] });
    assert_eq!(gen.generate(None, &entity).unwrap_err().kind, ErrorKind::GeneratorNotConfigured);
    let gen = GeneratorBuilder::empty().with(NodeKind::StructField, None).build();
    assert_eq!(gen.struct_field_gen().unwrap_err().kind, ErrorKind::GeneratorNotConfigured);
    assert!(default_generator().enum_case_gen().is_ok());
}

#[test]
fn element_occurrences_and_marker() {
    let many = node("element", &[("name", "items"), ("type", "xs:long"), ("maxOccurs", "unbounded")], vec![]);
    let f = parse_element(&many).unwrap();
    assert_eq!(f.type_modifiers, vec![TypeModifier::Array]);
    let marker = node("element", &[("name", "flag")], vec![]);
    let f = parse_element(&marker).unwrap();
    assert_eq!(f.type_modifiers, vec![TypeModifier::Empty]);
    let choice = parse_choice(&three_case_choice(), "C").unwrap();
    assert_eq!(choice.cases[0].name, "x");
}

#[test]
fn simple_types_and_classification() {
    let en = node(
        "simpleType",
        &[("name", "Color")],
        vec![node("restriction", &[("base", "xs:string")], vec![node("enumeration", &[("value", "red")], vec![]), node("enumeration", &[("value", "blue")], vec![])])],
    );
    let al = node("simpleType", &[("name", "Code")], vec![node("restriction", &[("base", "xs:string")], vec![])]);
    let list = node("simpleType", &[("name", "Codes")], vec![node("list", &[("itemType", "xs:int")], vec![])]);
    let f = parse_schema(&schema("urn:s", vec![en, al, list]), "s", &vec![]).unwrap();
    match &f.types[0] {
        RsEntity::Enum(e) => assert_eq!(e.cases.len(), 2),
        other => panic!("{:?}", other),
    }
    let text = default_generator().generate_rs_file(&f).unwrap();
    assert!(text.contains("    Red,\n    Blue,\n"));
    assert!(text.contains("pub type Code = String;\n"));
    assert!(text.contains("pub struct Codes (pub Vec<i32>);\n\nimpl Validate for Codes {}\n"));
    assert_eq!(node("sequence", &[], vec![]).classify(), ElementType::Sequence);
}

#[test]
fn case_conversion() {
    assert_eq!(to_pascal_case("name"), "Name");
    assert_eq!(to_pascal_case("app_sequence-type"), "AppSequenceType");
    assert_eq!(to_snake_case("InstanceId"), "instance_id");
    assert_eq!(to_snake_case("a-b"), "a_b");
}

#[test]
fn output_names_collide_across_case() {
    let doc = schema(
        "urn:a",
        vec![node("complexType", &[("name", "foo")], vec![]), node("complexType", &[("name", "Foo")], vec![])],
    );
    let err = parse_schema(&doc, "a", &vec![]).unwrap_err();
    assert_eq!(err.kind, ErrorKind::NameCollision);
    assert_eq!(err.tag, "Foo");
}

#[test]
fn duplicate_field_names_collide() {
    let seq = node("sequence", &[], vec![element("Value", "xs:int"), element("value", "xs:string")]);
    let parent = node("complexType", &[("name", "T")], vec![]);
    let err = parse_sequence(&seq, &parent, "T").unwrap_err();
    assert_eq!(err.kind, ErrorKind::NameCollision);
    assert_eq!(err.context, "T");
}

#[test]
fn top_level_element_with_inline_type() {
    let inline = node(
        "element",
        &[("name", "Order")],
        vec![node("complexType", &[], vec![node("sequence", &[], vec![element("id", "xs:int")])])],
    );
    let f = parse_schema(&schema("urn:o", vec![inline]), "o", &vec![]).unwrap();
    assert_eq!(f.types[0].name(), "Order");
    assert_eq!(struct_fields(&f.types[0]).len(), 1);
}

#[test]
fn include_needs_own_namespace_module() {
    let doc = schema("urn:a", vec![node("include", &[("schemaLocation", "part.xsd")], vec![])]);
    let err = parse_schema(&doc, "a", &vec![]).unwrap_err();
    assert_eq!(err.kind, ErrorKind::UnresolvedImport);
    let modules = vec![ImportEntry { namespace: "urn:a".to_string(), alias: "a".to_string(), module: "a".to_string() }];
    assert!(parse_schema(&doc, "a", &modules).unwrap().types.is_empty());
}

#[test]
fn errors_carry_their_context() {
    let gen = GeneratorBuilder::empty().build();
    let entity = RsEntity::TupleStruct(TupleStruct { name: "n".to_string(), comment: None, type_ref: "t".to_string(), type_modifiers: vec![] });
    assert_eq!(gen.generate(None, &entity).unwrap_err().tag, "tuple struct");
    let rs_file = RsFile {
        name: "doc".to_string(),
        target_ns: None,
        types: vec![RsEntity::Import(Import { name: "urn:gone".to_string(), location: "m".to_string(), comment: None })],
        imports: vec![],
    };
    let err = default_generator().generate(Some(&rs_file), &rs_file.types[0]).unwrap_err();
    assert_eq!((err.tag.as_str(), err.context.as_str()), ("urn:gone", "doc"));
    let mut bad = node("element", &[], vec![]);
    bad.position = 42;
    let err = parse_element(&bad).unwrap_err();
    assert_eq!((err.tag.as_str(), err.position), ("element", 42));
}
