use odata_gen::emit::{artifact_text, emit_variant, generate_code, render_keys, Variant};
use odata_gen::generate::{artifact_path, generate, get_odata_url, unknown_type_properties, Generation};
use odata_gen::render::{convert_type, prop_str, render_field, validation_directive, validation_str};
use odata_gen::schema::{
    disallows_edit, extract_keys, find_entity, has_tag, is_editable_property, is_entity_named, is_property,
    SchemaIntegrityError,
};
use odata_gen::xml::{MetadataError, XmlDocument};

fn wrap(body: &str) -> String {
    format!(
        "<edmx:Edmx xmlns:edmx=\"http://docs.oasis-open.org/odata/ns/edmx\"><edmx:DataServices>\
         <Schema xmlns=\"http://docs.oasis-open.org/odata/ns/edm\">{}</Schema>\
         </edmx:DataServices></edmx:Edmx>",
        body
    )
}

fn doc_of(body: &str) -> XmlDocument {
    XmlDocument::parse(&wrap(body)).unwrap()
}

fn first_property(doc: &XmlDocument) -> usize {
    (0..doc.nodes.len()).find(|&i| is_property(&doc.nodes[i])).unwrap()
}

fn strings(v: &[&str]) -> Vec<String> {
    v.iter().map(|s| s.to_string()).collect()
}

#[test]
fn maps_every_known_type() {
    assert_eq!(convert_type("Edm.String".to_string()), "String");
    assert_eq!(convert_type("Edm.Boolean".to_string()), "bool");
    assert_eq!(convert_type("Edm.Date".to_string()), "DateTime");
    assert_eq!(convert_type("Edm.Int32".to_string()), "u32");
}

#[test]
fn unknown_type_gives_marker() {
    assert_eq!(convert_type("Edm.Guid".to_string()), "?");
    assert_eq!(convert_type("".to_string()), "?");
}

#[test]
fn unknown_type_is_rendered_and_reported() {
    let doc = doc_of("<EntityType Name=\"Thing\"><Property Name=\"Id\" Type=\"Edm.Guid\"/></EntityType>");
    let e = find_entity(&doc, "Thing").unwrap();
    let read = emit_variant(&doc, e, "Thing", Variant::Read);
    assert_eq!(read, strings(&["#[derive(Debug, Deserialize)]", "pub struct Thing {", "\tpub Id: ?,\n", "}\n\n"]));
    let unknown = unknown_type_properties(&doc, e);
    assert_eq!(unknown.len(), 1);
    assert_eq!(doc.nodes[unknown[0]].attribute("Type"), Some("Edm.Guid".to_string()));
}

#[test]
fn odata_url_appends_metadata_suffix() {
    assert_eq!(get_odata_url("https://host/odata/".to_string()), "https://host/odata/$metadata/");
}

#[test]
fn artifact_path_keeps_letters_and_digits() {
    assert_eq!(artifact_path("Sales_Order-1"), "src/entities/SalesOrder1.rs");
    assert_eq!(artifact_path("Customer"), "src/entities/Customer.rs");
}

#[test]
fn malformed_metadata_is_rejected() {
    assert_eq!(XmlDocument::parse("<a><b></a>").err(), Some(MetadataError::MalformedMetadata));
}

#[test]
fn complete_property_renders_with_mapped_type() {
    let doc = doc_of("<EntityType Name=\"E\"><Property Name=\"Flag\" Type=\"Edm.Boolean\"/></EntityType>");
    let p = first_property(&doc);
    assert_eq!(prop_str(&doc.nodes[p]), Some("\tpub Flag: bool,\n".to_string()));
    assert_eq!(render_field(&doc.nodes[p], true), Some("\tpub Flag: bool,\n".to_string()));
}

#[test]
fn property_without_type_appears_in_no_variant() {
    let doc = doc_of(
        "<EntityType Name=\"E\"><Property Name=\"NoType\"/><Property Type=\"Edm.String\"/>\
         <Property Name=\"Ok\" Type=\"Edm.Int32\"/></EntityType>",
    );
    let p = first_property(&doc);
    assert_eq!(prop_str(&doc.nodes[p]), None);
    assert_eq!(render_field(&doc.nodes[p + 1], false), None);
    let e = find_entity(&doc, "E").unwrap();
    for v in [Variant::Read, Variant::Create, Variant::Update] {
        let lines = emit_variant(&doc, e, "E", v);
        assert_eq!(lines.len(), 4);
        assert_eq!(lines[2], "\tpub Ok: u32,\n");
    }
}

#[test]
fn nested_disallowing_annotation_makes_property_read_only() {
    let doc = doc_of(
        "<EntityType Name=\"E\"><Property Name=\"P\" Type=\"Edm.String\">\
         <Annotation Term=\"Other\"><Record><Annotation Term=\"NAV.AllowEdit\" Bool=\"false\"/></Record></Annotation>\
         </Property></EntityType>",
    );
    let p = first_property(&doc);
    assert!(!is_editable_property(&doc, p));
    let e = find_entity(&doc, "E").unwrap();
    assert_eq!(emit_variant(&doc, e, "E", Variant::Create).len(), 3);
    assert_eq!(emit_variant(&doc, e, "E", Variant::Read).len(), 4);
}

#[test]
fn allow_edit_true_or_partial_keeps_property_editable() {
    for ann in [
        "<Annotation Term=\"NAV.AllowEdit\" Bool=\"true\"/>",
        "<Annotation Term=\"NAV.AllowEdit\"/>",
        "<Annotation Term=\"Other\" Bool=\"false\"/>",
        "",
    ] {
        let doc = doc_of(&format!("<EntityType Name=\"E\"><Property Name=\"P\" Type=\"Edm.String\">{}</Property></EntityType>", ann));
        let p = first_property(&doc);
        assert!(is_editable_property(&doc, p), "{}", ann);
    }
}

#[test]
fn predicates_match_tags_and_attributes() {
    let doc = doc_of(
        "<EntityType Name=\"A\"/><EntityType Name=\"B\"><Annotation Term=\"NAV.AllowEdit\" Bool=\"false\"/></EntityType>",
    );
    let b = find_entity(&doc, "B").unwrap();
    assert!(has_tag(&doc.nodes[b], "EntityType"));
    assert!(is_entity_named(&doc.nodes[b], "B"));
    assert!(!is_entity_named(&doc.nodes[b], "A"));
    assert!(disallows_edit(&doc.nodes[b + 1]));
    assert!(!disallows_edit(&doc.nodes[b]));
    assert!(find_entity(&doc, "A").unwrap() < b);
    assert_eq!(find_entity(&doc, "C"), None);
}

#[test]
fn directive_table_all_four_cases() {
    assert_eq!(validation_directive(true, Some("20".to_string())), Some("\t#[validation(required,length=20)]".to_string()));
    assert_eq!(validation_directive(false, Some("20".to_string())), Some("\t#[validation(length=20)]".to_string()));
    assert_eq!(validation_directive(true, None), Some("\t#[validation(required)]".to_string()));
    assert_eq!(validation_directive(false, None), None);
}

#[test]
fn directive_from_property_attributes() {
    let doc = doc_of(
        "<EntityType Name=\"E\"><Property Name=\"A\" Type=\"Edm.String\" Nullable=\"true\" MaxLength=\"5\"/>\
         <Property Name=\"B\" Type=\"Edm.String\" Nullable=\"false\"/></EntityType>",
    );
    let p = first_property(&doc);
    assert_eq!(validation_str(&doc.nodes[p]), Some("\t#[validation(length=5)]".to_string()));
    assert_eq!(validation_str(&doc.nodes[p + 1]), Some("\t#[validation(required)]".to_string()));
    assert_eq!(
        render_field(&doc.nodes[p + 1], true),
        Some("\t#[validation(required)]\n\tpub B: String,\n".to_string())
    );
}

#[test]
fn keys_keep_document_order() {
    let doc = doc_of(
        "<EntityType Name=\"E\"><Key><PropertyRef Name=\"A\"/><PropertyRef Name=\"B\"/></Key></EntityType>",
    );
    let e = find_entity(&doc, "E").unwrap();
    let keys = extract_keys(&doc, e).unwrap();
    assert_eq!(keys, strings(&["A", "B"]));
    assert_eq!(render_keys(&keys), "[\n    \"A\",\n    \"B\",\n]");
    assert_eq!(render_keys(&Vec::new()), "[]");
}

#[test]
fn unnamed_key_reference_drops_key_block() {
    let doc = doc_of("<EntityType Name=\"E\"><Key><PropertyRef/></Key></EntityType>");
    let e = find_entity(&doc, "E").unwrap();
    assert_eq!(extract_keys(&doc, e), Err(SchemaIntegrityError::MissingKeyName));
    assert_eq!(generate_code(&doc, e, "E").len(), 3 + 3 * 3);
}

#[test]
fn existing_artifact_is_not_regenerated() {
    let doc = doc_of("<EntityType Name=\"Foo\"/>");
    assert!(matches!(generate(&doc, "Foo", false), Generation::Write(_)));
    assert!(matches!(generate(&doc, "Foo", true), Generation::AlreadyExists));
}

#[test]
fn missing_entity_is_reported() {
    let doc = doc_of("<EntityType Name=\"Foo\"/>");
    assert!(matches!(generate(&doc, "Bar", false), Generation::EntityNotFound));
}

#[test]
fn customer_end_to_end() {
    let doc = doc_of(
        "<EntityType Name=\"Customer\"><Key><PropertyRef Name=\"CustomerNo\"/></Key>\
         <Property Name=\"CustomerNo\" Type=\"Edm.String\" Nullable=\"false\" MaxLength=\"20\"/></EntityType>",
    );
    let lines = match generate(&doc, "Customer", false) {
        Generation::Write(lines) => lines,
        _ => panic!("expected an artifact"),
    };
    let field = "\tpub CustomerNo: String,\n";
    let directed = "\t#[validation(required,length=20)]\n\tpub CustomerNo: String,\n";
    let expected = strings(&[
        "use chrono::DateTime;",
        "use serde::Deserialize;",
        "use validator::{Validate, ValidationError};\n\n",
        "#[derive(Debug, Deserialize)]",
        "pub struct Customer {",
        field,
        "}\n\n",
        "#[derive(Debug, Validate, Deserialize)]",
        "pub struct CustomerCreate {",
        directed,
        "}\n\n",
        "#[derive(Debug, Validate, Deserialize)]",
        "pub struct CustomerUpdate {",
        directed,
        "}\n\n",
        "[\n    \"CustomerNo\",\n]",
    ]);
    assert_eq!(lines, expected);
    let text = artifact_text(&lines);
    assert!(text.starts_with("use chrono::DateTime;\nuse serde::Deserialize;\n"));
    assert!(text.ends_with("[\n    \"CustomerNo\",\n]\n"));
}

#[test]
fn first_entity_of_a_name_wins() {
    let doc = doc_of(
        "<EntityType Name=\"Dup\"><Property Name=\"One\" Type=\"Edm.Int32\"/></EntityType>\
         <EntityType Name=\"Dup\"><Property Name=\"Two\" Type=\"Edm.Int32\"/></EntityType>",
    );
    match generate(&doc, "Dup", false) {
        Generation::Write(lines) => assert_eq!(lines[5], "\tpub One: u32,\n"),
        _ => panic!("expected an artifact"),
    }
}
