use croissant::codec::{
    decode_data_type, decode_data_types, decode_extract, decode_field, decode_field_source,
    decode_file_object, decode_metadata, decode_record_set, decode_ref, decode_refs,
    decode_resource, decode_source_ref, decode_text, decode_transform, decode_value_format,
    encode_data_type, encode_data_types, encode_extract, encode_field_ref, encode_field_source,
    encode_file_object, encode_metadata, encode_ref, encode_transform, encode_value_format,
};
use croissant::context::default_context;
use croissant::errors::Error;
use croissant::generate::generate;
use croissant::json::{Json, Member};
use croissant::model::{
    BoundingBoxFormat, CrType, CroissantType, DataType, Distribution, Extract, Field, FieldRef,
    FieldSource, FileObject, FileProperty, FileSet, Metadata, RecordSet, Ref, Resource, SourceRef,
    Transform, ValueFormat,
};
use croissant::text::{Id, Text};

fn from_value(v: serde_json::Value) -> Json {
    match v {
        serde_json::Value::Null => Json::Null,
        serde_json::Value::Bool(b) => Json::Bool(b),
        serde_json::Value::Number(n) => Json::Number(n.to_string()),
        serde_json::Value::String(s) => Json::Str(s),
        serde_json::Value::Array(items) => {
            Json::Array(items.into_iter().map(from_value).collect())
        }
        serde_json::Value::Object(members) => Json::Object(
            members
                .into_iter()
                .map(|(key, value)| Member { key, value: from_value(value) })
                .collect(),
        ),
    }
}

fn to_value(j: &Json) -> serde_json::Value {
    match j {
        Json::Null => serde_json::Value::Null,
        Json::Bool(b) => serde_json::Value::Bool(*b),
        Json::Number(n) => serde_json::from_str(n).unwrap(),
        Json::Str(s) => serde_json::Value::String(s.clone()),
        Json::Array(items) => serde_json::Value::Array(items.iter().map(to_value).collect()),
        Json::Object(members) => serde_json::Value::Object(
            members.iter().map(|m| (m.key.clone(), to_value(&m.value))).collect(),
        ),
    }
}

fn json(text: &str) -> Json {
    from_value(serde_json::from_str(text).unwrap())
}

/// Gives every field of a document that has no source the source
/// `whole_file()`, so that the documents of the tests stay short.
fn with_sources(v: serde_json::Value) -> serde_json::Value {
    match v {
        serde_json::Value::Array(items) => {
            serde_json::Value::Array(items.into_iter().map(with_sources).collect())
        }
        serde_json::Value::Object(members) => {
            let is_field = members.contains_key("@id") && members.contains_key("description");
            let mut out: serde_json::Map<String, serde_json::Value> =
                members.into_iter().map(|(k, v)| (k, with_sources(v))).collect();
            if is_field && !out.contains_key("source") {
                let source = serde_json::from_str(r#"{"fileObject": {"@id": "a.csv"}}"#).unwrap();
                out.insert("source".to_string(), source);
            }
            serde_json::Value::Object(out)
        }
        other => other,
    }
}

fn field_json(text: &str) -> Json {
    from_value(with_sources(serde_json::from_str(text).unwrap()))
}

fn text_of(j: &Json) -> String {
    serde_json::to_string(&to_value(j)).unwrap()
}

fn is_decode_error<T>(r: &Result<T, Error>) -> bool {
    matches!(r, Err(Error::Decode(_)))
}

fn id_ref(id: &str) -> Ref {
    Ref { id: Id::new(id) }
}

fn whole_file() -> FieldSource {
    FieldSource {
        source: SourceRef::FileObject { file_object: id_ref("a.csv") },
        extract: None,
        transform: None,
        format: None,
    }
}

fn sample_field() -> Field {
    Field {
        id: Id::new("main/box"),
        kind: CrType::Field,
        name: Text::new("box"),
        description: Text::new("where the object is"),
        data_types: vec![
            DataType::BoundingBox(BoundingBoxFormat::Xywh),
            DataType::CustomIri(Text::new("wd:Q42")),
        ],
        source: FieldSource {
            source: SourceRef::FileSet { file_set: id_ref("images") },
            extract: Some(Extract::FileProperty { property: FileProperty::LineNumbers }),
            transform: Some(vec![
                Transform::Regex { pattern: Text::new("^(.*)$") },
                Transform::Delimiter { char: ';' },
                Transform::JsonQuery { query: Text::new("$.a") },
            ]),
            format: Some(ValueFormat::BoundingBox { format: BoundingBoxFormat::CenterXywh }),
        },
        references: vec![FieldRef { field: id_ref("other/id") }],
        sub_fields: Some(vec![Field {
            id: Id::new("main/box/x"),
            kind: CrType::Field,
            name: Text::new("x"),
            description: Text::new("the left edge"),
            data_types: vec![DataType::Float],
            source: whole_file(),
            references: vec![],
            sub_fields: Some(vec![]),
            parent_fields: None,
            repeated: Some(false),
            equivalent_properties: None,
        }]),
        parent_fields: Some(vec![Id::new("main/parent")]),
        repeated: Some(true),
        equivalent_properties: Some(vec![Text::new("sc:box"), Text::new("wd:Q5")]),
    }
}

fn sample_tree() -> Metadata {
    Metadata {
        context: default_context().unwrap(),
        kind: CroissantType::Dataset,
        name: Text::new("demo"),
        description: Text::new("a demonstration"),
        conforms_to: Text::new("http://mlcommons.org/croissant/1.0"),
        date_published: None,
        version: Text::new("0.1.0"),
        distribution: vec![
            Distribution {
                resource: Resource::FileObject(FileObject {
                    id: Id::new("archive.zip"),
                    name: Text::new("archive"),
                    content_url: Some(Text::new("https://example.org/archive.zip")),
                    content_size: Some(Text::new("12 B")),
                    encoding_format: Text::new("application/zip"),
                    sha256: Some("a".repeat(64)),
                }),
            },
            Distribution {
                resource: Resource::FileSet(FileSet {
                    id: Id::new("images"),
                    sources: vec![Id::new("archive.zip")],
                    encoding_format: Text::new("image/png"),
                    includes: vec![Text::new("*.png"), Text::new("img/*")],
                    excludes: vec![],
                }),
            },
        ],
        record_sets: vec![RecordSet {
            id: Id::new("main"),
            kind: CrType::RecordSet,
            keys: vec![id_ref("main/box"), id_ref("main/name")],
            fields: vec![
                sample_field(),
                Field {
                    id: Id::new("main/name"),
                    kind: CrType::Field,
                    name: Text::new("name"),
                    description: Text::new("the name"),
                    data_types: vec![DataType::Text],
                    source: FieldSource {
                        source: SourceRef::RecordSet { record_set: id_ref("main") },
                        extract: Some(Extract::JsonPath { expr: Text::new("$.name") }),
                        transform: None,
                        format: Some(ValueFormat::Date { pattern: Text::new("%Y") }),
                    },
                    references: vec![],
                    sub_fields: None,
                    parent_fields: None,
                    repeated: None,
                    equivalent_properties: None,
                },
            ],
            record_types: vec![DataType::Split, DataType::Url],
        }],
    }
}

#[test]
fn a_tree_survives_encoding_and_decoding() {
    let tree = sample_tree();
    assert_eq!(decode_metadata(&encode_metadata(&tree)), Ok(sample_tree()));
    assert_eq!(Metadata::decode(&tree.encode()), Ok(sample_tree()));
}

#[test]
fn a_tree_survives_a_trip_through_text() {
    let tree = sample_tree();
    let text = serde_json::to_string_pretty(&to_value(&tree.encode())).unwrap();
    assert_eq!(Metadata::decode(&json(&text)), Ok(sample_tree()));
}

#[test]
fn a_generated_tree_survives_encoding_and_decoding() {
    let headers = vec!["id".to_string(), "value".to_string()];
    let row = Some(vec!["1".to_string(), "3.14".to_string()]);
    let make = || generate("d.csv", "d", 9, "f".repeat(64), &headers, &row, "2024-01-31").unwrap();
    assert_eq!(Metadata::decode(&make().encode()), Ok(make()));
}

#[test]
fn encoding_twice_gives_the_same_value() {
    let once = sample_tree().encode();
    let again = Metadata::decode(&once).unwrap().encode();
    assert_eq!(once, again);
}

#[test]
fn one_value_and_a_list_of_one_read_the_same() {
    let single = decode_data_types(&json(r#""sc:Integer""#));
    let listed = decode_data_types(&json(r#"["sc:Integer"]"#));
    assert_eq!(single, Ok(vec![DataType::Integer]));
    assert_eq!(listed, Ok(vec![DataType::Integer]));
    let single = decode_data_types(&json(r#""X""#));
    let listed = decode_data_types(&json(r#"["X"]"#));
    assert_eq!(single, Ok(vec![DataType::CustomIri(Text::new("X"))]));
    assert_eq!(listed, single);
}

#[test]
fn keys_and_references_may_be_single() {
    assert_eq!(decode_refs(&json(r#"{"@id": "a"}"#)), Ok(vec![id_ref("a")]));
    assert_eq!(
        decode_refs(&json(r#"[{"@id": "a"}, {"@id": "b"}]"#)),
        Ok(vec![id_ref("a"), id_ref("b")])
    );
    assert_eq!(decode_refs(&json("[]")), Ok(vec![]));
    let rs = decode_record_set(&json(
        r#"{"@id": "main", "@type": "cr:RecordSet", "key": {"@id": "main/id"},
            "field": [], "dataType": "cr:Split"}"#,
    ))
    .unwrap();
    assert_eq!(rs.keys, vec![id_ref("main/id")]);
    assert_eq!(rs.record_types, vec![DataType::Split]);
    let field = decode_field(&field_json(
        r#"{"@id": "f", "@type": "cr:Field", "name": "f", "description": "d",
            "dataType": "sc:Text", "references": {"field": {"@id": "other/f"}}}"#,
    ))
    .unwrap();
    assert_eq!(field.references, vec![FieldRef { field: id_ref("other/f") }]);
    assert_eq!(field.data_types, vec![DataType::Text]);
}

#[test]
fn lists_are_always_written_as_arrays() {
    assert_eq!(text_of(&encode_data_types(&vec![DataType::Integer])), r#"["sc:Integer"]"#);
    assert_eq!(text_of(&encode_data_types(&vec![])), "[]");
}

#[test]
fn a_list_with_a_bad_item_is_refused() {
    assert!(is_decode_error(&decode_data_types(&json(r#"["sc:Text", 5]"#))));
    assert!(is_decode_error(&decode_data_types(&json("5"))));
    assert!(is_decode_error(&decode_refs(&json(r#"[{"@id": "a"}, {"id": "b"}]"#))));
    assert!(is_decode_error(&decode_refs(&json("null"))));
}

#[test]
fn every_named_type_has_its_token() {
    let named = [
        (DataType::Enumeration, "sc:Enumeration"),
        (DataType::Boolean, "sc:Boolean"),
        (DataType::Integer, "sc:Integer"),
        (DataType::Float, "sc:Float"),
        (DataType::Text, "sc:Text"),
        (DataType::Date, "sc:Date"),
        (DataType::DateTime, "sc:DateTime"),
        (DataType::Url, "sc:URL"),
        (DataType::ImageObject, "sc:ImageObject"),
        (DataType::Split, "cr:Split"),
        (DataType::Label, "cr:Label"),
        (DataType::BoundingBox(BoundingBoxFormat::CenterXywh), "CenterXywh"),
        (DataType::BoundingBox(BoundingBoxFormat::Xywh), "Xywh"),
        (DataType::BoundingBox(BoundingBoxFormat::Xyxy), "Xyxy"),
    ];
    for (data_type, token) in named {
        assert_eq!(encode_data_type(&data_type), Json::Str(token.to_string()));
        assert_eq!(decode_data_type(&Json::Str(token.to_string())), Ok(data_type));
    }
}

#[test]
fn an_unknown_token_is_kept_as_it_is() {
    assert_eq!(
        decode_data_type(&json(r#""https://example.org/Molecule""#)),
        Ok(DataType::CustomIri(Text::new("https://example.org/Molecule")))
    );
    assert_eq!(
        decode_data_type(&json(r#""sc:integer""#)),
        Ok(DataType::CustomIri(Text::new("sc:integer")))
    );
    assert!(is_decode_error(&decode_data_type(&json(r#""""#))));
    assert_eq!(
        encode_data_type(&DataType::CustomIri(Text::new("wd:Q42"))),
        Json::Str("wd:Q42".to_string())
    );
}

#[test]
fn a_custom_type_written_like_a_named_one_reads_as_the_named_one() {
    let odd = DataType::CustomIri(Text::new("sc:Integer"));
    assert_eq!(decode_data_type(&encode_data_type(&odd)), Ok(DataType::Integer));
}

#[test]
fn a_type_must_be_a_string() {
    assert!(is_decode_error(&decode_data_type(&json("null"))));
    assert!(is_decode_error(&decode_data_type(&json("7"))));
    assert!(is_decode_error(&decode_data_type(&json(r#"{"cr:BoundingBox": "Xywh"}"#))));
}

#[test]
fn text_must_be_a_string_that_is_not_empty() {
    assert_eq!(decode_text(&json(r#""a""#)), Ok(Text::new("a")));
    assert_eq!(decode_text(&json(r#"" ""#)), Ok(Text::new(" ")));
    assert!(is_decode_error(&decode_text(&json(r#""""#))));
    assert!(is_decode_error(&decode_text(&json("1"))));
    assert!(is_decode_error(&decode_text(&json("null"))));
    assert!(is_decode_error(&decode_text(&json(r#"["a"]"#))));
}

#[test]
fn a_reference_is_read_from_its_id() {
    assert_eq!(decode_ref(&json(r#"{"@id": "x", "extra": 1}"#)), Ok(id_ref("x")));
    assert!(is_decode_error(&decode_ref(&json(r#"{"id": "x"}"#))));
    assert!(is_decode_error(&decode_ref(&json(r#"{"@id": 5}"#))));
    assert!(is_decode_error(&decode_ref(&json(r#""x""#))));
    assert_eq!(text_of(&encode_ref(&id_ref("x"))), r#"{"@id":"x"}"#);
    assert_eq!(
        text_of(&encode_field_ref(&FieldRef { field: id_ref("x") })),
        r#"{"field":{"@id":"x"}}"#
    );
}

#[test]
fn extraction_takes_the_first_variant_that_fits() {
    assert_eq!(
        decode_extract(&json(r#"{"column": "c"}"#)),
        Ok(Extract::Column { name: Text::new("c") })
    );
    assert_eq!(
        decode_extract(&json(r#"{"fileProperty": "filename"}"#)),
        Ok(Extract::FileProperty { property: FileProperty::FileName })
    );
    assert_eq!(
        decode_extract(&json(r#"{"jsonPath": "$.a"}"#)),
        Ok(Extract::JsonPath { expr: Text::new("$.a") })
    );
    assert_eq!(
        decode_extract(&json(r#"{"jsonPath": "$.a", "fileProperty": "lines", "column": "c"}"#)),
        Ok(Extract::Column { name: Text::new("c") })
    );
    assert_eq!(
        decode_extract(&json(r#"{"jsonPath": "$.a", "fileProperty": "lines"}"#)),
        Ok(Extract::FileProperty { property: FileProperty::Lines })
    );
    assert_eq!(
        decode_extract(&json(r#"{"column": 5, "fileProperty": "nothing", "jsonPath": "$.a"}"#)),
        Ok(Extract::JsonPath { expr: Text::new("$.a") })
    );
    assert!(is_decode_error(&decode_extract(&json("{}"))));
    assert!(is_decode_error(&decode_extract(&json(r#"{"fileProperty": "FileName"}"#))));
}

#[test]
fn every_file_property_has_its_token() {
    let all = [
        (FileProperty::FullPath, "fullpath"),
        (FileProperty::FileName, "filename"),
        (FileProperty::Content, "content"),
        (FileProperty::Lines, "lines"),
        (FileProperty::LineNumbers, "lineNumbers"),
    ];
    for (property, token) in all {
        let e = Extract::FileProperty { property };
        assert_eq!(text_of(&encode_extract(&e)), format!(r#"{{"fileProperty":"{}"}}"#, token));
        assert_eq!(decode_extract(&encode_extract(&e)), Ok(e));
    }
}

#[test]
fn transformation_is_told_by_its_key() {
    assert_eq!(
        decode_transform(&json(r#"{"regex": "a+"}"#)),
        Ok(Transform::Regex { pattern: Text::new("a+") })
    );
    assert_eq!(
        decode_transform(&json(r#"{"jsonQuery": "a+"}"#)),
        Ok(Transform::JsonQuery { query: Text::new("a+") })
    );
    assert_eq!(
        decode_transform(&json(r#"{"delimiter": ","}"#)),
        Ok(Transform::Delimiter { char: ',' })
    );
    assert_eq!(
        decode_transform(&json(r#"{"delimiter": "é"}"#)),
        Ok(Transform::Delimiter { char: 'é' })
    );
    assert_eq!(
        decode_transform(&json(r#"{"jsonQuery": "q", "regex": "r"}"#)),
        Ok(Transform::Regex { pattern: Text::new("r") })
    );
    assert_eq!(
        decode_transform(&json(r#"{"delimiter": "ab", "jsonQuery": "q"}"#)),
        Ok(Transform::JsonQuery { query: Text::new("q") })
    );
    assert!(is_decode_error(&decode_transform(&json(r#"{"delimiter": "ab"}"#))));
    assert!(is_decode_error(&decode_transform(&json(r#"{"delimiter": ""}"#))));
    assert!(is_decode_error(&decode_transform(&json(r#"{"pattern": "a"}"#))));
    assert_eq!(
        text_of(&encode_transform(&Transform::Delimiter { char: '|' })),
        r#"{"delimiter":"|"}"#
    );
}

#[test]
fn a_value_format_is_told_by_its_kind() {
    assert_eq!(
        decode_value_format(&json(r#"{"kind": "date", "pattern": "%Y"}"#)),
        Ok(ValueFormat::Date { pattern: Text::new("%Y") })
    );
    assert_eq!(
        decode_value_format(&json(r#"{"kind": "number", "pattern": "0.00"}"#)),
        Ok(ValueFormat::Number { pattern: Text::new("0.00") })
    );
    assert_eq!(
        decode_value_format(&json(r#"{"kind": "bbox", "format": "Xyxy"}"#)),
        Ok(ValueFormat::BoundingBox { format: BoundingBoxFormat::Xyxy })
    );
    assert!(is_decode_error(&decode_value_format(&json(r#"{"kind": "time", "pattern": "%H"}"#))));
    assert!(is_decode_error(&decode_value_format(&json(r#"{"pattern": "%Y"}"#))));
    assert!(is_decode_error(&decode_value_format(&json(r#"{"kind": "date"}"#))));
    assert!(is_decode_error(&decode_value_format(&json(r#"{"kind": "bbox", "format": "XYXY"}"#))));
    assert!(is_decode_error(&decode_value_format(&json(r#"{"kind": "bbox", "pattern": "x"}"#))));
    let f = ValueFormat::Number { pattern: Text::new("0") };
    assert_eq!(decode_value_format(&encode_value_format(&f)), Ok(f));
}

#[test]
fn a_source_names_exactly_one_kind_of_target() {
    assert_eq!(
        decode_source_ref(&json(r#"{"fileObject": {"@id": "a"}}"#)),
        Ok(SourceRef::FileObject { file_object: id_ref("a") })
    );
    assert_eq!(
        decode_source_ref(&json(r#"{"fileSet": {"@id": "a"}}"#)),
        Ok(SourceRef::FileSet { file_set: id_ref("a") })
    );
    assert_eq!(
        decode_source_ref(&json(r#"{"recordSet": {"@id": "a"}}"#)),
        Ok(SourceRef::RecordSet { record_set: id_ref("a") })
    );
    assert_eq!(
        decode_source_ref(&json(r#"{"recordSet": {"@id": "r"}, "fileSet": {"@id": "s"}}"#)),
        Ok(SourceRef::FileSet { file_set: id_ref("s") })
    );
    assert!(is_decode_error(&decode_source_ref(&json(r#"{"file": {"@id": "a"}}"#))));
    assert!(is_decode_error(&decode_source_ref(&json(r#"{"fileObject": "a"}"#))));
}

#[test]
fn a_field_source_holds_reference_and_reading() {
    let s = decode_field_source(&json(
        r#"{"fileObject": {"@id": "a.csv"}, "extract": {"column": "c"},
            "transform": [{"regex": "x"}], "format": null}"#,
    ))
    .unwrap();
    assert_eq!(
        s,
        FieldSource {
            source: SourceRef::FileObject { file_object: id_ref("a.csv") },
            extract: Some(Extract::Column { name: Text::new("c") }),
            transform: Some(vec![Transform::Regex { pattern: Text::new("x") }]),
            format: None,
        }
    );
    assert_eq!(
        text_of(&encode_field_source(&FieldSource {
            source: SourceRef::RecordSet { record_set: id_ref("main") },
            extract: None,
            transform: None,
            format: None,
        })),
        r#"{"extract":null,"format":null,"recordSet":{"@id":"main"},"transform":null}"#
    );
    assert!(is_decode_error(&decode_field_source(&json(r#"{"extract": {"column": "c"}}"#))));
    assert!(is_decode_error(&decode_field_source(&json(
        r#"{"fileObject": {"@id": "a"}, "transform": {"regex": "x"}}"#
    ))));
    assert!(is_decode_error(&decode_field_source(&json(
        r#"{"fileObject": {"@id": "a"}, "extract": {}}"#
    ))));
}

#[test]
fn a_resource_is_told_by_its_type() {
    let object = json(
        r#"{"@type": "cr:FileObject", "@id": "a", "name": "n", "encodingFormat": "text/csv"}"#,
    );
    assert_eq!(
        decode_resource(&object),
        Ok(Resource::FileObject(FileObject {
            id: Id::new("a"),
            name: Text::new("n"),
            content_url: None,
            content_size: None,
            encoding_format: Text::new("text/csv"),
            sha256: None,
        }))
    );
    let set = json(
        r#"{"@type": "cr:FileSet", "@id": "s", "containedIn": ["a"], "encodingFormat": "image/png",
            "includes": ["*.png"], "excludes": []}"#,
    );
    assert_eq!(
        decode_resource(&set),
        Ok(Resource::FileSet(FileSet {
            id: Id::new("s"),
            sources: vec![Id::new("a")],
            encoding_format: Text::new("image/png"),
            includes: vec![Text::new("*.png")],
            excludes: vec![],
        }))
    );
    assert!(is_decode_error(&decode_resource(&json(
        r#"{"@type": "cr:Folder", "@id": "a", "name": "n", "encodingFormat": "text/csv"}"#
    ))));
    assert!(is_decode_error(&decode_resource(&json(
        r#"{"@id": "a", "name": "n", "encodingFormat": "text/csv"}"#
    ))));
    assert!(is_decode_error(&decode_resource(&json(
        r#"{"@type": "cr:FileSet", "@id": "s", "containedIn": "a", "encodingFormat": "image/png",
            "includes": [], "excludes": []}"#
    ))));
}

#[test]
fn optional_members_may_be_absent_or_null() {
    let absent = json(r#"{"@id": "a", "name": "n", "encodingFormat": "f"}"#);
    let null = json(
        r#"{"@id": "a", "name": "n", "encodingFormat": "f", "contentUrl": null,
            "contentSize": null, "sha256": null}"#,
    );
    assert_eq!(decode_file_object(&absent), decode_file_object(&null));
    assert_eq!(decode_file_object(&absent).unwrap().sha256, None);
    let digest = "0123456789abcdefABCDEF".repeat(3)[..64].to_string();
    let given = json(&format!(
        r#"{{"@id": "a", "name": "n", "encodingFormat": "f", "contentUrl": "u",
            "contentSize": "1 B", "sha256": "{}"}}"#,
        digest
    ));
    let o = decode_file_object(&given).unwrap();
    assert_eq!(o.content_url, Some(Text::new("u")));
    assert_eq!(o.content_size, Some(Text::new("1 B")));
    assert_eq!(o.sha256, Some(digest));
    assert!(is_decode_error(&decode_file_object(&json(
        r#"{"@id": "a", "name": "n", "encodingFormat": "f", "sha256": 5}"#
    ))));
}

#[test]
fn absent_values_are_written_as_null() {
    let o = FileObject {
        id: Id::new("a"),
        name: Text::new("n"),
        content_url: None,
        content_size: Some(Text::new("1 B")),
        encoding_format: Text::new("f"),
        sha256: None,
    };
    assert_eq!(
        encode_file_object(&o),
        Json::Object(vec![
            Member { key: "@type".to_string(), value: Json::Str("cr:FileObject".to_string()) },
            Member { key: "@id".to_string(), value: Json::Str("a".to_string()) },
            Member { key: "name".to_string(), value: Json::Str("n".to_string()) },
            Member { key: "contentUrl".to_string(), value: Json::Null },
            Member { key: "contentSize".to_string(), value: Json::Str("1 B".to_string()) },
            Member { key: "encodingFormat".to_string(), value: Json::Str("f".to_string()) },
            Member { key: "sha256".to_string(), value: Json::Null },
        ])
    );
}

#[test]
fn mandatory_members_must_be_there() {
    assert!(is_decode_error(&decode_file_object(&json(
        r#"{"name": "n", "encodingFormat": "f"}"#
    ))));
    assert!(is_decode_error(&decode_file_object(&json(
        r#"{"@id": "a", "encodingFormat": "f"}"#
    ))));
    assert!(is_decode_error(&decode_file_object(&json(r#"{"@id": "a", "name": "n"}"#))));
    assert!(is_decode_error(&decode_file_object(&json(
        r#"{"@id": "a", "name": null, "encodingFormat": "f"}"#
    ))));
    assert!(is_decode_error(&decode_file_object(&json(r#"["a", "n", "f"]"#))));
}

#[test]
fn a_field_needs_its_types_and_its_source() {
    let plain = decode_field(&json(
        r#"{"@id": "f", "@type": "cr:Field", "name": "f", "description": "d", "dataType": [],
            "source": {"fileObject": {"@id": "a.csv"}}}"#,
    ))
    .unwrap();
    assert_eq!(plain.source, whole_file());
    assert!(is_decode_error(&decode_field(&json(
        r#"{"@id": "f", "@type": "cr:Field", "name": "f", "description": "d", "dataType": []}"#
    ))));
    assert!(is_decode_error(&decode_field(&json(
        r#"{"@id": "f", "@type": "cr:Field", "name": "f", "description": "d", "dataType": [],
            "source": null}"#
    ))));
    assert!(is_decode_error(&decode_field(&json(
        r#"{"@id": "f", "@type": "cr:Field", "name": "f", "description": "d", "dataType": [],
            "source": {"extract": {"column": "c"}}}"#
    ))));
    assert!(plain.references.is_empty());
    assert!(plain.data_types.is_empty());
    assert_eq!(plain.sub_fields, None);
    assert_eq!(plain.repeated, None);
    assert!(is_decode_error(&decode_field(&field_json(
        r#"{"@id": "f", "@type": "cr:Field", "name": "f", "description": "d"}"#
    ))));
    assert!(is_decode_error(&decode_field(&field_json(
        r#"{"@id": "f", "@type": "cr:Column", "name": "f", "description": "d", "dataType": []}"#
    ))));
}

#[test]
fn a_wrong_type_tag_is_not_a_decode_error() {
    let odd = decode_field(&field_json(
        r#"{"@id": "f", "@type": "cr:RecordSet", "name": "f", "description": "d", "dataType": []}"#,
    ))
    .unwrap();
    assert_eq!(odd.kind, CrType::RecordSet);
}

#[test]
fn sub_fields_are_read_at_any_depth() {
    let nested = decode_field(&field_json(
        r#"{"@id": "a", "@type": "cr:Field", "name": "a", "description": "d", "dataType": [],
            "repeated": true, "parentField": ["p"], "equivalentProperty": null,
            "subField": [
              {"@id": "a/b", "@type": "cr:Field", "name": "b", "description": "d", "dataType": [],
               "subField": [
                 {"@id": "a/b/c", "@type": "cr:Field", "name": "c", "description": "d",
                  "dataType": "sc:Float", "subField": null}]},
              {"@id": "a/d", "@type": "cr:Field", "name": "d", "description": "d",
               "dataType": []}]}"#,
    ))
    .unwrap();
    assert_eq!(nested.repeated, Some(true));
    assert_eq!(nested.parent_fields, Some(vec![Id::new("p")]));
    assert_eq!(nested.equivalent_properties, None);
    let subs = nested.sub_fields.as_ref().unwrap();
    assert_eq!(subs.len(), 2);
    assert_eq!(subs[1].id, Id::new("a/d"));
    let deep = &subs[0].sub_fields.as_ref().unwrap()[0];
    assert_eq!(deep.id, Id::new("a/b/c"));
    assert_eq!(deep.data_types, vec![DataType::Float]);
    assert_eq!(deep.sub_fields, None);
}

#[test]
fn a_bad_sub_field_spoils_the_field() {
    assert!(is_decode_error(&decode_field(&field_json(
        r#"{"@id": "a", "@type": "cr:Field", "name": "a", "description": "d", "dataType": [],
            "subField": [{"@id": "a/b"}]}"#
    ))));
    assert!(is_decode_error(&decode_field(&field_json(
        r#"{"@id": "a", "@type": "cr:Field", "name": "a", "description": "d", "dataType": [],
            "subField": {"@id": "a/b", "@type": "cr:Field", "name": "b", "description": "d",
                         "dataType": []}}"#
    ))));
    assert!(is_decode_error(&decode_field(&field_json(
        r#"{"@id": "a", "@type": "cr:Field", "name": "a", "description": "d", "dataType": [],
            "repeated": "yes"}"#
    ))));
}

#[test]
fn a_field_survives_encoding_and_decoding() {
    assert_eq!(decode_field(&croissant::codec::encode_field(&sample_field())), Ok(sample_field()));
}

fn minimal_document() -> serde_json::Value {
    serde_json::from_str(
        r#"{
          "@context": {
            "@language": "en", "@vocab": "https://schema.org/", "sc": "https://schema.org/",
            "cr": "http://mlcommons.org/croissant/", "dct": "http://purl.org/dc/terms/",
            "citeAs": "cr:citeAs", "column": "cr:column", "conformsTo": "dct:conformsTo",
            "data": {"@id": "cr:data", "@type": "@json"},
            "dataType": {"@id": "cr:dataType", "@type": "@vocab"}
          },
          "@type": "sc:Dataset",
          "name": "demo",
          "description": "a demonstration",
          "conformsTo": "http://mlcommons.org/croissant/1.0",
          "version": "1.0.0",
          "license": "https://creativecommons.org/licenses/by/4.0/",
          "distribution": [],
          "recordSet": []
        }"#,
    )
    .unwrap()
}

#[test]
fn a_document_may_leave_out_its_date() {
    let m = Metadata::decode(&from_value(minimal_document())).unwrap();
    assert_eq!(m.name, Text::new("demo"));
    assert_eq!(m.context.cr, Text::new("http://mlcommons.org/croissant/"));
    assert_eq!(m.context.data_type.type_, Text::new("@vocab"));
    assert_eq!(m.date_published, None);
    assert!(m.record_sets.is_empty());
    assert!(m.distribution.is_empty());
}

#[test]
fn the_root_must_be_a_dataset() {
    let mut doc = minimal_document();
    doc["@type"] = serde_json::Value::String("sc:Person".to_string());
    assert!(is_decode_error(&Metadata::decode(&from_value(doc))));
    let mut doc = minimal_document();
    doc.as_object_mut().unwrap().remove("@type");
    assert!(is_decode_error(&Metadata::decode(&from_value(doc))));
}

#[test]
fn each_mandatory_member_of_the_root_is_needed() {
    let members =
        ["@context", "name", "description", "conformsTo", "version", "distribution", "recordSet"];
    for key in members {
        let mut doc = minimal_document();
        doc.as_object_mut().unwrap().remove(key);
        assert!(is_decode_error(&Metadata::decode(&from_value(doc))), "without {}", key);
    }
    let terms = [
        "@language",
        "@vocab",
        "sc",
        "cr",
        "dct",
        "citeAs",
        "column",
        "conformsTo",
        "data",
        "dataType",
    ];
    for key in terms {
        let mut doc = minimal_document();
        doc["@context"].as_object_mut().unwrap().remove(key);
        assert!(is_decode_error(&Metadata::decode(&from_value(doc))), "without {}", key);
    }
}

#[test]
fn values_of_the_wrong_shape_are_refused() {
    assert!(is_decode_error(&Metadata::decode(&json("null"))));
    assert!(is_decode_error(&Metadata::decode(&json("[]"))));
    assert!(is_decode_error(&Metadata::decode(&json(r#""sc:Dataset""#))));
    let mut doc = minimal_document();
    doc["distribution"] = serde_json::Value::Null;
    assert!(is_decode_error(&Metadata::decode(&from_value(doc))));
    let mut doc = minimal_document();
    doc["recordSet"] = serde_json::Value::Null;
    assert!(is_decode_error(&Metadata::decode(&from_value(doc))));
    let mut doc = minimal_document();
    doc["name"] = serde_json::Value::Number(serde_json::Number::from(7));
    assert!(is_decode_error(&Metadata::decode(&from_value(doc))));
}

#[test]
fn the_first_of_two_members_with_one_key_is_read() {
    let twice = Json::Object(vec![
        Member { key: "@id".to_string(), value: Json::Str("first".to_string()) },
        Member { key: "@id".to_string(), value: Json::Str("second".to_string()) },
    ]);
    assert_eq!(twice.get("@id"), Some(&Json::Str("first".to_string())));
    assert_eq!(decode_ref(&twice), Ok(id_ref("first")));
    assert_eq!(twice.get("id"), None);
    assert_eq!(Json::Array(vec![]).get("@id"), None);
    assert_eq!(Json::Null.get("@id"), None);
}

fn reversed(j: &Json) -> Json {
    match j {
        Json::Array(items) => Json::Array(items.iter().map(reversed).collect()),
        Json::Object(members) => Json::Object(
            members
                .iter()
                .rev()
                .map(|m| Member { key: m.key.clone(), value: reversed(&m.value) })
                .collect(),
        ),
        other => other.clone(),
    }
}

#[test]
fn the_order_of_members_does_not_count() {
    let written = sample_tree().encode();
    let turned = reversed(&written);
    assert_ne!(written, turned);
    assert_eq!(Metadata::decode(&turned), Ok(sample_tree()));
    let field = reversed(&croissant::codec::encode_field(&sample_field()));
    assert_eq!(decode_field(&field), Ok(sample_field()));
}

#[test]
fn a_member_behind_another_with_its_key_does_not_count() {
    let mut written = match sample_tree().encode() {
        Json::Object(members) => members,
        _ => panic!("an object is expected"),
    };
    written.push(Member { key: "name".to_string(), value: Json::Str("other".to_string()) });
    written.push(Member { key: "distribution".to_string(), value: Json::Null });
    assert_eq!(Metadata::decode(&Json::Object(written)), Ok(sample_tree()));
}

#[test]
fn copies_are_equal_to_what_they_copy() {
    let tree = sample_tree();
    assert_eq!(tree.clone(), tree);
    let field = sample_field();
    assert_eq!(field.clone(), field);
    let document = tree.encode();
    assert_eq!(document.clone(), document);
    let member =
        Member { key: "k".to_string(), value: Json::Array(vec![Json::Bool(true), Json::Null]) };
    assert_eq!(member.clone(), member);
    let error = Error::Decode("somewhere".to_string());
    assert_eq!(error.clone(), error);
    let missing = Error::FileNotFound("a/b.csv".to_string());
    assert_eq!(missing.clone(), missing);
}

#[test]
fn a_custom_type_written_like_a_named_one_spoils_the_tree() {
    assert!(sample_tree().is_well_formed());

    let mut deep = sample_tree();
    deep.record_sets[0].fields[0].sub_fields.as_mut().unwrap()[0]
        .data_types
        .push(DataType::CustomIri(Text::new("sc:Integer")));
    assert!(!deep.is_well_formed());
    assert_ne!(Metadata::decode(&deep.encode()), Ok(deep.clone()));

    let mut at_record_set = sample_tree();
    at_record_set.record_sets[0].record_types.push(DataType::CustomIri(Text::new("Xywh")));
    assert!(!at_record_set.is_well_formed());

    let mut harmless = sample_tree();
    harmless.record_sets[0].record_types.push(DataType::CustomIri(Text::new("sc:integer")));
    assert!(harmless.is_well_formed());
    assert_eq!(Metadata::decode(&harmless.encode()), Ok(harmless.clone()));
}

#[test]
fn an_empty_text_is_refused_wherever_it_stands() {
    assert!(is_decode_error(&decode_ref(&json(r#"{"@id": ""}"#))));
    assert!(is_decode_error(&decode_extract(&json(r#"{"column": ""}"#))));
    assert!(is_decode_error(&decode_transform(&json(r#"{"regex": ""}"#))));
    assert!(is_decode_error(&decode_value_format(&json(r#"{"kind": "date", "pattern": ""}"#))));
    assert!(is_decode_error(&decode_file_object(&json(
        r#"{"@id": "a", "name": "", "encodingFormat": "f"}"#
    ))));
    assert!(is_decode_error(&decode_file_object(&json(
        r#"{"@id": "a", "name": "n", "encodingFormat": "f", "contentUrl": ""}"#
    ))));
    assert!(is_decode_error(&decode_field(&field_json(
        r#"{"@id": "f", "@type": "cr:Field", "name": "f", "description": "", "dataType": []}"#
    ))));
    assert!(is_decode_error(&decode_field(&field_json(
        r#"{"@id": "f", "@type": "cr:Field", "name": "f", "description": "d", "dataType": [],
            "parentField": ["p", ""]}"#
    ))));
    let mut doc = minimal_document();
    doc["description"] = serde_json::Value::String(String::new());
    assert!(is_decode_error(&Metadata::decode(&from_value(doc))));
    let mut doc = minimal_document();
    doc["@context"]["sc"] = serde_json::Value::String(String::new());
    assert!(is_decode_error(&Metadata::decode(&from_value(doc))));
}

#[test]
fn an_empty_column_falls_through_to_the_next_variant() {
    assert_eq!(
        decode_extract(&json(r#"{"column": "", "jsonPath": "$.a"}"#)),
        Ok(Extract::JsonPath { expr: Text::new("$.a") })
    );
}

#[test]
fn a_malformed_digest_is_refused() {
    for digest in ["", "xyz", &"a".repeat(63), &"a".repeat(65), &format!("{}g", "a".repeat(63))] {
        let document = json(&format!(
            r#"{{"@id": "a", "name": "n", "encodingFormat": "f", "sha256": "{}"}}"#,
            digest
        ));
        assert!(is_decode_error(&decode_file_object(&document)), "digest {:?}", digest);
    }
    let document = json(&format!(
        r#"{{"@id": "a", "name": "n", "encodingFormat": "f", "sha256": "{}"}}"#,
        "Ab0".repeat(22)[..64].to_string()
    ));
    assert!(decode_file_object(&document).is_ok());
}

#[test]
fn a_tree_that_is_not_well_formed_does_not_read_back() {
    let mut empty_text = sample_tree();
    empty_text.description = Text::new("");
    assert!(!empty_text.is_well_formed());
    assert!(is_decode_error(&Metadata::decode(&empty_text.encode())));

    let mut deep = sample_tree();
    deep.record_sets[0].fields[0].sub_fields.as_mut().unwrap()[0].name = Text::new("");
    assert!(!deep.is_well_formed());
    assert!(is_decode_error(&Metadata::decode(&deep.encode())));

    let mut bad_digest = sample_tree();
    if let Resource::FileObject(o) = &mut bad_digest.distribution[0].resource {
        o.sha256 = Some("a".repeat(63));
    }
    assert!(!bad_digest.is_well_formed());
    assert!(is_decode_error(&Metadata::decode(&bad_digest.encode())));

    let mut unnamed_type = sample_tree();
    unnamed_type.record_sets[0].record_types.push(DataType::CustomIri(Text::new("")));
    assert!(!unnamed_type.is_well_formed());
    assert!(is_decode_error(&Metadata::decode(&unnamed_type.encode())));
}

#[test]
fn what_is_read_is_well_formed_and_reads_again_the_same() {
    let documents = [from_value(minimal_document()), sample_tree().encode()];
    for document in documents {
        let read = Metadata::decode(&document).unwrap();
        assert!(read.is_well_formed());
        assert_eq!(Metadata::decode(&read.encode()), Ok(read.clone()));
    }
}
