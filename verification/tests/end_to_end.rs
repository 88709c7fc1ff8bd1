use croissant::generate::generate;
use croissant::json::{Json, Member};
use croissant::model::{DataType, Metadata, Resource};
use croissant::text::{Id, Text};
use croissant::digest::is_valid_sha256;
use croissant::errors::Error;
use croissant::validate::{validate, validate_document};
use sha2::{Digest, Sha256};

fn from_value(v: serde_json::Value) -> Json {
    match v {
        serde_json::Value::Null => Json::Null,
        serde_json::Value::Bool(b) => Json::Bool(b),
        serde_json::Value::Number(n) => Json::Number(n.to_string()),
        serde_json::Value::String(s) => Json::Str(s),
        serde_json::Value::Array(items) => {
            Json::Array(items.into_iter().map(from_value).collect())
        }
        serde_json::Value::Object(members) => Json::Object(
            members
                .into_iter()
                .map(|(key, value)| Member { key, value: from_value(value) })
                .collect(),
        ),
    }
}

fn to_value(j: &Json) -> serde_json::Value {
    match j {
        Json::Null => serde_json::Value::Null,
        Json::Bool(b) => serde_json::Value::Bool(*b),
        Json::Number(n) => serde_json::from_str(n).unwrap(),
        Json::Str(s) => serde_json::Value::String(s.clone()),
        Json::Array(items) => serde_json::Value::Array(items.iter().map(to_value).collect()),
        Json::Object(members) => serde_json::Value::Object(
            members.iter().map(|m| (m.key.clone(), to_value(&m.value))).collect(),
        ),
    }
}

fn sha256_of(content: &[u8]) -> String {
    let digest = Sha256::digest(content);
    digest.iter().map(|byte| format!("{:02x}", byte)).collect()
}

fn columns_of(content: &[u8]) -> (Vec<String>, Option<Vec<String>>) {
    let mut reader = csv::Reader::from_reader(content);
    let headers = reader.headers().unwrap().iter().map(|h| h.to_string()).collect();
    let first_row = reader
        .records()
        .next()
        .map(|record| record.unwrap().iter().map(|cell| cell.to_string()).collect());
    (headers, first_row)
}

fn describe(file_name: &str, stem: &str, content: &[u8]) -> Metadata {
    let (headers, first_row) = columns_of(content);
    generate(
        file_name,
        stem,
        content.len() as u64,
        sha256_of(content),
        &headers,
        &first_row,
        "2024-01-31",
    )
    .unwrap()
}

#[test]
fn a_two_column_file_is_described() {
    let content = b"id,value\n1,3.14\n2,2.71\n";
    let m = describe("numbers.csv", "numbers", content);

    assert_eq!(m.name, Text::new("numbers_dataset"));
    assert_eq!(m.distribution.len(), 1);
    match &m.distribution[0].resource {
        Resource::FileObject(o) => {
            assert_eq!(o.id, Id::new("numbers.csv"));
            assert_eq!(o.content_size, Some(Text::new("23 B")));
            let digest = o.sha256.as_ref().unwrap();
            assert_eq!(digest.chars().count(), 64);
            assert!(digest.chars().all(|c| c.is_ascii_hexdigit()));
            assert!(is_valid_sha256(digest));
        },
        Resource::FileSet(_) => panic!("a file object is expected"),
    }
    assert_eq!(m.record_sets.len(), 1);
    assert_eq!(m.record_sets[0].id, Id::new("main"));
    let fields = &m.record_sets[0].fields;
    assert_eq!(fields.len(), 2);
    assert_eq!((fields[0].name.as_str(), &fields[0].data_types), ("id", &vec![DataType::Integer]));
    assert_eq!((fields[1].name.as_str(), &fields[1].data_types), ("value", &vec![DataType::Float]));
}

#[test]
fn a_file_with_a_header_only_is_described() {
    let m = describe("empty.csv", "empty", b"when,what\n");
    let fields = &m.record_sets[0].fields;
    assert_eq!(fields.len(), 2);
    assert_eq!(fields[0].data_types, vec![DataType::Url]);
    assert_eq!(fields[1].data_types, vec![DataType::Url]);
}

#[test]
fn every_kind_of_cell_is_told_apart() {
    let content = b"a,b,c,d,e,f\n42, 3.5 ,TRUE,2023-05-01,2023-05-01T10:00:00Z,hello world\n";
    let m = describe("kinds.csv", "kinds", content);
    let types: Vec<DataType> =
        m.record_sets[0].fields.iter().map(|f| f.data_types[0].clone()).collect();
    assert_eq!(
        types,
        vec![
            DataType::Integer,
            DataType::Float,
            DataType::Boolean,
            DataType::Date,
            DataType::Date,
            DataType::Text,
        ]
    );
}

#[test]
fn a_description_written_as_text_reads_back_the_same() {
    let m = describe("numbers.csv", "numbers", b"id,value\n1,3.14\n");
    let text = serde_json::to_string_pretty(&to_value(&m.encode())).unwrap();
    let document: serde_json::Value = serde_json::from_str(&text).unwrap();
    let read = Metadata::decode(&from_value(document)).unwrap();
    assert_eq!(read, m);
    assert_eq!(validate(&read), validate(&m));
    assert!(text.contains("\"@type\": \"sc:Dataset\""));
    assert!(text.contains("\"dataType\": [\n"));
}

#[test]
fn text_that_is_no_description_is_refused() {
    for text in ["{}", "[]", "7", "\"sc:Dataset\"", "{\"@type\": \"sc:Dataset\"}"] {
        let document: serde_json::Value = serde_json::from_str(text).unwrap();
        assert!(Metadata::decode(&from_value(document)).is_err(), "decoding {}", text);
    }
}

#[test]
fn a_document_is_read_and_validated_in_one_step() {
    let m = describe("numbers.csv", "numbers", b"id,value\n1,3.14\n");
    assert_eq!(validate_document(&m.encode()), Ok(validate(&m)));
    assert!(validate_document(&m.encode()).unwrap().is_empty());

    let text = r#"{
      "@context": {
        "@language": "en", "@vocab": "https://schema.org/", "sc": "https://schema.org/",
        "cr": "http://mlcommons.org/croissant/", "dct": "http://purl.org/dc/terms/",
        "citeAs": "cr:citeAs", "column": "cr:column", "conformsTo": "dct:conformsTo",
        "data": {"@id": "cr:data", "@type": "@json"},
        "dataType": {"@id": "cr:dataType", "@type": "@vocab"}
      },
      "@type": "sc:Dataset", "name": "demo", "description": "d", "conformsTo": "c",
      "version": "1",
      "distribution": [
        {"@type": "cr:FileObject", "@id": "a.csv", "name": "a", "encodingFormat": "text/csv"}],
      "recordSet": [
        {"@id": "main", "@type": "cr:Field", "field": [
          {"@id": "main/x", "@type": "cr:Field", "name": "x", "description": "d",
           "dataType": "sc:Text", "source": {"fileObject": {"@id": "b.csv"}}}]}]
    }"#;
    let document = from_value(serde_json::from_str(text).unwrap());
    let found = validate_document(&document).unwrap();
    let messages: Vec<&str> = found.items.iter().map(|i| i.message.as_str()).collect();
    assert_eq!(
        messages,
        vec![
            "contentUrl is required",
            "sha256 is recommended",
            "expected type cr:RecordSet, found cr:Field",
            "unresolved reference id:b.csv",
        ]
    );
    assert_eq!(found.error_count(), 3);
    assert_eq!(found.warning_count(), 1);
}

#[test]
fn a_document_that_is_no_description_is_a_decode_error() {
    for text in ["{}", "[]", "null", r#"{"@type": "sc:Dataset", "name": "demo"}"#] {
        let document = from_value(serde_json::from_str(text).unwrap());
        assert!(matches!(validate_document(&document), Err(Error::Decode(_))), "on {}", text);
    }
}
