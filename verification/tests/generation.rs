use croissant::chars::{decimal_string, to_chars};
use croissant::context::default_context;
use croissant::errors::Error;
use croissant::generate::{assemble, generate, infer_column_types};
use croissant::model::{
    CrType, CroissantType, DataType, Extract, FieldSource, Ref, Resource, SourceRef,
};
use croissant::text::{Id, Text};
use croissant::digest::is_valid_sha256;
use croissant::validate::validate;

fn strings(items: &[&str]) -> Vec<String> {
    items.iter().map(|s| s.to_string()).collect()
}

fn digest() -> String {
    "0123456789abcdef".repeat(4)
}

#[test]
fn a_two_column_file_gives_one_resource_and_one_record_set() {
    let headers = strings(&["id", "value"]);
    let first_row = Some(strings(&["1", "3.14"]));
    let m = generate("data.csv", "data", 17, digest(), &headers, &first_row, "2024-01-31").unwrap();

    assert_eq!(m.distribution.len(), 1);
    match &m.distribution[0].resource {
        Resource::FileObject(o) => {
            assert_eq!(o.id, Id::new("data.csv"));
            assert_eq!(o.name, Text::new("data.csv"));
            assert_eq!(o.content_url, Some(Text::new("data.csv")));
            assert_eq!(o.content_size, Some(Text::new("17 B")));
            assert_eq!(o.encoding_format, Text::new("text/csv"));
            let sha = o.sha256.as_ref().unwrap();
            assert_eq!(sha.len(), 64);
            assert!(is_valid_sha256(sha));
        },
        Resource::FileSet(_) => panic!("a file object is expected"),
    }

    assert_eq!(m.record_sets.len(), 1);
    let rs = &m.record_sets[0];
    assert_eq!(rs.id, Id::new("main"));
    assert_eq!(rs.kind, CrType::RecordSet);
    assert_eq!(rs.keys, vec![Ref { id: Id::new("main") }]);
    assert!(rs.record_types.is_empty());
    assert_eq!(rs.fields.len(), 2);
    assert_eq!(rs.fields[0].name, Text::new("id"));
    assert_eq!(rs.fields[0].data_types, vec![DataType::Integer]);
    assert_eq!(rs.fields[1].name, Text::new("value"));
    assert_eq!(rs.fields[1].data_types, vec![DataType::Float]);
}

#[test]
fn a_generated_field_describes_its_column() {
    let headers = strings(&["when"]);
    let first_row = Some(strings(&["2023-05-01"]));
    let m = generate("log.csv", "log", 0, digest(), &headers, &first_row, "2024-01-31").unwrap();
    let f = &m.record_sets[0].fields[0];
    assert_eq!(f.id, Id::new("main/when"));
    assert_eq!(f.kind, CrType::Field);
    assert_eq!(f.name, Text::new("when"));
    assert_eq!(f.description, Text::new("Field for when"));
    assert_eq!(f.data_types, vec![DataType::Date]);
    assert_eq!(
        f.source,
        FieldSource {
            source: SourceRef::FileObject { file_object: Ref { id: Id::new("log.csv") } },
            extract: Some(Extract::Column { name: Text::new("when") }),
            transform: None,
            format: None,
        }
    );
    assert!(f.references.is_empty());
    assert_eq!(f.sub_fields, None);
    assert_eq!(f.parent_fields, None);
    assert_eq!(f.repeated, None);
    assert_eq!(f.equivalent_properties, None);
}

#[test]
fn the_generated_root_is_filled_in() {
    let headers = strings(&["a"]);
    let m = generate("my data.csv", "my data", 1234, digest(), &headers, &None, "2024-01-31")
        .unwrap();
    assert_eq!(m.context, default_context().unwrap());
    assert_eq!(m.kind, CroissantType::Dataset);
    assert_eq!(m.name, Text::new("my data_dataset"));
    assert_eq!(m.description, Text::new("Dataset created from my data.csv"));
    assert_eq!(m.conforms_to, Text::new("http://mlcommons.org/croissant/1.0"));
    assert_eq!(m.date_published, Some(Text::new("2024-01-31")));
    assert_eq!(m.version, Text::new("1.0.0"));
}

#[test]
fn without_a_sample_row_every_column_is_a_url() {
    let headers = strings(&["a", "b"]);
    let m = generate("d.csv", "d", 1, digest(), &headers, &None, "2024-01-31").unwrap();
    assert_eq!(m.record_sets[0].fields[0].data_types, vec![DataType::Url]);
    assert_eq!(m.record_sets[0].fields[1].data_types, vec![DataType::Url]);
}

#[test]
fn a_short_sample_row_leaves_the_rest_as_urls() {
    let headers = strings(&["a", "b", "c"]);
    let first_row = Some(strings(&["true"]));
    let types = infer_column_types(&headers, &first_row);
    assert_eq!(types, vec![DataType::Boolean, DataType::Url, DataType::Url]);
}

#[test]
fn a_long_sample_row_is_cut_to_the_headers() {
    let headers = strings(&["a"]);
    let first_row = Some(strings(&["hello", "7"]));
    assert_eq!(infer_column_types(&headers, &first_row), vec![DataType::Text]);
}

#[test]
fn a_file_without_columns_has_no_fields() {
    let m = generate("d.csv", "d", 0, digest(), &vec![], &None, "2024-01-31").unwrap();
    assert_eq!(m.record_sets.len(), 1);
    assert!(m.record_sets[0].fields.is_empty());
    assert_eq!(m.distribution.len(), 1);
}

#[test]
fn an_empty_file_name_is_refused() {
    let r = generate("", "d", 0, digest(), &strings(&["a"]), &None, "2024-01-31");
    assert!(matches!(r, Err(Error::InvalidFormat(_))));
}

#[test]
fn types_must_match_the_headers() {
    let headers = strings(&["a", "b"]);
    let r = assemble("d.csv", "d", 0, digest(), &headers, &vec![DataType::Text], "2024-01-31");
    assert!(matches!(r, Err(Error::InvalidFormat(_))));
    let r = assemble(
        "d.csv",
        "d",
        0,
        digest(),
        &headers,
        &vec![DataType::Text, DataType::Label],
        "2024-01-31",
    )
    .unwrap();
    assert_eq!(r.record_sets[0].fields[1].data_types, vec![DataType::Label]);
}

#[test]
fn validation_finds_nothing_in_a_generated_tree() {
    let headers = strings(&["id", "value"]);
    let first_row = Some(strings(&["1", "3.14"]));
    let m = generate("data.csv", "data", 17, digest(), &headers, &first_row, "2024-01-31").unwrap();
    assert!(validate(&m).is_empty());
    assert_eq!(m.check(), Ok(validate(&m)));
    let m = generate("data.csv", "", 0, digest(), &vec![], &None, "").unwrap();
    assert!(validate(&m).is_empty());
}

#[test]
fn validation_reports_what_went_wrong_into_a_generated_tree() {
    let headers = strings(&["id", ""]);
    let m = generate("data.csv", "data", 17, "abc".to_string(), &headers, &None, "2024-01-31")
        .unwrap();
    let messages: Vec<String> = validate(&m).items.into_iter().map(|i| i.message).collect();
    assert_eq!(
        messages,
        vec!["sha256 must be 64 hexadecimal characters", "source names an empty column"]
    );
}

#[test]
fn sizes_are_written_in_decimal() {
    assert_eq!(decimal_string(0), "0");
    assert_eq!(decimal_string(7), "7");
    assert_eq!(decimal_string(10), "10");
    assert_eq!(decimal_string(1234567890), "1234567890");
    assert_eq!(decimal_string(u64::MAX), "18446744073709551615");
}

#[test]
fn a_string_is_read_character_by_character() {
    assert_eq!(to_chars("héllo"), vec!['h', 'é', 'l', 'l', 'o']);
    assert_eq!(to_chars("a𝟙"), vec!['a', '𝟙']);
    assert_eq!(to_chars(""), Vec::<char>::new());
}

#[test]
fn a_generated_tree_is_well_formed_when_its_inputs_are() {
    let headers = strings(&["id", "value"]);
    let first_row = Some(strings(&["1", "3.14"]));
    let m = generate("data.csv", "", 17, digest(), &headers, &first_row, "2024-01-31").unwrap();
    assert!(m.is_well_formed());
    assert_eq!(croissant::model::Metadata::decode(&m.encode()).as_ref(), Ok(&m));

    let unnamed = strings(&["id", ""]);
    let m = generate("data.csv", "data", 17, digest(), &unnamed, &first_row, "2024-01-31").unwrap();
    assert!(!m.is_well_formed());
    let m = generate("data.csv", "data", 17, "abc".to_string(), &headers, &None, "2024-01-31")
        .unwrap();
    assert!(!m.is_well_formed());
    let m = generate("data.csv", "data", 17, digest(), &headers, &None, "").unwrap();
    assert!(!m.is_well_formed());
}
