use croissant::context::default_context;
use croissant::issues::{Issue, Severity};
use croissant::model::{
    CrType, CroissantType, DataType, Distribution, Extract, Field, FieldSource, FileObject,
    FileProperty, FileSet, Metadata, RecordSet, Ref, Resource, SourceRef,
};
use croissant::text::{Id, Text};
use croissant::digest::is_valid_sha256;
use croissant::validate::{validate, validate_record_set_references, MetadataContext};

fn file_object(id: &str) -> FileObject {
    FileObject {
        id: Id::new(id),
        name: Text::new(id),
        content_url: Some(Text::new("https://example.org/data")),
        content_size: None,
        encoding_format: Text::new("text/csv"),
        sha256: Some("a".repeat(64)),
    }
}

fn file_set(id: &str) -> FileSet {
    FileSet {
        id: Id::new(id),
        sources: vec![],
        encoding_format: Text::new("image/png"),
        includes: vec![Text::new("*.png")],
        excludes: vec![],
    }
}

fn plain_field(name: &str) -> Field {
    Field {
        id: Id::new(&format!("main/{}", name)),
        kind: CrType::Field,
        name: Text::new(name),
        description: Text::new("a field"),
        data_types: vec![DataType::Text],
        source: FieldSource {
            source: from_records("main"),
            extract: None,
            transform: None,
            format: None,
        },
        references: vec![],
        sub_fields: None,
        parent_fields: None,
        repeated: None,
        equivalent_properties: None,
    }
}

fn column_of(source: SourceRef, column: &str) -> FieldSource {
    FieldSource {
        source,
        extract: Some(Extract::Column { name: Text::new(column) }),
        transform: None,
        format: None,
    }
}

fn from_file(id: &str) -> SourceRef {
    SourceRef::FileObject { file_object: Ref { id: Id::new(id) } }
}

fn from_set(id: &str) -> SourceRef {
    SourceRef::FileSet { file_set: Ref { id: Id::new(id) } }
}

fn from_records(id: &str) -> SourceRef {
    SourceRef::RecordSet { record_set: Ref { id: Id::new(id) } }
}

fn sourced_field(name: &str, source: SourceRef) -> Field {
    let mut f = plain_field(name);
    f.source = column_of(source, name);
    f
}

fn record_set(id: &str, fields: Vec<Field>) -> RecordSet {
    RecordSet {
        id: Id::new(id),
        kind: CrType::RecordSet,
        keys: vec![],
        fields,
        record_types: vec![],
    }
}

fn no_fields() -> Vec<RecordSet> {
    vec![record_set("main", vec![])]
}

fn tree(resources: Vec<Resource>, record_sets: Vec<RecordSet>) -> Metadata {
    Metadata {
        context: default_context().unwrap(),
        kind: CroissantType::Dataset,
        name: Text::new("demo"),
        description: Text::new("a demonstration"),
        conforms_to: Text::new("http://mlcommons.org/croissant/1.0"),
        date_published: None,
        version: Text::new("1.0.0"),
        distribution: resources.into_iter().map(|resource| Distribution { resource }).collect(),
        record_sets,
    }
}

fn error(message: &str, context: &str) -> Issue {
    Issue {
        severity: Severity::Error,
        message: message.to_string(),
        context: Some(context.to_string()),
    }
}

fn warning(message: &str, context: &str) -> Issue {
    Issue {
        severity: Severity::Warning,
        message: message.to_string(),
        context: Some(context.to_string()),
    }
}

fn with_digest(digest: Option<String>) -> Metadata {
    let mut o = file_object("data.csv");
    o.sha256 = digest;
    tree(vec![Resource::FileObject(o)], no_fields())
}

const OBJECT_PATH: &str = "Metadata(demo) > fileObject(id:data.csv)";
const RECORDS_PATH: &str = "Metadata(demo) > RecordSet(cr:RecordSet)";

#[test]
fn a_sound_tree_has_no_issue() {
    let m = tree(
        vec![Resource::FileObject(file_object("data.csv")), Resource::FileSet(file_set("images"))],
        vec![record_set(
            "main",
            vec![
                sourced_field("a", from_file("data.csv")),
                sourced_field("b", from_set("images")),
                plain_field("c"),
            ],
        )],
    );
    let issues = validate(&m);
    assert!(issues.is_empty());
    assert_eq!(issues.report(), "");
    assert_eq!(m.check(), Ok(issues));
}

#[test]
fn the_name_is_mandatory() {
    let mut m = tree(vec![], no_fields());
    m.name = Text::new("");
    assert_eq!(validate(&m).items, vec![error("name must not be empty", "Metadata()")]);
}

#[test]
fn conformance_and_description_are_recommended() {
    let mut m = tree(vec![], no_fields());
    m.conforms_to = Text::new("");
    m.description = Text::new("");
    let issues = validate(&m);
    assert_eq!(
        issues.items,
        vec![
            warning("conformsTo is recommended", "Metadata(demo)"),
            warning("description is recommended", "Metadata(demo)"),
        ]
    );
    assert_eq!(issues.error_count(), 0);
    assert_eq!(issues.warning_count(), 2);
    let checked = m.check().unwrap();
    assert_eq!(checked, issues);
    assert_eq!(checked.error_count(), 0);
    assert_eq!(checked.warning_count(), 2);
}

#[test]
fn the_first_pass_reports_everything_it_finds() {
    let mut m = tree(vec![], no_fields());
    m.name = Text::new("");
    m.conforms_to = Text::new("");
    m.description = Text::new("");
    assert_eq!(
        validate(&m).items,
        vec![
            error("name must not be empty", "Metadata()"),
            warning("conformsTo is recommended", "Metadata()"),
            warning("description is recommended", "Metadata()"),
        ]
    );
}

#[test]
fn a_file_object_needs_locator_and_format() {
    let mut o = file_object("data.csv");
    o.content_url = None;
    o.encoding_format = Text::new("");
    let m = tree(vec![Resource::FileObject(o)], no_fields());
    assert_eq!(
        validate(&m).items,
        vec![
            error("contentUrl is required", OBJECT_PATH),
            error("encodingFormat is required", OBJECT_PATH),
        ]
    );
    let mut o = file_object("data.csv");
    o.content_url = Some(Text::new(""));
    let m = tree(vec![Resource::FileObject(o)], no_fields());
    assert_eq!(validate(&m).items, vec![error("contentUrl is required", OBJECT_PATH)]);
}

#[test]
fn a_file_set_needs_a_format() {
    let mut s = file_set("images");
    s.encoding_format = Text::new("");
    let m = tree(vec![Resource::FileSet(s)], no_fields());
    assert_eq!(
        validate(&m).items,
        vec![error("encodingFormat is required", "Metadata(demo) > fileSet(id:images)")]
    );
}

#[test]
fn a_missing_digest_is_a_warning() {
    let m = with_digest(None);
    assert_eq!(validate(&m).items, vec![warning("sha256 is recommended", OBJECT_PATH)]);
    let checked = m.check().unwrap();
    assert_eq!(checked.items, vec![warning("sha256 is recommended", OBJECT_PATH)]);
    assert_eq!(checked.error_count(), 0);
    assert_eq!(checked.warning_count(), 1);
}

#[test]
fn a_digest_of_64_hexadecimal_digits_is_accepted() {
    assert!(is_valid_sha256(&"a".repeat(64)));
    assert!(is_valid_sha256(&"0123456789abcdefABCDEF0123456789".repeat(2)));
    assert!(validate(&with_digest(Some("a".repeat(64)))).is_empty());
    assert!(validate(&with_digest(Some("A1b2".repeat(16)))).is_empty());
}

#[test]
fn a_digest_of_another_length_is_an_error() {
    let wanted = vec![error("sha256 must be 64 hexadecimal characters", OBJECT_PATH)];
    assert!(!is_valid_sha256(&"a".repeat(63)));
    assert!(!is_valid_sha256(&"a".repeat(65)));
    assert!(!is_valid_sha256(""));
    assert_eq!(validate(&with_digest(Some("a".repeat(63)))).items, wanted);
    assert_eq!(validate(&with_digest(Some("a".repeat(65)))).items, wanted);
    assert_eq!(validate(&with_digest(Some(String::new()))).items, wanted);
}

#[test]
fn a_digest_with_another_character_is_an_error() {
    let wanted = vec![error("sha256 must be 64 hexadecimal characters", OBJECT_PATH)];
    for bad in ["g", "G", " ", "-", "é", "/", ":", "@", "`"] {
        let digest = format!("{}{}", "a".repeat(63), bad);
        assert_eq!(digest.chars().count(), 64);
        assert!(!is_valid_sha256(&digest), "digest ending in {:?}", bad);
        assert_eq!(validate(&with_digest(Some(digest))).items, wanted);
    }
    let digest = format!("x{}", "a".repeat(63));
    assert!(!is_valid_sha256(&digest));
}

#[test]
fn a_malformed_digest_fails_the_check() {
    let m = with_digest(Some("a".repeat(63)));
    let found = m.check().unwrap_err();
    assert_eq!(found, validate(&m));
    assert!(found.has_errors());
}

#[test]
fn resources_are_reported_in_their_order() {
    let mut first = file_object("one.csv");
    first.sha256 = None;
    let mut second = file_set("two");
    second.encoding_format = Text::new("");
    let mut third = file_object("three.csv");
    third.content_url = None;
    let m = tree(
        vec![Resource::FileObject(first), Resource::FileSet(second), Resource::FileObject(third)],
        no_fields(),
    );
    assert_eq!(
        validate(&m).items,
        vec![
            warning("sha256 is recommended", "Metadata(demo) > fileObject(id:one.csv)"),
            error("encodingFormat is required", "Metadata(demo) > fileSet(id:two)"),
            error("contentUrl is required", "Metadata(demo) > fileObject(id:three.csv)"),
        ]
    );
}

#[test]
fn type_tags_must_match() {
    let mut rs = record_set("main", vec![plain_field("a")]);
    rs.kind = CrType::Field;
    rs.fields[0].kind = CrType::FileSet;
    let m = tree(vec![], vec![rs]);
    assert_eq!(
        validate(&m).items,
        vec![
            error(
                "expected type cr:RecordSet, found cr:Field",
                "Metadata(demo) > RecordSet(cr:Field)"
            ),
            error(
                "expected type cr:Field, found cr:FileSet",
                "Metadata(demo) > RecordSet(cr:Field) > Field(a)"
            ),
        ]
    );
}

#[test]
fn a_source_must_name_its_target_and_its_column() {
    let mut f = plain_field("a");
    f.source = column_of(from_file(""), "");
    let m = tree(vec![], vec![record_set("main", vec![f])]);
    let at = "Metadata(demo) > RecordSet(cr:RecordSet) > Field(a)";
    assert_eq!(
        validate(&m).items,
        vec![error("source names no resource", at), error("source names an empty column", at)]
    );
}

#[test]
fn other_extractions_need_no_column() {
    let mut f = plain_field("a");
    f.source = FieldSource {
        source: from_file("data.csv"),
        extract: Some(Extract::FileProperty { property: FileProperty::Content }),
        transform: None,
        format: None,
    };
    let mut g = plain_field("b");
    g.source = FieldSource {
        source: from_file("data.csv"),
        extract: None,
        transform: None,
        format: None,
    };
    let mut h = plain_field("c");
    h.source = FieldSource {
        source: from_file("data.csv"),
        extract: Some(Extract::JsonPath { expr: Text::new("") }),
        transform: None,
        format: None,
    };
    let m = tree(
        vec![Resource::FileObject(file_object("data.csv"))],
        vec![record_set("main", vec![f, g, h])],
    );
    assert!(validate(&m).is_empty());
}

#[test]
fn a_reference_to_a_missing_resource_is_one_error() {
    let m = tree(
        vec![Resource::FileObject(file_object("data.csv"))],
        vec![record_set("main", vec![sourced_field("a", from_file("missing.csv"))])],
    );
    let issues = validate(&m);
    assert_eq!(
        issues.items,
        vec![error(
            "unresolved reference id:missing.csv",
            "Metadata(demo) > RecordSet(cr:RecordSet) > Field(a)"
        )]
    );
    assert_eq!(issues.error_count(), 1);
    assert!(issues.items[0].message.contains("missing.csv"));
}

#[test]
fn a_reference_to_a_missing_resource_without_any_distribution() {
    let m =
        tree(vec![], vec![record_set("main", vec![sourced_field("a", from_file("missing.csv"))])]);
    let issues = validate(&m);
    assert_eq!(issues.len(), 1);
    assert!(issues.items[0].is_error());
    assert!(issues.items[0].message.contains("missing.csv"));
}

#[test]
fn a_reference_to_a_resource_of_the_distribution_is_sound() {
    let m = tree(
        vec![Resource::FileObject(file_object("data.csv")), Resource::FileSet(file_set("images"))],
        vec![record_set(
            "main",
            vec![sourced_field("a", from_file("data.csv")), sourced_field("b", from_set("images"))],
        )],
    );
    assert!(validate(&m).is_empty());
}

#[test]
fn a_record_set_may_be_drawn_from_another() {
    let m = tree(
        vec![Resource::FileObject(file_object("data.csv"))],
        vec![
            record_set("first", vec![sourced_field("a", from_file("data.csv"))]),
            record_set(
                "second",
                vec![
                    sourced_field("b", from_records("first")),
                    sourced_field("c", from_records("second")),
                    sourced_field("d", from_records("data.csv")),
                    sourced_field("e", from_records("third")),
                    sourced_field("f", from_file("first")),
                ],
            ),
        ],
    );
    assert_eq!(
        validate(&m).items,
        vec![
            error("unresolved reference id:third", &format!("{} > Field(e)", RECORDS_PATH)),
            error("unresolved reference id:first", &format!("{} > Field(f)", RECORDS_PATH)),
        ]
    );
}

#[test]
fn an_empty_target_is_not_reported_twice() {
    let mut f = plain_field("a");
    f.source = column_of(from_file(""), "a");
    let m = tree(vec![], vec![record_set("main", vec![f])]);
    assert_eq!(
        validate(&m).items,
        vec![error("source names no resource", &format!("{} > Field(a)", RECORDS_PATH))]
    );
}

fn nested() -> Metadata {
    let mut deep = sourced_field("deep", from_file("gone-3"));
    deep.kind = CrType::RecordSet;
    let mut child = sourced_field("child", from_file("gone-2"));
    child.sub_fields = Some(vec![deep]);
    let mut parent = sourced_field("parent", from_file("gone-1"));
    parent.sub_fields = Some(vec![child, sourced_field("second", from_file("gone-4"))]);
    let sibling = sourced_field("sibling", from_file("gone-5"));
    tree(
        vec![Resource::FileObject(file_object("data.csv"))],
        vec![
            record_set("main", vec![parent, sibling]),
            record_set("other", vec![sourced_field("last", from_file("gone-6"))]),
        ],
    )
}

#[test]
fn sub_fields_come_before_siblings() {
    let issues = validate(&nested());
    let parent = format!("{} > Field(parent)", RECORDS_PATH);
    let child = format!("{} > Field(child)", parent);
    let deep = format!("{} > Field(deep)", child);
    assert_eq!(
        issues.items,
        vec![
            error("expected type cr:Field, found cr:RecordSet", &deep),
            error("unresolved reference id:gone-1", &parent),
            error("unresolved reference id:gone-2", &child),
            error("unresolved reference id:gone-3", &deep),
            error("unresolved reference id:gone-4", &format!("{} > Field(second)", parent)),
            error("unresolved reference id:gone-5", &format!("{} > Field(sibling)", RECORDS_PATH)),
            error("unresolved reference id:gone-6", &format!("{} > Field(last)", RECORDS_PATH)),
        ]
    );
}

#[test]
fn the_passes_run_one_after_the_other() {
    let mut m = nested();
    m.name = Text::new("");
    m.distribution[0] = Distribution { resource: Resource::FileSet(file_set("images")) };
    m.record_sets[1].kind = CrType::FileObject;
    let issues = validate(&m);
    let messages: Vec<&str> = issues.items.iter().map(|i| i.message.as_str()).collect();
    assert_eq!(
        messages,
        vec![
            "name must not be empty",
            "expected type cr:Field, found cr:RecordSet",
            "expected type cr:RecordSet, found cr:FileObject",
            "unresolved reference id:gone-1",
            "unresolved reference id:gone-2",
            "unresolved reference id:gone-3",
            "unresolved reference id:gone-4",
            "unresolved reference id:gone-5",
            "unresolved reference id:gone-6",
        ]
    );
    assert_eq!(
        issues.items[8].context,
        Some("Metadata() > RecordSet(cr:FileObject) > Field(last)".to_string())
    );
}

#[test]
fn validating_twice_gives_the_same_issues() {
    let m = nested();
    let first = validate(&m);
    let second = validate(&m);
    assert_eq!(first, second);
    assert_eq!(first.report(), second.report());
    assert_eq!(validate(&nested()), first);
}

#[test]
fn the_report_of_a_validation() {
    let mut o = file_object("data.csv");
    o.sha256 = None;
    let m = tree(
        vec![Resource::FileObject(o)],
        vec![record_set("main", vec![sourced_field("a", from_file("missing.csv"))])],
    );
    assert_eq!(
        validate(&m).report(),
        "error: unresolved reference id:missing.csv \
         [Metadata(demo) > RecordSet(cr:RecordSet) > Field(a)]\n\
         warning: sha256 is recommended [Metadata(demo) > fileObject(id:data.csv)]\n"
    );
}

#[test]
fn the_lookup_context_lists_the_identifiers() {
    let m = tree(
        vec![Resource::FileObject(file_object("data.csv")), Resource::FileSet(file_set("images"))],
        vec![record_set("first", vec![]), record_set("second", vec![])],
    );
    let ctx = MetadataContext::of(&m);
    assert_eq!(ctx.root, "Metadata(demo)");
    assert_eq!(ctx.distribution_ids, vec![Id::new("data.csv"), Id::new("images")]);
    assert_eq!(ctx.record_set_ids, vec![Id::new("first"), Id::new("second")]);
}

#[test]
fn the_references_of_one_record_set() {
    let ctx = MetadataContext {
        root: "Metadata(x)".to_string(),
        distribution_ids: vec![Id::new("data.csv")],
        record_set_ids: vec![Id::new("main")],
    };
    let rs = record_set(
        "main",
        vec![
            sourced_field("a", from_file("data.csv")),
            sourced_field("b", from_file("missing.csv")),
            sourced_field("c", from_records("main")),
            sourced_field("d", from_set("main")),
            plain_field("e"),
        ],
    );
    let found = validate_record_set_references(&rs, &ctx);
    assert_eq!(
        found.items,
        vec![
            error(
                "unresolved reference id:missing.csv",
                "Metadata(x) > RecordSet(cr:RecordSet) > Field(b)"
            ),
            error(
                "unresolved reference id:main",
                "Metadata(x) > RecordSet(cr:RecordSet) > Field(d)"
            ),
        ]
    );
    let empty = MetadataContext {
        root: String::new(),
        distribution_ids: vec![],
        record_set_ids: vec![],
    };
    assert_eq!(validate_record_set_references(&rs, &empty).len(), 5);
}

#[test]
fn copies_of_issues_and_contexts_are_equal() {
    let m = nested();
    let issues = validate(&m);
    assert_eq!(issues.clone(), issues);
    assert_eq!(issues.items[0].clone(), issues.items[0]);
    let ctx = MetadataContext::of(&m);
    assert_eq!(ctx.clone(), ctx);
}

#[test]
fn a_default_context_knows_no_identifier() {
    let ctx = MetadataContext::default();
    assert_eq!(ctx.root, "");
    assert!(ctx.distribution_ids.is_empty());
    assert!(ctx.record_set_ids.is_empty());
    let rs = record_set("main", vec![sourced_field("a", from_file("data.csv"))]);
    assert_eq!(
        validate_record_set_references(&rs, &ctx).items,
        vec![error("unresolved reference id:data.csv", " > RecordSet(cr:RecordSet) > Field(a)")]
    );
}

#[test]
fn a_dataset_needs_a_record_set() {
    let m = tree(vec![Resource::FileObject(file_object("data.csv"))], vec![]);
    let issues = validate(&m);
    assert_eq!(issues.items, vec![error("recordSet must not be empty", "Metadata(demo)")]);
    assert_eq!(m.check(), Err(issues));
}

#[test]
fn the_record_set_rule_comes_after_the_distribution() {
    let mut o = file_object("data.csv");
    o.sha256 = None;
    let mut m = tree(vec![Resource::FileObject(o)], vec![]);
    m.name = Text::new("");
    let messages: Vec<String> = validate(&m).items.into_iter().map(|i| i.message).collect();
    assert_eq!(
        messages,
        vec!["name must not be empty", "sha256 is recommended", "recordSet must not be empty"]
    );
}

#[test]
fn the_check_hands_back_warnings_with_and_without_errors() {
    let mut o = file_object("data.csv");
    o.sha256 = None;
    let mut m = tree(vec![Resource::FileObject(o)], no_fields());
    m.description = Text::new("");
    m.conforms_to = Text::new("");
    let found = m.check().unwrap();
    assert_eq!(found, validate(&m));
    assert_eq!(found.error_count(), 0);
    assert_eq!(found.warning_count(), 3);

    m.name = Text::new("");
    let found = m.check().unwrap_err();
    assert_eq!(found, validate(&m));
    assert_eq!(found.error_count(), 1);
    assert_eq!(found.warning_count(), 3);
}
