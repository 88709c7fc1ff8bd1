use croissant::issues::{Issue, Issues, Severity};
use croissant::model::{
    BoundingBoxFormat, CrType, DataType, FileObject, FileSet, Resource,
};
use croissant::text::{Id, Text};

#[test]
fn an_identifier_reads_as_id_and_value() {
    assert_eq!(Id::new("main").to_string(), "id:main");
    assert_eq!(Text::new("").to_string(), "id:");
}

#[test]
fn text_keeps_what_it_was_given() {
    let t = Text::new("héllo");
    assert_eq!(t.as_str(), "héllo");
    assert_eq!(t.0, "héllo");
    assert!(!t.is_empty());
    assert!(Text::new("").is_empty());
    assert_eq!(t.clone(), t);
}

#[test]
fn type_tags_read_as_compact_identifiers() {
    assert_eq!(CrType::RecordSet.to_string(), "cr:RecordSet");
    assert_eq!(CrType::Field.to_string(), "cr:Field");
    assert_eq!(CrType::FileObject.to_string(), "cr:FileObject");
    assert_eq!(CrType::FileSet.to_string(), "cr:FileSet");
}

#[test]
fn data_types_read_as_compact_identifiers() {
    assert_eq!(DataType::Enumeration.to_string(), "sc:Enumeration");
    assert_eq!(DataType::Boolean.to_string(), "sc:Boolean");
    assert_eq!(DataType::Integer.to_string(), "sc:Integer");
    assert_eq!(DataType::Float.to_string(), "sc:Float");
    assert_eq!(DataType::Text.to_string(), "sc:Text");
    assert_eq!(DataType::Date.to_string(), "sc:Date");
    assert_eq!(DataType::DateTime.to_string(), "sc:Datetime");
    assert_eq!(DataType::Url.to_string(), "sc:Url");
    assert_eq!(DataType::ImageObject.to_string(), "sc:ImageObject");
    assert_eq!(DataType::Split.to_string(), "cr:Split");
    assert_eq!(DataType::Label.to_string(), "cr:Label");
    assert_eq!(DataType::BoundingBox(BoundingBoxFormat::Xyxy).to_string(), "XYXY");
    assert_eq!(DataType::CustomIri(Text::new("wd:Q42")).to_string(), "id:wd:Q42");
}

#[test]
fn layouts_read_by_their_usual_names() {
    assert_eq!(BoundingBoxFormat::CenterXywh.to_string(), "CenterXYWH");
    assert_eq!(BoundingBoxFormat::Xywh.to_string(), "XYWH");
    assert_eq!(BoundingBoxFormat::Xyxy.to_string(), "XYXY");
}

#[test]
fn resources_read_by_their_kind() {
    let object = Resource::FileObject(FileObject {
        id: Id::new("a.csv"),
        name: Text::new("a.csv"),
        content_url: None,
        content_size: None,
        encoding_format: Text::new("text/csv"),
        sha256: None,
    });
    let set = Resource::FileSet(FileSet {
        id: Id::new("images"),
        sources: vec![Id::new("archive.zip")],
        encoding_format: Text::new("image/png"),
        includes: vec![Text::new("*.png")],
        excludes: vec![],
    });
    assert_eq!(object.to_string(), "fileObject");
    assert_eq!(set.to_string(), "fileSet");
    assert_eq!(object.id(), &Id::new("a.csv"));
    assert_eq!(set.id(), &Id::new("images"));
}

#[test]
fn a_data_type_can_be_cloned() {
    let custom = DataType::CustomIri(Text::new("wd:Q42"));
    assert_eq!(custom.clone(), custom);
    assert_eq!(DataType::Float.clone(), DataType::Float);
}

fn sample_issues() -> Issues {
    let mut issues = Issues::new();
    issues.add_warning("first warning".to_string(), "Metadata(x)".to_string());
    issues.add_error("first error".to_string(), "Metadata(x)".to_string());
    issues.add(Issue {
        severity: Severity::Warning,
        message: "second warning".to_string(),
        context: None,
    });
    issues
        .add_error("second error".to_string(), "Metadata(x) > RecordSet(cr:RecordSet)".to_string());
    issues
}

#[test]
fn issues_are_counted_by_severity() {
    let issues = sample_issues();
    assert_eq!(issues.len(), 4);
    assert!(!issues.is_empty());
    assert_eq!(issues.error_count(), 2);
    assert_eq!(issues.warning_count(), 2);
    assert_eq!(issues.count(Severity::Error), 2);
    assert!(issues.has_errors());
    assert!(issues.has_warnings());
    assert!(issues.items[1].is_error());
    assert!(!issues.items[0].is_error());
}

#[test]
fn an_empty_list_has_nothing() {
    let issues = Issues::new();
    assert!(issues.is_empty());
    assert_eq!(issues.len(), 0);
    assert_eq!(issues.error_count(), 0);
    assert_eq!(issues.warning_count(), 0);
    assert!(!issues.has_errors());
    assert!(!issues.has_warnings());
    assert_eq!(issues.report(), "");
}

#[test]
fn the_report_lists_errors_before_warnings() {
    let issues = sample_issues();
    assert_eq!(
        issues.report(),
        "error: first error [Metadata(x)]\n\
         error: second error [Metadata(x) > RecordSet(cr:RecordSet)]\n\
         warning: first warning [Metadata(x)]\n\
         warning: second warning\n"
    );
}

#[test]
fn an_issue_reads_as_its_report_line() {
    let issues = sample_issues();
    assert_eq!(issues.items[0].to_string(), "warning: first warning [Metadata(x)]\n");
    assert_eq!(issues.items[2].to_string(), "warning: second warning\n");
}
