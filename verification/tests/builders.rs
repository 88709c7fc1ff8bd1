use croissant::builder::{FieldBuilder, FileObjectBuilder, MetadataBuilder};
use croissant::context::default_context;
use croissant::errors::Error;
use croissant::model::{
    Context, CrType, CroissantType, DataContext, DataType, DataTypeContext, Distribution, Extract,
    Field, FieldRef, FieldSource, FileObject, Metadata, RecordSet, Ref, Resource, SourceRef,
};
use croissant::text::{Id, Text};

fn whole_file() -> FieldSource {
    FieldSource {
        source: SourceRef::FileObject { file_object: Ref { id: Id::new("data.csv") } },
        extract: None,
        transform: None,
        format: None,
    }
}

fn construction(field: &str) -> Error {
    Error::Construction(field.to_string())
}

fn file_object() -> FileObject {
    FileObject::builder()
        .id(Id::new("data.csv"))
        .name(Text::new("data.csv"))
        .encoding_format(Text::new("text/csv"))
        .build()
        .unwrap()
}

#[test]
fn a_file_object_needs_id_name_and_format() {
    assert_eq!(FileObject::builder().build(), Err(construction("id")));
    assert_eq!(FileObject::builder().id(Id::new("a")).build(), Err(construction("name")));
    assert_eq!(
        FileObject::builder().id(Id::new("a")).name(Text::new("a")).build(),
        Err(construction("encoding_format"))
    );
    assert_eq!(
        FileObject::builder().encoding_format(Text::new("text/csv")).name(Text::new("a")).build(),
        Err(construction("id"))
    );
}

#[test]
fn optional_fields_of_a_file_object_default_to_none() {
    let built = file_object();
    assert_eq!(
        built,
        FileObject {
            id: Id::new("data.csv"),
            name: Text::new("data.csv"),
            content_url: None,
            content_size: None,
            encoding_format: Text::new("text/csv"),
            sha256: None,
        }
    );
}

#[test]
fn a_file_object_keeps_every_field_it_was_given() {
    let built = FileObject::builder()
        .sha256(Some("ab".repeat(32)))
        .content_size(Some(Text::new("12 B")))
        .content_url(Some(Text::new("https://example.org/data.csv")))
        .encoding_format(Text::new("text/csv"))
        .name(Text::new("the data"))
        .id(Id::new("data.csv"))
        .build()
        .unwrap();
    assert_eq!(built.id, Id::new("data.csv"));
    assert_eq!(built.name, Text::new("the data"));
    assert_eq!(built.content_url, Some(Text::new("https://example.org/data.csv")));
    assert_eq!(built.content_size, Some(Text::new("12 B")));
    assert_eq!(built.encoding_format, Text::new("text/csv"));
    assert_eq!(built.sha256, Some("ab".repeat(32)));
}

#[test]
fn a_later_value_replaces_an_earlier_one() {
    let built = FileObject::builder()
        .id(Id::new("first"))
        .id(Id::new("second"))
        .name(Text::new("n"))
        .encoding_format(Text::new("f"))
        .content_url(Some(Text::new("u")))
        .content_url(None)
        .build()
        .unwrap();
    assert_eq!(built.id, Id::new("second"));
    assert_eq!(built.content_url, None);
}

#[test]
fn a_field_source_needs_its_source() {
    assert_eq!(
        FieldSource::builder().extract(Some(Extract::Column { name: Text::new("c") })).build(),
        Err(construction("source"))
    );
    let built = FieldSource::builder()
        .source(SourceRef::FileSet { file_set: Ref { id: Id::new("images") } })
        .build()
        .unwrap();
    assert_eq!(
        built,
        FieldSource {
            source: SourceRef::FileSet { file_set: Ref { id: Id::new("images") } },
            extract: None,
            transform: None,
            format: None,
        }
    );
}

#[test]
fn a_field_names_its_first_missing_field() {
    assert_eq!(Field::builder().build(), Err(construction("id")));
    assert_eq!(Field::builder().id(Id::new("f")).build(), Err(construction("kind")));
    assert_eq!(
        Field::builder().id(Id::new("f")).kind(CrType::Field).build(),
        Err(construction("name"))
    );
    assert_eq!(
        Field::builder().id(Id::new("f")).kind(CrType::Field).name(Text::new("f")).build(),
        Err(construction("description"))
    );
    assert_eq!(
        Field::builder()
            .id(Id::new("f"))
            .kind(CrType::Field)
            .name(Text::new("f"))
            .description(Text::new("d"))
            .build(),
        Err(construction("data_types"))
    );
    assert_eq!(
        Field::builder()
            .id(Id::new("f"))
            .kind(CrType::Field)
            .name(Text::new("f"))
            .description(Text::new("d"))
            .data_types(vec![DataType::Text])
            .build(),
        Err(construction("source"))
    );
    assert_eq!(
        Field::builder()
            .source(whole_file())
            .kind(CrType::Field)
            .name(Text::new("f"))
            .description(Text::new("d"))
            .data_types(vec![DataType::Text])
            .build(),
        Err(construction("id"))
    );
}

#[test]
fn a_field_may_leave_out_references_and_links() {
    let built = Field::builder()
        .id(Id::new("f"))
        .kind(CrType::Field)
        .name(Text::new("f"))
        .description(Text::new("d"))
        .data_types(vec![DataType::Text])
        .source(whole_file())
        .build()
        .unwrap();
    assert_eq!(built.id, Id::new("f"));
    assert_eq!(built.kind, CrType::Field);
    assert_eq!(built.name, Text::new("f"));
    assert_eq!(built.description, Text::new("d"));
    assert_eq!(built.source, whole_file());
    assert_eq!(built.references, Vec::<FieldRef>::new());
    assert_eq!(built.sub_fields, None);
    assert_eq!(built.parent_fields, None);
    assert_eq!(built.repeated, None);
    assert_eq!(built.equivalent_properties, None);
    assert_eq!(built.data_types, vec![DataType::Text]);
}

#[test]
fn a_field_keeps_its_links() {
    let child = Field::builder()
        .id(Id::new("f/x"))
        .kind(CrType::Field)
        .name(Text::new("x"))
        .description(Text::new("d"))
        .data_types(vec![DataType::Float])
        .source(whole_file())
        .build()
        .unwrap();
    let built = Field::builder()
        .id(Id::new("f"))
        .kind(CrType::Field)
        .name(Text::new("f"))
        .description(Text::new("d"))
        .data_types(vec![DataType::Text])
        .source(whole_file())
        .references(vec![FieldRef { field: Ref { id: Id::new("other/f") } }])
        .sub_fields(Some(vec![child]))
        .parent_fields(Some(vec![Id::new("p")]))
        .repeated(Some(true))
        .equivalent_properties(Some(vec![Text::new("sc:name")]))
        .build()
        .unwrap();
    assert_eq!(built.references.len(), 1);
    assert_eq!(built.sub_fields.as_ref().unwrap()[0].id, Id::new("f/x"));
    assert_eq!(built.parent_fields, Some(vec![Id::new("p")]));
    assert_eq!(built.repeated, Some(true));
    assert_eq!(built.equivalent_properties, Some(vec![Text::new("sc:name")]));
}

#[test]
fn a_record_set_needs_id_kind_and_fields() {
    assert_eq!(RecordSet::builder().build(), Err(construction("id")));
    assert_eq!(RecordSet::builder().id(Id::new("main")).build(), Err(construction("kind")));
    assert_eq!(
        RecordSet::builder().id(Id::new("main")).kind(CrType::RecordSet).build(),
        Err(construction("fields"))
    );
    let built = RecordSet::builder()
        .id(Id::new("main"))
        .kind(CrType::RecordSet)
        .fields(vec![])
        .build()
        .unwrap();
    assert_eq!(built.keys, Vec::<Ref>::new());
    assert_eq!(built.record_types, Vec::<DataType>::new());
}

#[test]
fn a_distribution_needs_its_resource() {
    assert_eq!(Distribution::builder().build(), Err(construction("resource")));
    let built = Distribution::builder().resource(Resource::FileObject(file_object())).build();
    assert_eq!(built, Ok(Distribution { resource: Resource::FileObject(file_object()) }));
}

#[test]
fn context_terms_need_id_and_type() {
    assert_eq!(DataContext::builder().build(), Err(construction("id")));
    assert_eq!(DataContext::builder().id(Id::new("cr:data")).build(), Err(construction("type_")));
    assert_eq!(DataTypeContext::builder().build(), Err(construction("id")));
    assert_eq!(
        DataTypeContext::builder().id(Id::new("cr:DataType")).build(),
        Err(construction("type_"))
    );
    assert_eq!(
        DataContext::builder().type_(Text::new("@json")).id(Id::new("cr:data")).build(),
        Ok(DataContext { id: Id::new("cr:data"), type_: Text::new("@json") })
    );
}

#[test]
fn a_context_names_its_first_missing_field() {
    assert_eq!(Context::builder().build(), Err(construction("language")));
    assert_eq!(
        Context::builder().language(Text::new("en")).build(),
        Err(construction("vocab"))
    );
    let partial = Context::builder()
        .language(Text::new("en"))
        .vocab(Text::new("v"))
        .sc(Text::new("s"))
        .cr(Text::new("c"));
    assert_eq!(partial.build(), Err(construction("dct")));
}

#[test]
fn the_default_context_is_complete() {
    let context = default_context().unwrap();
    assert_eq!(context.language, Text::new("en"));
    assert_eq!(context.vocab, Text::new("https://schema.org/"));
    assert_eq!(context.sc, Text::new("https://schema.org/"));
    assert_eq!(context.cr, Text::new("http://purl.org/dc/terms/"));
    assert_eq!(context.dct, Text::new("http://purl.org/dc/terms/"));
    assert_eq!(context.cite_as, Text::new("cr:citeAs"));
    assert_eq!(context.column, Text::new("cr:column"));
    assert_eq!(context.conforms_to, Text::new("dct:conforms_to"));
    assert_eq!(context.data, DataContext { id: Id::new("cr:data"), type_: Text::new("@json") });
    assert_eq!(
        context.data_type,
        DataTypeContext { id: Id::new("cr:DataType"), type_: Text::new("@vocal") }
    );
}

#[test]
fn a_dataset_names_its_first_missing_field() {
    assert_eq!(Metadata::builder().build(), Err(construction("context")));
    let partial = Metadata::builder()
        .context(default_context().unwrap())
        .kind(CroissantType::Dataset)
        .name(Text::new("n"))
        .description(Text::new("d"));
    assert_eq!(partial.build(), Err(construction("conforms_to")));
    let partial = Metadata::builder()
        .context(default_context().unwrap())
        .kind(CroissantType::Dataset)
        .name(Text::new("n"))
        .description(Text::new("d"))
        .conforms_to(Text::new("c"))
        .version(Text::new("1"));
    assert_eq!(partial.build(), Err(construction("distribution")));
    let partial = Metadata::builder()
        .context(default_context().unwrap())
        .kind(CroissantType::Dataset)
        .name(Text::new("n"))
        .description(Text::new("d"))
        .conforms_to(Text::new("c"))
        .version(Text::new("1"))
        .distribution(vec![]);
    assert_eq!(partial.build(), Err(construction("record_sets")));
}

#[test]
fn a_dataset_may_leave_out_its_date() {
    let built = Metadata::builder()
        .context(default_context().unwrap())
        .kind(CroissantType::Dataset)
        .name(Text::new("n"))
        .description(Text::new("d"))
        .conforms_to(Text::new("c"))
        .version(Text::new("1"))
        .distribution(vec![])
        .record_sets(vec![])
        .build()
        .unwrap();
    assert_eq!(built.date_published, None);
    assert!(built.record_sets.is_empty());
    assert!(built.distribution.is_empty());
    assert_eq!(built.kind, CroissantType::Dataset);
}

#[test]
fn a_default_builder_holds_nothing() {
    assert_eq!(FileObjectBuilder::default().build(), Err(construction("id")));
    assert_eq!(FieldBuilder::default().build(), Err(construction("id")));
    assert_eq!(MetadataBuilder::default().build(), Err(construction("context")));
    let built = FileObjectBuilder::default()
        .id(Id::new("a"))
        .name(Text::new("n"))
        .encoding_format(Text::new("f"))
        .build();
    assert_eq!(built.unwrap().id, Id::new("a"));
}
