//! A minimal description of one delimited text file.
//!
//! The caller reads the file: its name, its size, its digest, its header row
//! and, if there is one, its first data row. From these the generator builds
//! a tree with one file object, and one record set `main` that has one field
//! per column. The file's name serves as its content locator: the
//! description is meant to lie beside the file. The result is not validated
//! here; [`lemma_generated_tree_has_no_issue`] says when validation will find
//! nothing.

use vstd::prelude::*;
use vstd::string::*;
use crate::chars::{decimal, decimal_string};
use crate::context::{default_context, default_context_view};
use crate::digest::is_sha256_text;
use crate::errors::Error;
use crate::infer::inferred;
use crate::issues::IssueView;
use crate::model::{
    CrType, CroissantType, DataType, DataTypeView, Distribution, Extract, ExtractView, Field,
    FieldSource, FieldSourceView, FieldView, FileObject, FileObjectView, Metadata, MetadataView,
    RecordSet, RecordSetView, Ref, Resource, ResourceView, SourceRef, SourceRefView,
};
use crate::text::{Id, Text};
use crate::validate::{
    basic_issues, context_of, distribution_issues, issues_of, lemma_fitting_tree_raises_nothing,
    lemma_resolving_tree_raises_nothing, metadata_path, reference_issues, resource_issues,
    tree_fits,
};
use crate::wire::{data_type_wf, data_types_wf, field_wf, metadata_wf, record_set_wf, resource_wf};

verus! {

/// The type of column `i`: inferred from its cell of the first data row, and
/// `Url` where there is no such row or the row is too short.
pub open spec fn column_type(first_row: Option<Seq<Seq<char>>>, i: int) -> DataTypeView {
    match first_row {
        Some(row) => if 0 <= i < row.len() {
            inferred(row[i])
        } else {
            DataTypeView::Url
        },
        None => DataTypeView::Url,
    }
}

/// The types of the first `n` columns.
pub open spec fn column_types(n: nat, first_row: Option<Seq<Seq<char>>>) -> Seq<DataTypeView> {
    Seq::new(n, |i: int| column_type(first_row, i))
}

/// The field that describes the column named `header` of the file `file_name`.
pub open spec fn column_field(
    file_name: Seq<char>,
    header: Seq<char>,
    data_type: DataTypeView,
) -> FieldView {
    FieldView {
        id: "main/"@ + header,
        kind: CrType::Field,
        name: header,
        description: "Field for "@ + header,
        data_types: seq![data_type],
        source: FieldSourceView {
            source: SourceRefView::FileObject { file_object: file_name },
            extract: Some(ExtractView::Column { name: header }),
            transform: None,
            format: None,
        },
        references: Seq::empty(),
        sub_fields: None,
        parent_fields: None,
        repeated: None,
        equivalent_properties: None,
    }
}

/// The file object that describes the file itself.
pub open spec fn csv_file_object(
    file_name: Seq<char>,
    file_size: u64,
    digest: Seq<char>,
) -> FileObjectView {
    FileObjectView {
        id: file_name,
        name: file_name,
        content_url: Some(file_name),
        content_size: Some(decimal(file_size as nat) + " B"@),
        encoding_format: "text/csv"@,
        sha256: Some(digest),
    }
}

/// The description generated for a file.
pub open spec fn csv_metadata(
    file_name: Seq<char>,
    stem: Seq<char>,
    file_size: u64,
    digest: Seq<char>,
    headers: Seq<Seq<char>>,
    types: Seq<DataTypeView>,
    date_published: Seq<char>,
) -> MetadataView {
    MetadataView {
        context: default_context_view(),
        kind: CroissantType::Dataset,
        name: stem + "_dataset"@,
        description: "Dataset created from "@ + file_name,
        conforms_to: "http://mlcommons.org/croissant/1.0"@,
        date_published: Some(date_published),
        version: "1.0.0"@,
        distribution: seq![ResourceView::FileObject(csv_file_object(file_name, file_size, digest))],
        record_sets: seq![
            RecordSetView {
                id: "main"@,
                kind: CrType::RecordSet,
                keys: seq!["main"@],
                fields: Seq::new(
                    headers.len(),
                    |i: int| column_field(file_name, headers[i], types[i]),
                ),
                record_types: Seq::empty(),
            },
        ],
    }
}

/// Infers the type of each column from the first data row.
pub fn infer_column_types(headers: &Vec<String>, first_row: &Option<Vec<String>>) -> (r: Vec<
    DataType,
>)
    ensures
        r.deep_view() == column_types(headers@.len(), first_row.deep_view()),
{
    let mut types: Vec<DataType> = Vec::new();
    let mut i: usize = 0;
    while i < headers.len()
        invariant
            0 <= i <= headers@.len(),
            types@.len() == i,
            forall|j: int|
                0 <= j < i ==> (#[trigger] types@[j])@ == column_type(first_row.deep_view(), j),
        decreases headers@.len() - i,
    {
        let mut data_type = DataType::Url;
        match first_row {
            Some(row) => {
                if i < row.len() {
                    data_type = DataType::from(&row[i]);
                }
            },
            None => {},
        }
        types.push(data_type);
        i += 1;
    }
    types
}

/// Builds the field of one column.
fn build_column_field(file_name: &str, header: &str, data_type: DataType) -> (r: Result<
    Field,
    Error,
>)
    ensures
        r matches Ok(field) && field@ == column_field(file_name@, header@, data_type@),
{
    let source = FieldSource::builder().extract(
        Some(Extract::Column { name: Text::new(header) }),
    ).source(SourceRef::FileObject { file_object: Ref { id: Text::new(file_name) } }).build()?;
    let ghost wanted = data_type@;
    let mut data_types: Vec<DataType> = Vec::new();
    data_types.push(data_type);
    let id = String::from_str("main/").concat(header);
    let description = String::from_str("Field for ").concat(header);
    let built = Field::builder().id(Id::new(id.as_str())).kind(CrType::Field).name(
        Text::new(header),
    ).description(Text::new(description.as_str())).data_types(data_types).source(source).build();
    proof {
        if built is Ok {
            let field = built->Ok_0;
            assert(field.data_types.deep_view() =~= seq![wanted]);
            assert(field.references.deep_view() =~= Seq::<Seq<char>>::empty());
        }
    }
    built
}

/// Builds the description of a file from its name, the stem of its name, its
/// size in bytes, its digest, its header row, the type of each column and the
/// day of publication.
///
/// Fails with `InvalidFormat` when the file name is empty or when there are
/// not as many types as headers, and on no other input.
pub fn assemble(
    file_name: &str,
    stem: &str,
    file_size: u64,
    sha256: String,
    headers: &Vec<String>,
    types: &Vec<DataType>,
    date_published: &str,
) -> (r: Result<Metadata, Error>)
    ensures
        match r {
            Ok(metadata) => {
                &&& file_name@.len() > 0
                &&& types@.len() == headers@.len()
                &&& metadata@ == csv_metadata(
                    file_name@,
                    stem@,
                    file_size,
                    sha256@,
                    headers.deep_view(),
                    types.deep_view(),
                    date_published@,
                )
            },
            Err(e) => {
                &&& file_name@.len() == 0 || types@.len() != headers@.len()
                &&& e is InvalidFormat
            },
        },
{
    if file_name.is_empty() {
        return Err(Error::InvalidFormat(String::from_str("Invalid file path")));
    }
    if types.len() != headers.len() {
        return Err(Error::InvalidFormat(String::from_str("one type per column is needed")));
    }
    let ghost digest = sha256@;
    let mut fields: Vec<Field> = Vec::new();
    let mut i: usize = 0;
    while i < headers.len()
        invariant
            0 <= i <= headers@.len(),
            types@.len() == headers@.len(),
            fields@.len() == i,
            forall|j: int|
                0 <= j < i ==> (#[trigger] fields@[j])@ == column_field(
                    file_name@,
                    headers@[j]@,
                    types@[j]@,
                ),
        decreases headers@.len() - i,
    {
        let field = build_column_field(
            file_name,
            headers[i].as_str(),
            types[i].clone(),
        )?;
        fields.push(field);
        i += 1;
    }
    let context = default_context()?;
    let file_object = FileObject::builder().id(Id::new(file_name)).name(
        Text::new(file_name),
    ).content_url(Some(Text::new(file_name))).content_size(
        Some(Text::new(decimal_string(file_size).concat(" B").as_str())),
    ).encoding_format(Text::new("text/csv")).sha256(Some(sha256)).build()?;
    let distribution = Distribution::builder().resource(
        Resource::FileObject(file_object),
    ).build()?;
    let mut keys: Vec<Ref> = Vec::new();
    keys.push(Ref { id: Id::new("main") });
    let record_set = RecordSet::builder().id(Id::new("main")).kind(CrType::RecordSet).keys(
        keys,
    ).fields(fields).build()?;
    let mut distributions: Vec<Distribution> = Vec::new();
    distributions.push(distribution);
    let mut record_sets: Vec<RecordSet> = Vec::new();
    record_sets.push(record_set);
    let built = Metadata::builder().context(context).kind(CroissantType::Dataset).name(
        Text::new(String::from_str(stem).concat("_dataset").as_str()),
    ).description(
        Text::new(String::from_str("Dataset created from ").concat(file_name).as_str()),
    ).conforms_to(Text::new("http://mlcommons.org/croissant/1.0")).date_published(
        Some(Text::new(date_published)),
    ).version(Text::new("1.0.0")).distribution(distributions).record_sets(record_sets).build();
    proof {
        if built is Ok {
            let metadata = built->Ok_0;
            let want = csv_metadata(
                file_name@,
                stem@,
                file_size,
                digest,
                headers.deep_view(),
                types.deep_view(),
                date_published@,
            );
            let rs = metadata.record_sets@[0];
            assert(rs.keys.deep_view() =~= seq!["main"@]);
            assert(rs.record_types.deep_view() =~= Seq::<DataTypeView>::empty());
            assert(rs.fields.deep_view() =~= want.record_sets[0].fields);
            assert(metadata.record_sets.deep_view() =~= want.record_sets);
            assert(metadata.distribution.deep_view() =~= want.distribution);
        }
    }
    built
}

/// Builds the description of a file from its name, the stem of its name, its
/// size in bytes, its digest, its header row, its first data row if it has
/// one, and the day of publication.
///
/// Fails with `InvalidFormat` when the file name is empty, and on no other
/// input.
pub fn generate(
    file_name: &str,
    stem: &str,
    file_size: u64,
    sha256: String,
    headers: &Vec<String>,
    first_row: &Option<Vec<String>>,
    date_published: &str,
) -> (r: Result<Metadata, Error>)
    ensures
        match r {
            Ok(metadata) => {
                &&& file_name@.len() > 0
                &&& metadata@ == csv_metadata(
                    file_name@,
                    stem@,
                    file_size,
                    sha256@,
                    headers.deep_view(),
                    column_types(headers@.len(), first_row.deep_view()),
                    date_published@,
                )
            },
            Err(e) => file_name@.len() == 0 && e is InvalidFormat,
        },
{
    let types = infer_column_types(headers, first_row);
    assert(types.deep_view().len() == headers@.len());
    assemble(file_name, stem, file_size, sha256, headers, &types, date_published)
}

/// A generated tree is consistent with itself: every field is drawn from
/// the file object of the distribution, so the validator finds no
/// unresolved reference in it.
pub proof fn lemma_generated_references_resolve(
    file_name: Seq<char>,
    stem: Seq<char>,
    file_size: u64,
    digest: Seq<char>,
    headers: Seq<Seq<char>>,
    types: Seq<DataTypeView>,
    date_published: Seq<char>,
)
    ensures
        reference_issues(
            csv_metadata(
                file_name,
                stem,
                file_size,
                digest,
                headers,
                types,
                date_published,
            ).record_sets,
            context_of(
                csv_metadata(file_name, stem, file_size, digest, headers, types, date_published),
            ),
        ) == Seq::<IssueView>::empty(),
{
    let m = csv_metadata(file_name, stem, file_size, digest, headers, types, date_published);
    let ctx = context_of(m);
    assert(ctx.distribution_ids[0] == file_name);
    lemma_resolving_tree_raises_nothing(m.record_sets, ctx);
}

/// The types that the inference answers can always be told apart on the
/// wire: it never answers a custom type.
pub proof fn lemma_inferred_types_are_well_formed(n: nat, first_row: Option<Seq<Seq<char>>>)
    ensures
        data_types_wf(column_types(n, first_row)),
{
}

/// A generated tree is well formed, and so can be written and read back,
/// whenever what went into it is: a file name, a day of publication and headers that
/// are not empty, a digest of 64 hexadecimal digits, and one type per
/// header that can be told apart on the wire.
pub proof fn lemma_generated_tree_is_well_formed(
    file_name: Seq<char>,
    stem: Seq<char>,
    file_size: u64,
    digest: Seq<char>,
    headers: Seq<Seq<char>>,
    types: Seq<DataTypeView>,
    date_published: Seq<char>,
)
    requires
        file_name.len() > 0,
        date_published.len() > 0,
        is_sha256_text(digest),
        types.len() == headers.len(),
        forall|i: int| 0 <= i < headers.len() ==> (#[trigger] headers[i]).len() > 0,
        data_types_wf(types),
    ensures
        metadata_wf(
            csv_metadata(file_name, stem, file_size, digest, headers, types, date_published),
        ),
{
    reveal_strlit("en");
    reveal_strlit("https://schema.org/");
    reveal_strlit("http://purl.org/dc/terms/");
    reveal_strlit("cr:citeAs");
    reveal_strlit("cr:column");
    reveal_strlit("dct:conforms_to");
    reveal_strlit("cr:data");
    reveal_strlit("@json");
    reveal_strlit("cr:DataType");
    reveal_strlit("@vocal");
    reveal_strlit("_dataset");
    reveal_strlit("Dataset created from ");
    reveal_strlit("http://mlcommons.org/croissant/1.0");
    reveal_strlit("1.0.0");
    reveal_strlit(" B");
    reveal_strlit("text/csv");
    reveal_strlit("main");
    reveal_strlit("main/");
    reveal_strlit("Field for ");
}

/// Validation finds nothing at all in a generated tree, be it error or
/// warning, whenever the file name and the headers are not empty and the
/// digest is 64 hexadecimal digits.
pub proof fn lemma_generated_tree_has_no_issue(
    file_name: Seq<char>,
    stem: Seq<char>,
    file_size: u64,
    digest: Seq<char>,
    headers: Seq<Seq<char>>,
    types: Seq<DataTypeView>,
    date_published: Seq<char>,
)
    requires
        file_name.len() > 0,
        is_sha256_text(digest),
        forall|i: int| 0 <= i < headers.len() ==> (#[trigger] headers[i]).len() > 0,
    ensures
        issues_of(
            csv_metadata(file_name, stem, file_size, digest, headers, types, date_published),
        ) == Seq::<IssueView>::empty(),
{
    reveal_strlit("_dataset");
    reveal_strlit("Dataset created from ");
    reveal_strlit("http://mlcommons.org/croissant/1.0");
    reveal_strlit("text/csv");
    let m = csv_metadata(file_name, stem, file_size, digest, headers, types, date_published);
    let root = metadata_path(m.name);
    assert(distribution_issues(m.distribution, root) =~= Seq::<IssueView>::empty()) by {
        reveal_with_fuel(distribution_issues, 2);
    }
    lemma_fitting_tree_raises_nothing(m.record_sets, root);
    lemma_generated_references_resolve(
        file_name,
        stem,
        file_size,
        digest,
        headers,
        types,
        date_published,
    );
}

} // verus!
