//! The validator: every problem of a tree, in document order.
//!
//! Four passes run one after the other, each to its end: the dataset's own
//! fields, the distribution, the types and sources of record sets and fields,
//! and the references from fields to resources. The third pass begins by
//! asking that there be a record set at all. Nothing here fails: what is
//! wrong with the tree is returned as a list of issues.
//!
//! A tree that was decoded has no empty text and no malformed digest; a
//! tree that was built by hand may have both, and they are reported here.
//!
//! The first pass also asks that the root be a dataset. The root's type tag
//! has no other value today, so this rule cannot fire; it is stated all the
//! same and will hold when the tag gains values.

use vstd::prelude::*;
use vstd::string::*;
use crate::digest::{is_sha256_text, is_valid_sha256};
use crate::errors::Error;
use crate::issues::{error_at, select, warning_at, Issue, IssueView, Issues, Severity};
use crate::json::Json;
use crate::model::{
    CrType, CroissantType, Distribution, Extract, ExtractView, Field, FieldSource,
    FieldSourceView, FieldView, FileObject, FileObjectView, FileSet, FileSetView, Metadata,
    MetadataView, RecordSet, RecordSetView, Resource, ResourceView, SourceRef, SourceRefView,
};
use crate::text::{id_label, Id, Text};
use crate::wire;

verus! {

/// One issue if `condition` holds, none otherwise.
pub open spec fn when(condition: bool, issue: IssueView) -> Seq<IssueView> {
    if condition {
        seq![issue]
    } else {
        Seq::empty()
    }
}

/// The path of the root.
pub open spec fn metadata_path(name: Seq<char>) -> Seq<char> {
    "Metadata("@ + name + ")"@
}

/// The path of a resource of the distribution.
pub open spec fn resource_path(root: Seq<char>, resource: ResourceView) -> Seq<char> {
    root + " > "@ + resource.label() + "("@ + id_label(resource.id()) + ")"@
}

/// The path of a record set.
pub open spec fn record_set_path(root: Seq<char>, kind: CrType) -> Seq<char> {
    root + " > RecordSet("@ + kind.label() + ")"@
}

/// The path of a field below `parent`.
pub open spec fn field_path(parent: Seq<char>, name: Seq<char>) -> Seq<char> {
    parent + " > Field("@ + name + ")"@
}

/// A text that is absent or empty.
pub open spec fn is_missing(text: Option<Seq<char>>) -> bool {
    match text {
        Some(s) => s.len() == 0,
        None => true,
    }
}

/// First pass: the name is mandatory and the root must be a dataset; the
/// conformance statement and the description are recommended.
pub open spec fn basic_issues(m: MetadataView) -> Seq<IssueView> {
    let at = metadata_path(m.name);
    when(m.name.len() == 0, error_at("name must not be empty"@, at)) + when(
        m.kind != CroissantType::Dataset,
        error_at("type must be sc:Dataset"@, at),
    ) + when(m.conforms_to.len() == 0, warning_at("conformsTo is recommended"@, at)) + when(
        m.description.len() == 0,
        warning_at("description is recommended"@, at),
    )
}

/// What is wrong with the digest of a file object.
pub open spec fn digest_issues(digest: Option<Seq<char>>, at: Seq<char>) -> Seq<IssueView> {
    match digest {
        None => seq![warning_at("sha256 is recommended"@, at)],
        Some(d) => when(
            !is_sha256_text(d),
            error_at("sha256 must be 64 hexadecimal characters"@, at),
        ),
    }
}

/// A file object needs a content locator and an encoding format, and should
/// have a digest, which must then be well formed.
pub open spec fn file_object_issues(o: FileObjectView, at: Seq<char>) -> Seq<IssueView> {
    when(is_missing(o.content_url), error_at("contentUrl is required"@, at)) + when(
        o.encoding_format.len() == 0,
        error_at("encodingFormat is required"@, at),
    ) + digest_issues(o.sha256, at)
}

/// A file set needs an encoding format.
pub open spec fn file_set_issues(s: FileSetView, at: Seq<char>) -> Seq<IssueView> {
    when(s.encoding_format.len() == 0, error_at("encodingFormat is required"@, at))
}

/// What is wrong with one resource.
pub open spec fn resource_issues(resource: ResourceView, root: Seq<char>) -> Seq<IssueView> {
    let at = resource_path(root, resource);
    match resource {
        ResourceView::FileObject(o) => file_object_issues(o, at),
        ResourceView::FileSet(s) => file_set_issues(s, at),
    }
}

/// Second pass: the resources, in the order of the distribution.
pub open spec fn distribution_issues(resources: Seq<ResourceView>, root: Seq<char>) -> Seq<
    IssueView,
>
    decreases resources.len(),
{
    if resources.len() == 0 {
        Seq::empty()
    } else {
        distribution_issues(resources.drop_last(), root) + resource_issues(resources.last(), root)
    }
}

/// Adds the issue to `out` if `condition` holds.
fn note(out: &mut Issues, condition: bool, severity: Severity, message: &str, at: &str)
    ensures
        final(out)@ == old(out)@ + when(
            condition,
            IssueView { severity, message: message@, context: Some(at@) },
        ),
{
    if condition {
        out.add(
            Issue {
                severity,
                message: String::from_str(message),
                context: Some(String::from_str(at)),
            },
        );
    }
}

fn metadata_path_of(name: &Text) -> (r: String)
    ensures
        r@ == metadata_path(name@),
{
    String::from_str("Metadata(").concat(name.as_str()).concat(")")
}

fn resource_path_of(root: &str, resource: &Resource) -> (r: String)
    ensures
        r@ == resource_path(root@, resource@),
{
    String::from_str(root).concat(" > ").concat(resource.to_string().as_str()).concat("(").concat(
        resource.id().to_string().as_str(),
    ).concat(")")
}

fn check_basic(m: &Metadata, out: &mut Issues)
    ensures
        final(out)@ == old(out)@ + basic_issues(m@),
{
    let at = metadata_path_of(&m.name);
    note(out, m.name.is_empty(), Severity::Error, "name must not be empty", at.as_str());
    let other_kind = match m.kind {
        CroissantType::Dataset => false,
    };
    note(out, other_kind, Severity::Error, "type must be sc:Dataset", at.as_str());
    note(
        out,
        m.conforms_to.is_empty(),
        Severity::Warning,
        "conformsTo is recommended",
        at.as_str(),
    );
    note(
        out,
        m.description.is_empty(),
        Severity::Warning,
        "description is recommended",
        at.as_str(),
    );
}

fn check_file_object(o: &FileObject, at: &str, out: &mut Issues)
    ensures
        final(out)@ == old(out)@ + file_object_issues(o@, at@),
{
    let no_url = match &o.content_url {
        Some(url) => url.is_empty(),
        None => true,
    };
    note(out, no_url, Severity::Error, "contentUrl is required", at);
    note(out, o.encoding_format.is_empty(), Severity::Error, "encodingFormat is required", at);
    match &o.sha256 {
        None => {
            note(out, true, Severity::Warning, "sha256 is recommended", at);
        },
        Some(digest) => {
            let bad = !is_valid_sha256(digest.as_str());
            note(out, bad, Severity::Error, "sha256 must be 64 hexadecimal characters", at);
        },
    }
}

fn check_file_set(s: &FileSet, at: &str, out: &mut Issues)
    ensures
        final(out)@ == old(out)@ + file_set_issues(s@, at@),
{
    note(out, s.encoding_format.is_empty(), Severity::Error, "encodingFormat is required", at);
}

fn check_distribution(distribution: &Vec<Distribution>, root: &str, out: &mut Issues)
    ensures
        final(out)@ == old(out)@ + distribution_issues(distribution.deep_view(), root@),
{
    let ghost start = out@;
    let ghost all = distribution.deep_view();
    let mut i: usize = 0;
    while i < distribution.len()
        invariant
            0 <= i <= distribution@.len(),
            all == distribution.deep_view(),
            out@ == start + distribution_issues(all.take(i as int), root@),
        decreases distribution@.len() - i,
    {
        let resource = &distribution[i].resource;
        let at = resource_path_of(root, resource);
        match resource {
            Resource::FileObject(o) => check_file_object(o, at.as_str(), out),
            Resource::FileSet(s) => check_file_set(s, at.as_str(), out),
        }
        proof {
            let done = all.take(i as int);
            let next = all.take(i + 1);
            assert(next.drop_last() =~= done);
        }
        i += 1;
    }
    assert(all.take(all.len() as int) =~= all);
}

/// A field together with its path in the tree.
pub struct LocatedField {
    pub path: Seq<char>,
    pub field: FieldView,
}

/// A field and, after it, the fields below it, each before its siblings.
pub open spec fn located(field: FieldView, parent: Seq<char>) -> Seq<LocatedField>
    decreases field,
{
    let path = field_path(parent, field.name);
    seq![LocatedField { path, field }] + match field.sub_fields {
        Some(subs) => located_all(subs, path),
        None => Seq::empty(),
    }
}

/// The fields of a list and all fields below them, in document order.
pub open spec fn located_all(fields: Seq<FieldView>, parent: Seq<char>) -> Seq<LocatedField>
    decreases fields,
{
    if fields.len() == 0 {
        Seq::empty()
    } else {
        located_all(fields.drop_last(), parent) + located(fields.last(), parent)
    }
}

/// An error if an entity carries another type tag than the one it must have.
pub open spec fn kind_issues(expected: CrType, found: CrType, at: Seq<char>) -> Seq<IssueView> {
    when(
        found != expected,
        error_at("expected type "@ + expected.label() + ", found "@ + found.label(), at),
    )
}

/// Whether the source extracts a column whose name is empty.
pub open spec fn has_empty_column(source: FieldSourceView) -> bool {
    source.extract matches Some(ExtractView::Column { name }) && name.len() == 0
}

/// A source must name a resource, and a column it extracts must have a
/// name.
pub open spec fn source_issues(source: FieldSourceView, at: Seq<char>) -> Seq<IssueView> {
    when(source.source.target().len() == 0, error_at("source names no resource"@, at)) + when(
        has_empty_column(source),
        error_at("source names an empty column"@, at),
    )
}

/// What the third pass finds at one field.
pub open spec fn field_structure_issues(l: LocatedField) -> Seq<IssueView> {
    kind_issues(CrType::Field, l.field.kind, l.path) + source_issues(l.field.source, l.path)
}

/// What the third pass finds at the given fields.
pub open spec fn fields_structure_issues(fields: Seq<LocatedField>) -> Seq<IssueView>
    decreases fields.len(),
{
    if fields.len() == 0 {
        Seq::empty()
    } else {
        fields_structure_issues(fields.drop_last()) + field_structure_issues(fields.last())
    }
}

/// What the third pass finds at one record set and below it.
pub open spec fn record_set_structure_issues(rs: RecordSetView, root: Seq<char>) -> Seq<
    IssueView,
> {
    let at = record_set_path(root, rs.kind);
    kind_issues(CrType::RecordSet, rs.kind, at) + fields_structure_issues(
        located_all(rs.fields, at),
    )
}

/// What the third pass finds at the record sets, in their order.
pub open spec fn structure_issues(record_sets: Seq<RecordSetView>, root: Seq<char>) -> Seq<
    IssueView,
>
    decreases record_sets.len(),
{
    if record_sets.len() == 0 {
        Seq::empty()
    } else {
        structure_issues(record_sets.drop_last(), root) + record_set_structure_issues(
            record_sets.last(),
            root,
        )
    }
}

/// Third pass: there must be a record set, and the type tags and sources
/// of record sets and fields must fit.
pub open spec fn record_sets_issues(record_sets: Seq<RecordSetView>, root: Seq<char>) -> Seq<
    IssueView,
> {
    when(record_sets.len() == 0, error_at("recordSet must not be empty"@, root))
        + structure_issues(record_sets, root)
}

/// What references are checked against: the identifiers of the
/// distribution and of the record sets, and the path of the root.
///
/// The identifiers are kept as lists, in document order, and a lookup goes
/// through them from the front. What a lookup answers is then proved from
/// the list itself; of a hashed set keyed by text nothing could be proved.
#[derive(Debug, PartialEq)]
pub struct MetadataContext {
    pub root: String,
    pub distribution_ids: Vec<Id>,
    pub record_set_ids: Vec<Id>,
}

/// The view of a [`MetadataContext`].
pub struct MetadataContextView {
    pub root: Seq<char>,
    pub distribution_ids: Seq<Seq<char>>,
    pub record_set_ids: Seq<Seq<char>>,
}

impl View for MetadataContext {
    type V = MetadataContextView;

    open spec fn view(&self) -> MetadataContextView {
        MetadataContextView {
            root: self.root@,
            distribution_ids: self.distribution_ids.deep_view(),
            record_set_ids: self.record_set_ids.deep_view(),
        }
    }
}

impl Clone for MetadataContext {
    fn clone(&self) -> (r: MetadataContext)
        ensures
            r@ == self@,
    {
        let r = MetadataContext {
            root: self.root.clone(),
            distribution_ids: self.distribution_ids.clone(),
            record_set_ids: self.record_set_ids.clone(),
        };
        r
    }
}

impl Default for MetadataContext {
    fn default() -> (r: MetadataContext)
        ensures
            r@ == (MetadataContextView {
                root: Seq::empty(),
                distribution_ids: Seq::empty(),
                record_set_ids: Seq::empty(),
            }),
    {
        let r = MetadataContext {
            root: String::new(),
            distribution_ids: Vec::new(),
            record_set_ids: Vec::new(),
        };
        assert(r@.distribution_ids =~= Seq::<Seq<char>>::empty());
        r
    }
}

/// The lookup context of a tree.
pub open spec fn context_of(m: MetadataView) -> MetadataContextView {
    MetadataContextView {
        root: metadata_path(m.name),
        distribution_ids: Seq::new(m.distribution.len(), |i: int| m.distribution[i].id()),
        record_set_ids: Seq::new(m.record_sets.len(), |i: int| m.record_sets[i].id),
    }
}

/// Whether a reference finds its target: a resource of the distribution
/// or, for a reference to a record set, a record set of the dataset.
pub open spec fn resolves(source: SourceRefView, ctx: MetadataContextView) -> bool {
    ||| ctx.distribution_ids.contains(source.target())
    ||| (source is RecordSet && ctx.record_set_ids.contains(source.target()))
}

/// The error for a reference that finds no target.
pub open spec fn unresolved(target: Seq<char>, at: Seq<char>) -> IssueView {
    error_at("unresolved reference "@ + id_label(target), at)
}

/// What the fourth pass finds at one field: an error if its source names a
/// target that does not exist. An empty target is left to the third pass.
pub open spec fn field_reference_issues(l: LocatedField, ctx: MetadataContextView) -> Seq<
    IssueView,
> {
    let source = l.field.source.source;
    when(
        source.target().len() > 0 && !resolves(source, ctx),
        unresolved(source.target(), l.path),
    )
}

/// What the fourth pass finds at the given fields.
pub open spec fn fields_reference_issues(
    fields: Seq<LocatedField>,
    ctx: MetadataContextView,
) -> Seq<IssueView>
    decreases fields.len(),
{
    if fields.len() == 0 {
        Seq::empty()
    } else {
        fields_reference_issues(fields.drop_last(), ctx) + field_reference_issues(
            fields.last(),
            ctx,
        )
    }
}

/// What the fourth pass finds in one record set.
pub open spec fn record_set_reference_issues(rs: RecordSetView, ctx: MetadataContextView) -> Seq<
    IssueView,
> {
    fields_reference_issues(located_all(rs.fields, record_set_path(ctx.root, rs.kind)), ctx)
}

/// Fourth pass: the references of all fields, record set by record set.
pub open spec fn reference_issues(
    record_sets: Seq<RecordSetView>,
    ctx: MetadataContextView,
) -> Seq<IssueView>
    decreases record_sets.len(),
{
    if record_sets.len() == 0 {
        Seq::empty()
    } else {
        reference_issues(record_sets.drop_last(), ctx) + record_set_reference_issues(
            record_sets.last(),
            ctx,
        )
    }
}

/// Everything that is wrong with a tree: the four passes, one after the
/// other.
pub open spec fn issues_of(m: MetadataView) -> Seq<IssueView> {
    basic_issues(m) + distribution_issues(m.distribution, metadata_path(m.name))
        + record_sets_issues(m.record_sets, metadata_path(m.name)) + reference_issues(
        m.record_sets,
        context_of(m),
    )
}

/// A field of the tree together with its path.
pub struct Located<'a> {
    pub path: String,
    pub field: &'a Field,
}

impl<'a> View for Located<'a> {
    type V = LocatedField;

    open spec fn view(&self) -> LocatedField {
        LocatedField { path: self.path@, field: self.field@ }
    }
}

impl<'a> DeepView for Located<'a> {
    type V = LocatedField;

    open spec fn deep_view(&self) -> LocatedField {
        self@
    }
}

fn field_path_of(parent: &str, name: &Text) -> (r: String)
    ensures
        r@ == field_path(parent@, name@),
{
    String::from_str(parent).concat(" > Field(").concat(name.as_str()).concat(")")
}

fn record_set_path_of(root: &str, kind: CrType) -> (r: String)
    ensures
        r@ == record_set_path(root@, kind),
{
    String::from_str(root).concat(" > RecordSet(").concat(kind.to_string().as_str()).concat(")")
}

/// Appends to `out` the field and every field below it.
fn locate<'a>(field: &'a Field, parent: &str, out: &mut Vec<Located<'a>>)
    ensures
        final(out).deep_view() == old(out).deep_view() + located(field@, parent@),
    decreases field,
{
    let path = field_path_of(parent, &field.name);
    match &field.sub_fields {
        Some(subs) => {
            let below = String::from_str(path.as_str());
            out.push(Located { path, field });
            locate_all(subs, below.as_str(), out);
            proof {
                assert(field@.sub_fields == Some(subs.deep_view())) by {
                }
            }
        },
        None => {
            out.push(Located { path, field });
        },
    }
}

/// Appends to `out` the fields of a list and every field below them.
fn locate_all<'a>(fields: &'a Vec<Field>, parent: &str, out: &mut Vec<Located<'a>>)
    ensures
        final(out).deep_view() == old(out).deep_view() + located_all(
            fields.deep_view(),
            parent@,
        ),
    decreases fields,
{
    let ghost start = out.deep_view();
    let ghost all = fields.deep_view();
    let mut i: usize = 0;
    while i < fields.len()
        invariant
            0 <= i <= fields@.len(),
            all == fields.deep_view(),
            out.deep_view() == start + located_all(all.take(i as int), parent@),
        decreases fields@.len() - i,
    {
        locate(&fields[i], parent, out);
        proof {
            let done = all.take(i as int);
            let next = all.take(i + 1);
            assert(next.drop_last() =~= done);
        }
        i += 1;
    }
    assert(all.take(all.len() as int) =~= all);
}

fn check_kind(expected: CrType, found: CrType, at: &str, out: &mut Issues)
    ensures
        final(out)@ == old(out)@ + kind_issues(expected, found, at@),
{
    if found != expected {
        let message = String::from_str("expected type ").concat(
            expected.to_string().as_str(),
        ).concat(", found ").concat(found.to_string().as_str());
        out.add_error(message, String::from_str(at));
    }
}

fn check_source(source: &FieldSource, at: &str, out: &mut Issues)
    ensures
        final(out)@ == old(out)@ + source_issues(source@, at@),
{
    note(out, source.source.target().is_empty(), Severity::Error, "source names no resource", at);
    let empty_column = match &source.extract {
        Some(Extract::Column { name }) => name.is_empty(),
        _ => false,
    };
    note(out, empty_column, Severity::Error, "source names an empty column", at);
}

fn check_fields_structure(fields: &Vec<Located<'_>>, out: &mut Issues)
    ensures
        final(out)@ == old(out)@ + fields_structure_issues(fields.deep_view()),
{
    let ghost start = out@;
    let ghost all = fields.deep_view();
    let mut i: usize = 0;
    while i < fields.len()
        invariant
            0 <= i <= fields@.len(),
            all == fields.deep_view(),
            out@ == start + fields_structure_issues(all.take(i as int)),
        decreases fields@.len() - i,
    {
        let l = &fields[i];
        check_kind(CrType::Field, l.field.kind, l.path.as_str(), out);
        check_source(&l.field.source, l.path.as_str(), out);
        proof {
            let done = all.take(i as int);
            let next = all.take(i + 1);
            assert(next.drop_last() =~= done);
        }
        i += 1;
    }
    assert(all.take(all.len() as int) =~= all);
}

fn check_structure(record_sets: &Vec<RecordSet>, root: &str, out: &mut Issues)
    ensures
        final(out)@ == old(out)@ + structure_issues(record_sets.deep_view(), root@),
{
    let ghost start = out@;
    let ghost all = record_sets.deep_view();
    let mut i: usize = 0;
    while i < record_sets.len()
        invariant
            0 <= i <= record_sets@.len(),
            all == record_sets.deep_view(),
            out@ == start + structure_issues(all.take(i as int), root@),
        decreases record_sets@.len() - i,
    {
        let rs = &record_sets[i];
        let at = record_set_path_of(root, rs.kind);
        check_kind(CrType::RecordSet, rs.kind, at.as_str(), out);
        let mut fields: Vec<Located<'_>> = Vec::new();
        locate_all(&rs.fields, at.as_str(), &mut fields);
        check_fields_structure(&fields, out);
        proof {
            let done = all.take(i as int);
            let next = all.take(i + 1);
            assert(next.drop_last() =~= done);
        }
        i += 1;
    }
    assert(all.take(all.len() as int) =~= all);
}

/// Runs the third pass: there must be a record set, and the type tags and
/// sources of record sets and fields must fit.
fn check_record_sets(record_sets: &Vec<RecordSet>, root: &str, out: &mut Issues)
    ensures
        final(out)@ == old(out)@ + record_sets_issues(record_sets.deep_view(), root@),
{
    note(out, record_sets.len() == 0, Severity::Error, "recordSet must not be empty", root);
    check_structure(record_sets, root, out);
}

/// Whether `id` stands in `ids`.
fn contains_id(ids: &Vec<Id>, id: &Id) -> (r: bool)
    ensures
        r == ids.deep_view().contains(id@),
{
    let mut i: usize = 0;
    while i < ids.len()
        invariant
            0 <= i <= ids@.len(),
            forall|j: int| 0 <= j < i ==> ids.deep_view()[j] != id@,
        decreases ids@.len() - i,
    {
        if ids[i].0 == id.0 {
            assert(ids.deep_view()[i as int] == id@);
            return true;
        }
        i += 1;
    }
    false
}

fn check_field_reference(l: &Located<'_>, ctx: &MetadataContext, out: &mut Issues)
    ensures
        final(out)@ == old(out)@ + field_reference_issues(l@, ctx@),
{
    let source = &l.field.source.source;
    let target = source.target();
    let found = contains_id(&ctx.distribution_ids, target) || (match source {
        SourceRef::RecordSet { .. } => contains_id(&ctx.record_set_ids, target),
        _ => false,
    });
    if !target.is_empty() && !found {
        let message = String::from_str("unresolved reference ").concat(
            target.to_string().as_str(),
        );
        out.add_error(message, String::from_str(l.path.as_str()));
    }
}

fn check_fields_references(fields: &Vec<Located<'_>>, ctx: &MetadataContext, out: &mut Issues)
    ensures
        final(out)@ == old(out)@ + fields_reference_issues(fields.deep_view(), ctx@),
{
    let ghost start = out@;
    let ghost all = fields.deep_view();
    let mut i: usize = 0;
    while i < fields.len()
        invariant
            0 <= i <= fields@.len(),
            all == fields.deep_view(),
            out@ == start + fields_reference_issues(all.take(i as int), ctx@),
        decreases fields@.len() - i,
    {
        let l = &fields[i];
        check_field_reference(l, ctx, out);
        proof {
            let done = all.take(i as int);
            let next = all.take(i + 1);
            assert(next.drop_last() =~= done);
        }
        i += 1;
    }
    assert(all.take(all.len() as int) =~= all);
}

/// Checks the references of the fields of one record set, sub-fields
/// included, against the identifiers in `ctx`. Returns one error for each
/// reference that names a target which `ctx` does not hold, in document
/// order.
pub fn validate_record_set_references(record_set: &RecordSet, ctx: &MetadataContext) -> (r: Issues)
    ensures
        r@ == record_set_reference_issues(record_set@, ctx@),
{
    let at = record_set_path_of(ctx.root.as_str(), record_set.kind);
    let mut fields: Vec<Located<'_>> = Vec::new();
    locate_all(&record_set.fields, at.as_str(), &mut fields);
    let mut out = Issues::new();
    check_fields_references(&fields, ctx, &mut out);
    out
}

fn check_references(record_sets: &Vec<RecordSet>, ctx: &MetadataContext, out: &mut Issues)
    ensures
        final(out)@ == old(out)@ + reference_issues(record_sets.deep_view(), ctx@),
{
    let ghost start = out@;
    let ghost all = record_sets.deep_view();
    let mut i: usize = 0;
    while i < record_sets.len()
        invariant
            0 <= i <= record_sets@.len(),
            all == record_sets.deep_view(),
            out@ == start + reference_issues(all.take(i as int), ctx@),
        decreases record_sets@.len() - i,
    {
        let rs = &record_sets[i];
        let mut found = validate_record_set_references(rs, ctx);
        let ghost before = out@;
        let ghost added = found@;
        out.items.append(&mut found.items);
        proof {
            let done = all.take(i as int);
            let next = all.take(i + 1);
            assert(next.drop_last() =~= done);
            assert(out@ =~= before + added);
        }
        i += 1;
    }
    assert(all.take(all.len() as int) =~= all);
}

impl MetadataContext {
    /// The lookup context of a tree: the identifiers of its resources and
    /// of its record sets, each list in document order.
    pub fn of(m: &Metadata) -> (r: MetadataContext)
        ensures
            r@ == context_of(m@),
    {
        let mut distribution_ids: Vec<Id> = Vec::new();
        let mut i: usize = 0;
        while i < m.distribution.len()
            invariant
                0 <= i <= m.distribution@.len(),
                distribution_ids@.len() == i,
                forall|j: int|
                    0 <= j < i ==> (#[trigger] distribution_ids@[j])@ == m.distribution@[j]@.id(),
            decreases m.distribution@.len() - i,
        {
            distribution_ids.push(m.distribution[i].resource.id().clone());
            i += 1;
        }
        let mut record_set_ids: Vec<Id> = Vec::new();
        let mut k: usize = 0;
        while k < m.record_sets.len()
            invariant
                0 <= k <= m.record_sets@.len(),
                record_set_ids@.len() == k,
                forall|j: int|
                    0 <= j < k ==> (#[trigger] record_set_ids@[j])@ == m.record_sets@[j].id@,
            decreases m.record_sets@.len() - k,
        {
            record_set_ids.push(m.record_sets[k].id.clone());
            k += 1;
        }
        let root = metadata_path_of(&m.name);
        let r = MetadataContext { root, distribution_ids, record_set_ids };
        assert(r@.distribution_ids =~= context_of(m@).distribution_ids);
        assert(r@.record_set_ids =~= context_of(m@).record_set_ids);
        r
    }
}

/// Validates a tree: returns every issue, pass by pass and within each pass
/// in document order.
pub fn validate(m: &Metadata) -> (r: Issues)
    ensures
        r@ == issues_of(m@),
{
    let ctx = MetadataContext::of(m);
    let mut out = Issues::new();
    check_basic(m, &mut out);
    check_distribution(&m.distribution, ctx.root.as_str(), &mut out);
    check_record_sets(&m.record_sets, ctx.root.as_str(), &mut out);
    check_references(&m.record_sets, &ctx, &mut out);
    out
}

/// Reads a description out of a document and validates it. A document that
/// stands for no description is a decode error; what is wrong with a
/// description that could be read is returned as issues.
pub fn validate_document(j: &Json) -> (r: Result<Issues, Error>)
    ensures
        match wire::decode_metadata(j@) {
            Some(m) => r matches Ok(found) && found@ == issues_of(m),
            None => r matches Err(e) && e is Decode,
        },
{
    let m = Metadata::decode(j)?;
    Ok(validate(&m))
}

impl Metadata {
    /// Validates the tree and hands back every issue, warnings included:
    /// in `Ok` when no error was found, in `Err` when at least one was.
    pub fn check(&self) -> (r: Result<Issues, Issues>)
        ensures
            match r {
                Ok(found) => found@ == issues_of(self@) && select(found@, Severity::Error).len()
                    == 0,
                Err(found) => found@ == issues_of(self@) && select(found@, Severity::Error).len()
                    > 0,
            },
    {
        let found = validate(self);
        if found.has_errors() {
            Err(found)
        } else {
            Ok(found)
        }
    }
}

/// Validation depends on the value of the tree alone: two trees with the
/// same view have the same issues, in the same order.
pub proof fn lemma_validation_is_deterministic(a: Metadata, b: Metadata)
    requires
        a@ == b@,
    ensures
        issues_of(a@) == issues_of(b@),
{
}

/// A digest that is present and malformed is reported as an error at the
/// file object, after whatever else is wrong with it.
pub proof fn lemma_malformed_digest_is_an_error(o: FileObjectView, at: Seq<char>)
    requires
        o.sha256 matches Some(d) && !is_sha256_text(d),
    ensures
        file_object_issues(o, at).len() > 0,
        file_object_issues(o, at).last() == error_at(
            "sha256 must be 64 hexadecimal characters"@,
            at,
        ),
{
}

/// A digest that is present and well formed raises no issue.
pub proof fn lemma_well_formed_digest_is_accepted(digest: Seq<char>, at: Seq<char>)
    requires
        is_sha256_text(digest),
    ensures
        digest_issues(Some(digest), at) == Seq::<IssueView>::empty(),
{
}

/// What is wrong with a resource of the distribution is part of what the
/// second pass reports.
pub proof fn lemma_resource_issue_is_reported(
    resources: Seq<ResourceView>,
    root: Seq<char>,
    i: int,
    issue: IssueView,
)
    requires
        0 <= i < resources.len(),
        resource_issues(resources[i], root).contains(issue),
    ensures
        distribution_issues(resources, root).contains(issue),
    decreases resources.len(),
{
    let before = distribution_issues(resources.drop_last(), root);
    let last = resource_issues(resources.last(), root);
    if i == resources.len() - 1 {
        let k = choose|k: int| 0 <= k < last.len() && last[k] == issue;
        assert((before + last)[before.len() + k] == issue);
    } else {
        lemma_resource_issue_is_reported(resources.drop_last(), root, i, issue);
        let k = choose|k: int| 0 <= k < before.len() && before[k] == issue;
        assert((before + last)[k] == issue);
    }
}

/// A file object of the distribution whose digest is malformed makes the
/// validation of the tree report an error.
pub proof fn lemma_malformed_digest_fails_validation(m: MetadataView, i: int)
    requires
        0 <= i < m.distribution.len(),
        m.distribution[i] matches ResourceView::FileObject(o) && o.sha256 matches Some(d)
            && !is_sha256_text(d),
    ensures
        select(issues_of(m), Severity::Error).len() > 0,
{
    let root = metadata_path(m.name);
    let at = resource_path(root, m.distribution[i]);
    let o = m.distribution[i]->FileObject_0;
    let issue = error_at("sha256 must be 64 hexadecimal characters"@, at);
    lemma_malformed_digest_is_an_error(o, at);
    let found = resource_issues(m.distribution[i], root);
    lemma_resource_issue_is_reported(m.distribution, root, i, issue);
    let second = distribution_issues(m.distribution, root);
    let k = choose|k: int| 0 <= k < second.len() && second[k] == issue;
    let first = basic_issues(m);
    let all = issues_of(m);
    lemma_error_is_selected(all, first.len() + k);
}

/// A list that holds an error has a non-empty selection of errors.
pub proof fn lemma_error_is_selected(issues: Seq<IssueView>, k: int)
    requires
        0 <= k < issues.len(),
        issues[k].severity == Severity::Error,
    ensures
        select(issues, Severity::Error).len() > 0,
    decreases issues.len(),
{
    if k < issues.len() - 1 {
        lemma_error_is_selected(issues.drop_last(), k);
    }
}

/// A field whose source names a target that does not exist raises exactly
/// one issue in the fourth pass: an error that names the target.
pub proof fn lemma_dangling_reference(l: LocatedField, ctx: MetadataContextView)
    requires
        l.field.source.source.target().len() > 0,
        !resolves(l.field.source.source, ctx),
    ensures
        field_reference_issues(l, ctx) == seq![
            unresolved(l.field.source.source.target(), l.path),
        ],
{
}

/// A field whose source names a resource of the distribution raises no
/// issue in the fourth pass.
pub proof fn lemma_resolved_reference(l: LocatedField, ctx: MetadataContextView)
    requires
        ctx.distribution_ids.contains(l.field.source.source.target()),
    ensures
        field_reference_issues(l, ctx) == Seq::<IssueView>::empty(),
{
}

/// Whether the source of a field names nothing or finds its target.
pub open spec fn source_resolves(f: FieldView, ctx: MetadataContextView) -> bool {
    f.source.source.target().len() == 0 || resolves(f.source.source, ctx)
}

/// Whether the field and every field below it has a source that resolves.
pub open spec fn tree_resolves(f: FieldView, ctx: MetadataContextView) -> bool
    decreases f,
{
    &&& source_resolves(f, ctx)
    &&& match f.sub_fields {
        Some(subs) => forall|i: int| 0 <= i < subs.len() ==> tree_resolves(#[trigger] subs[i], ctx),
        None => true,
    }
}

/// Fields whose sources all resolve raise no issue in the fourth pass.
pub proof fn lemma_resolving_fields_raise_nothing(
    fields: Seq<LocatedField>,
    ctx: MetadataContextView,
)
    requires
        forall|i: int| 0 <= i < fields.len() ==> source_resolves((#[trigger] fields[i]).field, ctx),
    ensures
        fields_reference_issues(fields, ctx) == Seq::<IssueView>::empty(),
    decreases fields.len(),
{
    if fields.len() > 0 {
        lemma_resolving_fields_raise_nothing(fields.drop_last(), ctx);
    }
}

/// Every field located below a field whose tree resolves has a source that
/// resolves.
pub proof fn lemma_located_resolve(f: FieldView, parent: Seq<char>, ctx: MetadataContextView)
    requires
        tree_resolves(f, ctx),
    ensures
        forall|i: int|
            0 <= i < located(f, parent).len() ==> source_resolves(
                (#[trigger] located(f, parent)[i]).field,
                ctx,
            ),
    decreases f, 0int,
{
    let path = field_path(parent, f.name);
    match f.sub_fields {
        Some(subs) => {
            lemma_located_all_resolve(subs, path, ctx);
        },
        None => {},
    }
}

/// The same, for the fields located below a list of fields.
pub proof fn lemma_located_all_resolve(
    fields: Seq<FieldView>,
    parent: Seq<char>,
    ctx: MetadataContextView,
)
    requires
        forall|i: int| 0 <= i < fields.len() ==> tree_resolves(#[trigger] fields[i], ctx),
    ensures
        forall|i: int|
            0 <= i < located_all(fields, parent).len() ==> source_resolves(
                (#[trigger] located_all(fields, parent)[i]).field,
                ctx,
            ),
    decreases fields, 1int,
{
    if fields.len() > 0 {
        lemma_located_all_resolve(fields.drop_last(), parent, ctx);
        lemma_located_resolve(fields.last(), parent, ctx);
    }
}

/// Referential integrity: a tree in which every source finds its target has
/// no issue of the fourth pass.
pub proof fn lemma_resolving_tree_raises_nothing(
    record_sets: Seq<RecordSetView>,
    ctx: MetadataContextView,
)
    requires
        forall|i: int, k: int|
            0 <= i < record_sets.len() && 0 <= k < record_sets[i].fields.len() ==> tree_resolves(
                #[trigger] record_sets[i].fields[k],
                ctx,
            ),
    ensures
        reference_issues(record_sets, ctx) == Seq::<IssueView>::empty(),
    decreases record_sets.len(),
{
    if record_sets.len() > 0 {
        lemma_resolving_tree_raises_nothing(record_sets.drop_last(), ctx);
        let rs = record_sets.last();
        let at = record_set_path(ctx.root, rs.kind);
        lemma_located_all_resolve(rs.fields, at, ctx);
        lemma_resolving_fields_raise_nothing(located_all(rs.fields, at), ctx);
    }
}

/// Whether a field carries the type tag of a field, and its source names a
/// resource and, where it extracts a column, the column.
pub open spec fn field_fits(f: FieldView) -> bool {
    &&& f.kind == CrType::Field
    &&& f.source.source.target().len() > 0
    &&& !has_empty_column(f.source)
}

/// Whether the field and every field below it fits.
pub open spec fn tree_fits(f: FieldView) -> bool
    decreases f,
{
    &&& field_fits(f)
    &&& match f.sub_fields {
        Some(subs) => forall|i: int| 0 <= i < subs.len() ==> tree_fits(#[trigger] subs[i]),
        None => true,
    }
}

/// Fields that fit raise no issue in the third pass.
pub proof fn lemma_fitting_fields_raise_nothing(fields: Seq<LocatedField>)
    requires
        forall|i: int| 0 <= i < fields.len() ==> field_fits((#[trigger] fields[i]).field),
    ensures
        fields_structure_issues(fields) == Seq::<IssueView>::empty(),
    decreases fields.len(),
{
    if fields.len() > 0 {
        lemma_fitting_fields_raise_nothing(fields.drop_last());
    }
}

/// Every field located below a field whose tree fits does fit.
pub proof fn lemma_located_fit(f: FieldView, parent: Seq<char>)
    requires
        tree_fits(f),
    ensures
        forall|i: int|
            0 <= i < located(f, parent).len() ==> field_fits(
                (#[trigger] located(f, parent)[i]).field,
            ),
    decreases f, 0int,
{
    let path = field_path(parent, f.name);
    match f.sub_fields {
        Some(subs) => {
            lemma_located_all_fit(subs, path);
        },
        None => {},
    }
}

/// The same, for the fields located below a list of fields.
pub proof fn lemma_located_all_fit(fields: Seq<FieldView>, parent: Seq<char>)
    requires
        forall|i: int| 0 <= i < fields.len() ==> tree_fits(#[trigger] fields[i]),
    ensures
        forall|i: int|
            0 <= i < located_all(fields, parent).len() ==> field_fits(
                (#[trigger] located_all(fields, parent)[i]).field,
            ),
    decreases fields, 1int,
{
    if fields.len() > 0 {
        lemma_located_all_fit(fields.drop_last(), parent);
        lemma_located_fit(fields.last(), parent);
    }
}

/// Record sets that carry the type tag of a record set, with fields that
/// fit, raise no issue in the third pass, provided there is one at least.
pub proof fn lemma_fitting_tree_raises_nothing(record_sets: Seq<RecordSetView>, root: Seq<char>)
    requires
        forall|i: int|
            0 <= i < record_sets.len() ==> (#[trigger] record_sets[i]).kind == CrType::RecordSet,
        forall|i: int, k: int|
            0 <= i < record_sets.len() && 0 <= k < record_sets[i].fields.len() ==> tree_fits(
                #[trigger] record_sets[i].fields[k],
            ),
    ensures
        structure_issues(record_sets, root) == Seq::<IssueView>::empty(),
        record_sets.len() > 0 ==> record_sets_issues(record_sets, root) == Seq::<
            IssueView,
        >::empty(),
    decreases record_sets.len(),
{
    if record_sets.len() > 0 {
        lemma_fitting_tree_raises_nothing(record_sets.drop_last(), root);
        let rs = record_sets.last();
        let at = record_set_path(root, rs.kind);
        lemma_located_all_fit(rs.fields, at);
        lemma_fitting_fields_raise_nothing(located_all(rs.fields, at));
    }
}

} // verus!
