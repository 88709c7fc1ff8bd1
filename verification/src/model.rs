//! The entities of a dataset description and their mathematical views.
//!
//! Every entity `E` has a view `EView` in which strings are `Seq<char>` and
//! lists are `Seq`. Contracts across the crate speak of these views.
//!
//! Every field has a source, and every dataset has a list of record sets;
//! the validator reports a list that is empty. A file object's content
//! locator is optional in the tree; the validator reports its absence.
//!
//! The types hold any value. Which trees are well formed, and so can be
//! written and read back, is said by the `*_wf` predicates of
//! [`crate::wire`]; what else is wrong with a tree is found by
//! [`crate::validate`].

use vstd::prelude::*;
use vstd::string::*;
use crate::text::{id_label, Id, Text};

verus! {

/// The type tag of the root entity.
#[derive(Debug, Clone, Copy, PartialEq, Eq, Structural)]
pub enum CroissantType {
    Dataset,
}

impl DeepView for CroissantType {
    type V = CroissantType;

    open spec fn deep_view(&self) -> CroissantType {
        *self
    }
}

/// The type tag carried by record sets, fields and resources.
#[derive(Debug, Clone, Copy, PartialEq, Eq, Structural)]
pub enum CrType {
    RecordSet,
    Field,
    FileObject,
    FileSet,
}

impl DeepView for CrType {
    type V = CrType;

    open spec fn deep_view(&self) -> CrType {
        *self
    }
}

impl CrType {
    /// The compact identifier of the type.
    pub open spec fn label(self) -> Seq<char> {
        match self {
            CrType::RecordSet => "cr:RecordSet"@,
            CrType::Field => "cr:Field"@,
            CrType::FileObject => "cr:FileObject"@,
            CrType::FileSet => "cr:FileSet"@,
        }
    }

    /// The form used in diagnostics.
    pub fn to_string(&self) -> (r: String)
        ensures
            r@ == self.label(),
    {
        match self {
            CrType::RecordSet => String::from_str("cr:RecordSet"),
            CrType::Field => String::from_str("cr:Field"),
            CrType::FileObject => String::from_str("cr:FileObject"),
            CrType::FileSet => String::from_str("cr:FileSet"),
        }
    }
}

/// How the four numbers of a bounding box are laid out.
#[derive(Debug, Clone, Copy, PartialEq, Eq, Structural)]
pub enum BoundingBoxFormat {
    CenterXywh,
    Xywh,
    Xyxy,
}

impl DeepView for BoundingBoxFormat {
    type V = BoundingBoxFormat;

    open spec fn deep_view(&self) -> BoundingBoxFormat {
        *self
    }
}

impl BoundingBoxFormat {
    /// The usual name of the layout.
    pub open spec fn label(self) -> Seq<char> {
        match self {
            BoundingBoxFormat::CenterXywh => "CenterXYWH"@,
            BoundingBoxFormat::Xywh => "XYWH"@,
            BoundingBoxFormat::Xyxy => "XYXY"@,
        }
    }

    /// The form used in diagnostics.
    pub fn to_string(&self) -> (r: String)
        ensures
            r@ == self.label(),
    {
        match self {
            BoundingBoxFormat::CenterXywh => String::from_str("CenterXYWH"),
            BoundingBoxFormat::Xywh => String::from_str("XYWH"),
            BoundingBoxFormat::Xyxy => String::from_str("XYXY"),
        }
    }
}

/// A property of a file that a field can be drawn from.
#[derive(Debug, Clone, Copy, PartialEq, Eq, Structural)]
pub enum FileProperty {
    FullPath,
    FileName,
    Content,
    Lines,
    LineNumbers,
}

impl DeepView for FileProperty {
    type V = FileProperty;

    open spec fn deep_view(&self) -> FileProperty {
        *self
    }
}

/// The semantic type of a field's values.
#[derive(Debug, PartialEq)]
pub enum DataType {
    Enumeration,
    Boolean,
    Integer,
    Float,
    Text,
    Date,
    DateTime,
    Url,
    ImageObject,
    BoundingBox(BoundingBoxFormat),
    Split,
    Label,
    /// Any other type, kept as the identifier it was written with.
    CustomIri(Text),
}

/// The view of a [`DataType`].
pub enum DataTypeView {
    Enumeration,
    Boolean,
    Integer,
    Float,
    Text,
    Date,
    DateTime,
    Url,
    ImageObject,
    BoundingBox(BoundingBoxFormat),
    Split,
    Label,
    CustomIri(Seq<char>),
}

impl View for DataType {
    type V = DataTypeView;

    open spec fn view(&self) -> DataTypeView {
        match self {
            DataType::Enumeration => DataTypeView::Enumeration,
            DataType::Boolean => DataTypeView::Boolean,
            DataType::Integer => DataTypeView::Integer,
            DataType::Float => DataTypeView::Float,
            DataType::Text => DataTypeView::Text,
            DataType::Date => DataTypeView::Date,
            DataType::DateTime => DataTypeView::DateTime,
            DataType::Url => DataTypeView::Url,
            DataType::ImageObject => DataTypeView::ImageObject,
            DataType::BoundingBox(format) => DataTypeView::BoundingBox(*format),
            DataType::Split => DataTypeView::Split,
            DataType::Label => DataTypeView::Label,
            DataType::CustomIri(text) => DataTypeView::CustomIri(text@),
        }
    }
}

impl DeepView for DataType {
    type V = DataTypeView;

    open spec fn deep_view(&self) -> DataTypeView {
        self@
    }
}

impl Clone for DataType {
    fn clone(&self) -> (r: DataType)
        ensures
            r@ == self@,
    {
        match self {
            DataType::Enumeration => DataType::Enumeration,
            DataType::Boolean => DataType::Boolean,
            DataType::Integer => DataType::Integer,
            DataType::Float => DataType::Float,
            DataType::Text => DataType::Text,
            DataType::Date => DataType::Date,
            DataType::DateTime => DataType::DateTime,
            DataType::Url => DataType::Url,
            DataType::ImageObject => DataType::ImageObject,
            DataType::BoundingBox(format) => DataType::BoundingBox(*format),
            DataType::Split => DataType::Split,
            DataType::Label => DataType::Label,
            DataType::CustomIri(text) => DataType::CustomIri(text.clone()),
        }
    }
}

impl DataTypeView {
    /// The form used in diagnostics: a compact identifier for the named
    /// types, the layout's name for a bounding box, and `id:` with the
    /// identifier for any other type.
    pub open spec fn label(self) -> Seq<char> {
        match self {
            DataTypeView::Enumeration => "sc:Enumeration"@,
            DataTypeView::Boolean => "sc:Boolean"@,
            DataTypeView::Integer => "sc:Integer"@,
            DataTypeView::Float => "sc:Float"@,
            DataTypeView::Text => "sc:Text"@,
            DataTypeView::Date => "sc:Date"@,
            DataTypeView::DateTime => "sc:Datetime"@,
            DataTypeView::Url => "sc:Url"@,
            DataTypeView::ImageObject => "sc:ImageObject"@,
            DataTypeView::BoundingBox(format) => format.label(),
            DataTypeView::Split => "cr:Split"@,
            DataTypeView::Label => "cr:Label"@,
            DataTypeView::CustomIri(text) => id_label(text),
        }
    }
}

impl DataType {
    /// The form used in diagnostics.
    pub fn to_string(&self) -> (r: String)
        ensures
            r@ == self@.label(),
    {
        match self {
            DataType::Enumeration => String::from_str("sc:Enumeration"),
            DataType::Boolean => String::from_str("sc:Boolean"),
            DataType::Integer => String::from_str("sc:Integer"),
            DataType::Float => String::from_str("sc:Float"),
            DataType::Text => String::from_str("sc:Text"),
            DataType::Date => String::from_str("sc:Date"),
            DataType::DateTime => String::from_str("sc:Datetime"),
            DataType::Url => String::from_str("sc:Url"),
            DataType::ImageObject => String::from_str("sc:ImageObject"),
            DataType::BoundingBox(format) => format.to_string(),
            DataType::Split => String::from_str("cr:Split"),
            DataType::Label => String::from_str("cr:Label"),
            DataType::CustomIri(text) => text.to_string(),
        }
    }
}

/// A file described by its own entry.
#[derive(Debug, PartialEq)]
pub struct FileObject {
    pub id: Id,
    pub name: Text,
    pub content_url: Option<Text>,
    pub content_size: Option<Text>,
    pub encoding_format: Text,
    pub sha256: Option<String>,
}

/// The view of a [`FileObject`].
pub struct FileObjectView {
    pub id: Seq<char>,
    pub name: Seq<char>,
    pub content_url: Option<Seq<char>>,
    pub content_size: Option<Seq<char>>,
    pub encoding_format: Seq<char>,
    pub sha256: Option<Seq<char>>,
}

impl View for FileObject {
    type V = FileObjectView;

    open spec fn view(&self) -> FileObjectView {
        FileObjectView {
            id: self.id@,
            name: self.name@,
            content_url: self.content_url.deep_view(),
            content_size: self.content_size.deep_view(),
            encoding_format: self.encoding_format@,
            sha256: self.sha256.deep_view(),
        }
    }
}

impl DeepView for FileObject {
    type V = FileObjectView;

    open spec fn deep_view(&self) -> FileObjectView {
        self@
    }
}

impl Clone for FileObject {
    fn clone(&self) -> (r: FileObject)
        ensures
            r@ == self@,
    {
        FileObject {
            id: self.id.clone(),
            name: self.name.clone(),
            content_url: self.content_url.clone(),
            content_size: self.content_size.clone(),
            encoding_format: self.encoding_format.clone(),
            sha256: self.sha256.clone(),
        }
    }
}

/// A set of files picked by patterns out of other resources.
#[derive(Debug, PartialEq)]
pub struct FileSet {
    pub id: Id,
    pub sources: Vec<Id>,
    pub encoding_format: Text,
    pub includes: Vec<Text>,
    pub excludes: Vec<Text>,
}

/// The view of a [`FileSet`].
pub struct FileSetView {
    pub id: Seq<char>,
    pub sources: Seq<Seq<char>>,
    pub encoding_format: Seq<char>,
    pub includes: Seq<Seq<char>>,
    pub excludes: Seq<Seq<char>>,
}

impl View for FileSet {
    type V = FileSetView;

    open spec fn view(&self) -> FileSetView {
        FileSetView {
            id: self.id@,
            sources: self.sources.deep_view(),
            encoding_format: self.encoding_format@,
            includes: self.includes.deep_view(),
            excludes: self.excludes.deep_view(),
        }
    }
}

impl DeepView for FileSet {
    type V = FileSetView;

    open spec fn deep_view(&self) -> FileSetView {
        self@
    }
}

impl Clone for FileSet {
    fn clone(&self) -> (r: FileSet)
        ensures
            r@ == self@,
    {
        let r = FileSet {
            id: self.id.clone(),
            sources: self.sources.clone(),
            encoding_format: self.encoding_format.clone(),
            includes: self.includes.clone(),
            excludes: self.excludes.clone(),
        };
        r
    }
}

/// A physical resource: one file, or a set of files.
#[derive(Debug, PartialEq)]
pub enum Resource {
    FileObject(FileObject),
    FileSet(FileSet),
}

/// The view of a [`Resource`].
pub enum ResourceView {
    FileObject(FileObjectView),
    FileSet(FileSetView),
}

impl View for Resource {
    type V = ResourceView;

    open spec fn view(&self) -> ResourceView {
        match self {
            Resource::FileObject(o) => ResourceView::FileObject(o@),
            Resource::FileSet(s) => ResourceView::FileSet(s@),
        }
    }
}

impl DeepView for Resource {
    type V = ResourceView;

    open spec fn deep_view(&self) -> ResourceView {
        self@
    }
}

impl Clone for Resource {
    fn clone(&self) -> (r: Resource)
        ensures
            r@ == self@,
    {
        match self {
            Resource::FileObject(x) => Resource::FileObject(x.clone()),
            Resource::FileSet(x) => Resource::FileSet(x.clone()),
        }
    }
}

impl ResourceView {
    /// The identifier of the resource.
    pub open spec fn id(self) -> Seq<char> {
        match self {
            ResourceView::FileObject(o) => o.id,
            ResourceView::FileSet(s) => s.id,
        }
    }

    /// The word for the kind of resource.
    pub open spec fn label(self) -> Seq<char> {
        match self {
            ResourceView::FileObject(_) => "fileObject"@,
            ResourceView::FileSet(_) => "fileSet"@,
        }
    }
}

impl Resource {
    /// The identifier of the resource.
    pub fn id(&self) -> (r: &Id)
        ensures
            r@ == self@.id(),
    {
        match self {
            Resource::FileObject(o) => &o.id,
            Resource::FileSet(s) => &s.id,
        }
    }

    /// The form used in diagnostics.
    pub fn to_string(&self) -> (r: String)
        ensures
            r@ == self@.label(),
    {
        match self {
            Resource::FileObject(_) => String::from_str("fileObject"),
            Resource::FileSet(_) => String::from_str("fileSet"),
        }
    }
}

/// How a raw value is pulled out of a source.
#[derive(Debug, PartialEq)]
pub enum Extract {
    Column { name: Text },
    FileProperty { property: FileProperty },
    JsonPath { expr: Text },
}

/// The view of an [`Extract`].
pub enum ExtractView {
    Column { name: Seq<char> },
    FileProperty { property: FileProperty },
    JsonPath { expr: Seq<char> },
}

impl View for Extract {
    type V = ExtractView;

    open spec fn view(&self) -> ExtractView {
        match self {
            Extract::Column { name } => ExtractView::Column { name: name@ },
            Extract::FileProperty { property } => ExtractView::FileProperty { property: *property },
            Extract::JsonPath { expr } => ExtractView::JsonPath { expr: expr@ },
        }
    }
}

impl DeepView for Extract {
    type V = ExtractView;

    open spec fn deep_view(&self) -> ExtractView {
        self@
    }
}

impl Clone for Extract {
    fn clone(&self) -> (r: Extract)
        ensures
            r@ == self@,
    {
        match self {
            Extract::Column { name } => Extract::Column { name: name.clone() },
            Extract::FileProperty { property } => Extract::FileProperty { property: *property },
            Extract::JsonPath { expr } => Extract::JsonPath { expr: expr.clone() },
        }
    }
}

/// One step applied to an extracted value.
#[derive(Debug, PartialEq)]
pub enum Transform {
    Regex { pattern: Text },
    Delimiter { char: char },
    JsonQuery { query: Text },
}

/// The view of a [`Transform`].
pub enum TransformView {
    Regex { pattern: Seq<char> },
    Delimiter { char: char },
    JsonQuery { query: Seq<char> },
}

impl View for Transform {
    type V = TransformView;

    open spec fn view(&self) -> TransformView {
        match self {
            Transform::Regex { pattern } => TransformView::Regex { pattern: pattern@ },
            Transform::Delimiter { char } => TransformView::Delimiter { char: *char },
            Transform::JsonQuery { query } => TransformView::JsonQuery { query: query@ },
        }
    }
}

impl DeepView for Transform {
    type V = TransformView;

    open spec fn deep_view(&self) -> TransformView {
        self@
    }
}

impl Clone for Transform {
    fn clone(&self) -> (r: Transform)
        ensures
            r@ == self@,
    {
        match self {
            Transform::Regex { pattern } => Transform::Regex { pattern: pattern.clone() },
            Transform::Delimiter { char } => Transform::Delimiter { char: *char },
            Transform::JsonQuery { query } => Transform::JsonQuery { query: query.clone() },
        }
    }
}

/// How an extracted string is read as a typed value.
#[derive(Debug, PartialEq)]
pub enum ValueFormat {
    Date { pattern: Text },
    Number { pattern: Text },
    BoundingBox { format: BoundingBoxFormat },
}

/// The view of a [`ValueFormat`].
pub enum ValueFormatView {
    Date { pattern: Seq<char> },
    Number { pattern: Seq<char> },
    BoundingBox { format: BoundingBoxFormat },
}

impl View for ValueFormat {
    type V = ValueFormatView;

    open spec fn view(&self) -> ValueFormatView {
        match self {
            ValueFormat::Date { pattern } => ValueFormatView::Date { pattern: pattern@ },
            ValueFormat::Number { pattern } => ValueFormatView::Number { pattern: pattern@ },
            ValueFormat::BoundingBox { format } => ValueFormatView::BoundingBox { format: *format },
        }
    }
}

impl DeepView for ValueFormat {
    type V = ValueFormatView;

    open spec fn deep_view(&self) -> ValueFormatView {
        self@
    }
}

impl Clone for ValueFormat {
    fn clone(&self) -> (r: ValueFormat)
        ensures
            r@ == self@,
    {
        match self {
            ValueFormat::Date { pattern } => ValueFormat::Date { pattern: pattern.clone() },
            ValueFormat::Number { pattern } => ValueFormat::Number { pattern: pattern.clone() },
            ValueFormat::BoundingBox { format } => ValueFormat::BoundingBox { format: *format },
        }
    }
}

/// A reference to an entity by its identifier.
#[derive(Debug, PartialEq)]
pub struct Ref {
    pub id: Id,
}

impl View for Ref {
    type V = Seq<char>;

    open spec fn view(&self) -> Seq<char> {
        self.id@
    }
}

impl DeepView for Ref {
    type V = Seq<char>;

    open spec fn deep_view(&self) -> Seq<char> {
        self.id@
    }
}

impl Clone for Ref {
    fn clone(&self) -> (r: Ref)
        ensures
            r@ == self@,
    {
        Ref {
            id: self.id.clone(),
        }
    }
}

/// A reference to another field.
#[derive(Debug, PartialEq)]
pub struct FieldRef {
    pub field: Ref,
}

impl View for FieldRef {
    type V = Seq<char>;

    open spec fn view(&self) -> Seq<char> {
        self.field@
    }
}

impl DeepView for FieldRef {
    type V = Seq<char>;

    open spec fn deep_view(&self) -> Seq<char> {
        self.field@
    }
}

impl Clone for FieldRef {
    fn clone(&self) -> (r: FieldRef)
        ensures
            r@ == self@,
    {
        FieldRef {
            field: self.field.clone(),
        }
    }
}

/// The resource or record set that a field's values are drawn from.
#[derive(Debug, PartialEq)]
pub enum SourceRef {
    FileObject { file_object: Ref },
    FileSet { file_set: Ref },
    RecordSet { record_set: Ref },
}

/// The view of a [`SourceRef`].
pub enum SourceRefView {
    FileObject { file_object: Seq<char> },
    FileSet { file_set: Seq<char> },
    RecordSet { record_set: Seq<char> },
}

impl SourceRefView {
    /// The identifier that the reference names.
    pub open spec fn target(self) -> Seq<char> {
        match self {
            SourceRefView::FileObject { file_object } => file_object,
            SourceRefView::FileSet { file_set } => file_set,
            SourceRefView::RecordSet { record_set } => record_set,
        }
    }
}

impl View for SourceRef {
    type V = SourceRefView;

    open spec fn view(&self) -> SourceRefView {
        match self {
            SourceRef::FileObject { file_object } => SourceRefView::FileObject {
                file_object: file_object@,
            },
            SourceRef::FileSet { file_set } => SourceRefView::FileSet { file_set: file_set@ },
            SourceRef::RecordSet { record_set } => SourceRefView::RecordSet {
                record_set: record_set@,
            },
        }
    }
}

impl DeepView for SourceRef {
    type V = SourceRefView;

    open spec fn deep_view(&self) -> SourceRefView {
        self@
    }
}

impl Clone for SourceRef {
    fn clone(&self) -> (r: SourceRef)
        ensures
            r@ == self@,
    {
        match self {
            SourceRef::FileObject { file_object } => SourceRef::FileObject {
                file_object: file_object.clone(),
            },
            SourceRef::FileSet { file_set } => SourceRef::FileSet { file_set: file_set.clone() },
            SourceRef::RecordSet { record_set } => SourceRef::RecordSet {
                record_set: record_set.clone(),
            },
        }
    }
}

impl SourceRef {
    /// The identifier that the reference names.
    pub fn target(&self) -> (r: &Id)
        ensures
            r@ == self@.target(),
    {
        match self {
            SourceRef::FileObject { file_object } => &file_object.id,
            SourceRef::FileSet { file_set } => &file_set.id,
            SourceRef::RecordSet { record_set } => &record_set.id,
        }
    }
}

/// Where a field's values come from and how they are read.
#[derive(Debug, PartialEq)]
pub struct FieldSource {
    pub source: SourceRef,
    pub extract: Option<Extract>,
    pub transform: Option<Vec<Transform>>,
    pub format: Option<ValueFormat>,
}

/// The view of a [`FieldSource`].
pub struct FieldSourceView {
    pub source: SourceRefView,
    pub extract: Option<ExtractView>,
    pub transform: Option<Seq<TransformView>>,
    pub format: Option<ValueFormatView>,
}

impl View for FieldSource {
    type V = FieldSourceView;

    open spec fn view(&self) -> FieldSourceView {
        FieldSourceView {
            source: self.source@,
            extract: self.extract.deep_view(),
            transform: self.transform.deep_view(),
            format: self.format.deep_view(),
        }
    }
}

impl DeepView for FieldSource {
    type V = FieldSourceView;

    open spec fn deep_view(&self) -> FieldSourceView {
        self@
    }
}

impl Clone for FieldSource {
    fn clone(&self) -> (r: FieldSource)
        ensures
            r@ == self@,
    {
        let r = FieldSource {
            source: self.source.clone(),
            extract: self.extract.clone(),
            transform: self.transform.clone(),
            format: self.format.clone(),
        };
        r
    }
}

/// One attribute of a record set. A field owns its sub-fields.
#[derive(Debug, PartialEq)]
pub struct Field {
    pub id: Id,
    pub kind: CrType,
    pub name: Text,
    pub description: Text,
    pub data_types: Vec<DataType>,
    pub source: FieldSource,
    pub references: Vec<FieldRef>,
    pub sub_fields: Option<Vec<Field>>,
    pub parent_fields: Option<Vec<Id>>,
    pub repeated: Option<bool>,
    pub equivalent_properties: Option<Vec<Text>>,
}

/// The view of a [`Field`].
pub struct FieldView {
    pub id: Seq<char>,
    pub kind: CrType,
    pub name: Seq<char>,
    pub description: Seq<char>,
    pub data_types: Seq<DataTypeView>,
    pub source: FieldSourceView,
    pub references: Seq<Seq<char>>,
    pub sub_fields: Option<Seq<FieldView>>,
    pub parent_fields: Option<Seq<Seq<char>>>,
    pub repeated: Option<bool>,
    pub equivalent_properties: Option<Seq<Seq<char>>>,
}

impl Field {
    /// The view of a field, sub-fields included.
    pub open spec fn model(self) -> FieldView
        decreases self,
    {
        FieldView {
            id: self.id@,
            kind: self.kind,
            name: self.name@,
            description: self.description@,
            data_types: self.data_types.deep_view(),
            source: self.source@,
            references: self.references.deep_view(),
            sub_fields: match self.sub_fields {
                Some(subs) => Some(
                    Seq::new(
                        subs@.len(),
                        |i: int|
                            if 0 <= i < subs@.len() {
                                subs@[i].model()
                            } else {
                                arbitrary()
                            },
                    ),
                ),
                None => None,
            },
            parent_fields: self.parent_fields.deep_view(),
            repeated: self.repeated,
            equivalent_properties: self.equivalent_properties.deep_view(),
        }
    }
}

impl View for Field {
    type V = FieldView;

    open spec fn view(&self) -> FieldView {
        self.model()
    }
}

impl DeepView for Field {
    type V = FieldView;

    open spec fn deep_view(&self) -> FieldView {
        self.model()
    }
}

impl Clone for Field {
    fn clone(&self) -> (r: Field)
        ensures
            r@ == self@,
        decreases self,
    {
        let sub_fields = match &self.sub_fields {
            Some(subs) => {
                let mut copies: Vec<Field> = Vec::new();
                let mut i: usize = 0;
                while i < subs.len()
                    invariant
                        0 <= i <= subs@.len(),
                        self.sub_fields == Some(*subs),
                        copies@.len() == i,
                        forall|k: int| 0 <= k < i ==> (#[trigger] copies@[k])@ == subs@[k]@,
                    decreases subs@.len() - i,
                {
                    assert(decreases_to!(self.sub_fields => self.sub_fields->Some_0));
                    copies.push(subs[i].clone());
                    i += 1;
                }
                Some(copies)
            },
            None => None,
        };
        let r = Field {
            id: self.id.clone(),
            kind: self.kind,
            name: self.name.clone(),
            description: self.description.clone(),
            data_types: self.data_types.clone(),
            source: self.source.clone(),
            references: self.references.clone(),
            sub_fields,
            parent_fields: self.parent_fields.clone(),
            repeated: self.repeated,
            equivalent_properties: self.equivalent_properties.clone(),
        };
        proof {
            if self.sub_fields is Some {
                assert(r@.sub_fields->0 =~= self@.sub_fields->0);
            }
        }
        r
    }
}

/// A table-like group of fields.
#[derive(Debug, PartialEq)]
pub struct RecordSet {
    pub id: Id,
    pub kind: CrType,
    pub keys: Vec<Ref>,
    pub fields: Vec<Field>,
    pub record_types: Vec<DataType>,
}

/// The view of a [`RecordSet`].
pub struct RecordSetView {
    pub id: Seq<char>,
    pub kind: CrType,
    pub keys: Seq<Seq<char>>,
    pub fields: Seq<FieldView>,
    pub record_types: Seq<DataTypeView>,
}

impl View for RecordSet {
    type V = RecordSetView;

    open spec fn view(&self) -> RecordSetView {
        RecordSetView {
            id: self.id@,
            kind: self.kind,
            keys: self.keys.deep_view(),
            fields: self.fields.deep_view(),
            record_types: self.record_types.deep_view(),
        }
    }
}

impl DeepView for RecordSet {
    type V = RecordSetView;

    open spec fn deep_view(&self) -> RecordSetView {
        self@
    }
}

impl Clone for RecordSet {
    fn clone(&self) -> (r: RecordSet)
        ensures
            r@ == self@,
    {
        let r = RecordSet {
            id: self.id.clone(),
            kind: self.kind,
            keys: self.keys.clone(),
            fields: self.fields.clone(),
            record_types: self.record_types.clone(),
        };
        r
    }
}

/// One entry of a dataset's distribution: exactly one resource.
#[derive(Debug, PartialEq)]
pub struct Distribution {
    pub resource: Resource,
}

impl View for Distribution {
    type V = ResourceView;

    open spec fn view(&self) -> ResourceView {
        self.resource@
    }
}

impl DeepView for Distribution {
    type V = ResourceView;

    open spec fn deep_view(&self) -> ResourceView {
        self.resource@
    }
}

impl Clone for Distribution {
    fn clone(&self) -> (r: Distribution)
        ensures
            r@ == self@,
    {
        Distribution {
            resource: self.resource.clone(),
        }
    }
}

/// How the `data` key is to be read.
#[derive(Debug, PartialEq)]
pub struct DataContext {
    pub id: Id,
    pub type_: Text,
}

/// How the `dataType` key is to be read.
#[derive(Debug, PartialEq)]
pub struct DataTypeContext {
    pub id: Id,
    pub type_: Text,
}

/// The view of a [`DataContext`] or a [`DataTypeContext`].
pub struct TermView {
    pub id: Seq<char>,
    pub type_: Seq<char>,
}

impl View for DataContext {
    type V = TermView;

    open spec fn view(&self) -> TermView {
        TermView { id: self.id@, type_: self.type_@ }
    }
}

impl View for DataTypeContext {
    type V = TermView;

    open spec fn view(&self) -> TermView {
        TermView { id: self.id@, type_: self.type_@ }
    }
}

impl DeepView for DataContext {
    type V = TermView;

    open spec fn deep_view(&self) -> TermView {
        self@
    }
}

impl Clone for DataContext {
    fn clone(&self) -> (r: DataContext)
        ensures
            r@ == self@,
    {
        DataContext {
            id: self.id.clone(),
            type_: self.type_.clone(),
        }
    }
}

impl DeepView for DataTypeContext {
    type V = TermView;

    open spec fn deep_view(&self) -> TermView {
        self@
    }
}

impl Clone for DataTypeContext {
    fn clone(&self) -> (r: DataTypeContext)
        ensures
            r@ == self@,
    {
        DataTypeContext {
            id: self.id.clone(),
            type_: self.type_.clone(),
        }
    }
}

/// The `@context` block of a document.
#[derive(Debug, PartialEq)]
pub struct Context {
    pub language: Text,
    pub vocab: Text,
    pub sc: Text,
    pub cr: Text,
    pub dct: Text,
    pub cite_as: Text,
    pub column: Text,
    pub conforms_to: Text,
    pub data: DataContext,
    pub data_type: DataTypeContext,
}

/// The view of a [`Context`].
pub struct ContextView {
    pub language: Seq<char>,
    pub vocab: Seq<char>,
    pub sc: Seq<char>,
    pub cr: Seq<char>,
    pub dct: Seq<char>,
    pub cite_as: Seq<char>,
    pub column: Seq<char>,
    pub conforms_to: Seq<char>,
    pub data: TermView,
    pub data_type: TermView,
}

impl View for Context {
    type V = ContextView;

    open spec fn view(&self) -> ContextView {
        ContextView {
            language: self.language@,
            vocab: self.vocab@,
            sc: self.sc@,
            cr: self.cr@,
            dct: self.dct@,
            cite_as: self.cite_as@,
            column: self.column@,
            conforms_to: self.conforms_to@,
            data: self.data@,
            data_type: self.data_type@,
        }
    }
}

impl DeepView for Context {
    type V = ContextView;

    open spec fn deep_view(&self) -> ContextView {
        self@
    }
}

impl Clone for Context {
    fn clone(&self) -> (r: Context)
        ensures
            r@ == self@,
    {
        Context {
            language: self.language.clone(),
            vocab: self.vocab.clone(),
            sc: self.sc.clone(),
            cr: self.cr.clone(),
            dct: self.dct.clone(),
            cite_as: self.cite_as.clone(),
            column: self.column.clone(),
            conforms_to: self.conforms_to.clone(),
            data: self.data.clone(),
            data_type: self.data_type.clone(),
        }
    }
}

/// The root of a dataset description.
#[derive(Debug, PartialEq)]
pub struct Metadata {
    pub context: Context,
    pub kind: CroissantType,
    pub name: Text,
    pub description: Text,
    pub conforms_to: Text,
    pub date_published: Option<Text>,
    pub version: Text,
    pub distribution: Vec<Distribution>,
    pub record_sets: Vec<RecordSet>,
}

/// The view of a [`Metadata`].
pub struct MetadataView {
    pub context: ContextView,
    pub kind: CroissantType,
    pub name: Seq<char>,
    pub description: Seq<char>,
    pub conforms_to: Seq<char>,
    pub date_published: Option<Seq<char>>,
    pub version: Seq<char>,
    pub distribution: Seq<ResourceView>,
    pub record_sets: Seq<RecordSetView>,
}

impl View for Metadata {
    type V = MetadataView;

    open spec fn view(&self) -> MetadataView {
        MetadataView {
            context: self.context@,
            kind: self.kind,
            name: self.name@,
            description: self.description@,
            conforms_to: self.conforms_to@,
            date_published: self.date_published.deep_view(),
            version: self.version@,
            distribution: self.distribution.deep_view(),
            record_sets: self.record_sets.deep_view(),
        }
    }
}

impl DeepView for Metadata {
    type V = MetadataView;

    open spec fn deep_view(&self) -> MetadataView {
        self@
    }
}

impl Clone for Metadata {
    fn clone(&self) -> (r: Metadata)
        ensures
            r@ == self@,
    {
        let r = Metadata {
            context: self.context.clone(),
            kind: self.kind,
            name: self.name.clone(),
            description: self.description.clone(),
            conforms_to: self.conforms_to.clone(),
            date_published: self.date_published.clone(),
            version: self.version.clone(),
            distribution: self.distribution.clone(),
            record_sets: self.record_sets.clone(),
        };
        r
    }
}

} // verus!
