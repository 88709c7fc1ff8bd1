//! Step-by-step construction of the larger entities.
//!
//! A builder starts empty, takes fields in any order and hands out the entity
//! when asked to. Fields whose type is an `Option` may be left out and are
//! then `None`; lists that a document may omit may be left out and are then
//! empty; every other field is mandatory. `build` names the first mandatory
//! field, in declaration order, that was never given.

use vstd::prelude::*;
use vstd::string::*;
use crate::errors::Error;
use crate::model::{
    Context, CrType, CroissantType, DataContext, DataType, DataTypeContext, Distribution, Extract,
    Field, FieldRef, FieldSource, FileObject, Metadata, RecordSet, Ref, Resource, SourceRef,
    Transform, ValueFormat,
};
use crate::text::{Id, Text};

verus! {

/// Collects the fields of a file object.
#[derive(Debug)]
pub struct FileObjectBuilder {
    pub id: Option<Id>,
    pub name: Option<Text>,
    pub content_url: Option<Text>,
    pub content_size: Option<Text>,
    pub encoding_format: Option<Text>,
    pub sha256: Option<String>,
}

impl FileObject {
    /// A builder with no field given yet.
    pub fn builder() -> (r: FileObjectBuilder)
        ensures
            r == FileObjectBuilder::empty(),
    {
        FileObjectBuilder {
            id: None,
            name: None,
            content_url: None,
            content_size: None,
            encoding_format: None,
            sha256: None,
        }
    }
}

impl Default for FileObjectBuilder {
    fn default() -> (r: FileObjectBuilder)
        ensures
            r == FileObjectBuilder::empty(),
    {
        FileObject::builder()
    }
}

impl FileObjectBuilder {
    /// The builder that holds nothing.
    pub open spec fn empty() -> FileObjectBuilder {
        FileObjectBuilder {
            id: None,
            name: None,
            content_url: None,
            content_size: None,
            encoding_format: None,
            sha256: None,
        }
    }

    /// The first mandatory field that has not been given, if any.
    pub open spec fn missing(self) -> Option<Seq<char>> {
        if self.id is None {
            Some("id"@)
        } else if self.name is None {
            Some("name"@)
        } else if self.encoding_format is None {
            Some("encoding_format"@)
        } else {
            None
        }
    }

    /// Whether `value` is what this builder builds.
    pub open spec fn builds(self, value: FileObject) -> bool {
        &&& self.id == Some(value.id)
        &&& self.name == Some(value.name)
        &&& self.content_url == value.content_url
        &&& self.content_size == value.content_size
        &&& self.encoding_format == Some(value.encoding_format)
        &&& self.sha256 == value.sha256
    }

    /// Gives the id.
    pub fn id(self, value: Id) -> (r: FileObjectBuilder)
        ensures
            r == (FileObjectBuilder { id: Some(value), ..self }),
    {
        let mut next = self;
        next.id = Some(value);
        next
    }

    /// Gives the name.
    pub fn name(self, value: Text) -> (r: FileObjectBuilder)
        ensures
            r == (FileObjectBuilder { name: Some(value), ..self }),
    {
        let mut next = self;
        next.name = Some(value);
        next
    }

    /// Gives the content url, or says that there is none.
    pub fn content_url(self, value: Option<Text>) -> (r: FileObjectBuilder)
        ensures
            r == (FileObjectBuilder { content_url: value, ..self }),
    {
        let mut next = self;
        next.content_url = value;
        next
    }

    /// Gives the content size, or says that there is none.
    pub fn content_size(self, value: Option<Text>) -> (r: FileObjectBuilder)
        ensures
            r == (FileObjectBuilder { content_size: value, ..self }),
    {
        let mut next = self;
        next.content_size = value;
        next
    }

    /// Gives the encoding format.
    pub fn encoding_format(self, value: Text) -> (r: FileObjectBuilder)
        ensures
            r == (FileObjectBuilder { encoding_format: Some(value), ..self }),
    {
        let mut next = self;
        next.encoding_format = Some(value);
        next
    }

    /// Gives the sha256, or says that there is none.
    pub fn sha256(self, value: Option<String>) -> (r: FileObjectBuilder)
        ensures
            r == (FileObjectBuilder { sha256: value, ..self }),
    {
        let mut next = self;
        next.sha256 = value;
        next
    }

    /// Hands out the entity, or names the first mandatory field that is missing.
    pub fn build(self) -> (r: Result<FileObject, Error>)
        ensures
            match r {
                Ok(value) => self.missing() is None && self.builds(value),
                Err(e) => e matches Error::Construction(field) && self.missing() == Some(field@),
            },
    {
        let id = match self.id {
            Some(value) => value,
            None => return Err(Error::Construction(String::from_str("id"))),
        };
        let name = match self.name {
            Some(value) => value,
            None => return Err(Error::Construction(String::from_str("name"))),
        };
        let encoding_format = match self.encoding_format {
            Some(value) => value,
            None => return Err(Error::Construction(String::from_str("encoding_format"))),
        };
        Ok(
            FileObject {
                id,
                name,
                content_url: self.content_url,
                content_size: self.content_size,
                encoding_format,
                sha256: self.sha256,
            },
        )
    }
}

/// Collects the fields of a field source.
#[derive(Debug)]
pub struct FieldSourceBuilder {
    pub source: Option<SourceRef>,
    pub extract: Option<Extract>,
    pub transform: Option<Vec<Transform>>,
    pub format: Option<ValueFormat>,
}

impl FieldSource {
    /// A builder with no field given yet.
    pub fn builder() -> (r: FieldSourceBuilder)
        ensures
            r == FieldSourceBuilder::empty(),
    {
        FieldSourceBuilder {
            source: None,
            extract: None,
            transform: None,
            format: None,
        }
    }
}

impl Default for FieldSourceBuilder {
    fn default() -> (r: FieldSourceBuilder)
        ensures
            r == FieldSourceBuilder::empty(),
    {
        FieldSource::builder()
    }
}

impl FieldSourceBuilder {
    /// The builder that holds nothing.
    pub open spec fn empty() -> FieldSourceBuilder {
        FieldSourceBuilder {
            source: None,
            extract: None,
            transform: None,
            format: None,
        }
    }

    /// The first mandatory field that has not been given, if any.
    pub open spec fn missing(self) -> Option<Seq<char>> {
        if self.source is None {
            Some("source"@)
        } else {
            None
        }
    }

    /// Whether `value` is what this builder builds.
    pub open spec fn builds(self, value: FieldSource) -> bool {
        &&& self.source == Some(value.source)
        &&& self.extract == value.extract
        &&& self.transform == value.transform
        &&& self.format == value.format
    }

    /// Gives the source.
    pub fn source(self, value: SourceRef) -> (r: FieldSourceBuilder)
        ensures
            r == (FieldSourceBuilder { source: Some(value), ..self }),
    {
        let mut next = self;
        next.source = Some(value);
        next
    }

    /// Gives the extract, or says that there is none.
    pub fn extract(self, value: Option<Extract>) -> (r: FieldSourceBuilder)
        ensures
            r == (FieldSourceBuilder { extract: value, ..self }),
    {
        let mut next = self;
        next.extract = value;
        next
    }

    /// Gives the transform, or says that there is none.
    pub fn transform(self, value: Option<Vec<Transform>>) -> (r: FieldSourceBuilder)
        ensures
            r == (FieldSourceBuilder { transform: value, ..self }),
    {
        let mut next = self;
        next.transform = value;
        next
    }

    /// Gives the format, or says that there is none.
    pub fn format(self, value: Option<ValueFormat>) -> (r: FieldSourceBuilder)
        ensures
            r == (FieldSourceBuilder { format: value, ..self }),
    {
        let mut next = self;
        next.format = value;
        next
    }

    /// Hands out the entity, or names the first mandatory field that is missing.
    pub fn build(self) -> (r: Result<FieldSource, Error>)
        ensures
            match r {
                Ok(value) => self.missing() is None && self.builds(value),
                Err(e) => e matches Error::Construction(field) && self.missing() == Some(field@),
            },
    {
        let source = match self.source {
            Some(value) => value,
            None => return Err(Error::Construction(String::from_str("source"))),
        };
        Ok(
            FieldSource {
                source,
                extract: self.extract,
                transform: self.transform,
                format: self.format,
            },
        )
    }
}

/// Collects the fields of a field.
#[derive(Debug)]
pub struct FieldBuilder {
    pub id: Option<Id>,
    pub kind: Option<CrType>,
    pub name: Option<Text>,
    pub description: Option<Text>,
    pub data_types: Option<Vec<DataType>>,
    pub source: Option<FieldSource>,
    pub references: Option<Vec<FieldRef>>,
    pub sub_fields: Option<Vec<Field>>,
    pub parent_fields: Option<Vec<Id>>,
    pub repeated: Option<bool>,
    pub equivalent_properties: Option<Vec<Text>>,
}

impl Field {
    /// A builder with no field given yet.
    pub fn builder() -> (r: FieldBuilder)
        ensures
            r == FieldBuilder::empty(),
    {
        FieldBuilder {
            id: None,
            kind: None,
            name: None,
            description: None,
            data_types: None,
            source: None,
            references: None,
            sub_fields: None,
            parent_fields: None,
            repeated: None,
            equivalent_properties: None,
        }
    }
}

impl Default for FieldBuilder {
    fn default() -> (r: FieldBuilder)
        ensures
            r == FieldBuilder::empty(),
    {
        Field::builder()
    }
}

impl FieldBuilder {
    /// The builder that holds nothing.
    pub open spec fn empty() -> FieldBuilder {
        FieldBuilder {
            id: None,
            kind: None,
            name: None,
            description: None,
            data_types: None,
            source: None,
            references: None,
            sub_fields: None,
            parent_fields: None,
            repeated: None,
            equivalent_properties: None,
        }
    }

    /// The first mandatory field that has not been given, if any.
    pub open spec fn missing(self) -> Option<Seq<char>> {
        if self.id is None {
            Some("id"@)
        } else if self.kind is None {
            Some("kind"@)
        } else if self.name is None {
            Some("name"@)
        } else if self.description is None {
            Some("description"@)
        } else if self.data_types is None {
            Some("data_types"@)
        } else if self.source is None {
            Some("source"@)
        } else {
            None
        }
    }

    /// Whether `value` is what this builder builds.
    pub open spec fn builds(self, value: Field) -> bool {
        &&& self.id == Some(value.id)
        &&& self.kind == Some(value.kind)
        &&& self.name == Some(value.name)
        &&& self.description == Some(value.description)
        &&& self.data_types == Some(value.data_types)
        &&& self.source == Some(value.source)
        &&& match self.references {
            Some(given) => value.references == given,
            None => value.references@.len() == 0,
        }
        &&& self.sub_fields == value.sub_fields
        &&& self.parent_fields == value.parent_fields
        &&& self.repeated == value.repeated
        &&& self.equivalent_properties == value.equivalent_properties
    }

    /// Gives the id.
    pub fn id(self, value: Id) -> (r: FieldBuilder)
        ensures
            r == (FieldBuilder { id: Some(value), ..self }),
    {
        let mut next = self;
        next.id = Some(value);
        next
    }

    /// Gives the kind.
    pub fn kind(self, value: CrType) -> (r: FieldBuilder)
        ensures
            r == (FieldBuilder { kind: Some(value), ..self }),
    {
        let mut next = self;
        next.kind = Some(value);
        next
    }

    /// Gives the name.
    pub fn name(self, value: Text) -> (r: FieldBuilder)
        ensures
            r == (FieldBuilder { name: Some(value), ..self }),
    {
        let mut next = self;
        next.name = Some(value);
        next
    }

    /// Gives the description.
    pub fn description(self, value: Text) -> (r: FieldBuilder)
        ensures
            r == (FieldBuilder { description: Some(value), ..self }),
    {
        let mut next = self;
        next.description = Some(value);
        next
    }

    /// Gives the data types.
    pub fn data_types(self, value: Vec<DataType>) -> (r: FieldBuilder)
        ensures
            r == (FieldBuilder { data_types: Some(value), ..self }),
    {
        let mut next = self;
        next.data_types = Some(value);
        next
    }

    /// Gives the source.
    pub fn source(self, value: FieldSource) -> (r: FieldBuilder)
        ensures
            r == (FieldBuilder { source: Some(value), ..self }),
    {
        let mut next = self;
        next.source = Some(value);
        next
    }

    /// Gives the references.
    pub fn references(self, value: Vec<FieldRef>) -> (r: FieldBuilder)
        ensures
            r == (FieldBuilder { references: Some(value), ..self }),
    {
        let mut next = self;
        next.references = Some(value);
        next
    }

    /// Gives the sub fields, or says that there is none.
    pub fn sub_fields(self, value: Option<Vec<Field>>) -> (r: FieldBuilder)
        ensures
            r == (FieldBuilder { sub_fields: value, ..self }),
    {
        let mut next = self;
        next.sub_fields = value;
        next
    }

    /// Gives the parent fields, or says that there is none.
    pub fn parent_fields(self, value: Option<Vec<Id>>) -> (r: FieldBuilder)
        ensures
            r == (FieldBuilder { parent_fields: value, ..self }),
    {
        let mut next = self;
        next.parent_fields = value;
        next
    }

    /// Gives the repeated, or says that there is none.
    pub fn repeated(self, value: Option<bool>) -> (r: FieldBuilder)
        ensures
            r == (FieldBuilder { repeated: value, ..self }),
    {
        let mut next = self;
        next.repeated = value;
        next
    }

    /// Gives the equivalent properties, or says that there is none.
    pub fn equivalent_properties(self, value: Option<Vec<Text>>) -> (r: FieldBuilder)
        ensures
            r == (FieldBuilder { equivalent_properties: value, ..self }),
    {
        let mut next = self;
        next.equivalent_properties = value;
        next
    }

    /// Hands out the entity, or names the first mandatory field that is missing.
    pub fn build(self) -> (r: Result<Field, Error>)
        ensures
            match r {
                Ok(value) => self.missing() is None && self.builds(value),
                Err(e) => e matches Error::Construction(field) && self.missing() == Some(field@),
            },
    {
        let id = match self.id {
            Some(value) => value,
            None => return Err(Error::Construction(String::from_str("id"))),
        };
        let kind = match self.kind {
            Some(value) => value,
            None => return Err(Error::Construction(String::from_str("kind"))),
        };
        let name = match self.name {
            Some(value) => value,
            None => return Err(Error::Construction(String::from_str("name"))),
        };
        let description = match self.description {
            Some(value) => value,
            None => return Err(Error::Construction(String::from_str("description"))),
        };
        let data_types = match self.data_types {
            Some(value) => value,
            None => return Err(Error::Construction(String::from_str("data_types"))),
        };
        let source = match self.source {
            Some(value) => value,
            None => return Err(Error::Construction(String::from_str("source"))),
        };
        let references = match self.references {
            Some(value) => value,
            None => Vec::new(),
        };
        Ok(
            Field {
                id,
                kind,
                name,
                description,
                data_types,
                source,
                references,
                sub_fields: self.sub_fields,
                parent_fields: self.parent_fields,
                repeated: self.repeated,
                equivalent_properties: self.equivalent_properties,
            },
        )
    }
}

/// Collects the fields of a record set.
#[derive(Debug)]
pub struct RecordSetBuilder {
    pub id: Option<Id>,
    pub kind: Option<CrType>,
    pub keys: Option<Vec<Ref>>,
    pub fields: Option<Vec<Field>>,
    pub record_types: Option<Vec<DataType>>,
}

impl RecordSet {
    /// A builder with no field given yet.
    pub fn builder() -> (r: RecordSetBuilder)
        ensures
            r == RecordSetBuilder::empty(),
    {
        RecordSetBuilder {
            id: None,
            kind: None,
            keys: None,
            fields: None,
            record_types: None,
        }
    }
}

impl Default for RecordSetBuilder {
    fn default() -> (r: RecordSetBuilder)
        ensures
            r == RecordSetBuilder::empty(),
    {
        RecordSet::builder()
    }
}

impl RecordSetBuilder {
    /// The builder that holds nothing.
    pub open spec fn empty() -> RecordSetBuilder {
        RecordSetBuilder {
            id: None,
            kind: None,
            keys: None,
            fields: None,
            record_types: None,
        }
    }

    /// The first mandatory field that has not been given, if any.
    pub open spec fn missing(self) -> Option<Seq<char>> {
        if self.id is None {
            Some("id"@)
        } else if self.kind is None {
            Some("kind"@)
        } else if self.fields is None {
            Some("fields"@)
        } else {
            None
        }
    }

    /// Whether `value` is what this builder builds.
    pub open spec fn builds(self, value: RecordSet) -> bool {
        &&& self.id == Some(value.id)
        &&& self.kind == Some(value.kind)
        &&& match self.keys {
            Some(given) => value.keys == given,
            None => value.keys@.len() == 0,
        }
        &&& self.fields == Some(value.fields)
        &&& match self.record_types {
            Some(given) => value.record_types == given,
            None => value.record_types@.len() == 0,
        }
    }

    /// Gives the id.
    pub fn id(self, value: Id) -> (r: RecordSetBuilder)
        ensures
            r == (RecordSetBuilder { id: Some(value), ..self }),
    {
        let mut next = self;
        next.id = Some(value);
        next
    }

    /// Gives the kind.
    pub fn kind(self, value: CrType) -> (r: RecordSetBuilder)
        ensures
            r == (RecordSetBuilder { kind: Some(value), ..self }),
    {
        let mut next = self;
        next.kind = Some(value);
        next
    }

    /// Gives the keys.
    pub fn keys(self, value: Vec<Ref>) -> (r: RecordSetBuilder)
        ensures
            r == (RecordSetBuilder { keys: Some(value), ..self }),
    {
        let mut next = self;
        next.keys = Some(value);
        next
    }

    /// Gives the fields.
    pub fn fields(self, value: Vec<Field>) -> (r: RecordSetBuilder)
        ensures
            r == (RecordSetBuilder { fields: Some(value), ..self }),
    {
        let mut next = self;
        next.fields = Some(value);
        next
    }

    /// Gives the record types.
    pub fn record_types(self, value: Vec<DataType>) -> (r: RecordSetBuilder)
        ensures
            r == (RecordSetBuilder { record_types: Some(value), ..self }),
    {
        let mut next = self;
        next.record_types = Some(value);
        next
    }

    /// Hands out the entity, or names the first mandatory field that is missing.
    pub fn build(self) -> (r: Result<RecordSet, Error>)
        ensures
            match r {
                Ok(value) => self.missing() is None && self.builds(value),
                Err(e) => e matches Error::Construction(field) && self.missing() == Some(field@),
            },
    {
        let id = match self.id {
            Some(value) => value,
            None => return Err(Error::Construction(String::from_str("id"))),
        };
        let kind = match self.kind {
            Some(value) => value,
            None => return Err(Error::Construction(String::from_str("kind"))),
        };
        let fields = match self.fields {
            Some(value) => value,
            None => return Err(Error::Construction(String::from_str("fields"))),
        };
        let keys = match self.keys {
            Some(value) => value,
            None => Vec::new(),
        };
        let record_types = match self.record_types {
            Some(value) => value,
            None => Vec::new(),
        };
        Ok(
            RecordSet {
                id,
                kind,
                keys,
                fields,
                record_types,
            },
        )
    }
}

/// Collects the fields of a distribution entry.
#[derive(Debug)]
pub struct DistributionBuilder {
    pub resource: Option<Resource>,
}

impl Distribution {
    /// A builder with no field given yet.
    pub fn builder() -> (r: DistributionBuilder)
        ensures
            r == DistributionBuilder::empty(),
    {
        DistributionBuilder {
            resource: None,
        }
    }
}

impl Default for DistributionBuilder {
    fn default() -> (r: DistributionBuilder)
        ensures
            r == DistributionBuilder::empty(),
    {
        Distribution::builder()
    }
}

impl DistributionBuilder {
    /// The builder that holds nothing.
    pub open spec fn empty() -> DistributionBuilder {
        DistributionBuilder {
            resource: None,
        }
    }

    /// The first mandatory field that has not been given, if any.
    pub open spec fn missing(self) -> Option<Seq<char>> {
        if self.resource is None {
            Some("resource"@)
        } else {
            None
        }
    }

    /// Whether `value` is what this builder builds.
    pub open spec fn builds(self, value: Distribution) -> bool {
        &&& self.resource == Some(value.resource)
    }

    /// Gives the resource.
    pub fn resource(self, value: Resource) -> (r: DistributionBuilder)
        ensures
            r == (DistributionBuilder { resource: Some(value), ..self }),
    {
        let mut next = self;
        next.resource = Some(value);
        next
    }

    /// Hands out the entity, or names the first mandatory field that is missing.
    pub fn build(self) -> (r: Result<Distribution, Error>)
        ensures
            match r {
                Ok(value) => self.missing() is None && self.builds(value),
                Err(e) => e matches Error::Construction(field) && self.missing() == Some(field@),
            },
    {
        let resource = match self.resource {
            Some(value) => value,
            None => return Err(Error::Construction(String::from_str("resource"))),
        };
        Ok(
            Distribution {
                resource,
            },
        )
    }
}

/// Collects the fields of a `data` term.
#[derive(Debug)]
pub struct DataContextBuilder {
    pub id: Option<Id>,
    pub type_: Option<Text>,
}

impl DataContext {
    /// A builder with no field given yet.
    pub fn builder() -> (r: DataContextBuilder)
        ensures
            r == DataContextBuilder::empty(),
    {
        DataContextBuilder {
            id: None,
            type_: None,
        }
    }
}

impl Default for DataContextBuilder {
    fn default() -> (r: DataContextBuilder)
        ensures
            r == DataContextBuilder::empty(),
    {
        DataContext::builder()
    }
}

impl DataContextBuilder {
    /// The builder that holds nothing.
    pub open spec fn empty() -> DataContextBuilder {
        DataContextBuilder {
            id: None,
            type_: None,
        }
    }

    /// The first mandatory field that has not been given, if any.
    pub open spec fn missing(self) -> Option<Seq<char>> {
        if self.id is None {
            Some("id"@)
        } else if self.type_ is None {
            Some("type_"@)
        } else {
            None
        }
    }

    /// Whether `value` is what this builder builds.
    pub open spec fn builds(self, value: DataContext) -> bool {
        &&& self.id == Some(value.id)
        &&& self.type_ == Some(value.type_)
    }

    /// Gives the id.
    pub fn id(self, value: Id) -> (r: DataContextBuilder)
        ensures
            r == (DataContextBuilder { id: Some(value), ..self }),
    {
        let mut next = self;
        next.id = Some(value);
        next
    }

    /// Gives the type.
    pub fn type_(self, value: Text) -> (r: DataContextBuilder)
        ensures
            r == (DataContextBuilder { type_: Some(value), ..self }),
    {
        let mut next = self;
        next.type_ = Some(value);
        next
    }

    /// Hands out the entity, or names the first mandatory field that is missing.
    pub fn build(self) -> (r: Result<DataContext, Error>)
        ensures
            match r {
                Ok(value) => self.missing() is None && self.builds(value),
                Err(e) => e matches Error::Construction(field) && self.missing() == Some(field@),
            },
    {
        let id = match self.id {
            Some(value) => value,
            None => return Err(Error::Construction(String::from_str("id"))),
        };
        let type_ = match self.type_ {
            Some(value) => value,
            None => return Err(Error::Construction(String::from_str("type_"))),
        };
        Ok(
            DataContext {
                id,
                type_,
            },
        )
    }
}

/// Collects the fields of a `dataType` term.
#[derive(Debug)]
pub struct DataTypeContextBuilder {
    pub id: Option<Id>,
    pub type_: Option<Text>,
}

impl DataTypeContext {
    /// A builder with no field given yet.
    pub fn builder() -> (r: DataTypeContextBuilder)
        ensures
            r == DataTypeContextBuilder::empty(),
    {
        DataTypeContextBuilder {
            id: None,
            type_: None,
        }
    }
}

impl Default for DataTypeContextBuilder {
    fn default() -> (r: DataTypeContextBuilder)
        ensures
            r == DataTypeContextBuilder::empty(),
    {
        DataTypeContext::builder()
    }
}

impl DataTypeContextBuilder {
    /// The builder that holds nothing.
    pub open spec fn empty() -> DataTypeContextBuilder {
        DataTypeContextBuilder {
            id: None,
            type_: None,
        }
    }

    /// The first mandatory field that has not been given, if any.
    pub open spec fn missing(self) -> Option<Seq<char>> {
        if self.id is None {
            Some("id"@)
        } else if self.type_ is None {
            Some("type_"@)
        } else {
            None
        }
    }

    /// Whether `value` is what this builder builds.
    pub open spec fn builds(self, value: DataTypeContext) -> bool {
        &&& self.id == Some(value.id)
        &&& self.type_ == Some(value.type_)
    }

    /// Gives the id.
    pub fn id(self, value: Id) -> (r: DataTypeContextBuilder)
        ensures
            r == (DataTypeContextBuilder { id: Some(value), ..self }),
    {
        let mut next = self;
        next.id = Some(value);
        next
    }

    /// Gives the type.
    pub fn type_(self, value: Text) -> (r: DataTypeContextBuilder)
        ensures
            r == (DataTypeContextBuilder { type_: Some(value), ..self }),
    {
        let mut next = self;
        next.type_ = Some(value);
        next
    }

    /// Hands out the entity, or names the first mandatory field that is missing.
    pub fn build(self) -> (r: Result<DataTypeContext, Error>)
        ensures
            match r {
                Ok(value) => self.missing() is None && self.builds(value),
                Err(e) => e matches Error::Construction(field) && self.missing() == Some(field@),
            },
    {
        let id = match self.id {
            Some(value) => value,
            None => return Err(Error::Construction(String::from_str("id"))),
        };
        let type_ = match self.type_ {
            Some(value) => value,
            None => return Err(Error::Construction(String::from_str("type_"))),
        };
        Ok(
            DataTypeContext {
                id,
                type_,
            },
        )
    }
}

/// Collects the fields of a context block.
#[derive(Debug)]
pub struct ContextBuilder {
    pub language: Option<Text>,
    pub vocab: Option<Text>,
    pub sc: Option<Text>,
    pub cr: Option<Text>,
    pub dct: Option<Text>,
    pub cite_as: Option<Text>,
    pub column: Option<Text>,
    pub conforms_to: Option<Text>,
    pub data: Option<DataContext>,
    pub data_type: Option<DataTypeContext>,
}

impl Context {
    /// A builder with no field given yet.
    pub fn builder() -> (r: ContextBuilder)
        ensures
            r == ContextBuilder::empty(),
    {
        ContextBuilder {
            language: None,
            vocab: None,
            sc: None,
            cr: None,
            dct: None,
            cite_as: None,
            column: None,
            conforms_to: None,
            data: None,
            data_type: None,
        }
    }
}

impl Default for ContextBuilder {
    fn default() -> (r: ContextBuilder)
        ensures
            r == ContextBuilder::empty(),
    {
        Context::builder()
    }
}

impl ContextBuilder {
    /// The builder that holds nothing.
    pub open spec fn empty() -> ContextBuilder {
        ContextBuilder {
            language: None,
            vocab: None,
            sc: None,
            cr: None,
            dct: None,
            cite_as: None,
            column: None,
            conforms_to: None,
            data: None,
            data_type: None,
        }
    }

    /// The first mandatory field that has not been given, if any.
    pub open spec fn missing(self) -> Option<Seq<char>> {
        if self.language is None {
            Some("language"@)
        } else if self.vocab is None {
            Some("vocab"@)
        } else if self.sc is None {
            Some("sc"@)
        } else if self.cr is None {
            Some("cr"@)
        } else if self.dct is None {
            Some("dct"@)
        } else if self.cite_as is None {
            Some("cite_as"@)
        } else if self.column is None {
            Some("column"@)
        } else if self.conforms_to is None {
            Some("conforms_to"@)
        } else if self.data is None {
            Some("data"@)
        } else if self.data_type is None {
            Some("data_type"@)
        } else {
            None
        }
    }

    /// Whether `value` is what this builder builds.
    pub open spec fn builds(self, value: Context) -> bool {
        &&& self.language == Some(value.language)
        &&& self.vocab == Some(value.vocab)
        &&& self.sc == Some(value.sc)
        &&& self.cr == Some(value.cr)
        &&& self.dct == Some(value.dct)
        &&& self.cite_as == Some(value.cite_as)
        &&& self.column == Some(value.column)
        &&& self.conforms_to == Some(value.conforms_to)
        &&& self.data == Some(value.data)
        &&& self.data_type == Some(value.data_type)
    }

    /// Gives the language.
    pub fn language(self, value: Text) -> (r: ContextBuilder)
        ensures
            r == (ContextBuilder { language: Some(value), ..self }),
    {
        let mut next = self;
        next.language = Some(value);
        next
    }

    /// Gives the vocab.
    pub fn vocab(self, value: Text) -> (r: ContextBuilder)
        ensures
            r == (ContextBuilder { vocab: Some(value), ..self }),
    {
        let mut next = self;
        next.vocab = Some(value);
        next
    }

    /// Gives the sc.
    pub fn sc(self, value: Text) -> (r: ContextBuilder)
        ensures
            r == (ContextBuilder { sc: Some(value), ..self }),
    {
        let mut next = self;
        next.sc = Some(value);
        next
    }

    /// Gives the cr.
    pub fn cr(self, value: Text) -> (r: ContextBuilder)
        ensures
            r == (ContextBuilder { cr: Some(value), ..self }),
    {
        let mut next = self;
        next.cr = Some(value);
        next
    }

    /// Gives the dct.
    pub fn dct(self, value: Text) -> (r: ContextBuilder)
        ensures
            r == (ContextBuilder { dct: Some(value), ..self }),
    {
        let mut next = self;
        next.dct = Some(value);
        next
    }

    /// Gives the cite as.
    pub fn cite_as(self, value: Text) -> (r: ContextBuilder)
        ensures
            r == (ContextBuilder { cite_as: Some(value), ..self }),
    {
        let mut next = self;
        next.cite_as = Some(value);
        next
    }

    /// Gives the column.
    pub fn column(self, value: Text) -> (r: ContextBuilder)
        ensures
            r == (ContextBuilder { column: Some(value), ..self }),
    {
        let mut next = self;
        next.column = Some(value);
        next
    }

    /// Gives the conforms to.
    pub fn conforms_to(self, value: Text) -> (r: ContextBuilder)
        ensures
            r == (ContextBuilder { conforms_to: Some(value), ..self }),
    {
        let mut next = self;
        next.conforms_to = Some(value);
        next
    }

    /// Gives the data.
    pub fn data(self, value: DataContext) -> (r: ContextBuilder)
        ensures
            r == (ContextBuilder { data: Some(value), ..self }),
    {
        let mut next = self;
        next.data = Some(value);
        next
    }

    /// Gives the data type.
    pub fn data_type(self, value: DataTypeContext) -> (r: ContextBuilder)
        ensures
            r == (ContextBuilder { data_type: Some(value), ..self }),
    {
        let mut next = self;
        next.data_type = Some(value);
        next
    }

    /// Hands out the entity, or names the first mandatory field that is missing.
    pub fn build(self) -> (r: Result<Context, Error>)
        ensures
            match r {
                Ok(value) => self.missing() is None && self.builds(value),
                Err(e) => e matches Error::Construction(field) && self.missing() == Some(field@),
            },
    {
        let language = match self.language {
            Some(value) => value,
            None => return Err(Error::Construction(String::from_str("language"))),
        };
        let vocab = match self.vocab {
            Some(value) => value,
            None => return Err(Error::Construction(String::from_str("vocab"))),
        };
        let sc = match self.sc {
            Some(value) => value,
            None => return Err(Error::Construction(String::from_str("sc"))),
        };
        let cr = match self.cr {
            Some(value) => value,
            None => return Err(Error::Construction(String::from_str("cr"))),
        };
        let dct = match self.dct {
            Some(value) => value,
            None => return Err(Error::Construction(String::from_str("dct"))),
        };
        let cite_as = match self.cite_as {
            Some(value) => value,
            None => return Err(Error::Construction(String::from_str("cite_as"))),
        };
        let column = match self.column {
            Some(value) => value,
            None => return Err(Error::Construction(String::from_str("column"))),
        };
        let conforms_to = match self.conforms_to {
            Some(value) => value,
            None => return Err(Error::Construction(String::from_str("conforms_to"))),
        };
        let data = match self.data {
            Some(value) => value,
            None => return Err(Error::Construction(String::from_str("data"))),
        };
        let data_type = match self.data_type {
            Some(value) => value,
            None => return Err(Error::Construction(String::from_str("data_type"))),
        };
        Ok(
            Context {
                language,
                vocab,
                sc,
                cr,
                dct,
                cite_as,
                column,
                conforms_to,
                data,
                data_type,
            },
        )
    }
}

/// Collects the fields of a dataset description.
#[derive(Debug)]
pub struct MetadataBuilder {
    pub context: Option<Context>,
    pub kind: Option<CroissantType>,
    pub name: Option<Text>,
    pub description: Option<Text>,
    pub conforms_to: Option<Text>,
    pub date_published: Option<Text>,
    pub version: Option<Text>,
    pub distribution: Option<Vec<Distribution>>,
    pub record_sets: Option<Vec<RecordSet>>,
}

impl Metadata {
    /// A builder with no field given yet.
    pub fn builder() -> (r: MetadataBuilder)
        ensures
            r == MetadataBuilder::empty(),
    {
        MetadataBuilder {
            context: None,
            kind: None,
            name: None,
            description: None,
            conforms_to: None,
            date_published: None,
            version: None,
            distribution: None,
            record_sets: None,
        }
    }
}

impl Default for MetadataBuilder {
    fn default() -> (r: MetadataBuilder)
        ensures
            r == MetadataBuilder::empty(),
    {
        Metadata::builder()
    }
}

impl MetadataBuilder {
    /// The builder that holds nothing.
    pub open spec fn empty() -> MetadataBuilder {
        MetadataBuilder {
            context: None,
            kind: None,
            name: None,
            description: None,
            conforms_to: None,
            date_published: None,
            version: None,
            distribution: None,
            record_sets: None,
        }
    }

    /// The first mandatory field that has not been given, if any.
    pub open spec fn missing(self) -> Option<Seq<char>> {
        if self.context is None {
            Some("context"@)
        } else if self.kind is None {
            Some("kind"@)
        } else if self.name is None {
            Some("name"@)
        } else if self.description is None {
            Some("description"@)
        } else if self.conforms_to is None {
            Some("conforms_to"@)
        } else if self.version is None {
            Some("version"@)
        } else if self.distribution is None {
            Some("distribution"@)
        } else if self.record_sets is None {
            Some("record_sets"@)
        } else {
            None
        }
    }

    /// Whether `value` is what this builder builds.
    pub open spec fn builds(self, value: Metadata) -> bool {
        &&& self.context == Some(value.context)
        &&& self.kind == Some(value.kind)
        &&& self.name == Some(value.name)
        &&& self.description == Some(value.description)
        &&& self.conforms_to == Some(value.conforms_to)
        &&& self.date_published == value.date_published
        &&& self.version == Some(value.version)
        &&& self.distribution == Some(value.distribution)
        &&& self.record_sets == Some(value.record_sets)
    }

    /// Gives the context.
    pub fn context(self, value: Context) -> (r: MetadataBuilder)
        ensures
            r == (MetadataBuilder { context: Some(value), ..self }),
    {
        let mut next = self;
        next.context = Some(value);
        next
    }

    /// Gives the kind.
    pub fn kind(self, value: CroissantType) -> (r: MetadataBuilder)
        ensures
            r == (MetadataBuilder { kind: Some(value), ..self }),
    {
        let mut next = self;
        next.kind = Some(value);
        next
    }

    /// Gives the name.
    pub fn name(self, value: Text) -> (r: MetadataBuilder)
        ensures
            r == (MetadataBuilder { name: Some(value), ..self }),
    {
        let mut next = self;
        next.name = Some(value);
        next
    }

    /// Gives the description.
    pub fn description(self, value: Text) -> (r: MetadataBuilder)
        ensures
            r == (MetadataBuilder { description: Some(value), ..self }),
    {
        let mut next = self;
        next.description = Some(value);
        next
    }

    /// Gives the conforms to.
    pub fn conforms_to(self, value: Text) -> (r: MetadataBuilder)
        ensures
            r == (MetadataBuilder { conforms_to: Some(value), ..self }),
    {
        let mut next = self;
        next.conforms_to = Some(value);
        next
    }

    /// Gives the date published, or says that there is none.
    pub fn date_published(self, value: Option<Text>) -> (r: MetadataBuilder)
        ensures
            r == (MetadataBuilder { date_published: value, ..self }),
    {
        let mut next = self;
        next.date_published = value;
        next
    }

    /// Gives the version.
    pub fn version(self, value: Text) -> (r: MetadataBuilder)
        ensures
            r == (MetadataBuilder { version: Some(value), ..self }),
    {
        let mut next = self;
        next.version = Some(value);
        next
    }

    /// Gives the distribution.
    pub fn distribution(self, value: Vec<Distribution>) -> (r: MetadataBuilder)
        ensures
            r == (MetadataBuilder { distribution: Some(value), ..self }),
    {
        let mut next = self;
        next.distribution = Some(value);
        next
    }

    /// Gives the record sets.
    pub fn record_sets(self, value: Vec<RecordSet>) -> (r: MetadataBuilder)
        ensures
            r == (MetadataBuilder { record_sets: Some(value), ..self }),
    {
        let mut next = self;
        next.record_sets = Some(value);
        next
    }

    /// Hands out the entity, or names the first mandatory field that is missing.
    pub fn build(self) -> (r: Result<Metadata, Error>)
        ensures
            match r {
                Ok(value) => self.missing() is None && self.builds(value),
                Err(e) => e matches Error::Construction(field) && self.missing() == Some(field@),
            },
    {
        let context = match self.context {
            Some(value) => value,
            None => return Err(Error::Construction(String::from_str("context"))),
        };
        let kind = match self.kind {
            Some(value) => value,
            None => return Err(Error::Construction(String::from_str("kind"))),
        };
        let name = match self.name {
            Some(value) => value,
            None => return Err(Error::Construction(String::from_str("name"))),
        };
        let description = match self.description {
            Some(value) => value,
            None => return Err(Error::Construction(String::from_str("description"))),
        };
        let conforms_to = match self.conforms_to {
            Some(value) => value,
            None => return Err(Error::Construction(String::from_str("conforms_to"))),
        };
        let version = match self.version {
            Some(value) => value,
            None => return Err(Error::Construction(String::from_str("version"))),
        };
        let distribution = match self.distribution {
            Some(value) => value,
            None => return Err(Error::Construction(String::from_str("distribution"))),
        };
        let record_sets = match self.record_sets {
            Some(value) => value,
            None => return Err(Error::Construction(String::from_str("record_sets"))),
        };
        Ok(
            Metadata {
                context,
                kind,
                name,
                description,
                conforms_to,
                date_published: self.date_published,
                version,
                distribution,
                record_sets,
            },
        )
    }
}

} // verus!
