//! Reading a tree out of a JSON value and writing it back.
//!
//! Each function here does what the function of the same name in
//! [`crate::wire`] says: a decoder returns `Ok` with the entity that the
//! format assigns to the value, and `Err(Error::Decode(..))` exactly when
//! the format assigns none. [`Metadata::is_well_formed`] tells whether a
//! tree is one that decoding can give back.

use vstd::prelude::*;
use vstd::string::*;
use crate::chars::push_char;
use crate::decoded::lemma_decoded_is_well_formed;
use crate::digest::is_valid_sha256;
use crate::errors::Error;
use crate::json::{member, Json, JsonView, Member};
use crate::model::{
    BoundingBoxFormat, Context, CrType, CroissantType, DataContext, DataType, DataTypeContext,
    Distribution, Extract, Field, FieldRef, FieldSource, FileObject, FileProperty, FileSet,
    Metadata, RecordSet, Ref, Resource, SourceRef, Transform, ValueFormat,
};
use crate::text::{str_eq, Text};
use crate::wire;

verus! {

/// Whether the outcome of a decoder is the one that the format asks for:
/// the entity that `wanted` holds, or a decode error if it holds none.
pub open spec fn agrees<T: DeepView>(r: Result<T, Error>, wanted: Option<T::V>) -> bool {
    match r {
        Ok(v) => wanted == Some(v.deep_view()),
        Err(e) => wanted is None && e is Decode,
    }
}

/// The decode error that says `what` was wrong.
fn refuse(what: &str) -> (e: Error)
    ensures
        e matches Error::Decode(place) && place@ == what@,
{
    Error::Decode(String::from_str(what))
}

/// The member named `key`, or a decode error if there is none.
fn need<'a>(j: &'a Json, key: &str) -> (r: Result<&'a Json, Error>)
    ensures
        match r {
            Ok(x) => member(j@, key@) == Some(x@),
            Err(e) => member(j@, key@) is None && e is Decode,
        },
{
    match j.get(key) {
        Some(x) => Ok(x),
        None => Err(Error::Decode(String::from_str(key))),
    }
}

fn entry(key: &str, value: Json) -> (m: Member)
    ensures
        m.key@ == key@,
        m.value == value,
{
    Member { key: String::from_str(key), value }
}

fn empty_list<T: DeepView>() -> (v: Vec<T>)
    ensures
        v.deep_view() == Seq::<T::V>::empty(),
{
    let v: Vec<T> = Vec::new();
    v
}

/// The members of an object, as the view of the object holds them.
pub open spec fn members_view(members: Vec<Member>) -> Seq<(Seq<char>, JsonView)> {
    Seq::new(members@.len(), |i: int| (members@[i].key@, members@[i].value@))
}

proof fn lemma_array_view(items: Vec<Json>)
    ensures
        Json::Array(items)@ == JsonView::Array(items.deep_view()),
{
    assert(Json::Array(items)@->Array_0 =~= items.deep_view());
}

proof fn lemma_object_view(members: Vec<Member>)
    ensures
        Json::Object(members)@ == JsonView::Object(members_view(members)),
{
    assert(Json::Object(members)@->Object_0 =~= members_view(members));
}

/// Writes a text.
pub fn encode_text(v: &Text) -> (j: Json)
    ensures
        j@ == wire::encode_text(v@),
{
    Json::Str(v.0.clone())
}

/// Reads a text.
pub fn decode_text(j: &Json) -> (r: Result<Text, Error>)
    ensures
        agrees(r, wire::decode_text(j@)),
{
    match j {
        Json::Str(s) => {
            if s.as_str().is_empty() {
                Err(refuse("a text must not be empty"))
            } else {
                Ok(Text(s.clone()))
            }
        },
        _ => Err(refuse("a string is expected")),
    }
}

fn encode_digest(v: &String) -> (j: Json)
    ensures
        j@ == wire::encode_digest(v@),
{
    Json::Str(v.clone())
}

fn decode_digest(j: &Json) -> (r: Result<String, Error>)
    ensures
        agrees(r, wire::decode_digest(j@)),
{
    match j {
        Json::Str(s) => {
            if is_valid_sha256(s.as_str()) {
                Ok(s.clone())
            } else {
                Err(refuse("a digest must be 64 hexadecimal digits"))
            }
        },
        _ => Err(refuse("a string is expected")),
    }
}

fn encode_bool(v: &bool) -> (j: Json)
    ensures
        j@ == wire::encode_bool(*v),
{
    Json::Bool(*v)
}

fn decode_bool(j: &Json) -> (r: Result<bool, Error>)
    ensures
        agrees(r, wire::decode_bool(j@)),
{
    match j {
        Json::Bool(b) => Ok(*b),
        _ => Err(refuse("true or false is expected")),
    }
}

fn encode_char(c: char) -> (j: Json)
    ensures
        j@ == wire::encode_char(c),
{
    let mut s = String::new();
    push_char(&mut s, c);
    Json::Str(s)
}

fn decode_char(j: &Json) -> (r: Result<char, Error>)
    ensures
        agrees(r, wire::decode_char(j@)),
{
    match j {
        Json::Str(s) => {
            if s.as_str().unicode_len() == 1 {
                Ok(s.as_str().get_char(0))
            } else {
                Err(refuse("a single character is expected"))
            }
        },
        _ => Err(refuse("a string is expected")),
    }
}

/// Writes the root's type tag.
pub fn encode_croissant_type(v: &CroissantType) -> (j: Json)
    ensures
        j@ == wire::encode_croissant_type(*v),
{
    let token = match v {
        CroissantType::Dataset => "sc:Dataset",
    };
    Json::Str(String::from_str(token))
}

fn croissant_type_named(s: &str) -> (r: Option<CroissantType>)
    ensures
        r == wire::croissant_type_named(s@),
{
    if str_eq(s, "sc:Dataset") {
        Some(CroissantType::Dataset)
    } else {
        None
    }
}

/// Reads the root's type tag.
pub fn decode_croissant_type(j: &Json) -> (r: Result<CroissantType, Error>)
    ensures
        agrees(r, wire::decode_croissant_type(j@)),
{
    match j {
        Json::Str(s) => match croissant_type_named(s.as_str()) {
            Some(v) => Ok(v),
            None => Err(refuse("an unknown token")),
        },
        _ => Err(refuse("a string is expected")),
    }
}

/// Writes a type tag.
pub fn encode_cr_type(v: &CrType) -> (j: Json)
    ensures
        j@ == wire::encode_cr_type(*v),
{
    let token = match v {
        CrType::RecordSet => "cr:RecordSet",
        CrType::Field => "cr:Field",
        CrType::FileObject => "cr:FileObject",
        CrType::FileSet => "cr:FileSet",
    };
    Json::Str(String::from_str(token))
}

fn cr_type_named(s: &str) -> (r: Option<CrType>)
    ensures
        r == wire::cr_type_named(s@),
{
    if str_eq(s, "cr:RecordSet") {
        Some(CrType::RecordSet)
    } else if str_eq(s, "cr:Field") {
        Some(CrType::Field)
    } else if str_eq(s, "cr:FileObject") {
        Some(CrType::FileObject)
    } else if str_eq(s, "cr:FileSet") {
        Some(CrType::FileSet)
    } else {
        None
    }
}

/// Reads a type tag.
pub fn decode_cr_type(j: &Json) -> (r: Result<CrType, Error>)
    ensures
        agrees(r, wire::decode_cr_type(j@)),
{
    match j {
        Json::Str(s) => match cr_type_named(s.as_str()) {
            Some(v) => Ok(v),
            None => Err(refuse("an unknown token")),
        },
        _ => Err(refuse("a string is expected")),
    }
}

/// Writes a bounding-box layout.
pub fn encode_bounding_box_format(v: &BoundingBoxFormat) -> (j: Json)
    ensures
        j@ == wire::encode_bounding_box_format(*v),
{
    let token = match v {
        BoundingBoxFormat::CenterXywh => "CenterXywh",
        BoundingBoxFormat::Xywh => "Xywh",
        BoundingBoxFormat::Xyxy => "Xyxy",
    };
    Json::Str(String::from_str(token))
}

fn bounding_box_format_named(s: &str) -> (r: Option<BoundingBoxFormat>)
    ensures
        r == wire::bounding_box_format_named(s@),
{
    if str_eq(s, "CenterXywh") {
        Some(BoundingBoxFormat::CenterXywh)
    } else if str_eq(s, "Xywh") {
        Some(BoundingBoxFormat::Xywh)
    } else if str_eq(s, "Xyxy") {
        Some(BoundingBoxFormat::Xyxy)
    } else {
        None
    }
}

/// Reads a bounding-box layout.
pub fn decode_bounding_box_format(j: &Json) -> (r: Result<BoundingBoxFormat, Error>)
    ensures
        agrees(r, wire::decode_bounding_box_format(j@)),
{
    match j {
        Json::Str(s) => match bounding_box_format_named(s.as_str()) {
            Some(v) => Ok(v),
            None => Err(refuse("an unknown token")),
        },
        _ => Err(refuse("a string is expected")),
    }
}

/// Writes a file property.
pub fn encode_file_property(v: &FileProperty) -> (j: Json)
    ensures
        j@ == wire::encode_file_property(*v),
{
    let token = match v {
        FileProperty::FullPath => "fullpath",
        FileProperty::FileName => "filename",
        FileProperty::Content => "content",
        FileProperty::Lines => "lines",
        FileProperty::LineNumbers => "lineNumbers",
    };
    Json::Str(String::from_str(token))
}

fn file_property_named(s: &str) -> (r: Option<FileProperty>)
    ensures
        r == wire::file_property_named(s@),
{
    if str_eq(s, "fullpath") {
        Some(FileProperty::FullPath)
    } else if str_eq(s, "filename") {
        Some(FileProperty::FileName)
    } else if str_eq(s, "content") {
        Some(FileProperty::Content)
    } else if str_eq(s, "lines") {
        Some(FileProperty::Lines)
    } else if str_eq(s, "lineNumbers") {
        Some(FileProperty::LineNumbers)
    } else {
        None
    }
}

/// Reads a file property.
pub fn decode_file_property(j: &Json) -> (r: Result<FileProperty, Error>)
    ensures
        agrees(r, wire::decode_file_property(j@)),
{
    match j {
        Json::Str(s) => match file_property_named(s.as_str()) {
            Some(v) => Ok(v),
            None => Err(refuse("an unknown token")),
        },
        _ => Err(refuse("a string is expected")),
    }
}

/// Writes a data type.
pub fn encode_data_type(v: &DataType) -> (j: Json)
    ensures
        j@ == wire::encode_data_type(v@),
{
    match v {
        DataType::Enumeration => Json::Str(String::from_str("sc:Enumeration")),
        DataType::Boolean => Json::Str(String::from_str("sc:Boolean")),
        DataType::Integer => Json::Str(String::from_str("sc:Integer")),
        DataType::Float => Json::Str(String::from_str("sc:Float")),
        DataType::Text => Json::Str(String::from_str("sc:Text")),
        DataType::Date => Json::Str(String::from_str("sc:Date")),
        DataType::DateTime => Json::Str(String::from_str("sc:DateTime")),
        DataType::Url => Json::Str(String::from_str("sc:URL")),
        DataType::ImageObject => Json::Str(String::from_str("sc:ImageObject")),
        DataType::Split => Json::Str(String::from_str("cr:Split")),
        DataType::Label => Json::Str(String::from_str("cr:Label")),
        DataType::BoundingBox(format) => encode_bounding_box_format(format),
        DataType::CustomIri(iri) => encode_text(iri),
    }
}

fn data_type_named(s: &str) -> (r: Option<DataType>)
    ensures
        r.deep_view() == wire::data_type_named(s@),
{
    if str_eq(s, "sc:Enumeration") {
        Some(DataType::Enumeration)
    } else if str_eq(s, "sc:Boolean") {
        Some(DataType::Boolean)
    } else if str_eq(s, "sc:Integer") {
        Some(DataType::Integer)
    } else if str_eq(s, "sc:Float") {
        Some(DataType::Float)
    } else if str_eq(s, "sc:Text") {
        Some(DataType::Text)
    } else if str_eq(s, "sc:Date") {
        Some(DataType::Date)
    } else if str_eq(s, "sc:DateTime") {
        Some(DataType::DateTime)
    } else if str_eq(s, "sc:URL") {
        Some(DataType::Url)
    } else if str_eq(s, "sc:ImageObject") {
        Some(DataType::ImageObject)
    } else if str_eq(s, "cr:Split") {
        Some(DataType::Split)
    } else if str_eq(s, "cr:Label") {
        Some(DataType::Label)
    } else {
        match bounding_box_format_named(s) {
            Some(format) => Some(DataType::BoundingBox(format)),
            None => None,
        }
    }
}

/// Reads a data type.
pub fn decode_data_type(j: &Json) -> (r: Result<DataType, Error>)
    ensures
        agrees(r, wire::decode_data_type(j@)),
{
    match j {
        Json::Str(s) => match data_type_named(s.as_str()) {
            Some(t) => Ok(t),
            None => {
                if s.as_str().is_empty() {
                    Err(refuse("a type must not be empty"))
                } else {
                    Ok(DataType::CustomIri(Text(s.clone())))
                }
            },
        },
        _ => Err(refuse("a string is expected")),
    }
}

/// Writes a reference.
pub fn encode_ref(v: &Ref) -> (j: Json)
    ensures
        j@ == wire::encode_ref(v@),
{
    let mut members: Vec<Member> = Vec::new();
    members.push(entry("@id", encode_text(&v.id)));
    proof {
        lemma_object_view(members);
        assert(members_view(members) =~= wire::encode_ref(v@)->Object_0);
    }
    Json::Object(members)
}

/// Reads a reference.
pub fn decode_ref(j: &Json) -> (r: Result<Ref, Error>)
    ensures
        agrees(r, wire::decode_ref(j@)),
{
    Ok(Ref { id: decode_text(need(j, "@id")?)? })
}

/// Writes a reference to a field.
pub fn encode_field_ref(v: &FieldRef) -> (j: Json)
    ensures
        j@ == wire::encode_field_ref(v@),
{
    let mut members: Vec<Member> = Vec::new();
    members.push(entry("field", encode_ref(&v.field)));
    proof {
        lemma_object_view(members);
        assert(members_view(members) =~= wire::encode_field_ref(v@)->Object_0);
    }
    Json::Object(members)
}

/// Reads a reference to a field.
pub fn decode_field_ref(j: &Json) -> (r: Result<FieldRef, Error>)
    ensures
        agrees(r, wire::decode_field_ref(j@)),
{
    Ok(FieldRef { field: decode_ref(need(j, "field")?)? })
}

/// The reference at `key`, if `j` holds one there.
fn ref_at(j: &Json, key: &str) -> (r: Option<Ref>)
    ensures
        r.deep_view() == wire::required(
            member(j@, key@),
            |x: JsonView| wire::decode_ref(x),
        ),
{
    match j.get(key) {
        Some(x) => match decode_ref(x) {
            Ok(v) => Some(v),
            Err(_) => None,
        },
        None => None,
    }
}

fn source_ref_entry(v: &SourceRef) -> (m: Member)
    ensures
        (m.key@, m.value@) == wire::source_ref_member(v@),
{
    match v {
        SourceRef::FileObject { file_object } => entry("fileObject", encode_ref(file_object)),
        SourceRef::FileSet { file_set } => entry("fileSet", encode_ref(file_set)),
        SourceRef::RecordSet { record_set } => entry("recordSet", encode_ref(record_set)),
    }
}

/// Reads a source reference.
pub fn decode_source_ref(j: &Json) -> (r: Result<SourceRef, Error>)
    ensures
        agrees(r, wire::decode_source_ref(j@)),
{
    match ref_at(j, "fileObject") {
        Some(file_object) => Ok(SourceRef::FileObject { file_object }),
        None => match ref_at(j, "fileSet") {
            Some(file_set) => Ok(SourceRef::FileSet { file_set }),
            None => match ref_at(j, "recordSet") {
                Some(record_set) => Ok(SourceRef::RecordSet { record_set }),
                None => Err(refuse("one of fileObject, fileSet and recordSet is needed")),
            },
        },
    }
}

/// The text at `key`, if `j` holds one there.
fn text_at(j: &Json, key: &str) -> (r: Option<Text>)
    ensures
        r.deep_view() == wire::required(
            member(j@, key@),
            |x: JsonView| wire::decode_text(x),
        ),
{
    match j.get(key) {
        Some(x) => match decode_text(x) {
            Ok(v) => Some(v),
            Err(_) => None,
        },
        None => None,
    }
}

/// Writes an extraction.
pub fn encode_extract(v: &Extract) -> (j: Json)
    ensures
        j@ == wire::encode_extract(v@),
{
    let mut members: Vec<Member> = Vec::new();
    match v {
        Extract::Column { name } => members.push(entry("column", encode_text(name))),
        Extract::FileProperty { property } => members.push(
            entry("fileProperty", encode_file_property(property)),
        ),
        Extract::JsonPath { expr } => members.push(entry("jsonPath", encode_text(expr))),
    }
    proof {
        lemma_object_view(members);
        assert(members_view(members) =~= wire::encode_extract(v@)->Object_0);
    }
    Json::Object(members)
}

/// Reads an extraction.
pub fn decode_extract(j: &Json) -> (r: Result<Extract, Error>)
    ensures
        agrees(r, wire::decode_extract(j@)),
{
    match text_at(j, "column") {
        Some(name) => Ok(Extract::Column { name }),
        None => {
            let property = match j.get("fileProperty") {
                Some(x) => match decode_file_property(x) {
                    Ok(v) => Some(v),
                    Err(_) => None,
                },
                None => None,
            };
            match property {
                Some(property) => Ok(Extract::FileProperty { property }),
                None => match text_at(j, "jsonPath") {
                    Some(expr) => Ok(Extract::JsonPath { expr }),
                    None => Err(refuse("one of column, fileProperty and jsonPath is needed")),
                },
            }
        },
    }
}

/// Writes a transformation.
pub fn encode_transform(v: &Transform) -> (j: Json)
    ensures
        j@ == wire::encode_transform(v@),
{
    let mut members: Vec<Member> = Vec::new();
    match v {
        Transform::Regex { pattern } => members.push(entry("regex", encode_text(pattern))),
        Transform::Delimiter { char } => members.push(entry("delimiter", encode_char(*char))),
        Transform::JsonQuery { query } => members.push(entry("jsonQuery", encode_text(query))),
    }
    proof {
        lemma_object_view(members);
        assert(members_view(members) =~= wire::encode_transform(v@)->Object_0);
    }
    Json::Object(members)
}

/// Reads a transformation.
pub fn decode_transform(j: &Json) -> (r: Result<Transform, Error>)
    ensures
        agrees(r, wire::decode_transform(j@)),
{
    match text_at(j, "regex") {
        Some(pattern) => Ok(Transform::Regex { pattern }),
        None => {
            let delimiter = match j.get("delimiter") {
                Some(x) => match decode_char(x) {
                    Ok(v) => Some(v),
                    Err(_) => None,
                },
                None => None,
            };
            match delimiter {
                Some(char) => Ok(Transform::Delimiter { char }),
                None => match text_at(j, "jsonQuery") {
                    Some(query) => Ok(Transform::JsonQuery { query }),
                    None => Err(refuse("one of regex, delimiter and jsonQuery is needed")),
                },
            }
        },
    }
}

/// Writes a value format.
pub fn encode_value_format(v: &ValueFormat) -> (j: Json)
    ensures
        j@ == wire::encode_value_format(v@),
{
    let mut members: Vec<Member> = Vec::new();
    match v {
        ValueFormat::Date { pattern } => {
            members.push(entry("kind", Json::Str(String::from_str("date"))));
            members.push(entry("pattern", encode_text(pattern)));
        },
        ValueFormat::Number { pattern } => {
            members.push(entry("kind", Json::Str(String::from_str("number"))));
            members.push(entry("pattern", encode_text(pattern)));
        },
        ValueFormat::BoundingBox { format } => {
            members.push(entry("kind", Json::Str(String::from_str("bbox"))));
            members.push(entry("format", encode_bounding_box_format(format)));
        },
    }
    proof {
        lemma_object_view(members);
        assert(members_view(members) =~= wire::encode_value_format(v@)->Object_0);
    }
    Json::Object(members)
}

/// Reads a value format.
pub fn decode_value_format(j: &Json) -> (r: Result<ValueFormat, Error>)
    ensures
        agrees(r, wire::decode_value_format(j@)),
{
    let kind = decode_text(need(j, "kind")?)?;
    if str_eq(kind.as_str(), "date") {
        Ok(ValueFormat::Date { pattern: decode_text(need(j, "pattern")?)? })
    } else if str_eq(kind.as_str(), "number") {
        Ok(ValueFormat::Number { pattern: decode_text(need(j, "pattern")?)? })
    } else if str_eq(kind.as_str(), "bbox") {
        Ok(ValueFormat::BoundingBox { format: decode_bounding_box_format(need(j, "format")?)? })
    } else {
        Err(refuse("an unknown kind of format"))
    }
}

fn decode_text_items(items: &Vec<Json>) -> (r: Result<Vec<Text>, Error>)
    ensures
        agrees(r, wire::decode_texts(JsonView::Array(items.deep_view()))),
{
    let mut out: Vec<Text> = Vec::new();
    let mut i: usize = 0;
    while i < items.len()
        invariant
            0 <= i <= items@.len(),
            out@.len() == i,
            forall|k: int|
                0 <= k < i ==> wire::decode_text(#[trigger] items.deep_view()[k]) == Some(
                    out@[k].deep_view(),
                ),
        decreases items@.len() - i,
    {
        match decode_text(&items[i]) {
            Ok(v) => {
                out.push(v);
            },
            Err(e) => {
                assert(wire::decode_text(items.deep_view()[i as int]) is None);
                return Err(e);
            },
        }
        i += 1;
    }
    assert(wire::decode_texts(JsonView::Array(items.deep_view()))->0 =~= out.deep_view());
    Ok(out)
}

/// Reads a list of texts.
pub fn decode_texts(j: &Json) -> (r: Result<Vec<Text>, Error>)
    ensures
        agrees(r, wire::decode_texts(j@)),
{
    match j {
        Json::Array(items) => {
            proof {
                lemma_array_view(*items);
            }
            decode_text_items(items)
        },
        _ => Err(refuse("an array is expected")),
    }
}

/// Writes a list of texts.
pub fn encode_texts(vs: &Vec<Text>) -> (j: Json)
    ensures
        j@ == wire::encode_texts(vs.deep_view()),
{
    let mut items: Vec<Json> = Vec::new();
    let mut i: usize = 0;
    while i < vs.len()
        invariant
            0 <= i <= vs@.len(),
            items@.len() == i,
            forall|k: int|
                0 <= k < i ==> (#[trigger] items@[k])@ == wire::encode_text(
                    vs@[k].deep_view(),
                ),
        decreases vs@.len() - i,
    {
        items.push(encode_text(&vs[i]));
        i += 1;
    }
    proof {
        lemma_array_view(items);
        assert(items.deep_view() =~= wire::encode_texts(vs.deep_view())->Array_0);
    }
    Json::Array(items)
}

fn decode_data_type_items(items: &Vec<Json>) -> (r: Result<Vec<DataType>, Error>)
    ensures
        agrees(r, wire::decode_data_types(JsonView::Array(items.deep_view()))),
{
    let mut out: Vec<DataType> = Vec::new();
    let mut i: usize = 0;
    while i < items.len()
        invariant
            0 <= i <= items@.len(),
            out@.len() == i,
            forall|k: int|
                0 <= k < i ==> wire::decode_data_type(#[trigger] items.deep_view()[k]) == Some(
                    out@[k].deep_view(),
                ),
        decreases items@.len() - i,
    {
        match decode_data_type(&items[i]) {
            Ok(v) => {
                out.push(v);
            },
            Err(e) => {
                assert(wire::decode_data_type(items.deep_view()[i as int]) is None);
                return Err(e);
            },
        }
        i += 1;
    }
    assert(wire::decode_data_types(JsonView::Array(items.deep_view()))->0 =~= out.deep_view());
    Ok(out)
}

/// Reads a list of data types.
pub fn decode_data_types(j: &Json) -> (r: Result<Vec<DataType>, Error>)
    ensures
        agrees(r, wire::decode_data_types(j@)),
{
    match j {
        Json::Array(items) => {
            proof {
                lemma_array_view(*items);
            }
            decode_data_type_items(items)
        },
        _ => {
            let single = decode_data_type(j)?;
            let ghost view = single.deep_view();
            let mut out: Vec<DataType> = Vec::new();
            out.push(single);
            assert(out.deep_view() =~= seq![view]);
            Ok(out)
        },
    }
}

/// Writes a list of data types.
pub fn encode_data_types(vs: &Vec<DataType>) -> (j: Json)
    ensures
        j@ == wire::encode_data_types(vs.deep_view()),
{
    let mut items: Vec<Json> = Vec::new();
    let mut i: usize = 0;
    while i < vs.len()
        invariant
            0 <= i <= vs@.len(),
            items@.len() == i,
            forall|k: int|
                0 <= k < i ==> (#[trigger] items@[k])@ == wire::encode_data_type(
                    vs@[k].deep_view(),
                ),
        decreases vs@.len() - i,
    {
        items.push(encode_data_type(&vs[i]));
        i += 1;
    }
    proof {
        lemma_array_view(items);
        assert(items.deep_view() =~= wire::encode_data_types(vs.deep_view())->Array_0);
    }
    Json::Array(items)
}

fn decode_ref_items(items: &Vec<Json>) -> (r: Result<Vec<Ref>, Error>)
    ensures
        agrees(r, wire::decode_refs(JsonView::Array(items.deep_view()))),
{
    let mut out: Vec<Ref> = Vec::new();
    let mut i: usize = 0;
    while i < items.len()
        invariant
            0 <= i <= items@.len(),
            out@.len() == i,
            forall|k: int|
                0 <= k < i ==> wire::decode_ref(#[trigger] items.deep_view()[k]) == Some(
                    out@[k].deep_view(),
                ),
        decreases items@.len() - i,
    {
        match decode_ref(&items[i]) {
            Ok(v) => {
                out.push(v);
            },
            Err(e) => {
                assert(wire::decode_ref(items.deep_view()[i as int]) is None);
                return Err(e);
            },
        }
        i += 1;
    }
    assert(wire::decode_refs(JsonView::Array(items.deep_view()))->0 =~= out.deep_view());
    Ok(out)
}

/// Reads a list of references.
pub fn decode_refs(j: &Json) -> (r: Result<Vec<Ref>, Error>)
    ensures
        agrees(r, wire::decode_refs(j@)),
{
    match j {
        Json::Array(items) => {
            proof {
                lemma_array_view(*items);
            }
            decode_ref_items(items)
        },
        _ => {
            let single = decode_ref(j)?;
            let ghost view = single.deep_view();
            let mut out: Vec<Ref> = Vec::new();
            out.push(single);
            assert(out.deep_view() =~= seq![view]);
            Ok(out)
        },
    }
}

/// Writes a list of references.
pub fn encode_refs(vs: &Vec<Ref>) -> (j: Json)
    ensures
        j@ == wire::encode_refs(vs.deep_view()),
{
    let mut items: Vec<Json> = Vec::new();
    let mut i: usize = 0;
    while i < vs.len()
        invariant
            0 <= i <= vs@.len(),
            items@.len() == i,
            forall|k: int|
                0 <= k < i ==> (#[trigger] items@[k])@ == wire::encode_ref(
                    vs@[k].deep_view(),
                ),
        decreases vs@.len() - i,
    {
        items.push(encode_ref(&vs[i]));
        i += 1;
    }
    proof {
        lemma_array_view(items);
        assert(items.deep_view() =~= wire::encode_refs(vs.deep_view())->Array_0);
    }
    Json::Array(items)
}

fn decode_field_ref_items(items: &Vec<Json>) -> (r: Result<Vec<FieldRef>, Error>)
    ensures
        agrees(r, wire::decode_field_refs(JsonView::Array(items.deep_view()))),
{
    let mut out: Vec<FieldRef> = Vec::new();
    let mut i: usize = 0;
    while i < items.len()
        invariant
            0 <= i <= items@.len(),
            out@.len() == i,
            forall|k: int|
                0 <= k < i ==> wire::decode_field_ref(#[trigger] items.deep_view()[k]) == Some(
                    out@[k].deep_view(),
                ),
        decreases items@.len() - i,
    {
        match decode_field_ref(&items[i]) {
            Ok(v) => {
                out.push(v);
            },
            Err(e) => {
                assert(wire::decode_field_ref(items.deep_view()[i as int]) is None);
                return Err(e);
            },
        }
        i += 1;
    }
    assert(wire::decode_field_refs(JsonView::Array(items.deep_view()))->0 =~= out.deep_view());
    Ok(out)
}

/// Reads a list of references to fields.
pub fn decode_field_refs(j: &Json) -> (r: Result<Vec<FieldRef>, Error>)
    ensures
        agrees(r, wire::decode_field_refs(j@)),
{
    match j {
        Json::Array(items) => {
            proof {
                lemma_array_view(*items);
            }
            decode_field_ref_items(items)
        },
        _ => {
            let single = decode_field_ref(j)?;
            let ghost view = single.deep_view();
            let mut out: Vec<FieldRef> = Vec::new();
            out.push(single);
            assert(out.deep_view() =~= seq![view]);
            Ok(out)
        },
    }
}

/// Writes a list of references to fields.
pub fn encode_field_refs(vs: &Vec<FieldRef>) -> (j: Json)
    ensures
        j@ == wire::encode_field_refs(vs.deep_view()),
{
    let mut items: Vec<Json> = Vec::new();
    let mut i: usize = 0;
    while i < vs.len()
        invariant
            0 <= i <= vs@.len(),
            items@.len() == i,
            forall|k: int|
                0 <= k < i ==> (#[trigger] items@[k])@ == wire::encode_field_ref(
                    vs@[k].deep_view(),
                ),
        decreases vs@.len() - i,
    {
        items.push(encode_field_ref(&vs[i]));
        i += 1;
    }
    proof {
        lemma_array_view(items);
        assert(items.deep_view() =~= wire::encode_field_refs(vs.deep_view())->Array_0);
    }
    Json::Array(items)
}

fn decode_transform_items(items: &Vec<Json>) -> (r: Result<Vec<Transform>, Error>)
    ensures
        agrees(r, wire::decode_transforms(JsonView::Array(items.deep_view()))),
{
    let mut out: Vec<Transform> = Vec::new();
    let mut i: usize = 0;
    while i < items.len()
        invariant
            0 <= i <= items@.len(),
            out@.len() == i,
            forall|k: int|
                0 <= k < i ==> wire::decode_transform(#[trigger] items.deep_view()[k]) == Some(
                    out@[k].deep_view(),
                ),
        decreases items@.len() - i,
    {
        match decode_transform(&items[i]) {
            Ok(v) => {
                out.push(v);
            },
            Err(e) => {
                assert(wire::decode_transform(items.deep_view()[i as int]) is None);
                return Err(e);
            },
        }
        i += 1;
    }
    assert(wire::decode_transforms(JsonView::Array(items.deep_view()))->0 =~= out.deep_view());
    Ok(out)
}

/// Reads a list of transformations.
pub fn decode_transforms(j: &Json) -> (r: Result<Vec<Transform>, Error>)
    ensures
        agrees(r, wire::decode_transforms(j@)),
{
    match j {
        Json::Array(items) => {
            proof {
                lemma_array_view(*items);
            }
            decode_transform_items(items)
        },
        _ => Err(refuse("an array is expected")),
    }
}

/// Writes a list of transformations.
pub fn encode_transforms(vs: &Vec<Transform>) -> (j: Json)
    ensures
        j@ == wire::encode_transforms(vs.deep_view()),
{
    let mut items: Vec<Json> = Vec::new();
    let mut i: usize = 0;
    while i < vs.len()
        invariant
            0 <= i <= vs@.len(),
            items@.len() == i,
            forall|k: int|
                0 <= k < i ==> (#[trigger] items@[k])@ == wire::encode_transform(
                    vs@[k].deep_view(),
                ),
        decreases vs@.len() - i,
    {
        items.push(encode_transform(&vs[i]));
        i += 1;
    }
    proof {
        lemma_array_view(items);
        assert(items.deep_view() =~= wire::encode_transforms(vs.deep_view())->Array_0);
    }
    Json::Array(items)
}

/// Writes a field source.
pub fn encode_field_source(v: &FieldSource) -> (j: Json)
    ensures
        j@ == wire::encode_field_source(v@),
{
    let mut members: Vec<Member> = Vec::new();
    members.push(source_ref_entry(&v.source));
    let extract = match &v.extract {
        Some(x) => encode_extract(x),
        None => Json::Null,
    };
    members.push(entry("extract", extract));
    let transform = match &v.transform {
        Some(x) => encode_transforms(x),
        None => Json::Null,
    };
    members.push(entry("transform", transform));
    let format = match &v.format {
        Some(x) => encode_value_format(x),
        None => Json::Null,
    };
    members.push(entry("format", format));
    proof {
        lemma_object_view(members);
        assert(members_view(members) =~= wire::encode_field_source(v@)->Object_0);
    }
    Json::Object(members)
}

/// Reads a field source.
pub fn decode_field_source(j: &Json) -> (r: Result<FieldSource, Error>)
    ensures
        agrees(r, wire::decode_field_source(j@)),
{
    let source = decode_source_ref(j)?;
    let extract = match j.get("extract") {
        None => None,
        Some(Json::Null) => None,
        Some(x) => Some(decode_extract(x)?),
    };
    let transform = match j.get("transform") {
        None => None,
        Some(Json::Null) => None,
        Some(x) => Some(decode_transforms(x)?),
    };
    let format = match j.get("format") {
        None => None,
        Some(Json::Null) => None,
        Some(x) => Some(decode_value_format(x)?),
    };
    Ok(FieldSource { source, extract, transform, format })
}

/// Writes a field.
pub fn encode_field(v: &Field) -> (j: Json)
    ensures
        j@ == wire::encode_field(v@),
    decreases v,
{
    let mut members: Vec<Member> = Vec::new();
    members.push(entry("@id", encode_text(&v.id)));
    members.push(entry("@type", encode_cr_type(&v.kind)));
    members.push(entry("name", encode_text(&v.name)));
    members.push(entry("description", encode_text(&v.description)));
    members.push(entry("dataType", encode_data_types(&v.data_types)));
    members.push(entry("source", encode_field_source(&v.source)));
    members.push(entry("references", encode_field_refs(&v.references)));
    let sub_fields = match &v.sub_fields {
        Some(x) => encode_fields(x),
        None => Json::Null,
    };
    members.push(entry("subField", sub_fields));
    let parent_fields = match &v.parent_fields {
        Some(x) => encode_texts(x),
        None => Json::Null,
    };
    members.push(entry("parentField", parent_fields));
    let repeated = match &v.repeated {
        Some(x) => encode_bool(x),
        None => Json::Null,
    };
    members.push(entry("repeated", repeated));
    let equivalent_properties = match &v.equivalent_properties {
        Some(x) => encode_texts(x),
        None => Json::Null,
    };
    members.push(entry("equivalentProperty", equivalent_properties));
    proof {
        lemma_object_view(members);
        if v.sub_fields is Some {
            assert(v@.sub_fields->0 =~= v.sub_fields->0.deep_view());
        }
        assert(members_view(members) =~= wire::encode_field(v@)->Object_0);
    }
    Json::Object(members)
}

/// Reads a field.
pub fn decode_field(j: &Json) -> (r: Result<Field, Error>)
    ensures
        agrees(r, wire::decode_field(j@)),
    decreases j,
{
    let id = decode_text(need(j, "@id")?)?;
    let kind = decode_cr_type(need(j, "@type")?)?;
    let name = decode_text(need(j, "name")?)?;
    let description = decode_text(need(j, "description")?)?;
    let data_types = decode_data_types(need(j, "dataType")?)?;
    let source = decode_field_source(need(j, "source")?)?;
    let references = match j.get("references") {
        Some(x) => decode_field_refs(x)?,
        None => empty_list(),
    };
    let sub_fields = match j.get("subField") {
        None => None,
        Some(Json::Null) => None,
        Some(Json::Array(items)) => {
            proof {
                lemma_array_view(*items);
            }
            Some(decode_field_items(items)?)
        },
        Some(_) => {
            return Err(refuse("subField must be an array"));
        },
    };
    let parent_fields = match j.get("parentField") {
        None => None,
        Some(Json::Null) => None,
        Some(x) => Some(decode_texts(x)?),
    };
    let repeated = match j.get("repeated") {
        None => None,
        Some(Json::Null) => None,
        Some(x) => Some(decode_bool(x)?),
    };
    let equivalent_properties = match j.get("equivalentProperty") {
        None => None,
        Some(Json::Null) => None,
        Some(x) => Some(decode_texts(x)?),
    };
    let field = Field {
        id,
        kind,
        name,
        description,
        data_types,
        source,
        references,
        sub_fields,
        parent_fields,
        repeated,
        equivalent_properties,
    };
    proof {
        if field.sub_fields is Some {
            assert(field@.sub_fields->0 =~= field.sub_fields->0.deep_view());
        }
    }
    Ok(field)
}

fn decode_field_items(items: &Vec<Json>) -> (r: Result<Vec<Field>, Error>)
    ensures
        agrees(r, wire::decode_field_items(items.deep_view())),
    decreases items,
{
    let mut out: Vec<Field> = Vec::new();
    let mut i: usize = 0;
    while i < items.len()
        invariant
            0 <= i <= items@.len(),
            out@.len() == i,
            forall|k: int|
                0 <= k < i ==> wire::decode_field(#[trigger] items.deep_view()[k]) == Some(
                    out@[k].deep_view(),
                ),
        decreases items@.len() - i,
    {
        match decode_field(&items[i]) {
            Ok(v) => {
                out.push(v);
            },
            Err(e) => {
                assert(wire::decode_field(items.deep_view()[i as int]) is None);
                return Err(e);
            },
        }
        i += 1;
    }
    assert(wire::decode_field_items(items.deep_view())->0 =~= out.deep_view());
    Ok(out)
}

/// Reads a list of fields.
pub fn decode_fields(j: &Json) -> (r: Result<Vec<Field>, Error>)
    ensures
        agrees(r, wire::decode_fields(j@)),
{
    match j {
        Json::Array(items) => {
            proof {
                lemma_array_view(*items);
            }
            decode_field_items(items)
        },
        _ => Err(refuse("an array is expected")),
    }
}

/// Writes a list of fields.
pub fn encode_fields(vs: &Vec<Field>) -> (j: Json)
    ensures
        j@ == wire::encode_fields(vs.deep_view()),
    decreases vs,
{
    let mut items: Vec<Json> = Vec::new();
    let mut i: usize = 0;
    while i < vs.len()
        invariant
            0 <= i <= vs@.len(),
            items@.len() == i,
            forall|k: int|
                0 <= k < i ==> (#[trigger] items@[k])@ == wire::encode_field(vs@[k].deep_view()),
        decreases vs@.len() - i,
    {
        items.push(encode_field(&vs[i]));
        i += 1;
    }
    proof {
        lemma_array_view(items);
        assert(items.deep_view() =~= wire::encode_fields(vs.deep_view())->Array_0);
    }
    Json::Array(items)
}

/// Writes a file object.
pub fn encode_file_object(v: &FileObject) -> (j: Json)
    ensures
        j@ == wire::encode_file_object(v@),
{
    let mut members: Vec<Member> = Vec::new();
    members.push(entry("@type", Json::Str(String::from_str("cr:FileObject"))));
    members.push(entry("@id", encode_text(&v.id)));
    members.push(entry("name", encode_text(&v.name)));
    let content_url = match &v.content_url {
        Some(x) => encode_text(x),
        None => Json::Null,
    };
    members.push(entry("contentUrl", content_url));
    let content_size = match &v.content_size {
        Some(x) => encode_text(x),
        None => Json::Null,
    };
    members.push(entry("contentSize", content_size));
    members.push(entry("encodingFormat", encode_text(&v.encoding_format)));
    let sha256 = match &v.sha256 {
        Some(x) => encode_digest(x),
        None => Json::Null,
    };
    members.push(entry("sha256", sha256));
    proof {
        lemma_object_view(members);
        assert(members_view(members) =~= wire::encode_file_object(v@)->Object_0);
    }
    Json::Object(members)
}

/// Reads a file object.
pub fn decode_file_object(j: &Json) -> (r: Result<FileObject, Error>)
    ensures
        agrees(r, wire::decode_file_object(j@)),
{
    let id = decode_text(need(j, "@id")?)?;
    let name = decode_text(need(j, "name")?)?;
    let content_url = match j.get("contentUrl") {
        None => None,
        Some(Json::Null) => None,
        Some(x) => Some(decode_text(x)?),
    };
    let content_size = match j.get("contentSize") {
        None => None,
        Some(Json::Null) => None,
        Some(x) => Some(decode_text(x)?),
    };
    let encoding_format = decode_text(need(j, "encodingFormat")?)?;
    let sha256 = match j.get("sha256") {
        None => None,
        Some(Json::Null) => None,
        Some(x) => Some(decode_digest(x)?),
    };
    Ok(FileObject { id, name, content_url, content_size, encoding_format, sha256 })
}

/// Writes a file set.
pub fn encode_file_set(v: &FileSet) -> (j: Json)
    ensures
        j@ == wire::encode_file_set(v@),
{
    let mut members: Vec<Member> = Vec::new();
    members.push(entry("@type", Json::Str(String::from_str("cr:FileSet"))));
    members.push(entry("@id", encode_text(&v.id)));
    members.push(entry("containedIn", encode_texts(&v.sources)));
    members.push(entry("encodingFormat", encode_text(&v.encoding_format)));
    members.push(entry("includes", encode_texts(&v.includes)));
    members.push(entry("excludes", encode_texts(&v.excludes)));
    proof {
        lemma_object_view(members);
        assert(members_view(members) =~= wire::encode_file_set(v@)->Object_0);
    }
    Json::Object(members)
}

/// Reads a file set.
pub fn decode_file_set(j: &Json) -> (r: Result<FileSet, Error>)
    ensures
        agrees(r, wire::decode_file_set(j@)),
{
    let id = decode_text(need(j, "@id")?)?;
    let sources = decode_texts(need(j, "containedIn")?)?;
    let encoding_format = decode_text(need(j, "encodingFormat")?)?;
    let includes = decode_texts(need(j, "includes")?)?;
    let excludes = decode_texts(need(j, "excludes")?)?;
    Ok(FileSet { id, sources, encoding_format, includes, excludes })
}

/// Writes a resource.
pub fn encode_resource(v: &Resource) -> (j: Json)
    ensures
        j@ == wire::encode_resource(v@),
{
    match v {
        Resource::FileObject(o) => encode_file_object(o),
        Resource::FileSet(s) => encode_file_set(s),
    }
}

/// Reads a resource.
pub fn decode_resource(j: &Json) -> (r: Result<Resource, Error>)
    ensures
        agrees(r, wire::decode_resource(j@)),
{
    let tag = decode_text(need(j, "@type")?)?;
    if str_eq(tag.as_str(), "cr:FileObject") {
        Ok(Resource::FileObject(decode_file_object(j)?))
    } else if str_eq(tag.as_str(), "cr:FileSet") {
        Ok(Resource::FileSet(decode_file_set(j)?))
    } else {
        Err(refuse("an unknown type of resource"))
    }
}

/// Writes an entry of the distribution.
pub fn encode_distribution(v: &Distribution) -> (j: Json)
    ensures
        j@ == wire::encode_resource(v@),
{
    encode_resource(&v.resource)
}

/// Reads an entry of the distribution.
pub fn decode_distribution(j: &Json) -> (r: Result<Distribution, Error>)
    ensures
        agrees(r, wire::decode_resource(j@)),
{
    Ok(Distribution { resource: decode_resource(j)? })
}

fn decode_distribution_items(items: &Vec<Json>) -> (r: Result<Vec<Distribution>, Error>)
    ensures
        agrees(r, wire::decode_resources(JsonView::Array(items.deep_view()))),
{
    let mut out: Vec<Distribution> = Vec::new();
    let mut i: usize = 0;
    while i < items.len()
        invariant
            0 <= i <= items@.len(),
            out@.len() == i,
            forall|k: int|
                0 <= k < i ==> wire::decode_resource(#[trigger] items.deep_view()[k]) == Some(
                    out@[k].deep_view(),
                ),
        decreases items@.len() - i,
    {
        match decode_distribution(&items[i]) {
            Ok(v) => {
                out.push(v);
            },
            Err(e) => {
                assert(wire::decode_resource(items.deep_view()[i as int]) is None);
                return Err(e);
            },
        }
        i += 1;
    }
    assert(wire::decode_resources(JsonView::Array(items.deep_view()))->0 =~= out.deep_view());
    Ok(out)
}

/// Reads a distribution.
pub fn decode_resources(j: &Json) -> (r: Result<Vec<Distribution>, Error>)
    ensures
        agrees(r, wire::decode_resources(j@)),
{
    match j {
        Json::Array(items) => {
            proof {
                lemma_array_view(*items);
            }
            decode_distribution_items(items)
        },
        _ => Err(refuse("an array is expected")),
    }
}

/// Writes a distribution.
pub fn encode_resources(vs: &Vec<Distribution>) -> (j: Json)
    ensures
        j@ == wire::encode_resources(vs.deep_view()),
{
    let mut items: Vec<Json> = Vec::new();
    let mut i: usize = 0;
    while i < vs.len()
        invariant
            0 <= i <= vs@.len(),
            items@.len() == i,
            forall|k: int|
                0 <= k < i ==> (#[trigger] items@[k])@ == wire::encode_resource(
                    vs@[k].deep_view(),
                ),
        decreases vs@.len() - i,
    {
        items.push(encode_distribution(&vs[i]));
        i += 1;
    }
    proof {
        lemma_array_view(items);
        assert(items.deep_view() =~= wire::encode_resources(vs.deep_view())->Array_0);
    }
    Json::Array(items)
}

/// Writes the `data` term.
pub fn encode_data_context(v: &DataContext) -> (j: Json)
    ensures
        j@ == wire::encode_term(v@),
{
    let mut members: Vec<Member> = Vec::new();
    members.push(entry("@id", encode_text(&v.id)));
    members.push(entry("@type", encode_text(&v.type_)));
    proof {
        lemma_object_view(members);
        assert(members_view(members) =~= wire::encode_term(v@)->Object_0);
    }
    Json::Object(members)
}

/// Reads the `data` term.
pub fn decode_data_context(j: &Json) -> (r: Result<DataContext, Error>)
    ensures
        agrees(r, wire::decode_term(j@)),
{
    let id = decode_text(need(j, "@id")?)?;
    let type_ = decode_text(need(j, "@type")?)?;
    Ok(DataContext { id, type_ })
}

/// Writes the `dataType` term.
pub fn encode_data_type_context(v: &DataTypeContext) -> (j: Json)
    ensures
        j@ == wire::encode_term(v@),
{
    let mut members: Vec<Member> = Vec::new();
    members.push(entry("@id", encode_text(&v.id)));
    members.push(entry("@type", encode_text(&v.type_)));
    proof {
        lemma_object_view(members);
        assert(members_view(members) =~= wire::encode_term(v@)->Object_0);
    }
    Json::Object(members)
}

/// Reads the `dataType` term.
pub fn decode_data_type_context(j: &Json) -> (r: Result<DataTypeContext, Error>)
    ensures
        agrees(r, wire::decode_term(j@)),
{
    let id = decode_text(need(j, "@id")?)?;
    let type_ = decode_text(need(j, "@type")?)?;
    Ok(DataTypeContext { id, type_ })
}

/// Writes a context block.
pub fn encode_context(v: &Context) -> (j: Json)
    ensures
        j@ == wire::encode_context(v@),
{
    let mut members: Vec<Member> = Vec::new();
    members.push(entry("@language", encode_text(&v.language)));
    members.push(entry("@vocab", encode_text(&v.vocab)));
    members.push(entry("sc", encode_text(&v.sc)));
    members.push(entry("cr", encode_text(&v.cr)));
    members.push(entry("dct", encode_text(&v.dct)));
    members.push(entry("citeAs", encode_text(&v.cite_as)));
    members.push(entry("column", encode_text(&v.column)));
    members.push(entry("conformsTo", encode_text(&v.conforms_to)));
    members.push(entry("data", encode_data_context(&v.data)));
    members.push(entry("dataType", encode_data_type_context(&v.data_type)));
    proof {
        lemma_object_view(members);
        assert(members_view(members) =~= wire::encode_context(v@)->Object_0);
    }
    Json::Object(members)
}

/// Reads a context block.
pub fn decode_context(j: &Json) -> (r: Result<Context, Error>)
    ensures
        agrees(r, wire::decode_context(j@)),
{
    let language = decode_text(need(j, "@language")?)?;
    let vocab = decode_text(need(j, "@vocab")?)?;
    let sc = decode_text(need(j, "sc")?)?;
    let cr = decode_text(need(j, "cr")?)?;
    let dct = decode_text(need(j, "dct")?)?;
    let cite_as = decode_text(need(j, "citeAs")?)?;
    let column = decode_text(need(j, "column")?)?;
    let conforms_to = decode_text(need(j, "conformsTo")?)?;
    let data = decode_data_context(need(j, "data")?)?;
    let data_type = decode_data_type_context(need(j, "dataType")?)?;
    Ok(Context { language, vocab, sc, cr, dct, cite_as, column, conforms_to, data, data_type })
}

/// Writes a record set.
pub fn encode_record_set(v: &RecordSet) -> (j: Json)
    ensures
        j@ == wire::encode_record_set(v@),
{
    let mut members: Vec<Member> = Vec::new();
    members.push(entry("@id", encode_text(&v.id)));
    members.push(entry("@type", encode_cr_type(&v.kind)));
    members.push(entry("key", encode_refs(&v.keys)));
    members.push(entry("field", encode_fields(&v.fields)));
    members.push(entry("dataType", encode_data_types(&v.record_types)));
    proof {
        lemma_object_view(members);
        assert(members_view(members) =~= wire::encode_record_set(v@)->Object_0);
    }
    Json::Object(members)
}

/// Reads a record set.
pub fn decode_record_set(j: &Json) -> (r: Result<RecordSet, Error>)
    ensures
        agrees(r, wire::decode_record_set(j@)),
{
    let id = decode_text(need(j, "@id")?)?;
    let kind = decode_cr_type(need(j, "@type")?)?;
    let keys = match j.get("key") {
        Some(x) => decode_refs(x)?,
        None => empty_list(),
    };
    let fields = decode_fields(need(j, "field")?)?;
    let record_types = match j.get("dataType") {
        Some(x) => decode_data_types(x)?,
        None => empty_list(),
    };
    Ok(RecordSet { id, kind, keys, fields, record_types })
}

fn decode_record_set_items(items: &Vec<Json>) -> (r: Result<Vec<RecordSet>, Error>)
    ensures
        agrees(r, wire::decode_record_sets(JsonView::Array(items.deep_view()))),
{
    let mut out: Vec<RecordSet> = Vec::new();
    let mut i: usize = 0;
    while i < items.len()
        invariant
            0 <= i <= items@.len(),
            out@.len() == i,
            forall|k: int|
                0 <= k < i ==> wire::decode_record_set(#[trigger] items.deep_view()[k]) == Some(
                    out@[k].deep_view(),
                ),
        decreases items@.len() - i,
    {
        match decode_record_set(&items[i]) {
            Ok(v) => {
                out.push(v);
            },
            Err(e) => {
                assert(wire::decode_record_set(items.deep_view()[i as int]) is None);
                return Err(e);
            },
        }
        i += 1;
    }
    assert(wire::decode_record_sets(JsonView::Array(items.deep_view()))->0 =~= out.deep_view());
    Ok(out)
}

/// Reads a list of record sets.
pub fn decode_record_sets(j: &Json) -> (r: Result<Vec<RecordSet>, Error>)
    ensures
        agrees(r, wire::decode_record_sets(j@)),
{
    match j {
        Json::Array(items) => {
            proof {
                lemma_array_view(*items);
            }
            decode_record_set_items(items)
        },
        _ => Err(refuse("an array is expected")),
    }
}

/// Writes a list of record sets.
pub fn encode_record_sets(vs: &Vec<RecordSet>) -> (j: Json)
    ensures
        j@ == wire::encode_record_sets(vs.deep_view()),
{
    let mut items: Vec<Json> = Vec::new();
    let mut i: usize = 0;
    while i < vs.len()
        invariant
            0 <= i <= vs@.len(),
            items@.len() == i,
            forall|k: int|
                0 <= k < i ==> (#[trigger] items@[k])@ == wire::encode_record_set(
                    vs@[k].deep_view(),
                ),
        decreases vs@.len() - i,
    {
        items.push(encode_record_set(&vs[i]));
        i += 1;
    }
    proof {
        lemma_array_view(items);
        assert(items.deep_view() =~= wire::encode_record_sets(vs.deep_view())->Array_0);
    }
    Json::Array(items)
}

/// Writes a dataset description.
pub fn encode_metadata(v: &Metadata) -> (j: Json)
    ensures
        j@ == wire::encode_metadata(v@),
{
    let mut members: Vec<Member> = Vec::new();
    members.push(entry("@context", encode_context(&v.context)));
    members.push(entry("@type", encode_croissant_type(&v.kind)));
    members.push(entry("name", encode_text(&v.name)));
    members.push(entry("description", encode_text(&v.description)));
    members.push(entry("conformsTo", encode_text(&v.conforms_to)));
    let date_published = match &v.date_published {
        Some(x) => encode_text(x),
        None => Json::Null,
    };
    members.push(entry("datePublished", date_published));
    members.push(entry("version", encode_text(&v.version)));
    members.push(entry("distribution", encode_resources(&v.distribution)));
    members.push(entry("recordSet", encode_record_sets(&v.record_sets)));
    proof {
        lemma_object_view(members);
        assert(members_view(members) =~= wire::encode_metadata(v@)->Object_0);
    }
    Json::Object(members)
}

/// Reads a dataset description.
pub fn decode_metadata(j: &Json) -> (r: Result<Metadata, Error>)
    ensures
        agrees(r, wire::decode_metadata(j@)),
{
    let context = decode_context(need(j, "@context")?)?;
    let kind = decode_croissant_type(need(j, "@type")?)?;
    let name = decode_text(need(j, "name")?)?;
    let description = decode_text(need(j, "description")?)?;
    let conforms_to = decode_text(need(j, "conformsTo")?)?;
    let date_published = match j.get("datePublished") {
        None => None,
        Some(Json::Null) => None,
        Some(x) => Some(decode_text(x)?),
    };
    let version = decode_text(need(j, "version")?)?;
    let distribution = decode_resources(need(j, "distribution")?)?;
    let record_sets = decode_record_sets(need(j, "recordSet")?)?;
    Ok(
        Metadata {
            context,
            kind,
            name,
            description,
            conforms_to,
            date_published,
            version,
            distribution,
            record_sets,
        },
    )
}

/// Whether the text, if there is one, is not empty.
fn optional_text_is_well_formed(t: &Option<Text>) -> (r: bool)
    ensures
        r == (t.deep_view() matches Some(x) ==> wire::text_wf(x)),
{
    match t {
        Some(x) => !x.is_empty(),
        None => true,
    }
}

/// Whether the digest, if there is one, is 64 hexadecimal digits.
fn optional_digest_is_well_formed(d: &Option<String>) -> (r: bool)
    ensures
        r == (d.deep_view() matches Some(x) ==> crate::digest::is_sha256_text(x)),
{
    match d {
        Some(x) => is_valid_sha256(x.as_str()),
        None => true,
    }
}

fn data_type_is_well_formed(t: &DataType) -> (r: bool)
    ensures
        r == wire::data_type_wf(t@),
{
    match t {
        DataType::CustomIri(iri) => !iri.is_empty() && data_type_named(iri.as_str()).is_none(),
        _ => true,
    }
}

fn extract_is_well_formed(e: &Extract) -> (r: bool)
    ensures
        r == wire::extract_wf(e@),
{
    match e {
        Extract::Column { name } => !name.is_empty(),
        Extract::FileProperty { .. } => true,
        Extract::JsonPath { expr } => !expr.is_empty(),
    }
}

fn transform_is_well_formed(t: &Transform) -> (r: bool)
    ensures
        r == wire::transform_wf(t@),
{
    match t {
        Transform::Regex { pattern } => !pattern.is_empty(),
        Transform::Delimiter { .. } => true,
        Transform::JsonQuery { query } => !query.is_empty(),
    }
}

fn value_format_is_well_formed(f: &ValueFormat) -> (r: bool)
    ensures
        r == wire::value_format_wf(f@),
{
    match f {
        ValueFormat::Date { pattern } => !pattern.is_empty(),
        ValueFormat::Number { pattern } => !pattern.is_empty(),
        ValueFormat::BoundingBox { .. } => true,
    }
}


fn texts_are_well_formed(vs: &Vec<Text>) -> (r: bool)
    ensures
        r == wire::texts_wf(vs.deep_view()),
{
    let mut i: usize = 0;
    while i < vs.len()
        invariant
            0 <= i <= vs@.len(),
            forall|k: int| 0 <= k < i ==> wire::text_wf(#[trigger] vs.deep_view()[k]),
        decreases vs@.len() - i,
    {
        if !(!vs[i].is_empty()) {
            assert(!wire::text_wf(vs.deep_view()[i as int]));
            return false;
        }
        i += 1;
    }
    true
}

fn refs_are_well_formed(vs: &Vec<Ref>) -> (r: bool)
    ensures
        r == wire::texts_wf(vs.deep_view()),
{
    let mut i: usize = 0;
    while i < vs.len()
        invariant
            0 <= i <= vs@.len(),
            forall|k: int| 0 <= k < i ==> wire::text_wf(#[trigger] vs.deep_view()[k]),
        decreases vs@.len() - i,
    {
        if !(!vs[i].id.is_empty()) {
            assert(!wire::text_wf(vs.deep_view()[i as int]));
            return false;
        }
        i += 1;
    }
    true
}

fn field_refs_are_well_formed(vs: &Vec<FieldRef>) -> (r: bool)
    ensures
        r == wire::texts_wf(vs.deep_view()),
{
    let mut i: usize = 0;
    while i < vs.len()
        invariant
            0 <= i <= vs@.len(),
            forall|k: int| 0 <= k < i ==> wire::text_wf(#[trigger] vs.deep_view()[k]),
        decreases vs@.len() - i,
    {
        if !(!vs[i].field.id.is_empty()) {
            assert(!wire::text_wf(vs.deep_view()[i as int]));
            return false;
        }
        i += 1;
    }
    true
}

fn data_types_are_well_formed(vs: &Vec<DataType>) -> (r: bool)
    ensures
        r == wire::data_types_wf(vs.deep_view()),
{
    let mut i: usize = 0;
    while i < vs.len()
        invariant
            0 <= i <= vs@.len(),
            forall|k: int| 0 <= k < i ==> wire::data_type_wf(#[trigger] vs.deep_view()[k]),
        decreases vs@.len() - i,
    {
        if !(data_type_is_well_formed(&vs[i])) {
            assert(!wire::data_type_wf(vs.deep_view()[i as int]));
            return false;
        }
        i += 1;
    }
    true
}

fn transforms_are_well_formed(vs: &Vec<Transform>) -> (r: bool)
    ensures
        r == wire::transforms_wf(vs.deep_view()),
{
    let mut i: usize = 0;
    while i < vs.len()
        invariant
            0 <= i <= vs@.len(),
            forall|k: int| 0 <= k < i ==> wire::transform_wf(#[trigger] vs.deep_view()[k]),
        decreases vs@.len() - i,
    {
        if !(transform_is_well_formed(&vs[i])) {
            assert(!wire::transform_wf(vs.deep_view()[i as int]));
            return false;
        }
        i += 1;
    }
    true
}

fn field_source_is_well_formed(s: &FieldSource) -> (r: bool)
    ensures
        r == wire::field_source_wf(s@),
{
    !s.source.target().is_empty() && (match &s.extract {
        Some(e) => extract_is_well_formed(e),
        None => true,
    }) && (match &s.transform {
        Some(ts) => transforms_are_well_formed(ts),
        None => true,
    }) && (match &s.format {
        Some(f) => value_format_is_well_formed(f),
        None => true,
    })
}

fn field_is_well_formed(f: &Field) -> (r: bool)
    ensures
        r == wire::field_wf(f@),
    decreases f,
{
    let own = !f.id.is_empty() && !f.name.is_empty() && !f.description.is_empty()
        && data_types_are_well_formed(&f.data_types) && field_source_is_well_formed(&f.source)
        && field_refs_are_well_formed(&f.references) && (match &f.parent_fields {
        Some(p) => texts_are_well_formed(p),
        None => true,
    }) && (match &f.equivalent_properties {
        Some(p) => texts_are_well_formed(p),
        None => true,
    });
    if !own {
        return false;
    }
    match &f.sub_fields {
        Some(subs) => {
            assert(f@.sub_fields->0 =~= subs.deep_view());
            fields_are_well_formed(subs)
        },
        None => true,
    }
}

fn fields_are_well_formed(fs: &Vec<Field>) -> (r: bool)
    ensures
        r == wire::fields_wf(fs.deep_view()),
    decreases fs,
{
    let mut i: usize = 0;
    while i < fs.len()
        invariant
            0 <= i <= fs@.len(),
            forall|k: int| 0 <= k < i ==> wire::field_wf(#[trigger] fs.deep_view()[k]),
        decreases fs@.len() - i,
    {
        if !field_is_well_formed(&fs[i]) {
            assert(!wire::field_wf(fs.deep_view()[i as int]));
            return false;
        }
        i += 1;
    }
    true
}


fn file_object_is_well_formed(v: &FileObject) -> (r: bool)
    ensures
        r == wire::file_object_wf(v@),
{
    !v.id.is_empty()
        && !v.name.is_empty()
        && optional_text_is_well_formed(&v.content_url)
        && optional_text_is_well_formed(&v.content_size)
        && !v.encoding_format.is_empty()
        && optional_digest_is_well_formed(&v.sha256)
}

fn file_set_is_well_formed(v: &FileSet) -> (r: bool)
    ensures
        r == wire::file_set_wf(v@),
{
    !v.id.is_empty()
        && texts_are_well_formed(&v.sources)
        && !v.encoding_format.is_empty()
        && texts_are_well_formed(&v.includes)
        && texts_are_well_formed(&v.excludes)
}

fn resource_is_well_formed(r: &Resource) -> (ok: bool)
    ensures
        ok == wire::resource_wf(r@),
{
    match r {
        Resource::FileObject(o) => file_object_is_well_formed(o),
        Resource::FileSet(s) => file_set_is_well_formed(s),
    }
}


fn resources_are_well_formed(vs: &Vec<Distribution>) -> (r: bool)
    ensures
        r == wire::resources_wf(vs.deep_view()),
{
    let mut i: usize = 0;
    while i < vs.len()
        invariant
            0 <= i <= vs@.len(),
            forall|k: int| 0 <= k < i ==> wire::resource_wf(#[trigger] vs.deep_view()[k]),
        decreases vs@.len() - i,
    {
        if !(resource_is_well_formed(&vs[i].resource)) {
            assert(!wire::resource_wf(vs.deep_view()[i as int]));
            return false;
        }
        i += 1;
    }
    true
}

fn data_context_is_well_formed(v: &DataContext) -> (r: bool)
    ensures
        r == wire::term_wf(v@),
{
    !v.id.is_empty() && !v.type_.is_empty()
}

fn data_type_context_is_well_formed(v: &DataTypeContext) -> (r: bool)
    ensures
        r == wire::term_wf(v@),
{
    !v.id.is_empty() && !v.type_.is_empty()
}

fn context_is_well_formed(v: &Context) -> (r: bool)
    ensures
        r == wire::context_wf(v@),
{
    !v.language.is_empty()
        && !v.vocab.is_empty()
        && !v.sc.is_empty()
        && !v.cr.is_empty()
        && !v.dct.is_empty()
        && !v.cite_as.is_empty()
        && !v.column.is_empty()
        && !v.conforms_to.is_empty()
        && data_context_is_well_formed(&v.data)
        && data_type_context_is_well_formed(&v.data_type)
}

fn record_set_is_well_formed(v: &RecordSet) -> (r: bool)
    ensures
        r == wire::record_set_wf(v@),
{
    !v.id.is_empty()
        && refs_are_well_formed(&v.keys)
        && fields_are_well_formed(&v.fields)
        && data_types_are_well_formed(&v.record_types)
}

fn record_sets_are_well_formed(vs: &Vec<RecordSet>) -> (r: bool)
    ensures
        r == wire::record_sets_wf(vs.deep_view()),
{
    let mut i: usize = 0;
    while i < vs.len()
        invariant
            0 <= i <= vs@.len(),
            forall|k: int| 0 <= k < i ==> wire::record_set_wf(#[trigger] vs.deep_view()[k]),
        decreases vs@.len() - i,
    {
        if !(record_set_is_well_formed(&vs[i])) {
            assert(!wire::record_set_wf(vs.deep_view()[i as int]));
            return false;
        }
        i += 1;
    }
    true
}

fn metadata_is_well_formed(v: &Metadata) -> (r: bool)
    ensures
        r == wire::metadata_wf(v@),
{
    context_is_well_formed(&v.context)
        && !v.name.is_empty()
        && !v.description.is_empty()
        && !v.conforms_to.is_empty()
        && optional_text_is_well_formed(&v.date_published)
        && !v.version.is_empty()
        && resources_are_well_formed(&v.distribution)
        && record_sets_are_well_formed(&v.record_sets)
}

impl Metadata {
    /// Whether the tree is well formed: every text in it is non-empty,
    /// every digest is 64 hexadecimal digits, and no custom data type is
    /// written like a named one. These are the trees that decoding can give
    /// back.
    pub fn is_well_formed(&self) -> (r: bool)
        ensures
            r == wire::metadata_wf(self@),
    {
        metadata_is_well_formed(self)
    }

    /// The JSON value that stands for the tree. Decoding it gives a well
    /// formed tree back.
    pub fn encode(&self) -> (j: Json)
        ensures
            j@ == wire::encode_metadata(self@),
            wire::metadata_wf(self@) ==> wire::decode_metadata(j@) == Some(self@),
    {
        proof {
            if wire::metadata_wf(self@) {
                wire::lemma_round_trip(self@);
            }
        }
        encode_metadata(self)
    }

    /// The tree that a JSON value stands for, or a decode error if it
    /// stands for none. A tree that comes out of here is well formed.
    pub fn decode(j: &Json) -> (r: Result<Metadata, Error>)
        ensures
            agrees(r, wire::decode_metadata(j@)),
            r matches Ok(m) ==> wire::metadata_wf(m@),
    {
        proof {
            lemma_decoded_is_well_formed(j@);
        }
        decode_metadata(j)
    }
}

} // verus!
