//! The wire format, stated as mathematics.
//!
//! `encode_*` says which JSON value stands for an entity; `decode_*` says
//! which entity, if any, a JSON value stands for. Decoding is lenient where
//! the format is: a list may be written as a single value, optional members
//! may be absent or `null`, members that the schema does not know are
//! ignored. Unions without a tag are tried variant by variant, in declared
//! order, and the first variant that fits wins.
//!
//! Decoding also enforces what can be told from one value alone: a text
//! must not be empty, and a digest must be 64 hexadecimal digits. It takes
//! any of the four type tags on a record set or a field: whether tags fit
//! and references resolve is for the validator, which reports everything
//! it finds, whereas a decoder stops at the first thing it cannot read.
//!
//! Encoding always writes lists as arrays and absent values as `null`, so
//! decoding what encodes a well-formed tree gives the tree back: see
//! [`lemma_round_trip`]. The predicates named `*_wf` say which trees are
//! well formed.

use vstd::prelude::*;
use crate::digest::is_sha256_text;
use crate::json::{lemma_index_of_first, lemma_index_of_none, member, JsonView};
use crate::model::{
    BoundingBoxFormat, ContextView, CrType, CroissantType, DataTypeView, ExtractView,
    FieldSourceView, FieldView, FileObjectView, FileProperty, FileSetView, MetadataView,
    RecordSetView, ResourceView, SourceRefView, TermView, TransformView, ValueFormatView,
};

verus! {

/// A member that must be there.
pub open spec fn required<T>(m: Option<JsonView>, f: spec_fn(JsonView) -> Option<T>) -> Option<T> {
    match m {
        Some(x) => f(x),
        None => None,
    }
}

/// A member that may be absent or `null`.
pub open spec fn optional<T>(m: Option<JsonView>, f: spec_fn(JsonView) -> Option<T>) -> Option<
    Option<T>,
> {
    match m {
        None => Some(None),
        Some(JsonView::Null) => Some(None),
        Some(x) => match f(x) {
            Some(v) => Some(Some(v)),
            None => None,
        },
    }
}

/// A list that is empty when its member is absent.
pub open spec fn defaulted<T>(
    m: Option<JsonView>,
    f: spec_fn(JsonView) -> Option<Seq<T>>,
) -> Option<Seq<T>> {
    match m {
        Some(x) => f(x),
        None => Some(Seq::empty()),
    }
}

/// Every item decoded, if every item can be.
pub open spec fn each<T>(items: Seq<JsonView>, f: spec_fn(JsonView) -> Option<T>) -> Option<
    Seq<T>,
> {
    if forall|i: int| 0 <= i < items.len() ==> f(#[trigger] items[i]) is Some {
        Some(Seq::new(items.len(), |i: int| f(items[i])->0))
    } else {
        None
    }
}

/// A list written as an array.
pub open spec fn list<T>(x: JsonView, f: spec_fn(JsonView) -> Option<T>) -> Option<Seq<T>> {
    match x {
        JsonView::Array(items) => each(items, f),
        _ => None,
    }
}

/// A list written as an array, or as its single item.
pub open spec fn one_or_many<T>(x: JsonView, f: spec_fn(JsonView) -> Option<T>) -> Option<Seq<T>> {
    match x {
        JsonView::Array(items) => each(items, f),
        _ => match f(x) {
            Some(v) => Some(seq![v]),
            None => None,
        },
    }
}

/// The JSON value of an optional value: `null` when there is none.
pub open spec fn nullable<T>(v: Option<T>, f: spec_fn(T) -> JsonView) -> JsonView {
    match v {
        Some(x) => f(x),
        None => JsonView::Null,
    }
}

/// The array of the encoded items.
pub open spec fn array<T>(vs: Seq<T>, f: spec_fn(T) -> JsonView) -> JsonView {
    JsonView::Array(Seq::new(vs.len(), |i: int| f(vs[i])))
}

/// Decoding every item of an encoded list gives the list back.
pub proof fn lemma_each_round_trip<T>(
    vs: Seq<T>,
    enc: spec_fn(T) -> JsonView,
    dec: spec_fn(JsonView) -> Option<T>,
)
    requires
        forall|i: int| 0 <= i < vs.len() ==> dec(enc(#[trigger] vs[i])) == Some(vs[i]),
    ensures
        array(vs, enc) matches JsonView::Array(items) && each(items, dec) == Some(vs),
{
    let items = Seq::new(vs.len(), |i: int| enc(vs[i]));
    assert forall|i: int| 0 <= i < items.len() implies dec(#[trigger] items[i]) is Some by {
        assert(dec(enc(vs[i])) == Some(vs[i]));
    }
    assert forall|i: int| 0 <= i < items.len() implies dec(items[i])->0 == vs[i] by {
        assert(dec(enc(vs[i])) == Some(vs[i]));
    }
    assert(each(items, dec)->0 =~= vs);
}

/// A member is found at a position when no earlier member has its key.
pub proof fn lemma_member_at(members: Seq<(Seq<char>, JsonView)>, i: int)
    requires
        0 <= i < members.len(),
        forall|j: int| 0 <= j < i ==> (#[trigger] members[j]).0 != members[i].0,
    ensures
        member(JsonView::Object(members), members[i].0) == Some(members[i].1),
{
    lemma_index_of_first(members, members[i].0, i);
}

/// A key that no member has is not found.
pub proof fn lemma_member_absent(members: Seq<(Seq<char>, JsonView)>, key: Seq<char>)
    requires
        forall|j: int| 0 <= j < members.len() ==> (#[trigger] members[j]).0 != key,
    ensures
        member(JsonView::Object(members), key) is None,
{
    lemma_index_of_none(members, key);
}

/// A text is well formed when it is not empty.
pub open spec fn text_wf(s: Seq<char>) -> bool {
    s.len() > 0
}

/// The value that stands for a text.
pub open spec fn encode_text(s: Seq<char>) -> JsonView {
    JsonView::Str(s)
}

/// A text is read from a string that is not empty.
pub open spec fn decode_text(j: JsonView) -> Option<Seq<char>> {
    match j {
        JsonView::Str(s) => if text_wf(s) {
            Some(s)
        } else {
            None
        },
        _ => None,
    }
}

/// The value that stands for a digest.
pub open spec fn encode_digest(s: Seq<char>) -> JsonView {
    JsonView::Str(s)
}

/// A digest is read from a string of 64 hexadecimal digits.
pub open spec fn decode_digest(j: JsonView) -> Option<Seq<char>> {
    match j {
        JsonView::Str(s) => if is_sha256_text(s) {
            Some(s)
        } else {
            None
        },
        _ => None,
    }
}

/// The value that stands for a truth value.
pub open spec fn encode_bool(b: bool) -> JsonView {
    JsonView::Bool(b)
}

/// What a value stands for, read as a truth value, if it stands for one.
pub open spec fn decode_bool(j: JsonView) -> Option<bool> {
    match j {
        JsonView::Bool(b) => Some(b),
        _ => None,
    }
}

/// A character is written as the string that holds it alone.
pub open spec fn encode_char(c: char) -> JsonView {
    JsonView::Str(seq![c])
}

/// What a value stands for, read as a character, if it stands for one.
pub open spec fn decode_char(j: JsonView) -> Option<char> {
    match j {
        JsonView::Str(s) => if s.len() == 1 {
            Some(s[0])
        } else {
            None
        },
        _ => None,
    }
}

/// A list of texts, written as an array of strings.
pub open spec fn encode_texts(vs: Seq<Seq<char>>) -> JsonView {
    array(vs, |s: Seq<char>| encode_text(s))
}

/// What a value stands for, read as a list of texts, if it stands for one.
pub open spec fn decode_texts(j: JsonView) -> Option<Seq<Seq<char>>> {
    list(j, |x: JsonView| decode_text(x))
}

/// Whether every text of a list is well formed.
pub open spec fn texts_wf(vs: Seq<Seq<char>>) -> bool {
    forall|i: int| 0 <= i < vs.len() ==> text_wf(#[trigger] vs[i])
}

/// Decoding what encodes a list of texts gives it back.
pub proof fn lemma_texts_round_trip(vs: Seq<Seq<char>>)
    requires
        texts_wf(vs),
    ensures
        decode_texts(encode_texts(vs)) == Some(vs),
        encode_texts(vs) != JsonView::Null,
{
    lemma_each_round_trip(vs, |s: Seq<char>| encode_text(s), |x: JsonView| decode_text(x));
}

/// The wire token of the root's type tag.
pub open spec fn croissant_type_token(v: CroissantType) -> Seq<char> {
    match v {
        CroissantType::Dataset => "sc:Dataset"@,
    }
}

/// The value that a token names, if it names one.
pub open spec fn croissant_type_named(s: Seq<char>) -> Option<CroissantType> {
    if s == "sc:Dataset"@ {
        Some(CroissantType::Dataset)
    } else {
        None
    }
}

/// The value that stands for the root's type tag.
pub open spec fn encode_croissant_type(v: CroissantType) -> JsonView {
    JsonView::Str(croissant_type_token(v))
}

/// What a value stands for, read as the root's type tag, if it stands for one.
pub open spec fn decode_croissant_type(j: JsonView) -> Option<CroissantType> {
    match j {
        JsonView::Str(s) => croissant_type_named(s),
        _ => None,
    }
}

/// Decoding what encodes the root's type tag gives it back.
pub proof fn lemma_croissant_type_round_trip(v: CroissantType)
    ensures
        croissant_type_named(croissant_type_token(v)) == Some(v),
        decode_croissant_type(encode_croissant_type(v)) == Some(v),
{
    reveal_strlit("sc:Dataset");
    assert("sc:Dataset"@.len() == 10);
}

/// The wire token of a type tag.
pub open spec fn cr_type_token(v: CrType) -> Seq<char> {
    match v {
        CrType::RecordSet => "cr:RecordSet"@,
        CrType::Field => "cr:Field"@,
        CrType::FileObject => "cr:FileObject"@,
        CrType::FileSet => "cr:FileSet"@,
    }
}

/// The value that a token names, if it names one.
pub open spec fn cr_type_named(s: Seq<char>) -> Option<CrType> {
    if s == "cr:RecordSet"@ {
        Some(CrType::RecordSet)
    } else if s == "cr:Field"@ {
        Some(CrType::Field)
    } else if s == "cr:FileObject"@ {
        Some(CrType::FileObject)
    } else if s == "cr:FileSet"@ {
        Some(CrType::FileSet)
    } else {
        None
    }
}

/// The value that stands for a type tag.
pub open spec fn encode_cr_type(v: CrType) -> JsonView {
    JsonView::Str(cr_type_token(v))
}

/// What a value stands for, read as a type tag, if it stands for one.
pub open spec fn decode_cr_type(j: JsonView) -> Option<CrType> {
    match j {
        JsonView::Str(s) => cr_type_named(s),
        _ => None,
    }
}

/// Decoding what encodes a type tag gives it back.
pub proof fn lemma_cr_type_round_trip(v: CrType)
    ensures
        cr_type_named(cr_type_token(v)) == Some(v),
        decode_cr_type(encode_cr_type(v)) == Some(v),
{
    reveal_strlit("cr:RecordSet");
    reveal_strlit("cr:Field");
    reveal_strlit("cr:FileObject");
    reveal_strlit("cr:FileSet");
    assert("cr:RecordSet"@.len() == 12);
    assert("cr:Field"@.len() == 8);
    assert("cr:FileObject"@.len() == 13);
    assert("cr:FileSet"@.len() == 10);
}

/// The wire token of a bounding-box layout.
pub open spec fn bounding_box_format_token(v: BoundingBoxFormat) -> Seq<char> {
    match v {
        BoundingBoxFormat::CenterXywh => "CenterXywh"@,
        BoundingBoxFormat::Xywh => "Xywh"@,
        BoundingBoxFormat::Xyxy => "Xyxy"@,
    }
}

/// The value that a token names, if it names one.
pub open spec fn bounding_box_format_named(s: Seq<char>) -> Option<BoundingBoxFormat> {
    if s == "CenterXywh"@ {
        Some(BoundingBoxFormat::CenterXywh)
    } else if s == "Xywh"@ {
        Some(BoundingBoxFormat::Xywh)
    } else if s == "Xyxy"@ {
        Some(BoundingBoxFormat::Xyxy)
    } else {
        None
    }
}

/// The value that stands for a bounding-box layout.
pub open spec fn encode_bounding_box_format(v: BoundingBoxFormat) -> JsonView {
    JsonView::Str(bounding_box_format_token(v))
}

/// What a value stands for, read as a bounding-box layout, if it stands for one.
pub open spec fn decode_bounding_box_format(j: JsonView) -> Option<BoundingBoxFormat> {
    match j {
        JsonView::Str(s) => bounding_box_format_named(s),
        _ => None,
    }
}

/// Decoding what encodes a bounding-box layout gives it back.
pub proof fn lemma_bounding_box_format_round_trip(v: BoundingBoxFormat)
    ensures
        bounding_box_format_named(bounding_box_format_token(v)) == Some(v),
        decode_bounding_box_format(encode_bounding_box_format(v)) == Some(v),
{
    reveal_strlit("CenterXywh");
    reveal_strlit("Xywh");
    reveal_strlit("Xyxy");
    assert("CenterXywh"@.len() == 10);
    assert("Xywh"@.len() == 4);
    assert("Xyxy"@.len() == 4);
    assert("Xywh"@[2] != "Xyxy"@[2]);
}

/// The wire token of a file property.
pub open spec fn file_property_token(v: FileProperty) -> Seq<char> {
    match v {
        FileProperty::FullPath => "fullpath"@,
        FileProperty::FileName => "filename"@,
        FileProperty::Content => "content"@,
        FileProperty::Lines => "lines"@,
        FileProperty::LineNumbers => "lineNumbers"@,
    }
}

/// The value that a token names, if it names one.
pub open spec fn file_property_named(s: Seq<char>) -> Option<FileProperty> {
    if s == "fullpath"@ {
        Some(FileProperty::FullPath)
    } else if s == "filename"@ {
        Some(FileProperty::FileName)
    } else if s == "content"@ {
        Some(FileProperty::Content)
    } else if s == "lines"@ {
        Some(FileProperty::Lines)
    } else if s == "lineNumbers"@ {
        Some(FileProperty::LineNumbers)
    } else {
        None
    }
}

/// The value that stands for a file property.
pub open spec fn encode_file_property(v: FileProperty) -> JsonView {
    JsonView::Str(file_property_token(v))
}

/// What a value stands for, read as a file property, if it stands for one.
pub open spec fn decode_file_property(j: JsonView) -> Option<FileProperty> {
    match j {
        JsonView::Str(s) => file_property_named(s),
        _ => None,
    }
}

/// Decoding what encodes a file property gives it back.
pub proof fn lemma_file_property_round_trip(v: FileProperty)
    ensures
        file_property_named(file_property_token(v)) == Some(v),
        decode_file_property(encode_file_property(v)) == Some(v),
{
    reveal_strlit("fullpath");
    reveal_strlit("filename");
    reveal_strlit("content");
    reveal_strlit("lines");
    reveal_strlit("lineNumbers");
    assert("fullpath"@.len() == 8);
    assert("filename"@.len() == 8);
    assert("content"@.len() == 7);
    assert("lines"@.len() == 5);
    assert("lineNumbers"@.len() == 11);
    assert("fullpath"@[1] != "filename"@[1]);
}

/// The wire token of a data type: a fixed token for the named types, the
/// layout's token for a bounding box, and the identifier itself for any
/// other type.
pub open spec fn data_type_token(t: DataTypeView) -> Seq<char> {
    match t {
        DataTypeView::Enumeration => "sc:Enumeration"@,
        DataTypeView::Boolean => "sc:Boolean"@,
        DataTypeView::Integer => "sc:Integer"@,
        DataTypeView::Float => "sc:Float"@,
        DataTypeView::Text => "sc:Text"@,
        DataTypeView::Date => "sc:Date"@,
        DataTypeView::DateTime => "sc:DateTime"@,
        DataTypeView::Url => "sc:URL"@,
        DataTypeView::ImageObject => "sc:ImageObject"@,
        DataTypeView::Split => "cr:Split"@,
        DataTypeView::Label => "cr:Label"@,
        DataTypeView::BoundingBox(format) => bounding_box_format_token(format),
        DataTypeView::CustomIri(iri) => iri,
    }
}

/// The type that a token names, if it names one.
pub open spec fn data_type_named(s: Seq<char>) -> Option<DataTypeView> {
    if s == "sc:Enumeration"@ {
        Some(DataTypeView::Enumeration)
    } else if s == "sc:Boolean"@ {
        Some(DataTypeView::Boolean)
    } else if s == "sc:Integer"@ {
        Some(DataTypeView::Integer)
    } else if s == "sc:Float"@ {
        Some(DataTypeView::Float)
    } else if s == "sc:Text"@ {
        Some(DataTypeView::Text)
    } else if s == "sc:Date"@ {
        Some(DataTypeView::Date)
    } else if s == "sc:DateTime"@ {
        Some(DataTypeView::DateTime)
    } else if s == "sc:URL"@ {
        Some(DataTypeView::Url)
    } else if s == "sc:ImageObject"@ {
        Some(DataTypeView::ImageObject)
    } else if s == "cr:Split"@ {
        Some(DataTypeView::Split)
    } else if s == "cr:Label"@ {
        Some(DataTypeView::Label)
    } else {
        match bounding_box_format_named(s) {
            Some(format) => Some(DataTypeView::BoundingBox(format)),
            None => None,
        }
    }
}

/// The value that stands for a data type.
pub open spec fn encode_data_type(t: DataTypeView) -> JsonView {
    JsonView::Str(data_type_token(t))
}

/// A string that names a type stands for that type; any other string that
/// is not empty is kept as a custom identifier.
pub open spec fn decode_data_type(j: JsonView) -> Option<DataTypeView> {
    match j {
        JsonView::Str(s) => match data_type_named(s) {
            Some(t) => Some(t),
            None => if text_wf(s) {
                Some(DataTypeView::CustomIri(s))
            } else {
                None
            },
        },
        _ => None,
    }
}

/// A custom identifier must not be empty, and it must not be the token of a
/// named type: on the wire the two could not be told apart.
pub open spec fn data_type_wf(t: DataTypeView) -> bool {
    t matches DataTypeView::CustomIri(iri) ==> text_wf(iri) && data_type_named(iri) is None
}

/// Whether a list of data types is well formed.
pub open spec fn data_types_wf(ts: Seq<DataTypeView>) -> bool {
    forall|i: int| 0 <= i < ts.len() ==> data_type_wf(#[trigger] ts[i])
}

/// Decoding what encodes a data type gives it back.
pub proof fn lemma_data_type_round_trip(t: DataTypeView)
    requires
        data_type_wf(t),
    ensures
        decode_data_type(encode_data_type(t)) == Some(t),
{
    reveal_strlit("sc:Enumeration");
    reveal_strlit("sc:Boolean");
    reveal_strlit("sc:Integer");
    reveal_strlit("sc:Float");
    reveal_strlit("sc:Text");
    reveal_strlit("sc:Date");
    reveal_strlit("sc:DateTime");
    reveal_strlit("sc:URL");
    reveal_strlit("sc:ImageObject");
    reveal_strlit("cr:Split");
    reveal_strlit("cr:Label");
    reveal_strlit("CenterXywh");
    reveal_strlit("Xywh");
    reveal_strlit("Xyxy");
    assert("sc:Enumeration"@.len() == 14);
    assert("sc:Boolean"@.len() == 10);
    assert("sc:Integer"@.len() == 10);
    assert("sc:Float"@.len() == 8);
    assert("sc:Text"@.len() == 7);
    assert("sc:Date"@.len() == 7);
    assert("sc:DateTime"@.len() == 11);
    assert("sc:URL"@.len() == 6);
    assert("sc:ImageObject"@.len() == 14);
    assert("cr:Split"@.len() == 8);
    assert("cr:Label"@.len() == 8);
    assert("CenterXywh"@.len() == 10);
    assert("Xywh"@.len() == 4);
    assert("Xyxy"@.len() == 4);
    assert("sc:Enumeration"@[3] != "sc:ImageObject"@[3]);
    assert("sc:Boolean"@[3] != "sc:Integer"@[3]);
    assert("sc:Boolean"@[0] != "CenterXywh"@[0]);
    assert("sc:Integer"@[0] != "CenterXywh"@[0]);
    assert("sc:Float"@[0] != "cr:Split"@[0]);
    assert("sc:Float"@[0] != "cr:Label"@[0]);
    assert("sc:Text"@[3] != "sc:Date"@[3]);
    assert("cr:Split"@[3] != "cr:Label"@[3]);
    assert("Xywh"@[2] != "Xyxy"@[2]);
    match t {
        DataTypeView::BoundingBox(format) => {
            lemma_bounding_box_format_round_trip(format);
        },
        _ => {},
    }
}

/// A list of data types, written as an array; read from an array or from a
/// single token.
pub open spec fn encode_data_types(ts: Seq<DataTypeView>) -> JsonView {
    array(ts, |t: DataTypeView| encode_data_type(t))
}

/// What a value stands for, read as a list of data types, if it stands for one.
pub open spec fn decode_data_types(j: JsonView) -> Option<Seq<DataTypeView>> {
    one_or_many(j, |x: JsonView| decode_data_type(x))
}

/// Decoding what encodes a list of data types gives it back.
pub proof fn lemma_data_types_round_trip(ts: Seq<DataTypeView>)
    requires
        data_types_wf(ts),
    ensures
        decode_data_types(encode_data_types(ts)) == Some(ts),
{
    assert forall|i: int| 0 <= i < ts.len() implies decode_data_type(
        encode_data_type(#[trigger] ts[i]),
    ) == Some(ts[i]) by {
        lemma_data_type_round_trip(ts[i]);
    }
    lemma_each_round_trip(
        ts,
        |t: DataTypeView| encode_data_type(t),
        |x: JsonView| decode_data_type(x),
    );
}

/// A reference is an object whose `@id` is the identifier.
pub open spec fn encode_ref(id: Seq<char>) -> JsonView {
    JsonView::Object(seq![("@id"@, encode_text(id))])
}

/// What a value stands for, read as a reference, if it stands for one.
pub open spec fn decode_ref(j: JsonView) -> Option<Seq<char>> {
    required(member(j, "@id"@), |x: JsonView| decode_text(x))
}

/// Decoding what encodes a reference gives it back.
pub proof fn lemma_ref_round_trip(id: Seq<char>)
    requires
        text_wf(id),
    ensures
        decode_ref(encode_ref(id)) == Some(id),
{
    lemma_member_at(seq![("@id"@, encode_text(id))], 0);
}

/// A list of references, written as an array; read from an array or from a
/// single reference.
pub open spec fn encode_refs(ids: Seq<Seq<char>>) -> JsonView {
    array(ids, |id: Seq<char>| encode_ref(id))
}

/// What a value stands for, read as a list of references, if it stands for one.
pub open spec fn decode_refs(j: JsonView) -> Option<Seq<Seq<char>>> {
    one_or_many(j, |x: JsonView| decode_ref(x))
}

/// Decoding what encodes a list of references gives it back.
pub proof fn lemma_refs_round_trip(ids: Seq<Seq<char>>)
    requires
        texts_wf(ids),
    ensures
        decode_refs(encode_refs(ids)) == Some(ids),
{
    assert forall|i: int| 0 <= i < ids.len() implies decode_ref(encode_ref(#[trigger] ids[i]))
        == Some(ids[i]) by {
        lemma_ref_round_trip(ids[i]);
    }
    lemma_each_round_trip(ids, |id: Seq<char>| encode_ref(id), |x: JsonView| decode_ref(x));
}

/// A reference to a field is an object whose `field` is the reference.
pub open spec fn encode_field_ref(id: Seq<char>) -> JsonView {
    JsonView::Object(seq![("field"@, encode_ref(id))])
}

/// What a value stands for, read as a reference to a field, if it stands for one.
pub open spec fn decode_field_ref(j: JsonView) -> Option<Seq<char>> {
    required(member(j, "field"@), |x: JsonView| decode_ref(x))
}

/// Decoding what encodes a reference to a field gives it back.
pub proof fn lemma_field_ref_round_trip(id: Seq<char>)
    requires
        text_wf(id),
    ensures
        decode_field_ref(encode_field_ref(id)) == Some(id),
{
    lemma_ref_round_trip(id);
    lemma_member_at(seq![("field"@, encode_ref(id))], 0);
}

/// The value that stands for a list of references to fields.
pub open spec fn encode_field_refs(ids: Seq<Seq<char>>) -> JsonView {
    array(ids, |id: Seq<char>| encode_field_ref(id))
}

/// What a value stands for, read as a list of references to fields, if it stands for one.
pub open spec fn decode_field_refs(j: JsonView) -> Option<Seq<Seq<char>>> {
    one_or_many(j, |x: JsonView| decode_field_ref(x))
}

/// Decoding what encodes a list of references to fields gives it back.
pub proof fn lemma_field_refs_round_trip(ids: Seq<Seq<char>>)
    requires
        texts_wf(ids),
    ensures
        decode_field_refs(encode_field_refs(ids)) == Some(ids),
{
    assert forall|i: int| 0 <= i < ids.len() implies decode_field_ref(
        encode_field_ref(#[trigger] ids[i]),
    ) == Some(ids[i]) by {
        lemma_field_ref_round_trip(ids[i]);
    }
    lemma_each_round_trip(
        ids,
        |id: Seq<char>| encode_field_ref(id),
        |x: JsonView| decode_field_ref(x),
    );
}

/// The member that carries a source reference: its key tells the kind of
/// target.
pub open spec fn source_ref_member(source: SourceRefView) -> (Seq<char>, JsonView) {
    match source {
        SourceRefView::FileObject { file_object } => ("fileObject"@, encode_ref(file_object)),
        SourceRefView::FileSet { file_set } => ("fileSet"@, encode_ref(file_set)),
        SourceRefView::RecordSet { record_set } => ("recordSet"@, encode_ref(record_set)),
    }
}

/// The source reference among the members of `j`: the first of `fileObject`,
/// `fileSet` and `recordSet` that holds a reference.
pub open spec fn decode_source_ref(j: JsonView) -> Option<SourceRefView> {
    match required(member(j, "fileObject"@), |x: JsonView| decode_ref(x)) {
        Some(file_object) => Some(SourceRefView::FileObject { file_object }),
        None => match required(member(j, "fileSet"@), |x: JsonView| decode_ref(x)) {
            Some(file_set) => Some(SourceRefView::FileSet { file_set }),
            None => match required(member(j, "recordSet"@), |x: JsonView| decode_ref(x)) {
                Some(record_set) => Some(SourceRefView::RecordSet { record_set }),
                None => None,
            },
        },
    }
}

/// An extraction is an object with one member, whose key tells the kind.
pub open spec fn encode_extract(e: ExtractView) -> JsonView {
    match e {
        ExtractView::Column { name } => JsonView::Object(seq![("column"@, encode_text(name))]),
        ExtractView::FileProperty { property } => JsonView::Object(
            seq![("fileProperty"@, encode_file_property(property))],
        ),
        ExtractView::JsonPath { expr } => JsonView::Object(seq![("jsonPath"@, encode_text(expr))]),
    }
}

/// The first of `column`, `fileProperty` and `jsonPath` that fits.
pub open spec fn decode_extract(j: JsonView) -> Option<ExtractView> {
    match required(member(j, "column"@), |x: JsonView| decode_text(x)) {
        Some(name) => Some(ExtractView::Column { name }),
        None => match required(member(j, "fileProperty"@), |x: JsonView| decode_file_property(x)) {
            Some(property) => Some(ExtractView::FileProperty { property }),
            None => match required(member(j, "jsonPath"@), |x: JsonView| decode_text(x)) {
                Some(expr) => Some(ExtractView::JsonPath { expr }),
                None => None,
            },
        },
    }
}

/// Whether the texts of an extraction are well formed.
pub open spec fn extract_wf(e: ExtractView) -> bool {
    match e {
        ExtractView::Column { name } => text_wf(name),
        ExtractView::FileProperty { property } => true,
        ExtractView::JsonPath { expr } => text_wf(expr),
    }
}

/// Decoding what encodes an extraction gives it back.
pub proof fn lemma_extract_round_trip(e: ExtractView)
    requires
        extract_wf(e),
    ensures
        decode_extract(encode_extract(e)) == Some(e),
        encode_extract(e) != JsonView::Null,
{
    reveal_strlit("column");
    reveal_strlit("fileProperty");
    reveal_strlit("jsonPath");
    assert("column"@.len() == 6);
    assert("fileProperty"@.len() == 12);
    assert("jsonPath"@.len() == 8);
    let members = encode_extract(e)->Object_0;
    lemma_member_at(members, 0);
    match e {
        ExtractView::Column { name } => {},
        ExtractView::FileProperty { property } => {
            lemma_file_property_round_trip(property);
            lemma_member_absent(members, "column"@);
        },
        ExtractView::JsonPath { expr } => {
            lemma_member_absent(members, "column"@);
            lemma_member_absent(members, "fileProperty"@);
        },
    }
}

/// A transformation is an object with one member, whose key tells the kind.
pub open spec fn encode_transform(t: TransformView) -> JsonView {
    match t {
        TransformView::Regex { pattern } => JsonView::Object(
            seq![("regex"@, encode_text(pattern))],
        ),
        TransformView::Delimiter { char } => JsonView::Object(
            seq![("delimiter"@, encode_char(char))],
        ),
        TransformView::JsonQuery { query } => JsonView::Object(
            seq![("jsonQuery"@, encode_text(query))],
        ),
    }
}

/// The first of `regex`, `delimiter` and `jsonQuery` that fits.
pub open spec fn decode_transform(j: JsonView) -> Option<TransformView> {
    match required(member(j, "regex"@), |x: JsonView| decode_text(x)) {
        Some(pattern) => Some(TransformView::Regex { pattern }),
        None => match required(member(j, "delimiter"@), |x: JsonView| decode_char(x)) {
            Some(char) => Some(TransformView::Delimiter { char }),
            None => match required(member(j, "jsonQuery"@), |x: JsonView| decode_text(x)) {
                Some(query) => Some(TransformView::JsonQuery { query }),
                None => None,
            },
        },
    }
}

/// Whether the texts of a transformation are well formed.
pub open spec fn transform_wf(t: TransformView) -> bool {
    match t {
        TransformView::Regex { pattern } => text_wf(pattern),
        TransformView::Delimiter { char } => true,
        TransformView::JsonQuery { query } => text_wf(query),
    }
}

/// Whether every transformation of a list is well formed.
pub open spec fn transforms_wf(ts: Seq<TransformView>) -> bool {
    forall|i: int| 0 <= i < ts.len() ==> transform_wf(#[trigger] ts[i])
}

/// Decoding what encodes a transformation gives it back.
pub proof fn lemma_transform_round_trip(t: TransformView)
    requires
        transform_wf(t),
    ensures
        decode_transform(encode_transform(t)) == Some(t),
{
    reveal_strlit("regex");
    reveal_strlit("delimiter");
    reveal_strlit("jsonQuery");
    assert("regex"@.len() == 5);
    assert("delimiter"@.len() == 9);
    assert("jsonQuery"@.len() == 9);
    assert("delimiter"@[0] != "jsonQuery"@[0]);
    let members = encode_transform(t)->Object_0;
    lemma_member_at(members, 0);
    match t {
        TransformView::Regex { pattern } => {},
        TransformView::Delimiter { char } => {
            lemma_member_absent(members, "regex"@);
        },
        TransformView::JsonQuery { query } => {
            lemma_member_absent(members, "regex"@);
            lemma_member_absent(members, "delimiter"@);
        },
    }
}

/// The value that stands for a list of transformations.
pub open spec fn encode_transforms(ts: Seq<TransformView>) -> JsonView {
    array(ts, |t: TransformView| encode_transform(t))
}

/// What a value stands for, read as a list of transformations, if it stands for one.
pub open spec fn decode_transforms(j: JsonView) -> Option<Seq<TransformView>> {
    list(j, |x: JsonView| decode_transform(x))
}

/// Decoding what encodes a list of transformations gives it back.
pub proof fn lemma_transforms_round_trip(ts: Seq<TransformView>)
    requires
        transforms_wf(ts),
    ensures
        decode_transforms(encode_transforms(ts)) == Some(ts),
        encode_transforms(ts) != JsonView::Null,
{
    assert forall|i: int| 0 <= i < ts.len() implies decode_transform(
        encode_transform(#[trigger] ts[i]),
    ) == Some(ts[i]) by {
        lemma_transform_round_trip(ts[i]);
    }
    lemma_each_round_trip(
        ts,
        |t: TransformView| encode_transform(t),
        |x: JsonView| decode_transform(x),
    );
}

/// A value format is an object tagged by `kind`.
pub open spec fn encode_value_format(f: ValueFormatView) -> JsonView {
    match f {
        ValueFormatView::Date { pattern } => JsonView::Object(
            seq![("kind"@, encode_text("date"@)), ("pattern"@, encode_text(pattern))],
        ),
        ValueFormatView::Number { pattern } => JsonView::Object(
            seq![("kind"@, encode_text("number"@)), ("pattern"@, encode_text(pattern))],
        ),
        ValueFormatView::BoundingBox { format } => JsonView::Object(
            seq![("kind"@, encode_text("bbox"@)), ("format"@, encode_bounding_box_format(format))],
        ),
    }
}

/// The tag is read first; an unknown tag fits no variant.
pub open spec fn decode_value_format(j: JsonView) -> Option<ValueFormatView> {
    match required(member(j, "kind"@), |x: JsonView| decode_text(x)) {
        Some(kind) => if kind == "date"@ {
            match required(member(j, "pattern"@), |x: JsonView| decode_text(x)) {
                Some(pattern) => Some(ValueFormatView::Date { pattern }),
                None => None,
            }
        } else if kind == "number"@ {
            match required(member(j, "pattern"@), |x: JsonView| decode_text(x)) {
                Some(pattern) => Some(ValueFormatView::Number { pattern }),
                None => None,
            }
        } else if kind == "bbox"@ {
            match required(member(j, "format"@), |x: JsonView| decode_bounding_box_format(x)) {
                Some(format) => Some(ValueFormatView::BoundingBox { format }),
                None => None,
            }
        } else {
            None
        },
        None => None,
    }
}

/// Whether the texts of a value format are well formed.
pub open spec fn value_format_wf(f: ValueFormatView) -> bool {
    match f {
        ValueFormatView::Date { pattern } => text_wf(pattern),
        ValueFormatView::Number { pattern } => text_wf(pattern),
        ValueFormatView::BoundingBox { format } => true,
    }
}

/// Decoding what encodes a value format gives it back.
pub proof fn lemma_value_format_round_trip(f: ValueFormatView)
    requires
        value_format_wf(f),
    ensures
        decode_value_format(encode_value_format(f)) == Some(f),
        encode_value_format(f) != JsonView::Null,
{
    reveal_strlit("kind");
    reveal_strlit("pattern");
    reveal_strlit("format");
    reveal_strlit("date");
    reveal_strlit("number");
    reveal_strlit("bbox");
    assert("kind"@.len() == 4);
    assert("pattern"@.len() == 7);
    assert("format"@.len() == 6);
    assert("date"@.len() == 4);
    assert("number"@.len() == 6);
    assert("bbox"@.len() == 4);
    assert("kind"@[0] != "date"@[0]);
    assert("kind"@[0] != "bbox"@[0]);
    assert("format"@[0] != "number"@[0]);
    assert("date"@[0] != "bbox"@[0]);
    let members = encode_value_format(f)->Object_0;
    lemma_member_at(members, 0);
    lemma_member_at(members, 1);
    match f {
        ValueFormatView::BoundingBox { format } => {
            lemma_bounding_box_format_round_trip(format);
        },
        _ => {},
    }
}

/// A field source is one object: the reference to the source, and the
/// members `extract`, `transform` and `format`.
pub open spec fn encode_field_source(s: FieldSourceView) -> JsonView {
    JsonView::Object(
        seq![
            source_ref_member(s.source),
            ("extract"@, nullable(s.extract, |e: ExtractView| encode_extract(e))),
            ("transform"@, nullable(s.transform, |t: Seq<TransformView>| encode_transforms(t))),
            ("format"@, nullable(s.format, |f: ValueFormatView| encode_value_format(f))),
        ],
    )
}

/// What a value stands for, read as a field source, if it stands for one.
pub open spec fn decode_field_source(j: JsonView) -> Option<FieldSourceView> {
    let source = decode_source_ref(j);
    let extract = optional(member(j, "extract"@), |x: JsonView| decode_extract(x));
    let transform = optional(member(j, "transform"@), |x: JsonView| decode_transforms(x));
    let format = optional(member(j, "format"@), |x: JsonView| decode_value_format(x));
    if source is Some && extract is Some && transform is Some && format is Some {
        Some(
            FieldSourceView {
                source: source->0,
                extract: extract->0,
                transform: transform->0,
                format: format->0,
            },
        )
    } else {
        None
    }
}

/// Whether a field source is valid: its reference names something, and
/// what it holds besides is well formed.
pub open spec fn field_source_wf(s: FieldSourceView) -> bool {
    &&& text_wf(s.source.target())
    &&& s.extract matches Some(e) ==> extract_wf(e)
    &&& s.transform matches Some(ts) ==> transforms_wf(ts)
    &&& s.format matches Some(f) ==> value_format_wf(f)
}

/// Decoding what encodes a field source gives it back.
pub proof fn lemma_field_source_round_trip(s: FieldSourceView)
    requires
        field_source_wf(s),
    ensures
        decode_field_source(encode_field_source(s)) == Some(s),
        encode_field_source(s) != JsonView::Null,
{
    reveal_strlit("fileObject");
    reveal_strlit("fileSet");
    reveal_strlit("recordSet");
    reveal_strlit("extract");
    reveal_strlit("transform");
    reveal_strlit("format");
    assert("fileObject"@.len() == 10);
    assert("fileSet"@.len() == 7);
    assert("recordSet"@.len() == 9);
    assert("extract"@.len() == 7);
    assert("transform"@.len() == 9);
    assert("format"@.len() == 6);
    assert("fileSet"@[0] != "extract"@[0]);
    assert("recordSet"@[0] != "transform"@[0]);
    let members = encode_field_source(s)->Object_0;
    lemma_member_at(members, 0);
    lemma_member_at(members, 1);
    lemma_member_at(members, 2);
    lemma_member_at(members, 3);
    lemma_ref_round_trip(s.source.target());
    match s.source {
        SourceRefView::FileObject { file_object } => {},
        SourceRefView::FileSet { file_set } => {
            lemma_member_absent(members, "fileObject"@);
        },
        SourceRefView::RecordSet { record_set } => {
            lemma_member_absent(members, "fileObject"@);
            lemma_member_absent(members, "fileSet"@);
        },
    }
    if s.extract is Some {
        lemma_extract_round_trip(s.extract->0);
    }
    if s.transform is Some {
        lemma_transforms_round_trip(s.transform->0);
    }
    if s.format is Some {
        lemma_value_format_round_trip(s.format->0);
    }
}

/// A field is an object; its sub-fields are fields in an array.
pub open spec fn encode_field(f: FieldView) -> JsonView
    decreases f,
{
    JsonView::Object(
        seq![
            ("@id"@, encode_text(f.id)),
            ("@type"@, encode_cr_type(f.kind)),
            ("name"@, encode_text(f.name)),
            ("description"@, encode_text(f.description)),
            ("dataType"@, encode_data_types(f.data_types)),
            ("source"@, encode_field_source(f.source)),
            ("references"@, encode_field_refs(f.references)),
            (
                "subField"@,
                match f.sub_fields {
                    Some(subs) => encode_fields(subs),
                    None => JsonView::Null,
                },
            ),
            ("parentField"@, nullable(f.parent_fields, |p: Seq<Seq<char>>| encode_texts(p))),
            ("repeated"@, nullable(f.repeated, |b: bool| encode_bool(b))),
            (
                "equivalentProperty"@,
                nullable(f.equivalent_properties, |p: Seq<Seq<char>>| encode_texts(p)),
            ),
        ],
    )
}

/// A list of fields, written as an array.
pub open spec fn encode_fields(fs: Seq<FieldView>) -> JsonView
    decreases fs,
{
    JsonView::Array(
        Seq::new(
            fs.len(),
            |i: int|
                if 0 <= i < fs.len() {
                    encode_field(fs[i])
                } else {
                    JsonView::Null
                },
        ),
    )
}

/// What a value stands for, read as a field, if it stands for one.
pub open spec fn decode_field(j: JsonView) -> Option<FieldView>
    decreases j,
{
    let id = required(member(j, "@id"@), |x: JsonView| decode_text(x));
    let kind = required(member(j, "@type"@), |x: JsonView| decode_cr_type(x));
    let name = required(member(j, "name"@), |x: JsonView| decode_text(x));
    let description = required(member(j, "description"@), |x: JsonView| decode_text(x));
    let data_types = required(member(j, "dataType"@), |x: JsonView| decode_data_types(x));
    let source = required(member(j, "source"@), |x: JsonView| decode_field_source(x));
    let references = defaulted(member(j, "references"@), |x: JsonView| decode_field_refs(x));
    let sub_fields: Option<Option<Seq<FieldView>>> = match member(j, "subField"@) {
        None => Some(None),
        Some(JsonView::Null) => Some(None),
        Some(JsonView::Array(items)) => match decode_field_items(items) {
            Some(subs) => Some(Some(subs)),
            None => None,
        },
        Some(_) => None,
    };
    let parent_fields = optional(member(j, "parentField"@), |x: JsonView| decode_texts(x));
    let repeated = optional(member(j, "repeated"@), |x: JsonView| decode_bool(x));
    let equivalent_properties = optional(
        member(j, "equivalentProperty"@),
        |x: JsonView| decode_texts(x),
    );
    if id is Some && kind is Some && name is Some && description is Some && data_types is Some
        && source is Some && references is Some && sub_fields is Some && parent_fields is Some
        && repeated is Some && equivalent_properties is Some {
        Some(
            FieldView {
                id: id->0,
                kind: kind->0,
                name: name->0,
                description: description->0,
                data_types: data_types->0,
                source: source->0,
                references: references->0,
                sub_fields: sub_fields->0,
                parent_fields: parent_fields->0,
                repeated: repeated->0,
                equivalent_properties: equivalent_properties->0,
            },
        )
    } else {
        None
    }
}

/// Every item decoded as a field, if every item can be.
pub open spec fn decode_field_items(items: Seq<JsonView>) -> Option<Seq<FieldView>>
    decreases items,
{
    if forall|i: int| 0 <= i < items.len() ==> decode_field(#[trigger] items[i]) is Some {
        Some(
            Seq::new(
                items.len(),
                |i: int|
                    if 0 <= i < items.len() {
                        decode_field(items[i])->0
                    } else {
                        arbitrary()
                    },
            ),
        )
    } else {
        None
    }
}

/// What a value stands for, read as a list of fields, if it stands for one.
pub open spec fn decode_fields(j: JsonView) -> Option<Seq<FieldView>> {
    match j {
        JsonView::Array(items) => decode_field_items(items),
        _ => None,
    }
}

/// Whether a field is well formed: its texts are not empty, its data types
/// can be told apart, and so is what it holds besides, sub-fields included.
pub open spec fn field_wf(f: FieldView) -> bool
    decreases f,
{
    &&& text_wf(f.id)
    &&& text_wf(f.name)
    &&& text_wf(f.description)
    &&& data_types_wf(f.data_types)
    &&& field_source_wf(f.source)
    &&& texts_wf(f.references)
    &&& match f.sub_fields {
        Some(subs) => fields_wf(subs),
        None => true,
    }
    &&& f.parent_fields matches Some(p) ==> texts_wf(p)
    &&& f.equivalent_properties matches Some(p) ==> texts_wf(p)
}

/// Whether a list of fields is well formed.
pub open spec fn fields_wf(fs: Seq<FieldView>) -> bool
    decreases fs,
{
    forall|i: int| 0 <= i < fs.len() ==> field_wf(#[trigger] fs[i])
}

/// Decoding what encodes a field gives it back.
pub proof fn lemma_field_round_trip(f: FieldView)
    requires
        field_wf(f),
    ensures
        decode_field(encode_field(f)) == Some(f),
    decreases f,
{
    reveal_strlit("@id");
    reveal_strlit("@type");
    reveal_strlit("name");
    reveal_strlit("description");
    reveal_strlit("dataType");
    reveal_strlit("source");
    reveal_strlit("references");
    reveal_strlit("subField");
    reveal_strlit("parentField");
    reveal_strlit("repeated");
    reveal_strlit("equivalentProperty");
    assert("@id"@.len() == 3);
    assert("@type"@.len() == 5);
    assert("name"@.len() == 4);
    assert("description"@.len() == 11);
    assert("dataType"@.len() == 8);
    assert("source"@.len() == 6);
    assert("references"@.len() == 10);
    assert("subField"@.len() == 8);
    assert("parentField"@.len() == 11);
    assert("repeated"@.len() == 8);
    assert("equivalentProperty"@.len() == 18);
    assert("description"@[0] != "parentField"@[0]);
    assert("dataType"@[0] != "subField"@[0]);
    assert("dataType"@[0] != "repeated"@[0]);
    assert("subField"@[0] != "repeated"@[0]);
    let members = encode_field(f)->Object_0;
    lemma_member_at(members, 0);
    lemma_member_at(members, 1);
    lemma_member_at(members, 2);
    lemma_member_at(members, 3);
    lemma_member_at(members, 4);
    lemma_member_at(members, 5);
    lemma_member_at(members, 6);
    lemma_member_at(members, 7);
    lemma_member_at(members, 8);
    lemma_member_at(members, 9);
    lemma_member_at(members, 10);
    lemma_cr_type_round_trip(f.kind);
    lemma_data_types_round_trip(f.data_types);
    lemma_field_source_round_trip(f.source);
    lemma_field_refs_round_trip(f.references);
    if f.sub_fields is Some {
        lemma_fields_round_trip(f.sub_fields->0);
    }
    if f.parent_fields is Some {
        lemma_texts_round_trip(f.parent_fields->0);
    }
    if f.equivalent_properties is Some {
        lemma_texts_round_trip(f.equivalent_properties->0);
    }
}

/// Decoding what encodes a list of fields gives it back.
pub proof fn lemma_fields_round_trip(fs: Seq<FieldView>)
    requires
        fields_wf(fs),
    ensures
        decode_fields(encode_fields(fs)) == Some(fs),
    decreases fs,
{
    let items = encode_fields(fs)->Array_0;
    assert forall|i: int| 0 <= i < items.len() implies decode_field(#[trigger] items[i]) == Some(
        fs[i],
    ) by {
        lemma_field_round_trip(fs[i]);
    }
    assert(decode_field_items(items)->0 =~= fs);
}

/// A resource is an object tagged by `@type`.
pub open spec fn encode_resource(r: ResourceView) -> JsonView {
    match r {
        ResourceView::FileObject(o) => encode_file_object(o),
        ResourceView::FileSet(s) => encode_file_set(s),
    }
}

/// The tag is read first; an unknown tag fits no variant.
pub open spec fn decode_resource(j: JsonView) -> Option<ResourceView> {
    match required(member(j, "@type"@), |x: JsonView| decode_text(x)) {
        Some(tag) => if tag == "cr:FileObject"@ {
            match decode_file_object(j) {
                Some(o) => Some(ResourceView::FileObject(o)),
                None => None,
            }
        } else if tag == "cr:FileSet"@ {
            match decode_file_set(j) {
                Some(s) => Some(ResourceView::FileSet(s)),
                None => None,
            }
        } else {
            None
        },
        None => None,
    }
}

/// Whether a resource is well formed.
pub open spec fn resource_wf(r: ResourceView) -> bool {
    match r {
        ResourceView::FileObject(o) => file_object_wf(o),
        ResourceView::FileSet(s) => file_set_wf(s),
    }
}

/// Whether every resource of a distribution is well formed.
pub open spec fn resources_wf(rs: Seq<ResourceView>) -> bool {
    forall|i: int| 0 <= i < rs.len() ==> resource_wf(#[trigger] rs[i])
}

/// Decoding what encodes a resource gives it back.
pub proof fn lemma_resource_round_trip(r: ResourceView)
    requires
        resource_wf(r),
    ensures
        decode_resource(encode_resource(r)) == Some(r),
{
    reveal_strlit("@type");
    reveal_strlit("cr:FileObject");
    reveal_strlit("cr:FileSet");
    assert("@type"@.len() == 5);
    assert("cr:FileObject"@.len() == 13);
    assert("cr:FileSet"@.len() == 10);
    let members = encode_resource(r)->Object_0;
    lemma_member_at(members, 0);
    match r {
        ResourceView::FileObject(o) => {
            lemma_file_object_round_trip(o);
        },
        ResourceView::FileSet(s) => {
            lemma_file_set_round_trip(s);
        },
    }
}

/// The distribution, written as an array of resources.
pub open spec fn encode_resources(rs: Seq<ResourceView>) -> JsonView {
    array(rs, |r: ResourceView| encode_resource(r))
}

/// What a value stands for, read as a distribution, if it stands for one.
pub open spec fn decode_resources(j: JsonView) -> Option<Seq<ResourceView>> {
    list(j, |x: JsonView| decode_resource(x))
}

/// Decoding what encodes a distribution gives it back.
pub proof fn lemma_resources_round_trip(rs: Seq<ResourceView>)
    requires
        resources_wf(rs),
    ensures
        decode_resources(encode_resources(rs)) == Some(rs),
{
    assert forall|i: int| 0 <= i < rs.len() implies decode_resource(
        encode_resource(#[trigger] rs[i]),
    ) == Some(rs[i]) by {
        lemma_resource_round_trip(rs[i]);
    }
    lemma_each_round_trip(
        rs,
        |r: ResourceView| encode_resource(r),
        |x: JsonView| decode_resource(x),
    );
}

/// Whether a list of record sets is well formed.
pub open spec fn record_sets_wf(rss: Seq<RecordSetView>) -> bool {
    forall|i: int| 0 <= i < rss.len() ==> record_set_wf(#[trigger] rss[i])
}

/// The record sets, written as an array.
pub open spec fn encode_record_sets(rss: Seq<RecordSetView>) -> JsonView {
    array(rss, |rs: RecordSetView| encode_record_set(rs))
}

/// What a value stands for, read as a list of record sets, if it stands for one.
pub open spec fn decode_record_sets(j: JsonView) -> Option<Seq<RecordSetView>> {
    list(j, |x: JsonView| decode_record_set(x))
}

/// Decoding what encodes a list of record sets gives it back.
pub proof fn lemma_record_sets_round_trip(rss: Seq<RecordSetView>)
    requires
        record_sets_wf(rss),
    ensures
        decode_record_sets(encode_record_sets(rss)) == Some(rss),
{
    assert forall|i: int| 0 <= i < rss.len() implies decode_record_set(
        encode_record_set(#[trigger] rss[i]),
    ) == Some(rss[i]) by {
        lemma_record_set_round_trip(rss[i]);
    }
    lemma_each_round_trip(
        rss,
        |rs: RecordSetView| encode_record_set(rs),
        |x: JsonView| decode_record_set(x),
    );
}

/// A file object is an object with these members.
pub open spec fn encode_file_object(v: FileObjectView) -> JsonView {
    JsonView::Object(
        seq![
            ("@type"@, encode_text("cr:FileObject"@)),
            ("@id"@, encode_text(v.id)),
            ("name"@, encode_text(v.name)),
            ("contentUrl"@, nullable(v.content_url, |x: Seq<char>| encode_text(x))),
            ("contentSize"@, nullable(v.content_size, |x: Seq<char>| encode_text(x))),
            ("encodingFormat"@, encode_text(v.encoding_format)),
            ("sha256"@, nullable(v.sha256, |x: Seq<char>| encode_digest(x))),
        ],
    )
}

/// What a value stands for, read as a file object, if it stands for one.
pub open spec fn decode_file_object(j: JsonView) -> Option<FileObjectView> {
    let id = required(member(j, "@id"@), |x: JsonView| decode_text(x));
    let name = required(member(j, "name"@), |x: JsonView| decode_text(x));
    let content_url = optional(member(j, "contentUrl"@), |x: JsonView| decode_text(x));
    let content_size = optional(member(j, "contentSize"@), |x: JsonView| decode_text(x));
    let encoding_format = required(member(j, "encodingFormat"@), |x: JsonView| decode_text(x));
    let sha256 = optional(member(j, "sha256"@), |x: JsonView| decode_digest(x));
    if id is Some
        && name is Some
        && content_url is Some
        && content_size is Some
        && encoding_format is Some
        && sha256 is Some {
        Some(
            FileObjectView {
                id: id->0,
                name: name->0,
                content_url: content_url->0,
                content_size: content_size->0,
                encoding_format: encoding_format->0,
                sha256: sha256->0,
            },
        )
    } else {
        None
    }
}

/// Whether a file object is well formed: its texts are not empty, and what it
/// holds is well formed.
pub open spec fn file_object_wf(v: FileObjectView) -> bool {
    &&& text_wf(v.id)
    &&& text_wf(v.name)
    &&& v.content_url matches Some(x) ==> text_wf(x)
    &&& v.content_size matches Some(x) ==> text_wf(x)
    &&& text_wf(v.encoding_format)
    &&& v.sha256 matches Some(x) ==> is_sha256_text(x)
}

/// Each member of an encoded file object is found under its key.
pub proof fn lemma_file_object_members(v: FileObjectView)
    ensures
        member(encode_file_object(v), "@id"@) == Some(encode_text(v.id)),
        member(encode_file_object(v), "name"@) == Some(encode_text(v.name)),
        member(encode_file_object(v), "contentUrl"@) == Some(
            nullable(v.content_url, |x: Seq<char>| encode_text(x)),
        ),
        member(encode_file_object(v), "contentSize"@) == Some(
            nullable(v.content_size, |x: Seq<char>| encode_text(x)),
        ),
        member(encode_file_object(v), "encodingFormat"@) == Some(encode_text(v.encoding_format)),
        member(encode_file_object(v), "sha256"@) == Some(
            nullable(v.sha256, |x: Seq<char>| encode_digest(x)),
        ),
{
    reveal_strlit("@type");
    reveal_strlit("@id");
    reveal_strlit("name");
    reveal_strlit("contentUrl");
    reveal_strlit("contentSize");
    reveal_strlit("encodingFormat");
    reveal_strlit("sha256");
    assert("@type"@.len() == 5);
    assert("@id"@.len() == 3);
    assert("name"@.len() == 4);
    assert("contentUrl"@.len() == 10);
    assert("contentSize"@.len() == 11);
    assert("encodingFormat"@.len() == 14);
    assert("sha256"@.len() == 6);
    let members = encode_file_object(v)->Object_0;
    lemma_member_at(members, 1);
    lemma_member_at(members, 2);
    lemma_member_at(members, 3);
    lemma_member_at(members, 4);
    lemma_member_at(members, 5);
    lemma_member_at(members, 6);
}

/// Decoding what encodes a file object gives it back.
pub proof fn lemma_file_object_round_trip(v: FileObjectView)
    requires
        file_object_wf(v),
    ensures
        decode_file_object(encode_file_object(v)) == Some(v),
{
    lemma_file_object_members(v);
}

/// A file set is an object with these members.
pub open spec fn encode_file_set(v: FileSetView) -> JsonView {
    JsonView::Object(
        seq![
            ("@type"@, encode_text("cr:FileSet"@)),
            ("@id"@, encode_text(v.id)),
            ("containedIn"@, encode_texts(v.sources)),
            ("encodingFormat"@, encode_text(v.encoding_format)),
            ("includes"@, encode_texts(v.includes)),
            ("excludes"@, encode_texts(v.excludes)),
        ],
    )
}

/// What a value stands for, read as a file set, if it stands for one.
pub open spec fn decode_file_set(j: JsonView) -> Option<FileSetView> {
    let id = required(member(j, "@id"@), |x: JsonView| decode_text(x));
    let sources = required(member(j, "containedIn"@), |x: JsonView| decode_texts(x));
    let encoding_format = required(member(j, "encodingFormat"@), |x: JsonView| decode_text(x));
    let includes = required(member(j, "includes"@), |x: JsonView| decode_texts(x));
    let excludes = required(member(j, "excludes"@), |x: JsonView| decode_texts(x));
    if id is Some
        && sources is Some
        && encoding_format is Some
        && includes is Some
        && excludes is Some {
        Some(
            FileSetView {
                id: id->0,
                sources: sources->0,
                encoding_format: encoding_format->0,
                includes: includes->0,
                excludes: excludes->0,
            },
        )
    } else {
        None
    }
}

/// Whether a file set is well formed: its texts are not empty, and what it
/// holds is well formed.
pub open spec fn file_set_wf(v: FileSetView) -> bool {
    &&& text_wf(v.id)
    &&& texts_wf(v.sources)
    &&& text_wf(v.encoding_format)
    &&& texts_wf(v.includes)
    &&& texts_wf(v.excludes)
}

/// Each member of an encoded file set is found under its key.
pub proof fn lemma_file_set_members(v: FileSetView)
    ensures
        member(encode_file_set(v), "@id"@) == Some(encode_text(v.id)),
        member(encode_file_set(v), "containedIn"@) == Some(encode_texts(v.sources)),
        member(encode_file_set(v), "encodingFormat"@) == Some(encode_text(v.encoding_format)),
        member(encode_file_set(v), "includes"@) == Some(encode_texts(v.includes)),
        member(encode_file_set(v), "excludes"@) == Some(encode_texts(v.excludes)),
{
    reveal_strlit("@type");
    reveal_strlit("@id");
    reveal_strlit("containedIn");
    reveal_strlit("encodingFormat");
    reveal_strlit("includes");
    reveal_strlit("excludes");
    assert("@type"@.len() == 5);
    assert("@id"@.len() == 3);
    assert("containedIn"@.len() == 11);
    assert("encodingFormat"@.len() == 14);
    assert("includes"@.len() == 8);
    assert("excludes"@.len() == 8);
    assert("includes"@[0] != "excludes"@[0]);
    let members = encode_file_set(v)->Object_0;
    lemma_member_at(members, 1);
    lemma_member_at(members, 2);
    lemma_member_at(members, 3);
    lemma_member_at(members, 4);
    lemma_member_at(members, 5);
}

/// Decoding what encodes a file set gives it back.
pub proof fn lemma_file_set_round_trip(v: FileSetView)
    requires
        file_set_wf(v),
    ensures
        decode_file_set(encode_file_set(v)) == Some(v),
{
    lemma_file_set_members(v);
    lemma_texts_round_trip(v.sources);
    lemma_texts_round_trip(v.includes);
    lemma_texts_round_trip(v.excludes);
}

/// A term of the context is an object with these members.
pub open spec fn encode_term(v: TermView) -> JsonView {
    JsonView::Object(
        seq![
            ("@id"@, encode_text(v.id)),
            ("@type"@, encode_text(v.type_)),
        ],
    )
}

/// What a value stands for, read as a term of the context, if it stands for one.
pub open spec fn decode_term(j: JsonView) -> Option<TermView> {
    let id = required(member(j, "@id"@), |x: JsonView| decode_text(x));
    let type_ = required(member(j, "@type"@), |x: JsonView| decode_text(x));
    if id is Some
        && type_ is Some {
        Some(
            TermView {
                id: id->0,
                type_: type_->0,
            },
        )
    } else {
        None
    }
}

/// Whether a term of the context is well formed: its texts are not empty, and what it
/// holds is well formed.
pub open spec fn term_wf(v: TermView) -> bool {
    &&& text_wf(v.id)
    &&& text_wf(v.type_)
}

/// Each member of an encoded term of the context is found under its key.
pub proof fn lemma_term_members(v: TermView)
    ensures
        member(encode_term(v), "@id"@) == Some(encode_text(v.id)),
        member(encode_term(v), "@type"@) == Some(encode_text(v.type_)),
{
    reveal_strlit("@id");
    reveal_strlit("@type");
    assert("@id"@.len() == 3);
    assert("@type"@.len() == 5);
    let members = encode_term(v)->Object_0;
    lemma_member_at(members, 0);
    lemma_member_at(members, 1);
}

/// Decoding what encodes a term of the context gives it back.
pub proof fn lemma_term_round_trip(v: TermView)
    requires
        term_wf(v),
    ensures
        decode_term(encode_term(v)) == Some(v),
{
    lemma_term_members(v);
}

/// The context block is an object with these members.
pub open spec fn encode_context(v: ContextView) -> JsonView {
    JsonView::Object(
        seq![
            ("@language"@, encode_text(v.language)),
            ("@vocab"@, encode_text(v.vocab)),
            ("sc"@, encode_text(v.sc)),
            ("cr"@, encode_text(v.cr)),
            ("dct"@, encode_text(v.dct)),
            ("citeAs"@, encode_text(v.cite_as)),
            ("column"@, encode_text(v.column)),
            ("conformsTo"@, encode_text(v.conforms_to)),
            ("data"@, encode_term(v.data)),
            ("dataType"@, encode_term(v.data_type)),
        ],
    )
}

/// What a value stands for, read as a context block, if it stands for one.
pub open spec fn decode_context(j: JsonView) -> Option<ContextView> {
    let language = required(member(j, "@language"@), |x: JsonView| decode_text(x));
    let vocab = required(member(j, "@vocab"@), |x: JsonView| decode_text(x));
    let sc = required(member(j, "sc"@), |x: JsonView| decode_text(x));
    let cr = required(member(j, "cr"@), |x: JsonView| decode_text(x));
    let dct = required(member(j, "dct"@), |x: JsonView| decode_text(x));
    let cite_as = required(member(j, "citeAs"@), |x: JsonView| decode_text(x));
    let column = required(member(j, "column"@), |x: JsonView| decode_text(x));
    let conforms_to = required(member(j, "conformsTo"@), |x: JsonView| decode_text(x));
    let data = required(member(j, "data"@), |x: JsonView| decode_term(x));
    let data_type = required(member(j, "dataType"@), |x: JsonView| decode_term(x));
    if language is Some
        && vocab is Some
        && sc is Some
        && cr is Some
        && dct is Some
        && cite_as is Some
        && column is Some
        && conforms_to is Some
        && data is Some
        && data_type is Some {
        Some(
            ContextView {
                language: language->0,
                vocab: vocab->0,
                sc: sc->0,
                cr: cr->0,
                dct: dct->0,
                cite_as: cite_as->0,
                column: column->0,
                conforms_to: conforms_to->0,
                data: data->0,
                data_type: data_type->0,
            },
        )
    } else {
        None
    }
}

/// Whether the context block is well formed: its texts are not empty, and what it
/// holds is well formed.
pub open spec fn context_wf(v: ContextView) -> bool {
    &&& text_wf(v.language)
    &&& text_wf(v.vocab)
    &&& text_wf(v.sc)
    &&& text_wf(v.cr)
    &&& text_wf(v.dct)
    &&& text_wf(v.cite_as)
    &&& text_wf(v.column)
    &&& text_wf(v.conforms_to)
    &&& term_wf(v.data)
    &&& term_wf(v.data_type)
}

/// Each member of an encoded context block is found under its key.
pub proof fn lemma_context_members(v: ContextView)
    ensures
        member(encode_context(v), "@language"@) == Some(encode_text(v.language)),
        member(encode_context(v), "@vocab"@) == Some(encode_text(v.vocab)),
        member(encode_context(v), "sc"@) == Some(encode_text(v.sc)),
        member(encode_context(v), "cr"@) == Some(encode_text(v.cr)),
        member(encode_context(v), "dct"@) == Some(encode_text(v.dct)),
        member(encode_context(v), "citeAs"@) == Some(encode_text(v.cite_as)),
        member(encode_context(v), "column"@) == Some(encode_text(v.column)),
        member(encode_context(v), "conformsTo"@) == Some(encode_text(v.conforms_to)),
        member(encode_context(v), "data"@) == Some(encode_term(v.data)),
        member(encode_context(v), "dataType"@) == Some(encode_term(v.data_type)),
{
    reveal_strlit("@language");
    reveal_strlit("@vocab");
    reveal_strlit("sc");
    reveal_strlit("cr");
    reveal_strlit("dct");
    reveal_strlit("citeAs");
    reveal_strlit("column");
    reveal_strlit("conformsTo");
    reveal_strlit("data");
    reveal_strlit("dataType");
    assert("@language"@.len() == 9);
    assert("@vocab"@.len() == 6);
    assert("sc"@.len() == 2);
    assert("cr"@.len() == 2);
    assert("dct"@.len() == 3);
    assert("citeAs"@.len() == 6);
    assert("column"@.len() == 6);
    assert("conformsTo"@.len() == 10);
    assert("data"@.len() == 4);
    assert("dataType"@.len() == 8);
    assert("@vocab"@[0] != "citeAs"@[0]);
    assert("@vocab"@[0] != "column"@[0]);
    assert("sc"@[0] != "cr"@[0]);
    assert("citeAs"@[1] != "column"@[1]);
    let members = encode_context(v)->Object_0;
    lemma_member_at(members, 0);
    lemma_member_at(members, 1);
    lemma_member_at(members, 2);
    lemma_member_at(members, 3);
    lemma_member_at(members, 4);
    lemma_member_at(members, 5);
    lemma_member_at(members, 6);
    lemma_member_at(members, 7);
    lemma_member_at(members, 8);
    lemma_member_at(members, 9);
}

/// Decoding what encodes a context block gives it back.
pub proof fn lemma_context_round_trip(v: ContextView)
    requires
        context_wf(v),
    ensures
        decode_context(encode_context(v)) == Some(v),
{
    lemma_context_members(v);
    lemma_term_round_trip(v.data);
    lemma_term_round_trip(v.data_type);
}

/// A record set is an object with these members.
pub open spec fn encode_record_set(v: RecordSetView) -> JsonView {
    JsonView::Object(
        seq![
            ("@id"@, encode_text(v.id)),
            ("@type"@, encode_cr_type(v.kind)),
            ("key"@, encode_refs(v.keys)),
            ("field"@, encode_fields(v.fields)),
            ("dataType"@, encode_data_types(v.record_types)),
        ],
    )
}

/// What a value stands for, read as a record set, if it stands for one.
pub open spec fn decode_record_set(j: JsonView) -> Option<RecordSetView> {
    let id = required(member(j, "@id"@), |x: JsonView| decode_text(x));
    let kind = required(member(j, "@type"@), |x: JsonView| decode_cr_type(x));
    let keys = defaulted(member(j, "key"@), |x: JsonView| decode_refs(x));
    let fields = required(member(j, "field"@), |x: JsonView| decode_fields(x));
    let record_types = defaulted(member(j, "dataType"@), |x: JsonView| decode_data_types(x));
    if id is Some
        && kind is Some
        && keys is Some
        && fields is Some
        && record_types is Some {
        Some(
            RecordSetView {
                id: id->0,
                kind: kind->0,
                keys: keys->0,
                fields: fields->0,
                record_types: record_types->0,
            },
        )
    } else {
        None
    }
}

/// Whether a record set is well formed: its texts are not empty, and what it
/// holds is well formed.
pub open spec fn record_set_wf(v: RecordSetView) -> bool {
    &&& text_wf(v.id)
    &&& texts_wf(v.keys)
    &&& fields_wf(v.fields)
    &&& data_types_wf(v.record_types)
}

/// Each member of an encoded record set is found under its key.
pub proof fn lemma_record_set_members(v: RecordSetView)
    ensures
        member(encode_record_set(v), "@id"@) == Some(encode_text(v.id)),
        member(encode_record_set(v), "@type"@) == Some(encode_cr_type(v.kind)),
        member(encode_record_set(v), "key"@) == Some(encode_refs(v.keys)),
        member(encode_record_set(v), "field"@) == Some(encode_fields(v.fields)),
        member(encode_record_set(v), "dataType"@) == Some(encode_data_types(v.record_types)),
{
    reveal_strlit("@id");
    reveal_strlit("@type");
    reveal_strlit("key");
    reveal_strlit("field");
    reveal_strlit("dataType");
    assert("@id"@.len() == 3);
    assert("@type"@.len() == 5);
    assert("key"@.len() == 3);
    assert("field"@.len() == 5);
    assert("dataType"@.len() == 8);
    assert("@id"@[0] != "key"@[0]);
    assert("@type"@[0] != "field"@[0]);
    let members = encode_record_set(v)->Object_0;
    lemma_member_at(members, 0);
    lemma_member_at(members, 1);
    lemma_member_at(members, 2);
    lemma_member_at(members, 3);
    lemma_member_at(members, 4);
}

/// Decoding what encodes a record set gives it back.
pub proof fn lemma_record_set_round_trip(v: RecordSetView)
    requires
        record_set_wf(v),
    ensures
        decode_record_set(encode_record_set(v)) == Some(v),
{
    lemma_record_set_members(v);
    lemma_cr_type_round_trip(v.kind);
    lemma_refs_round_trip(v.keys);
    lemma_fields_round_trip(v.fields);
    lemma_data_types_round_trip(v.record_types);
}

/// A dataset description is an object with these members.
pub open spec fn encode_metadata(v: MetadataView) -> JsonView {
    JsonView::Object(
        seq![
            ("@context"@, encode_context(v.context)),
            ("@type"@, encode_croissant_type(v.kind)),
            ("name"@, encode_text(v.name)),
            ("description"@, encode_text(v.description)),
            ("conformsTo"@, encode_text(v.conforms_to)),
            ("datePublished"@, nullable(v.date_published, |x: Seq<char>| encode_text(x))),
            ("version"@, encode_text(v.version)),
            ("distribution"@, encode_resources(v.distribution)),
            ("recordSet"@, encode_record_sets(v.record_sets)),
        ],
    )
}

/// What a value stands for, read as a dataset description, if it stands for one.
pub open spec fn decode_metadata(j: JsonView) -> Option<MetadataView> {
    let context = required(member(j, "@context"@), |x: JsonView| decode_context(x));
    let kind = required(member(j, "@type"@), |x: JsonView| decode_croissant_type(x));
    let name = required(member(j, "name"@), |x: JsonView| decode_text(x));
    let description = required(member(j, "description"@), |x: JsonView| decode_text(x));
    let conforms_to = required(member(j, "conformsTo"@), |x: JsonView| decode_text(x));
    let date_published = optional(member(j, "datePublished"@), |x: JsonView| decode_text(x));
    let version = required(member(j, "version"@), |x: JsonView| decode_text(x));
    let distribution = required(member(j, "distribution"@), |x: JsonView| decode_resources(x));
    let record_sets = required(member(j, "recordSet"@), |x: JsonView| decode_record_sets(x));
    if context is Some
        && kind is Some
        && name is Some
        && description is Some
        && conforms_to is Some
        && date_published is Some
        && version is Some
        && distribution is Some
        && record_sets is Some {
        Some(
            MetadataView {
                context: context->0,
                kind: kind->0,
                name: name->0,
                description: description->0,
                conforms_to: conforms_to->0,
                date_published: date_published->0,
                version: version->0,
                distribution: distribution->0,
                record_sets: record_sets->0,
            },
        )
    } else {
        None
    }
}

/// Whether a dataset description is well formed: its texts are not empty, and what it
/// holds is well formed.
pub open spec fn metadata_wf(v: MetadataView) -> bool {
    &&& context_wf(v.context)
    &&& text_wf(v.name)
    &&& text_wf(v.description)
    &&& text_wf(v.conforms_to)
    &&& v.date_published matches Some(x) ==> text_wf(x)
    &&& text_wf(v.version)
    &&& resources_wf(v.distribution)
    &&& record_sets_wf(v.record_sets)
}

/// Each member of an encoded dataset description is found under its key.
pub proof fn lemma_metadata_members(v: MetadataView)
    ensures
        member(encode_metadata(v), "@context"@) == Some(encode_context(v.context)),
        member(encode_metadata(v), "@type"@) == Some(encode_croissant_type(v.kind)),
        member(encode_metadata(v), "name"@) == Some(encode_text(v.name)),
        member(encode_metadata(v), "description"@) == Some(encode_text(v.description)),
        member(encode_metadata(v), "conformsTo"@) == Some(encode_text(v.conforms_to)),
        member(encode_metadata(v), "datePublished"@) == Some(
            nullable(v.date_published, |x: Seq<char>| encode_text(x)),
        ),
        member(encode_metadata(v), "version"@) == Some(encode_text(v.version)),
        member(encode_metadata(v), "distribution"@) == Some(encode_resources(v.distribution)),
        member(encode_metadata(v), "recordSet"@) == Some(encode_record_sets(v.record_sets)),
{
    reveal_strlit("@context");
    reveal_strlit("@type");
    reveal_strlit("name");
    reveal_strlit("description");
    reveal_strlit("conformsTo");
    reveal_strlit("datePublished");
    reveal_strlit("version");
    reveal_strlit("distribution");
    reveal_strlit("recordSet");
    assert("@context"@.len() == 8);
    assert("@type"@.len() == 5);
    assert("name"@.len() == 4);
    assert("description"@.len() == 11);
    assert("conformsTo"@.len() == 10);
    assert("datePublished"@.len() == 13);
    assert("version"@.len() == 7);
    assert("distribution"@.len() == 12);
    assert("recordSet"@.len() == 9);
    let members = encode_metadata(v)->Object_0;
    lemma_member_at(members, 0);
    lemma_member_at(members, 1);
    lemma_member_at(members, 2);
    lemma_member_at(members, 3);
    lemma_member_at(members, 4);
    lemma_member_at(members, 5);
    lemma_member_at(members, 6);
    lemma_member_at(members, 7);
    lemma_member_at(members, 8);
}

/// Decoding what encodes a dataset description gives it back.
pub proof fn lemma_metadata_round_trip(v: MetadataView)
    requires
        metadata_wf(v),
    ensures
        decode_metadata(encode_metadata(v)) == Some(v),
{
    lemma_metadata_members(v);
    lemma_context_round_trip(v.context);
    lemma_croissant_type_round_trip(v.kind);
    lemma_resources_round_trip(v.distribution);
    lemma_record_sets_round_trip(v.record_sets);
}

/// Decoding what was encoded gives the tree back.
pub proof fn lemma_round_trip(m: MetadataView)
    requires
        metadata_wf(m),
    ensures
        decode_metadata(encode_metadata(m)) == Some(m),
{
    lemma_metadata_round_trip(m);
}

/// A list of data types reads the same whether it is written as one token or
/// as an array that holds this token alone; a token that is not empty reads
/// as a list of one type.
pub proof fn lemma_one_or_many(token: Seq<char>)
    ensures
        decode_data_types(JsonView::Str(token)) == decode_data_types(
            JsonView::Array(seq![JsonView::Str(token)]),
        ),
        text_wf(token) ==> (decode_data_types(JsonView::Str(token)) matches Some(ts)
            && ts.len() == 1),
{
    let single = JsonView::Str(token);
    let items = seq![single];
    let each_item = each(items, |x: JsonView| decode_data_type(x));
    if decode_data_type(single) is Some {
        assert(decode_data_type(items[0]) is Some);
        assert(each_item->0 =~= seq![decode_data_type(single)->0]);
    } else {
        assert(!(decode_data_type(items[0]) is Some));
    }
}

} // verus!
