//! Documents that say the same in another order.
//!
//! JSON does not order the members of an object, and a printer may write
//! them in any order. Decoding reads members by key, so two documents whose
//! objects agree key by key, at every depth, decode alike.

use vstd::prelude::*;
use crate::json::{lemma_index_of_first, lemma_index_of_none, member, JsonView};
use crate::model::MetadataView;
use crate::wire::{
    decode_bool, decode_bounding_box_format, decode_char, decode_context, decode_cr_type,
    decode_croissant_type, decode_data_type, decode_data_types, decode_digest, decode_extract,
    decode_field, decode_field_items, decode_field_ref, decode_field_refs, decode_field_source,
    decode_fields, decode_file_object, decode_file_property, decode_file_set, decode_metadata,
    decode_record_set, decode_record_sets, decode_ref, decode_refs, decode_resource,
    decode_resources, decode_source_ref, decode_term, decode_text, decode_texts,
    decode_transform, decode_transforms, decode_value_format, defaulted, encode_metadata,
    lemma_round_trip, metadata_wf, optional, required,
};

verus! {

/// Whether two documents say the same: equal scalars, arrays that say the
/// same item by item, and objects that say the same under every key. The
/// order of the members of an object does not count, nor does a member
/// that stands behind another with the same key.
#[verifier::opaque]
pub open spec fn same_document(a: JsonView, b: JsonView) -> bool
    decreases a,
{
    match (a, b) {
        (JsonView::Null, JsonView::Null) => true,
        (JsonView::Bool(x), JsonView::Bool(y)) => x == y,
        (JsonView::Number(x), JsonView::Number(y)) => x == y,
        (JsonView::Str(x), JsonView::Str(y)) => x == y,
        (JsonView::Array(x), JsonView::Array(y)) => {
            &&& x.len() == y.len()
            &&& forall|i: int| 0 <= i < x.len() ==> same_document(#[trigger] x[i], y[i])
        },
        (JsonView::Object(_), JsonView::Object(_)) => forall|key: Seq<char>|
            match (#[trigger] member(a, key), member(b, key)) {
                (Some(u), Some(v)) => same_document(u, v),
                (None, None) => true,
                _ => false,
            },
        _ => false,
    }
}

/// What two documents hold under a key, if they say the same: nothing in
/// both, or values that say the same.
pub open spec fn same_member(a: JsonView, b: JsonView, key: Seq<char>) -> bool {
    match (member(a, key), member(b, key)) {
        (Some(u), Some(v)) => same_document(u, v),
        (None, None) => true,
        _ => false,
    }
}

/// Documents that say the same hold the same under every key.
pub proof fn lemma_same_member(a: JsonView, b: JsonView, key: Seq<char>)
    requires
        same_document(a, b),
    ensures
        same_member(a, b, key),
{
    reveal(same_document);
    match (a, b) {
        (JsonView::Object(_), JsonView::Object(_)) => {
            assert(match (member(a, key), member(b, key)) {
                (Some(u), Some(v)) => same_document(u, v),
                (None, None) => true,
                _ => false,
            });
        },
        _ => {},
    }
}

/// Every document says the same as itself.
pub proof fn lemma_same_as_itself(a: JsonView)
    ensures
        same_document(a, a),
    decreases a,
{
    reveal(same_document);
    match a {
        JsonView::Array(x) => {
            assert forall|i: int| 0 <= i < x.len() implies same_document(#[trigger] x[i], x[i]) by {
                lemma_same_as_itself(x[i]);
            }
        },
        JsonView::Object(_) => {
            assert forall|key: Seq<char>|
                match (#[trigger] member(a, key), member(a, key)) {
                    (Some(u), Some(v)) => same_document(u, v),
                    (None, None) => true,
                    _ => false,
                } by {
                if member(a, key) is Some {
                    lemma_same_as_itself(member(a, key)->0);
                }
            }
        },
        _ => {},
    }
}

/// Whether no two members have the same key.
pub open spec fn distinct_keys(members: Seq<(Seq<char>, JsonView)>) -> bool {
    forall|i: int, j: int|
        0 <= i < j < members.len() ==> (#[trigger] members[i]).0 != (#[trigger] members[j]).0
}

/// Writing the members of an object in another order changes nothing: two
/// objects without repeated keys that hold the same members say the same.
pub proof fn lemma_reordering_says_the_same(
    x: Seq<(Seq<char>, JsonView)>,
    y: Seq<(Seq<char>, JsonView)>,
)
    requires
        distinct_keys(x),
        distinct_keys(y),
        forall|m: (Seq<char>, JsonView)| x.contains(m) <==> y.contains(m),
    ensures
        same_document(JsonView::Object(x), JsonView::Object(y)),
{
    let a = JsonView::Object(x);
    let b = JsonView::Object(y);
    assert forall|key: Seq<char>|
        match (#[trigger] member(a, key), member(b, key)) {
            (Some(u), Some(v)) => same_document(u, v),
            (None, None) => true,
            _ => false,
        } by {
        if exists|i: int| 0 <= i < x.len() && (#[trigger] x[i]).0 == key {
            let i = choose|i: int| 0 <= i < x.len() && (#[trigger] x[i]).0 == key;
            assert forall|k: int| 0 <= k < i implies (#[trigger] x[k]).0 != key by {
                assert(x[k].0 != x[i].0);
            }
            lemma_index_of_first(x, key, i);
            assert(x.contains(x[i]));
            assert(y.contains(x[i]));
            let j = choose|j: int| 0 <= j < y.len() && y[j] == x[i];
            assert forall|k: int| 0 <= k < j implies (#[trigger] y[k]).0 != key by {
                assert(y[k].0 != y[j].0);
            }
            lemma_index_of_first(y, key, j);
            lemma_same_as_itself(x[i].1);
        } else {
            assert forall|k: int| 0 <= k < y.len() implies (#[trigger] y[k]).0 != key by {
                if y[k].0 == key {
                    assert(y.contains(y[k]));
                    assert(x.contains(y[k]));
                    let i = choose|i: int| 0 <= i < x.len() && x[i] == y[k];
                    assert(x[i].0 == key);
                }
            }
            lemma_index_of_none(x, key);
            lemma_index_of_none(y, key);
        }
    }
    reveal(same_document);
}

/// Documents that say the same are of one kind, and if they are arrays,
/// their items say the same one by one.
pub proof fn lemma_same_shape(a: JsonView, b: JsonView)
    requires
        same_document(a, b),
    ensures
        a is Null <==> b is Null,
        a is Array <==> b is Array,
        a matches JsonView::Array(x) ==> b matches JsonView::Array(y) && x.len() == y.len() && (
        forall|i: int| 0 <= i < x.len() ==> same_document(#[trigger] x[i], y[i])),
{
    reveal(same_document);
}

proof fn lemma_text_alike(a: JsonView, b: JsonView)
    requires
        same_document(a, b),
    ensures
        decode_text(a) == decode_text(b),
{
    reveal(same_document);
}

proof fn lemma_digest_alike(a: JsonView, b: JsonView)
    requires
        same_document(a, b),
    ensures
        decode_digest(a) == decode_digest(b),
{
    reveal(same_document);
}

proof fn lemma_bool_alike(a: JsonView, b: JsonView)
    requires
        same_document(a, b),
    ensures
        decode_bool(a) == decode_bool(b),
{
    reveal(same_document);
}

proof fn lemma_char_alike(a: JsonView, b: JsonView)
    requires
        same_document(a, b),
    ensures
        decode_char(a) == decode_char(b),
{
    reveal(same_document);
}

proof fn lemma_croissant_type_alike(a: JsonView, b: JsonView)
    requires
        same_document(a, b),
    ensures
        decode_croissant_type(a) == decode_croissant_type(b),
{
    reveal(same_document);
}

proof fn lemma_cr_type_alike(a: JsonView, b: JsonView)
    requires
        same_document(a, b),
    ensures
        decode_cr_type(a) == decode_cr_type(b),
{
    reveal(same_document);
}

proof fn lemma_bounding_box_format_alike(a: JsonView, b: JsonView)
    requires
        same_document(a, b),
    ensures
        decode_bounding_box_format(a) == decode_bounding_box_format(b),
{
    reveal(same_document);
}

proof fn lemma_file_property_alike(a: JsonView, b: JsonView)
    requires
        same_document(a, b),
    ensures
        decode_file_property(a) == decode_file_property(b),
{
    reveal(same_document);
}

proof fn lemma_data_type_alike(a: JsonView, b: JsonView)
    requires
        same_document(a, b),
    ensures
        decode_data_type(a) == decode_data_type(b),
{
    reveal(same_document);
}

proof fn lemma_texts_alike(a: JsonView, b: JsonView)
    requires
        same_document(a, b),
    ensures
        decode_texts(a) == decode_texts(b),
{
    reveal(same_document);
    match (a, b) {
        (JsonView::Array(x), JsonView::Array(y)) => {
            assert forall|i: int| 0 <= i < x.len() implies decode_text(#[trigger] x[i])
                == decode_text(y[i]) by {
                lemma_text_alike(x[i], y[i]);
            }
            if decode_texts(a) is Some {
                assert forall|i: int| 0 <= i < y.len() implies
                    decode_text(#[trigger] y[i]) is Some by {
                    assert(decode_text(x[i]) is Some);
                }
                assert(decode_texts(a)->0 =~= decode_texts(b)->0);
            } else {
                let i = choose|i: int|
                    0 <= i < x.len() && !(decode_text(#[trigger] x[i]) is Some);
                assert(!(decode_text(y[i]) is Some));
            }
        },
        _ => {
        },
    }
}

proof fn lemma_data_types_alike(a: JsonView, b: JsonView)
    requires
        same_document(a, b),
    ensures
        decode_data_types(a) == decode_data_types(b),
{
    reveal(same_document);
    match (a, b) {
        (JsonView::Array(x), JsonView::Array(y)) => {
            assert forall|i: int| 0 <= i < x.len() implies decode_data_type(#[trigger] x[i])
                == decode_data_type(y[i]) by {
                lemma_data_type_alike(x[i], y[i]);
            }
            if decode_data_types(a) is Some {
                assert forall|i: int| 0 <= i < y.len() implies
                    decode_data_type(#[trigger] y[i]) is Some by {
                    assert(decode_data_type(x[i]) is Some);
                }
                assert(decode_data_types(a)->0 =~= decode_data_types(b)->0);
            } else {
                let i = choose|i: int|
                    0 <= i < x.len() && !(decode_data_type(#[trigger] x[i]) is Some);
                assert(!(decode_data_type(y[i]) is Some));
            }
        },
        _ => {
            lemma_data_type_alike(a, b);
        },
    }
}

proof fn lemma_ref_alike(a: JsonView, b: JsonView)
    requires
        same_document(a, b),
    ensures
        decode_ref(a) == decode_ref(b),
{
    lemma_same_member(a, b, "@id"@);
    if member(a, "@id"@) is Some {
        lemma_text_alike(member(a, "@id"@)->0, member(b, "@id"@)->0);
    }
}

proof fn lemma_refs_alike(a: JsonView, b: JsonView)
    requires
        same_document(a, b),
    ensures
        decode_refs(a) == decode_refs(b),
{
    reveal(same_document);
    match (a, b) {
        (JsonView::Array(x), JsonView::Array(y)) => {
            assert forall|i: int| 0 <= i < x.len() implies decode_ref(#[trigger] x[i])
                == decode_ref(y[i]) by {
                lemma_ref_alike(x[i], y[i]);
            }
            if decode_refs(a) is Some {
                assert forall|i: int| 0 <= i < y.len() implies
                    decode_ref(#[trigger] y[i]) is Some by {
                    assert(decode_ref(x[i]) is Some);
                }
                assert(decode_refs(a)->0 =~= decode_refs(b)->0);
            } else {
                let i = choose|i: int|
                    0 <= i < x.len() && !(decode_ref(#[trigger] x[i]) is Some);
                assert(!(decode_ref(y[i]) is Some));
            }
        },
        _ => {
            lemma_ref_alike(a, b);
        },
    }
}

proof fn lemma_field_ref_alike(a: JsonView, b: JsonView)
    requires
        same_document(a, b),
    ensures
        decode_field_ref(a) == decode_field_ref(b),
{
    lemma_same_member(a, b, "field"@);
    if member(a, "field"@) is Some {
        lemma_ref_alike(member(a, "field"@)->0, member(b, "field"@)->0);
    }
}

proof fn lemma_field_refs_alike(a: JsonView, b: JsonView)
    requires
        same_document(a, b),
    ensures
        decode_field_refs(a) == decode_field_refs(b),
{
    reveal(same_document);
    match (a, b) {
        (JsonView::Array(x), JsonView::Array(y)) => {
            assert forall|i: int| 0 <= i < x.len() implies decode_field_ref(#[trigger] x[i])
                == decode_field_ref(y[i]) by {
                lemma_field_ref_alike(x[i], y[i]);
            }
            if decode_field_refs(a) is Some {
                assert forall|i: int| 0 <= i < y.len() implies
                    decode_field_ref(#[trigger] y[i]) is Some by {
                    assert(decode_field_ref(x[i]) is Some);
                }
                assert(decode_field_refs(a)->0 =~= decode_field_refs(b)->0);
            } else {
                let i = choose|i: int|
                    0 <= i < x.len() && !(decode_field_ref(#[trigger] x[i]) is Some);
                assert(!(decode_field_ref(y[i]) is Some));
            }
        },
        _ => {
            lemma_field_ref_alike(a, b);
        },
    }
}

proof fn lemma_source_ref_alike(a: JsonView, b: JsonView)
    requires
        same_document(a, b),
    ensures
        decode_source_ref(a) == decode_source_ref(b),
{
    lemma_same_member(a, b, "fileObject"@);
    if member(a, "fileObject"@) is Some {
        lemma_ref_alike(member(a, "fileObject"@)->0, member(b, "fileObject"@)->0);
    }
    lemma_same_member(a, b, "fileSet"@);
    if member(a, "fileSet"@) is Some {
        lemma_ref_alike(member(a, "fileSet"@)->0, member(b, "fileSet"@)->0);
    }
    lemma_same_member(a, b, "recordSet"@);
    if member(a, "recordSet"@) is Some {
        lemma_ref_alike(member(a, "recordSet"@)->0, member(b, "recordSet"@)->0);
    }
}

proof fn lemma_extract_alike(a: JsonView, b: JsonView)
    requires
        same_document(a, b),
    ensures
        decode_extract(a) == decode_extract(b),
{
    lemma_same_member(a, b, "column"@);
    if member(a, "column"@) is Some {
        lemma_text_alike(member(a, "column"@)->0, member(b, "column"@)->0);
    }
    lemma_same_member(a, b, "fileProperty"@);
    if member(a, "fileProperty"@) is Some {
        lemma_file_property_alike(member(a, "fileProperty"@)->0, member(b, "fileProperty"@)->0);
    }
    lemma_same_member(a, b, "jsonPath"@);
    if member(a, "jsonPath"@) is Some {
        lemma_text_alike(member(a, "jsonPath"@)->0, member(b, "jsonPath"@)->0);
    }
}

proof fn lemma_transform_alike(a: JsonView, b: JsonView)
    requires
        same_document(a, b),
    ensures
        decode_transform(a) == decode_transform(b),
{
    lemma_same_member(a, b, "regex"@);
    if member(a, "regex"@) is Some {
        lemma_text_alike(member(a, "regex"@)->0, member(b, "regex"@)->0);
    }
    lemma_same_member(a, b, "delimiter"@);
    if member(a, "delimiter"@) is Some {
        lemma_char_alike(member(a, "delimiter"@)->0, member(b, "delimiter"@)->0);
    }
    lemma_same_member(a, b, "jsonQuery"@);
    if member(a, "jsonQuery"@) is Some {
        lemma_text_alike(member(a, "jsonQuery"@)->0, member(b, "jsonQuery"@)->0);
    }
}

proof fn lemma_transforms_alike(a: JsonView, b: JsonView)
    requires
        same_document(a, b),
    ensures
        decode_transforms(a) == decode_transforms(b),
{
    reveal(same_document);
    match (a, b) {
        (JsonView::Array(x), JsonView::Array(y)) => {
            assert forall|i: int| 0 <= i < x.len() implies decode_transform(#[trigger] x[i])
                == decode_transform(y[i]) by {
                lemma_transform_alike(x[i], y[i]);
            }
            if decode_transforms(a) is Some {
                assert forall|i: int| 0 <= i < y.len() implies
                    decode_transform(#[trigger] y[i]) is Some by {
                    assert(decode_transform(x[i]) is Some);
                }
                assert(decode_transforms(a)->0 =~= decode_transforms(b)->0);
            } else {
                let i = choose|i: int|
                    0 <= i < x.len() && !(decode_transform(#[trigger] x[i]) is Some);
                assert(!(decode_transform(y[i]) is Some));
            }
        },
        _ => {
        },
    }
}

proof fn lemma_value_format_alike(a: JsonView, b: JsonView)
    requires
        same_document(a, b),
    ensures
        decode_value_format(a) == decode_value_format(b),
{
    lemma_same_member(a, b, "kind"@);
    if member(a, "kind"@) is Some {
        lemma_text_alike(member(a, "kind"@)->0, member(b, "kind"@)->0);
    }
    lemma_same_member(a, b, "pattern"@);
    if member(a, "pattern"@) is Some {
        lemma_text_alike(member(a, "pattern"@)->0, member(b, "pattern"@)->0);
    }
    lemma_same_member(a, b, "format"@);
    if member(a, "format"@) is Some {
        lemma_bounding_box_format_alike(member(a, "format"@)->0, member(b, "format"@)->0);
    }
}

proof fn lemma_field_source_alike(a: JsonView, b: JsonView)
    requires
        same_document(a, b),
    ensures
        decode_field_source(a) == decode_field_source(b),
{
    assert(optional(
        member(a, "extract"@),
        |x: JsonView| decode_extract(x),
    ) == optional(
        member(b, "extract"@),
        |x: JsonView| decode_extract(x),
    )) by {
        lemma_same_member(a, b, "extract"@);
        if member(a, "extract"@) is Some {
            lemma_same_shape(member(a, "extract"@)->0, member(b, "extract"@)->0);
            lemma_extract_alike(member(a, "extract"@)->0, member(b, "extract"@)->0);
        }
    }
    assert(optional(
        member(a, "transform"@),
        |x: JsonView| decode_transforms(x),
    ) == optional(
        member(b, "transform"@),
        |x: JsonView| decode_transforms(x),
    )) by {
        lemma_same_member(a, b, "transform"@);
        if member(a, "transform"@) is Some {
            lemma_same_shape(member(a, "transform"@)->0, member(b, "transform"@)->0);
            lemma_transforms_alike(member(a, "transform"@)->0, member(b, "transform"@)->0);
        }
    }
    assert(optional(
        member(a, "format"@),
        |x: JsonView| decode_value_format(x),
    ) == optional(
        member(b, "format"@),
        |x: JsonView| decode_value_format(x),
    )) by {
        lemma_same_member(a, b, "format"@);
        if member(a, "format"@) is Some {
            lemma_same_shape(member(a, "format"@)->0, member(b, "format"@)->0);
            lemma_value_format_alike(member(a, "format"@)->0, member(b, "format"@)->0);
        }
    }
    lemma_source_ref_alike(a, b);
}

proof fn lemma_field_alike(a: JsonView, b: JsonView)
    requires
        same_document(a, b),
    ensures
        decode_field(a) == decode_field(b),
    decreases a,
{
    assert(required(
        member(a, "@id"@),
        |x: JsonView| decode_text(x),
    ) == required(
        member(b, "@id"@),
        |x: JsonView| decode_text(x),
    )) by {
        lemma_same_member(a, b, "@id"@);
        if member(a, "@id"@) is Some {
            lemma_text_alike(member(a, "@id"@)->0, member(b, "@id"@)->0);
        }
    }
    assert(required(
        member(a, "@type"@),
        |x: JsonView| decode_cr_type(x),
    ) == required(
        member(b, "@type"@),
        |x: JsonView| decode_cr_type(x),
    )) by {
        lemma_same_member(a, b, "@type"@);
        if member(a, "@type"@) is Some {
            lemma_cr_type_alike(member(a, "@type"@)->0, member(b, "@type"@)->0);
        }
    }
    assert(required(
        member(a, "name"@),
        |x: JsonView| decode_text(x),
    ) == required(
        member(b, "name"@),
        |x: JsonView| decode_text(x),
    )) by {
        lemma_same_member(a, b, "name"@);
        if member(a, "name"@) is Some {
            lemma_text_alike(member(a, "name"@)->0, member(b, "name"@)->0);
        }
    }
    assert(required(
        member(a, "description"@),
        |x: JsonView| decode_text(x),
    ) == required(
        member(b, "description"@),
        |x: JsonView| decode_text(x),
    )) by {
        lemma_same_member(a, b, "description"@);
        if member(a, "description"@) is Some {
            lemma_text_alike(member(a, "description"@)->0, member(b, "description"@)->0);
        }
    }
    assert(required(
        member(a, "dataType"@),
        |x: JsonView| decode_data_types(x),
    ) == required(
        member(b, "dataType"@),
        |x: JsonView| decode_data_types(x),
    )) by {
        lemma_same_member(a, b, "dataType"@);
        if member(a, "dataType"@) is Some {
            lemma_data_types_alike(member(a, "dataType"@)->0, member(b, "dataType"@)->0);
        }
    }
    assert(required(
        member(a, "source"@),
        |x: JsonView| decode_field_source(x),
    ) == required(
        member(b, "source"@),
        |x: JsonView| decode_field_source(x),
    )) by {
        lemma_same_member(a, b, "source"@);
        if member(a, "source"@) is Some {
            lemma_field_source_alike(member(a, "source"@)->0, member(b, "source"@)->0);
        }
    }
    assert(defaulted(
        member(a, "references"@),
        |x: JsonView| decode_field_refs(x),
    ) == defaulted(
        member(b, "references"@),
        |x: JsonView| decode_field_refs(x),
    )) by {
        lemma_same_member(a, b, "references"@);
        if member(a, "references"@) is Some {
            lemma_field_refs_alike(member(a, "references"@)->0, member(b, "references"@)->0);
        }
    }
    lemma_same_member(a, b, "subField"@);
    if member(a, "subField"@) is Some {
        lemma_same_shape(member(a, "subField"@)->0, member(b, "subField"@)->0);
        match (member(a, "subField"@)->0, member(b, "subField"@)->0) {
            (JsonView::Array(x), JsonView::Array(y)) => {
                lemma_field_items_alike(x, y);
            },
            _ => {},
        }
    }
    assert(optional(
        member(a, "parentField"@),
        |x: JsonView| decode_texts(x),
    ) == optional(
        member(b, "parentField"@),
        |x: JsonView| decode_texts(x),
    )) by {
        lemma_same_member(a, b, "parentField"@);
        if member(a, "parentField"@) is Some {
            lemma_same_shape(member(a, "parentField"@)->0, member(b, "parentField"@)->0);
            lemma_texts_alike(member(a, "parentField"@)->0, member(b, "parentField"@)->0);
        }
    }
    assert(optional(
        member(a, "repeated"@),
        |x: JsonView| decode_bool(x),
    ) == optional(
        member(b, "repeated"@),
        |x: JsonView| decode_bool(x),
    )) by {
        lemma_same_member(a, b, "repeated"@);
        if member(a, "repeated"@) is Some {
            lemma_same_shape(member(a, "repeated"@)->0, member(b, "repeated"@)->0);
            lemma_bool_alike(member(a, "repeated"@)->0, member(b, "repeated"@)->0);
        }
    }
    assert(optional(
        member(a, "equivalentProperty"@),
        |x: JsonView| decode_texts(x),
    ) == optional(
        member(b, "equivalentProperty"@),
        |x: JsonView| decode_texts(x),
    )) by {
        lemma_same_member(a, b, "equivalentProperty"@);
        if member(a, "equivalentProperty"@) is Some {
            lemma_same_shape(
                member(a, "equivalentProperty"@)->0,
                member(b, "equivalentProperty"@)->0,
            );
            lemma_texts_alike(
                member(a, "equivalentProperty"@)->0,
                member(b, "equivalentProperty"@)->0,
            );
        }
    }
}

proof fn lemma_field_items_alike(x: Seq<JsonView>, y: Seq<JsonView>)
    requires
        x.len() == y.len(),
        forall|i: int| 0 <= i < x.len() ==> same_document(#[trigger] x[i], y[i]),
    ensures
        decode_field_items(x) == decode_field_items(y),
    decreases x,
{
    assert forall|i: int| 0 <= i < x.len() implies decode_field(#[trigger] x[i]) == decode_field(
        y[i],
    ) by {
        lemma_field_alike(x[i], y[i]);
    }
    if decode_field_items(x) is Some {
        assert forall|i: int| 0 <= i < y.len() implies decode_field(#[trigger] y[i]) is Some by {
            assert(decode_field(x[i]) is Some);
        }
        assert(decode_field_items(x)->0 =~= decode_field_items(y)->0);
    } else {
        let i = choose|i: int| 0 <= i < x.len() && !(decode_field(#[trigger] x[i]) is Some);
        assert(!(decode_field(y[i]) is Some));
    }
}

proof fn lemma_fields_alike(a: JsonView, b: JsonView)
    requires
        same_document(a, b),
    ensures
        decode_fields(a) == decode_fields(b),
{
    reveal(same_document);
    match (a, b) {
        (JsonView::Array(x), JsonView::Array(y)) => {
            lemma_field_items_alike(x, y);
        },
        _ => {},
    }
}

proof fn lemma_file_object_alike(a: JsonView, b: JsonView)
    requires
        same_document(a, b),
    ensures
        decode_file_object(a) == decode_file_object(b),
{
    assert(required(
        member(a, "@id"@),
        |x: JsonView| decode_text(x),
    ) == required(
        member(b, "@id"@),
        |x: JsonView| decode_text(x),
    )) by {
        lemma_same_member(a, b, "@id"@);
        if member(a, "@id"@) is Some {
            lemma_text_alike(member(a, "@id"@)->0, member(b, "@id"@)->0);
        }
    }
    assert(required(
        member(a, "name"@),
        |x: JsonView| decode_text(x),
    ) == required(
        member(b, "name"@),
        |x: JsonView| decode_text(x),
    )) by {
        lemma_same_member(a, b, "name"@);
        if member(a, "name"@) is Some {
            lemma_text_alike(member(a, "name"@)->0, member(b, "name"@)->0);
        }
    }
    assert(optional(
        member(a, "contentUrl"@),
        |x: JsonView| decode_text(x),
    ) == optional(
        member(b, "contentUrl"@),
        |x: JsonView| decode_text(x),
    )) by {
        lemma_same_member(a, b, "contentUrl"@);
        if member(a, "contentUrl"@) is Some {
            lemma_same_shape(member(a, "contentUrl"@)->0, member(b, "contentUrl"@)->0);
            lemma_text_alike(member(a, "contentUrl"@)->0, member(b, "contentUrl"@)->0);
        }
    }
    assert(optional(
        member(a, "contentSize"@),
        |x: JsonView| decode_text(x),
    ) == optional(
        member(b, "contentSize"@),
        |x: JsonView| decode_text(x),
    )) by {
        lemma_same_member(a, b, "contentSize"@);
        if member(a, "contentSize"@) is Some {
            lemma_same_shape(member(a, "contentSize"@)->0, member(b, "contentSize"@)->0);
            lemma_text_alike(member(a, "contentSize"@)->0, member(b, "contentSize"@)->0);
        }
    }
    assert(required(
        member(a, "encodingFormat"@),
        |x: JsonView| decode_text(x),
    ) == required(
        member(b, "encodingFormat"@),
        |x: JsonView| decode_text(x),
    )) by {
        lemma_same_member(a, b, "encodingFormat"@);
        if member(a, "encodingFormat"@) is Some {
            lemma_text_alike(member(a, "encodingFormat"@)->0, member(b, "encodingFormat"@)->0);
        }
    }
    assert(optional(
        member(a, "sha256"@),
        |x: JsonView| decode_digest(x),
    ) == optional(
        member(b, "sha256"@),
        |x: JsonView| decode_digest(x),
    )) by {
        lemma_same_member(a, b, "sha256"@);
        if member(a, "sha256"@) is Some {
            lemma_same_shape(member(a, "sha256"@)->0, member(b, "sha256"@)->0);
            lemma_digest_alike(member(a, "sha256"@)->0, member(b, "sha256"@)->0);
        }
    }
}

proof fn lemma_file_set_alike(a: JsonView, b: JsonView)
    requires
        same_document(a, b),
    ensures
        decode_file_set(a) == decode_file_set(b),
{
    assert(required(
        member(a, "@id"@),
        |x: JsonView| decode_text(x),
    ) == required(
        member(b, "@id"@),
        |x: JsonView| decode_text(x),
    )) by {
        lemma_same_member(a, b, "@id"@);
        if member(a, "@id"@) is Some {
            lemma_text_alike(member(a, "@id"@)->0, member(b, "@id"@)->0);
        }
    }
    assert(required(
        member(a, "containedIn"@),
        |x: JsonView| decode_texts(x),
    ) == required(
        member(b, "containedIn"@),
        |x: JsonView| decode_texts(x),
    )) by {
        lemma_same_member(a, b, "containedIn"@);
        if member(a, "containedIn"@) is Some {
            lemma_texts_alike(member(a, "containedIn"@)->0, member(b, "containedIn"@)->0);
        }
    }
    assert(required(
        member(a, "encodingFormat"@),
        |x: JsonView| decode_text(x),
    ) == required(
        member(b, "encodingFormat"@),
        |x: JsonView| decode_text(x),
    )) by {
        lemma_same_member(a, b, "encodingFormat"@);
        if member(a, "encodingFormat"@) is Some {
            lemma_text_alike(member(a, "encodingFormat"@)->0, member(b, "encodingFormat"@)->0);
        }
    }
    assert(required(
        member(a, "includes"@),
        |x: JsonView| decode_texts(x),
    ) == required(
        member(b, "includes"@),
        |x: JsonView| decode_texts(x),
    )) by {
        lemma_same_member(a, b, "includes"@);
        if member(a, "includes"@) is Some {
            lemma_texts_alike(member(a, "includes"@)->0, member(b, "includes"@)->0);
        }
    }
    assert(required(
        member(a, "excludes"@),
        |x: JsonView| decode_texts(x),
    ) == required(
        member(b, "excludes"@),
        |x: JsonView| decode_texts(x),
    )) by {
        lemma_same_member(a, b, "excludes"@);
        if member(a, "excludes"@) is Some {
            lemma_texts_alike(member(a, "excludes"@)->0, member(b, "excludes"@)->0);
        }
    }
}

proof fn lemma_resource_alike(a: JsonView, b: JsonView)
    requires
        same_document(a, b),
    ensures
        decode_resource(a) == decode_resource(b),
{
    lemma_same_member(a, b, "@type"@);
    if member(a, "@type"@) is Some {
        lemma_text_alike(member(a, "@type"@)->0, member(b, "@type"@)->0);
    }
    lemma_file_object_alike(a, b);
    lemma_file_set_alike(a, b);
}

proof fn lemma_resources_alike(a: JsonView, b: JsonView)
    requires
        same_document(a, b),
    ensures
        decode_resources(a) == decode_resources(b),
{
    reveal(same_document);
    match (a, b) {
        (JsonView::Array(x), JsonView::Array(y)) => {
            assert forall|i: int| 0 <= i < x.len() implies decode_resource(#[trigger] x[i])
                == decode_resource(y[i]) by {
                lemma_resource_alike(x[i], y[i]);
            }
            if decode_resources(a) is Some {
                assert forall|i: int| 0 <= i < y.len() implies
                    decode_resource(#[trigger] y[i]) is Some by {
                    assert(decode_resource(x[i]) is Some);
                }
                assert(decode_resources(a)->0 =~= decode_resources(b)->0);
            } else {
                let i = choose|i: int|
                    0 <= i < x.len() && !(decode_resource(#[trigger] x[i]) is Some);
                assert(!(decode_resource(y[i]) is Some));
            }
        },
        _ => {
        },
    }
}

proof fn lemma_term_alike(a: JsonView, b: JsonView)
    requires
        same_document(a, b),
    ensures
        decode_term(a) == decode_term(b),
{
    assert(required(
        member(a, "@id"@),
        |x: JsonView| decode_text(x),
    ) == required(
        member(b, "@id"@),
        |x: JsonView| decode_text(x),
    )) by {
        lemma_same_member(a, b, "@id"@);
        if member(a, "@id"@) is Some {
            lemma_text_alike(member(a, "@id"@)->0, member(b, "@id"@)->0);
        }
    }
    assert(required(
        member(a, "@type"@),
        |x: JsonView| decode_text(x),
    ) == required(
        member(b, "@type"@),
        |x: JsonView| decode_text(x),
    )) by {
        lemma_same_member(a, b, "@type"@);
        if member(a, "@type"@) is Some {
            lemma_text_alike(member(a, "@type"@)->0, member(b, "@type"@)->0);
        }
    }
}

proof fn lemma_context_alike(a: JsonView, b: JsonView)
    requires
        same_document(a, b),
    ensures
        decode_context(a) == decode_context(b),
{
    assert(required(
        member(a, "@language"@),
        |x: JsonView| decode_text(x),
    ) == required(
        member(b, "@language"@),
        |x: JsonView| decode_text(x),
    )) by {
        lemma_same_member(a, b, "@language"@);
        if member(a, "@language"@) is Some {
            lemma_text_alike(member(a, "@language"@)->0, member(b, "@language"@)->0);
        }
    }
    assert(required(
        member(a, "@vocab"@),
        |x: JsonView| decode_text(x),
    ) == required(
        member(b, "@vocab"@),
        |x: JsonView| decode_text(x),
    )) by {
        lemma_same_member(a, b, "@vocab"@);
        if member(a, "@vocab"@) is Some {
            lemma_text_alike(member(a, "@vocab"@)->0, member(b, "@vocab"@)->0);
        }
    }
    assert(required(
        member(a, "sc"@),
        |x: JsonView| decode_text(x),
    ) == required(
        member(b, "sc"@),
        |x: JsonView| decode_text(x),
    )) by {
        lemma_same_member(a, b, "sc"@);
        if member(a, "sc"@) is Some {
            lemma_text_alike(member(a, "sc"@)->0, member(b, "sc"@)->0);
        }
    }
    assert(required(
        member(a, "cr"@),
        |x: JsonView| decode_text(x),
    ) == required(
        member(b, "cr"@),
        |x: JsonView| decode_text(x),
    )) by {
        lemma_same_member(a, b, "cr"@);
        if member(a, "cr"@) is Some {
            lemma_text_alike(member(a, "cr"@)->0, member(b, "cr"@)->0);
        }
    }
    assert(required(
        member(a, "dct"@),
        |x: JsonView| decode_text(x),
    ) == required(
        member(b, "dct"@),
        |x: JsonView| decode_text(x),
    )) by {
        lemma_same_member(a, b, "dct"@);
        if member(a, "dct"@) is Some {
            lemma_text_alike(member(a, "dct"@)->0, member(b, "dct"@)->0);
        }
    }
    assert(required(
        member(a, "citeAs"@),
        |x: JsonView| decode_text(x),
    ) == required(
        member(b, "citeAs"@),
        |x: JsonView| decode_text(x),
    )) by {
        lemma_same_member(a, b, "citeAs"@);
        if member(a, "citeAs"@) is Some {
            lemma_text_alike(member(a, "citeAs"@)->0, member(b, "citeAs"@)->0);
        }
    }
    assert(required(
        member(a, "column"@),
        |x: JsonView| decode_text(x),
    ) == required(
        member(b, "column"@),
        |x: JsonView| decode_text(x),
    )) by {
        lemma_same_member(a, b, "column"@);
        if member(a, "column"@) is Some {
            lemma_text_alike(member(a, "column"@)->0, member(b, "column"@)->0);
        }
    }
    assert(required(
        member(a, "conformsTo"@),
        |x: JsonView| decode_text(x),
    ) == required(
        member(b, "conformsTo"@),
        |x: JsonView| decode_text(x),
    )) by {
        lemma_same_member(a, b, "conformsTo"@);
        if member(a, "conformsTo"@) is Some {
            lemma_text_alike(member(a, "conformsTo"@)->0, member(b, "conformsTo"@)->0);
        }
    }
    assert(required(
        member(a, "data"@),
        |x: JsonView| decode_term(x),
    ) == required(
        member(b, "data"@),
        |x: JsonView| decode_term(x),
    )) by {
        lemma_same_member(a, b, "data"@);
        if member(a, "data"@) is Some {
            lemma_term_alike(member(a, "data"@)->0, member(b, "data"@)->0);
        }
    }
    assert(required(
        member(a, "dataType"@),
        |x: JsonView| decode_term(x),
    ) == required(
        member(b, "dataType"@),
        |x: JsonView| decode_term(x),
    )) by {
        lemma_same_member(a, b, "dataType"@);
        if member(a, "dataType"@) is Some {
            lemma_term_alike(member(a, "dataType"@)->0, member(b, "dataType"@)->0);
        }
    }
}

proof fn lemma_record_set_alike(a: JsonView, b: JsonView)
    requires
        same_document(a, b),
    ensures
        decode_record_set(a) == decode_record_set(b),
{
    assert(required(
        member(a, "@id"@),
        |x: JsonView| decode_text(x),
    ) == required(
        member(b, "@id"@),
        |x: JsonView| decode_text(x),
    )) by {
        lemma_same_member(a, b, "@id"@);
        if member(a, "@id"@) is Some {
            lemma_text_alike(member(a, "@id"@)->0, member(b, "@id"@)->0);
        }
    }
    assert(required(
        member(a, "@type"@),
        |x: JsonView| decode_cr_type(x),
    ) == required(
        member(b, "@type"@),
        |x: JsonView| decode_cr_type(x),
    )) by {
        lemma_same_member(a, b, "@type"@);
        if member(a, "@type"@) is Some {
            lemma_cr_type_alike(member(a, "@type"@)->0, member(b, "@type"@)->0);
        }
    }
    assert(defaulted(
        member(a, "key"@),
        |x: JsonView| decode_refs(x),
    ) == defaulted(
        member(b, "key"@),
        |x: JsonView| decode_refs(x),
    )) by {
        lemma_same_member(a, b, "key"@);
        if member(a, "key"@) is Some {
            lemma_refs_alike(member(a, "key"@)->0, member(b, "key"@)->0);
        }
    }
    assert(required(
        member(a, "field"@),
        |x: JsonView| decode_fields(x),
    ) == required(
        member(b, "field"@),
        |x: JsonView| decode_fields(x),
    )) by {
        lemma_same_member(a, b, "field"@);
        if member(a, "field"@) is Some {
            lemma_fields_alike(member(a, "field"@)->0, member(b, "field"@)->0);
        }
    }
    assert(defaulted(
        member(a, "dataType"@),
        |x: JsonView| decode_data_types(x),
    ) == defaulted(
        member(b, "dataType"@),
        |x: JsonView| decode_data_types(x),
    )) by {
        lemma_same_member(a, b, "dataType"@);
        if member(a, "dataType"@) is Some {
            lemma_data_types_alike(member(a, "dataType"@)->0, member(b, "dataType"@)->0);
        }
    }
}

proof fn lemma_record_sets_alike(a: JsonView, b: JsonView)
    requires
        same_document(a, b),
    ensures
        decode_record_sets(a) == decode_record_sets(b),
{
    reveal(same_document);
    match (a, b) {
        (JsonView::Array(x), JsonView::Array(y)) => {
            assert forall|i: int| 0 <= i < x.len() implies decode_record_set(#[trigger] x[i])
                == decode_record_set(y[i]) by {
                lemma_record_set_alike(x[i], y[i]);
            }
            if decode_record_sets(a) is Some {
                assert forall|i: int| 0 <= i < y.len() implies
                    decode_record_set(#[trigger] y[i]) is Some by {
                    assert(decode_record_set(x[i]) is Some);
                }
                assert(decode_record_sets(a)->0 =~= decode_record_sets(b)->0);
            } else {
                let i = choose|i: int|
                    0 <= i < x.len() && !(decode_record_set(#[trigger] x[i]) is Some);
                assert(!(decode_record_set(y[i]) is Some));
            }
        },
        _ => {
        },
    }
}

proof fn lemma_metadata_alike(a: JsonView, b: JsonView)
    requires
        same_document(a, b),
    ensures
        decode_metadata(a) == decode_metadata(b),
{
    assert(required(
        member(a, "@context"@),
        |x: JsonView| decode_context(x),
    ) == required(
        member(b, "@context"@),
        |x: JsonView| decode_context(x),
    )) by {
        lemma_same_member(a, b, "@context"@);
        if member(a, "@context"@) is Some {
            lemma_context_alike(member(a, "@context"@)->0, member(b, "@context"@)->0);
        }
    }
    assert(required(
        member(a, "@type"@),
        |x: JsonView| decode_croissant_type(x),
    ) == required(
        member(b, "@type"@),
        |x: JsonView| decode_croissant_type(x),
    )) by {
        lemma_same_member(a, b, "@type"@);
        if member(a, "@type"@) is Some {
            lemma_croissant_type_alike(member(a, "@type"@)->0, member(b, "@type"@)->0);
        }
    }
    assert(required(
        member(a, "name"@),
        |x: JsonView| decode_text(x),
    ) == required(
        member(b, "name"@),
        |x: JsonView| decode_text(x),
    )) by {
        lemma_same_member(a, b, "name"@);
        if member(a, "name"@) is Some {
            lemma_text_alike(member(a, "name"@)->0, member(b, "name"@)->0);
        }
    }
    assert(required(
        member(a, "description"@),
        |x: JsonView| decode_text(x),
    ) == required(
        member(b, "description"@),
        |x: JsonView| decode_text(x),
    )) by {
        lemma_same_member(a, b, "description"@);
        if member(a, "description"@) is Some {
            lemma_text_alike(member(a, "description"@)->0, member(b, "description"@)->0);
        }
    }
    assert(required(
        member(a, "conformsTo"@),
        |x: JsonView| decode_text(x),
    ) == required(
        member(b, "conformsTo"@),
        |x: JsonView| decode_text(x),
    )) by {
        lemma_same_member(a, b, "conformsTo"@);
        if member(a, "conformsTo"@) is Some {
            lemma_text_alike(member(a, "conformsTo"@)->0, member(b, "conformsTo"@)->0);
        }
    }
    assert(optional(
        member(a, "datePublished"@),
        |x: JsonView| decode_text(x),
    ) == optional(
        member(b, "datePublished"@),
        |x: JsonView| decode_text(x),
    )) by {
        lemma_same_member(a, b, "datePublished"@);
        if member(a, "datePublished"@) is Some {
            lemma_same_shape(member(a, "datePublished"@)->0, member(b, "datePublished"@)->0);
            lemma_text_alike(member(a, "datePublished"@)->0, member(b, "datePublished"@)->0);
        }
    }
    assert(required(
        member(a, "version"@),
        |x: JsonView| decode_text(x),
    ) == required(
        member(b, "version"@),
        |x: JsonView| decode_text(x),
    )) by {
        lemma_same_member(a, b, "version"@);
        if member(a, "version"@) is Some {
            lemma_text_alike(member(a, "version"@)->0, member(b, "version"@)->0);
        }
    }
    assert(required(
        member(a, "distribution"@),
        |x: JsonView| decode_resources(x),
    ) == required(
        member(b, "distribution"@),
        |x: JsonView| decode_resources(x),
    )) by {
        lemma_same_member(a, b, "distribution"@);
        if member(a, "distribution"@) is Some {
            lemma_resources_alike(member(a, "distribution"@)->0, member(b, "distribution"@)->0);
        }
    }
    assert(required(
        member(a, "recordSet"@),
        |x: JsonView| decode_record_sets(x),
    ) == required(
        member(b, "recordSet"@),
        |x: JsonView| decode_record_sets(x),
    )) by {
        lemma_same_member(a, b, "recordSet"@);
        if member(a, "recordSet"@) is Some {
            lemma_record_sets_alike(member(a, "recordSet"@)->0, member(b, "recordSet"@)->0);
        }
    }
}

/// Decoding does not depend on the order in which the members of objects
/// are written, at any depth: documents that say the same decode alike.
pub proof fn lemma_decoding_ignores_member_order(a: JsonView, b: JsonView)
    requires
        same_document(a, b),
    ensures
        decode_metadata(a) == decode_metadata(b),
{
    lemma_metadata_alike(a, b);
}

/// Any document that says the same as the encoding of a tree decodes to
/// that tree.
pub proof fn lemma_round_trip_in_any_order(m: MetadataView, j: JsonView)
    requires
        metadata_wf(m),
        same_document(encode_metadata(m), j),
    ensures
        decode_metadata(j) == Some(m),
{
    lemma_round_trip(m);
    lemma_metadata_alike(encode_metadata(m), j);
}

} // verus!
