//! What decoding gives is well formed.
//!
//! A decoder refuses an empty text, a malformed digest and an empty type,
//! and it reads a named type as the named type. So every tree that comes
//! out of a decoder is well formed, and writing it and reading it again
//! gives the same tree.

use vstd::prelude::*;
use crate::json::{member, JsonView};
use crate::wire::{
    context_wf, data_type_wf, data_types_wf, decode_context, decode_data_type,
    decode_data_types, decode_extract, decode_field, decode_field_items, decode_field_ref,
    decode_field_refs, decode_field_source, decode_fields, decode_file_object, decode_file_set,
    decode_metadata, decode_record_set, decode_record_sets, decode_ref, decode_refs,
    decode_resource, decode_resources, decode_source_ref, decode_term, decode_text, decode_texts,
    decode_transform, decode_transforms, decode_value_format, encode_metadata, extract_wf,
    field_source_wf, field_wf, fields_wf, file_object_wf, file_set_wf, lemma_round_trip,
    metadata_wf, record_set_wf, record_sets_wf, resource_wf, resources_wf, term_wf, text_wf,
    texts_wf, transform_wf, transforms_wf, value_format_wf,
};

verus! {

proof fn lemma_decoded_data_type(j: JsonView)
    ensures
        decode_data_type(j) matches Some(t) ==> data_type_wf(t),
{
}

proof fn lemma_decoded_texts(j: JsonView)
    ensures
        decode_texts(j) matches Some(vs) ==> texts_wf(vs),
{
    if decode_texts(j) is Some {
        let vs = decode_texts(j)->0;
        match j {
            JsonView::Array(items) => {
                assert forall|i: int| 0 <= i < vs.len() implies text_wf(#[trigger] vs[i]) by {
                    assert(vs[i] == decode_text(items[i])->0);
                }
            },
            _ => {
            },
        }
    }
}

proof fn lemma_decoded_data_types(j: JsonView)
    ensures
        decode_data_types(j) matches Some(vs) ==> data_types_wf(vs),
{
    if decode_data_types(j) is Some {
        let vs = decode_data_types(j)->0;
        match j {
            JsonView::Array(items) => {
                assert forall|i: int| 0 <= i < vs.len() implies data_type_wf(#[trigger] vs[i]) by {
                    assert(vs[i] == decode_data_type(items[i])->0);
                    lemma_decoded_data_type(items[i]);
                }
            },
            _ => {
                lemma_decoded_data_type(j);
                assert(vs[0] == decode_data_type(j)->0);
            },
        }
    }
}

proof fn lemma_decoded_ref(j: JsonView)
    ensures
        decode_ref(j) matches Some(id) ==> text_wf(id),
{
}

proof fn lemma_decoded_refs(j: JsonView)
    ensures
        decode_refs(j) matches Some(vs) ==> texts_wf(vs),
{
    if decode_refs(j) is Some {
        let vs = decode_refs(j)->0;
        match j {
            JsonView::Array(items) => {
                assert forall|i: int| 0 <= i < vs.len() implies text_wf(#[trigger] vs[i]) by {
                    assert(vs[i] == decode_ref(items[i])->0);
                    lemma_decoded_ref(items[i]);
                }
            },
            _ => {
                lemma_decoded_ref(j);
                assert(vs[0] == decode_ref(j)->0);
            },
        }
    }
}

proof fn lemma_decoded_field_ref(j: JsonView)
    ensures
        decode_field_ref(j) matches Some(id) ==> text_wf(id),
{
    if member(j, "field"@) is Some {
        lemma_decoded_ref(member(j, "field"@)->0);
    }
}

proof fn lemma_decoded_field_refs(j: JsonView)
    ensures
        decode_field_refs(j) matches Some(vs) ==> texts_wf(vs),
{
    if decode_field_refs(j) is Some {
        let vs = decode_field_refs(j)->0;
        match j {
            JsonView::Array(items) => {
                assert forall|i: int| 0 <= i < vs.len() implies text_wf(#[trigger] vs[i]) by {
                    assert(vs[i] == decode_field_ref(items[i])->0);
                    lemma_decoded_field_ref(items[i]);
                }
            },
            _ => {
                lemma_decoded_field_ref(j);
                assert(vs[0] == decode_field_ref(j)->0);
            },
        }
    }
}

proof fn lemma_decoded_source_ref(j: JsonView)
    ensures
        decode_source_ref(j) matches Some(s) ==> text_wf(s.target()),
{
}

proof fn lemma_decoded_extract(j: JsonView)
    ensures
        decode_extract(j) matches Some(e) ==> extract_wf(e),
{
}

proof fn lemma_decoded_transform(j: JsonView)
    ensures
        decode_transform(j) matches Some(t) ==> transform_wf(t),
{
}

proof fn lemma_decoded_transforms(j: JsonView)
    ensures
        decode_transforms(j) matches Some(vs) ==> transforms_wf(vs),
{
    if decode_transforms(j) is Some {
        let vs = decode_transforms(j)->0;
        match j {
            JsonView::Array(items) => {
                assert forall|i: int| 0 <= i < vs.len() implies transform_wf(#[trigger] vs[i]) by {
                    assert(vs[i] == decode_transform(items[i])->0);
                    lemma_decoded_transform(items[i]);
                }
            },
            _ => {
            },
        }
    }
}

proof fn lemma_decoded_value_format(j: JsonView)
    ensures
        decode_value_format(j) matches Some(f) ==> value_format_wf(f),
{
}

proof fn lemma_decoded_field_source(j: JsonView)
    ensures
        decode_field_source(j) matches Some(v) ==> field_source_wf(v),
{
    if member(j, "extract"@) is Some {
        lemma_decoded_extract(member(j, "extract"@)->0);
    }
    if member(j, "transform"@) is Some {
        lemma_decoded_transforms(member(j, "transform"@)->0);
    }
    if member(j, "format"@) is Some {
        lemma_decoded_value_format(member(j, "format"@)->0);
    }
    lemma_decoded_source_ref(j);
}

proof fn lemma_decoded_field(j: JsonView)
    ensures
        decode_field(j) matches Some(v) ==> field_wf(v),
    decreases j,
{
    if member(j, "dataType"@) is Some {
        lemma_decoded_data_types(member(j, "dataType"@)->0);
    }
    if member(j, "source"@) is Some {
        lemma_decoded_field_source(member(j, "source"@)->0);
    }
    if member(j, "references"@) is Some {
        lemma_decoded_field_refs(member(j, "references"@)->0);
    }
    if member(j, "subField"@) is Some {
        match member(j, "subField"@)->0 {
            JsonView::Array(items) => {
                lemma_decoded_field_items(items);
            },
            _ => {},
        }
    }
    if member(j, "parentField"@) is Some {
        lemma_decoded_texts(member(j, "parentField"@)->0);
    }
    if member(j, "equivalentProperty"@) is Some {
        lemma_decoded_texts(member(j, "equivalentProperty"@)->0);
    }
}

proof fn lemma_decoded_field_items(items: Seq<JsonView>)
    ensures
        decode_field_items(items) matches Some(fs) ==> fields_wf(fs),
    decreases items,
{
    if decode_field_items(items) is Some {
        let fs = decode_field_items(items)->0;
        assert forall|i: int| 0 <= i < fs.len() implies field_wf(#[trigger] fs[i]) by {
            assert(fs[i] == decode_field(items[i])->0);
            lemma_decoded_field(items[i]);
        }
    }
}

proof fn lemma_decoded_fields(j: JsonView)
    ensures
        decode_fields(j) matches Some(fs) ==> fields_wf(fs),
{
    match j {
        JsonView::Array(items) => {
            lemma_decoded_field_items(items);
        },
        _ => {},
    }
}

proof fn lemma_decoded_file_object(j: JsonView)
    ensures
        decode_file_object(j) matches Some(v) ==> file_object_wf(v),
{
}

proof fn lemma_decoded_file_set(j: JsonView)
    ensures
        decode_file_set(j) matches Some(v) ==> file_set_wf(v),
{
    if member(j, "containedIn"@) is Some {
        lemma_decoded_texts(member(j, "containedIn"@)->0);
    }
    if member(j, "includes"@) is Some {
        lemma_decoded_texts(member(j, "includes"@)->0);
    }
    if member(j, "excludes"@) is Some {
        lemma_decoded_texts(member(j, "excludes"@)->0);
    }
}

proof fn lemma_decoded_resource(j: JsonView)
    ensures
        decode_resource(j) matches Some(v) ==> resource_wf(v),
{
    lemma_decoded_file_object(j);
    lemma_decoded_file_set(j);
}

proof fn lemma_decoded_resources(j: JsonView)
    ensures
        decode_resources(j) matches Some(vs) ==> resources_wf(vs),
{
    if decode_resources(j) is Some {
        let vs = decode_resources(j)->0;
        match j {
            JsonView::Array(items) => {
                assert forall|i: int| 0 <= i < vs.len() implies resource_wf(#[trigger] vs[i]) by {
                    assert(vs[i] == decode_resource(items[i])->0);
                    lemma_decoded_resource(items[i]);
                }
            },
            _ => {
            },
        }
    }
}

proof fn lemma_decoded_term(j: JsonView)
    ensures
        decode_term(j) matches Some(v) ==> term_wf(v),
{
}

proof fn lemma_decoded_context(j: JsonView)
    ensures
        decode_context(j) matches Some(v) ==> context_wf(v),
{
    if member(j, "data"@) is Some {
        lemma_decoded_term(member(j, "data"@)->0);
    }
    if member(j, "dataType"@) is Some {
        lemma_decoded_term(member(j, "dataType"@)->0);
    }
}

proof fn lemma_decoded_record_set(j: JsonView)
    ensures
        decode_record_set(j) matches Some(v) ==> record_set_wf(v),
{
    if member(j, "key"@) is Some {
        lemma_decoded_refs(member(j, "key"@)->0);
    }
    if member(j, "field"@) is Some {
        lemma_decoded_fields(member(j, "field"@)->0);
    }
    if member(j, "dataType"@) is Some {
        lemma_decoded_data_types(member(j, "dataType"@)->0);
    }
}

proof fn lemma_decoded_record_sets(j: JsonView)
    ensures
        decode_record_sets(j) matches Some(vs) ==> record_sets_wf(vs),
{
    if decode_record_sets(j) is Some {
        let vs = decode_record_sets(j)->0;
        match j {
            JsonView::Array(items) => {
                assert forall|i: int| 0 <= i < vs.len() implies record_set_wf(#[trigger] vs[i]) by {
                    assert(vs[i] == decode_record_set(items[i])->0);
                    lemma_decoded_record_set(items[i]);
                }
            },
            _ => {
            },
        }
    }
}

proof fn lemma_decoded_metadata(j: JsonView)
    ensures
        decode_metadata(j) matches Some(v) ==> metadata_wf(v),
{
    if member(j, "@context"@) is Some {
        lemma_decoded_context(member(j, "@context"@)->0);
    }
    if member(j, "distribution"@) is Some {
        lemma_decoded_resources(member(j, "distribution"@)->0);
    }
    if member(j, "recordSet"@) is Some {
        lemma_decoded_record_sets(member(j, "recordSet"@)->0);
    }
}

/// Every tree that decoding gives is well formed.
pub proof fn lemma_decoded_is_well_formed(j: JsonView)
    ensures
        decode_metadata(j) matches Some(m) ==> metadata_wf(m),
{
    lemma_decoded_metadata(j);
}

/// Writing a decoded tree and reading it again gives the same tree.
pub proof fn lemma_reading_again_changes_nothing(j: JsonView)
    ensures
        decode_metadata(j) matches Some(m) ==> decode_metadata(encode_metadata(m)) == Some(m),
{
    lemma_decoded_metadata(j);
    if decode_metadata(j) is Some {
        lemma_round_trip(decode_metadata(j)->0);
    }
}

} // verus!
