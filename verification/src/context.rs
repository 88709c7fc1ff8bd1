//! The context block that generated documents carry.

use vstd::prelude::*;
use vstd::string::*;
use crate::errors::Error;
use crate::model::{Context, ContextView, DataContext, DataTypeContext, TermView};
use crate::text::Text;

verus! {

/// The view of the default context.
pub open spec fn default_context_view() -> ContextView {
    ContextView {
        language: "en"@,
        vocab: "https://schema.org/"@,
        sc: "https://schema.org/"@,
        cr: "http://purl.org/dc/terms/"@,
        dct: "http://purl.org/dc/terms/"@,
        cite_as: "cr:citeAs"@,
        column: "cr:column"@,
        conforms_to: "dct:conforms_to"@,
        data: TermView { id: "cr:data"@, type_: "@json"@ },
        data_type: TermView { id: "cr:DataType"@, type_: "@vocal"@ },
    }
}

/// The context block of a generated document. Every field is given, so the
/// result is always `Ok`.
pub fn default_context() -> (r: Result<Context, Error>)
    ensures
        r matches Ok(context) && context@ == default_context_view(),
{
    let data = DataContext::builder().id(Text::new("cr:data")).type_(Text::new("@json")).build()?;
    let data_type = DataTypeContext::builder().id(Text::new("cr:DataType")).type_(
        Text::new("@vocal"),
    ).build()?;
    Context::builder().language(Text::new("en")).vocab(Text::new("https://schema.org/")).cite_as(
        Text::new("cr:citeAs"),
    ).column(Text::new("cr:column")).conforms_to(Text::new("dct:conforms_to")).cr(
        Text::new("http://purl.org/dc/terms/"),
    ).dct(Text::new("http://purl.org/dc/terms/")).data(data).data_type(data_type).sc(
        Text::new("https://schema.org/"),
    ).build()
}

} // verus!
