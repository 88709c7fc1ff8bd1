//! Croissant dataset metadata: the entities, their JSON form, a validator
//! and a generator.
//!
//! A dataset description names the resources of a dataset (files and sets of
//! files), its record sets and their fields, and says for each field where
//! its values come from and what type they have.
//!
//! - [`model`] holds the entities, [`text`] the text values they are made of,
//!   and [`builder`] their step-by-step construction.
//! - [`json`] is a JSON document as a tree; [`wire`] states which tree stands
//!   for which entity, and [`codec`] reads and writes accordingly. [`decoded`]
//!   and [`order`] hold what is proved of reading: that it gives well-formed
//!   trees, and that the order of members does not count.
//! - [`validate`] finds everything that is wrong with a description and
//!   returns it as [`issues`]; [`digest`] knows what a content digest looks
//!   like.
//! - [`generate`] describes a delimited text file from its header and first
//!   row, with the help of [`infer`], which guesses the type of a column
//!   from a sample, and of [`context`].
//!
//! The library reads no file and no clock: callers hand it strings and
//! numbers, and get values back. Every function is verified against its
//! contract; the contracts speak of the mathematical views of the entities.

pub mod builder;
pub mod chars;
pub mod codec;
pub mod context;
pub mod decoded;
pub mod digest;
pub mod errors;
pub mod generate;
pub mod infer;
pub mod issues;
pub mod json;
pub mod model;
pub mod order;
pub mod text;
pub mod validate;
pub mod wire;

pub use crate::context::default_context;
pub use crate::errors::Error;
pub use crate::issues::{Issue, Issues, Severity};
pub use crate::json::{Json, Member};
pub use crate::model::{
    BoundingBoxFormat, Context, CrType, CroissantType, DataContext, DataType, DataTypeContext,
    Distribution, Extract, Field, FieldRef, FieldSource, FileObject, FileProperty, FileSet,
    Metadata, RecordSet, Ref, Resource, SourceRef, Transform, ValueFormat,
};
pub use crate::text::{Id, Text};
pub use crate::validate::{
    validate, validate_document, validate_record_set_references, MetadataContext,
};
