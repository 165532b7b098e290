//! The stage of a metadata-driven binding generator that turns one type
//! definition into the declaration of a structure, a union or a constant.
//!
//! A definition is handed over as a [`TypeRecord`]: its fields, its flags
//! and the anonymous types declared inside it, as metadata records them.
//! [`Struct::from_type_name`] builds the model of the type from it: the
//! storage fields under identifiers that are pairwise distinct, the
//! constants, and the models of the anonymous members under names of their
//! own. [`Struct::gen`] then decides what is declared for the model, and
//! [`Struct::dependencies`] collects the definitions it refers to.
//!
//! - [`types`]: resolved types, names and handles;
//! - [`record`]: what metadata records of a definition;
//! - [`text`]: numerals, identifiers and the order of names;
//! - [`fields`]: identifiers that do not collide;
//! - [`ordered`]: entries kept in the order of their names;
//! - [`model`]: the model and how it is built;
//! - [`dependencies`]: the definitions a model refers to;
//! - [`literal`]: literals as the token library writes them;
//! - [`emit`]: the declaration and how it is decided;
//! - [`laws`]: what holds of every model and every declaration.
pub mod dependencies;
pub mod emit;
pub mod fields;
pub mod laws;
pub mod literal;
pub mod model;
pub mod ordered;
pub mod record;
pub mod text;
pub mod types;

pub use crate::emit::{
    Access, Aggregate, Comparison, DebugField, Declaration, Derived, EmissionShape,
};
pub use crate::model::Struct;
pub use crate::record::{FieldRecord, NestedRecord, TypeRecord};
pub use crate::types::{ConstantValue, Type, TypeDef, TypeGuid, TypeKind, TypeName};
