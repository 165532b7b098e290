//! What metadata records of a type definition, as far as the model of the
//! type is built from it.
use crate::text::{is_generated_name, starts_with_underscore};
use crate::types::{ConstantValue, Type, TypeDef, TypeGuid, TypeView};
use vstd::prelude::*;
use vstd::string::*;

verus! {

/// Whether a field's attribute flags mark it as a literal: a compile-time
/// constant, which takes no storage.
pub open spec fn literal_flag(flags: u32) -> bool {
    flags & 0x40 != 0
}

/// `winmd::FieldFlags::literal` on the flags given: tells whether the bit
/// with the value 0x40 is set.
#[verifier::external_body]
pub(crate) fn flags_literal(flags: u32) -> (r: bool)
    ensures
        r == literal_flag(flags),
{
    winmd::FieldFlags(flags).literal()
}

/// One field of a type definition.
#[derive(Debug, PartialEq, Eq)]
pub struct FieldRecord {
    /// The name metadata has for the field.
    pub name: String,
    /// The field's attribute flags, as metadata holds them.
    pub flags: u32,
    /// The value metadata holds for the field, if any. It is read for a
    /// literal field.
    pub constant: Option<ConstantValue>,
    /// The field's declared type, as the type resolver gives it. It is
    /// read for a field that takes storage. Where the type is an anonymous
    /// member of the enclosing definition, its kind is a structure under
    /// the member's metadata name.
    pub ty: Type,
}

/// What a [`FieldRecord`] stands for.
pub struct FieldRecordView {
    pub name: Seq<char>,
    pub flags: u32,
    pub constant: Option<ConstantValue>,
    pub ty: TypeView,
}

impl FieldRecordView {
    /// Whether the field is a literal.
    pub open spec fn is_literal(self) -> bool {
        literal_flag(self.flags)
    }
}

impl View for FieldRecord {
    type V = FieldRecordView;

    open spec fn view(&self) -> FieldRecordView {
        FieldRecordView {
            name: self.name@,
            flags: self.flags,
            constant: self.constant,
            ty: self.ty@,
        }
    }
}

/// The contents of a type definition.
#[derive(Debug, PartialEq, Eq)]
pub struct TypeRecord {
    /// The definition carries the marker of a transparent wrapper around
    /// its only field.
    pub native_typedef: bool,
    /// The identity that an attribute of the definition gives it, if any.
    pub guid: TypeGuid,
    /// The structural signature of the defined type in the runtime's
    /// scheme of type identity.
    pub signature: String,
    /// The fields, in metadata order.
    pub fields: Vec<FieldRecord>,
    /// The anonymous types declared inside the definition, in metadata
    /// order.
    pub nested: Vec<NestedRecord>,
}

/// A type definition declared inside another.
#[derive(Debug, PartialEq, Eq)]
pub struct NestedRecord {
    pub def: TypeDef,
    /// The name metadata has for the definition.
    pub name: String,
    pub record: TypeRecord,
}

/// What a [`TypeRecord`] stands for.
pub struct TypeRecordView {
    pub native_typedef: bool,
    pub guid: TypeGuid,
    pub signature: Seq<char>,
    pub fields: Seq<FieldRecordView>,
    pub nested: Seq<NestedRecordView>,
}

/// What a [`NestedRecord`] stands for.
pub struct NestedRecordView {
    pub def: TypeDef,
    pub name: Seq<char>,
    pub record: TypeRecordView,
}

impl TypeRecord {
    /// What the record stands for.
    pub open spec fn model(&self) -> TypeRecordView
        decreases self,
    {
        TypeRecordView {
            native_typedef: self.native_typedef,
            guid: self.guid,
            signature: self.signature@,
            fields: Seq::new(self.fields@.len(), |i: int| self.fields@[i]@),
            nested: Seq::new(
                self.nested@.len(),
                |i: int|
                    if 0 <= i < self.nested@.len() {
                        self.nested@[i].model()
                    } else {
                        arbitrary()
                    },
            ),
        }
    }
}

impl NestedRecord {
    /// What the record stands for.
    pub open spec fn model(&self) -> NestedRecordView
        decreases self,
    {
        NestedRecordView { def: self.def, name: self.name@, record: self.record.model() }
    }
}

impl View for TypeRecord {
    type V = TypeRecordView;

    open spec fn view(&self) -> TypeRecordView {
        self.model()
    }
}

impl View for NestedRecord {
    type V = NestedRecordView;

    open spec fn view(&self) -> NestedRecordView {
        self.model()
    }
}

impl TypeRecordView {
    /// Whether every type declared inside the definition, at any depth,
    /// has a made-up name. A model is built only from such a definition.
    pub open spec fn names_generated(self) -> bool
        decreases self,
    {
        forall|i: int|
            #![trigger self.nested[i]]
            0 <= i < self.nested.len() ==> is_generated_name(self.nested[i].name)
                && self.nested[i].record.names_generated()
    }
}

impl TypeRecord {
    /// Tells whether every type declared inside the definition, at any
    /// depth, has a made-up name.
    pub fn has_generated_names(&self) -> (r: bool)
        ensures
            r == self@.names_generated(),
        decreases self,
    {
        let mut i: usize = 0;
        while i < self.nested.len()
            invariant
                i <= self.nested.len(),
                forall|j: int|
                    #![trigger self@.nested[j]]
                    0 <= j < i ==> is_generated_name(self@.nested[j].name)
                        && self@.nested[j].record.names_generated(),
            decreases self.nested.len() - i,
        {
            let member = &self.nested[i];
            assert(self@.nested[i as int] == member@);
            if !starts_with_underscore(member.name.as_str()) {
                return false;
            }
            if !member.record.has_generated_names() {
                return false;
            }
            i = i + 1;
        }
        true
    }
}

} // verus!
