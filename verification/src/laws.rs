//! What holds of every model that is built and of every declaration that
//! is decided.
use crate::emit::{DeclarationView, EmissionShape};
use crate::fields::{distinct, lemma_first_free, numbered, taken, unique_name};
use crate::model::{
    lemma_members_filed, lemma_model_well_formed, model_of, reserved, Struct, StructView,
};
use crate::ordered::{has_key, sorted};
use crate::record::{TypeRecord, TypeRecordView};
use crate::types::{TypeName, TypeNameView, TypeView};
use vstd::prelude::*;

verus! {

/// The model depends on nothing but what the name and the record stand
/// for, and the declaration on nothing but what the model stands for: the
/// same input gives the same model and the same declaration, every time.
pub proof fn law_same_input_same_output(
    name: TypeName,
    record: TypeRecord,
    again_name: TypeName,
    again_record: TypeRecord,
    model: Struct,
    again_model: Struct,
)
    requires
        name@ == again_name@,
        record@ == again_record@,
        model@ == again_model@,
    ensures
        model_of(name@, record@) == model_of(again_name@, again_record@),
        model@.declaration() == again_model@.declaration(),
        model@.dependencies() == again_model@.dependencies(),
{
}

/// No two fields of a model share an identifier.
pub proof fn law_identifiers_distinct(name: TypeNameView, record: TypeRecordView)
    ensures
        distinct(model_of(name, record).fields),
{
    lemma_model_well_formed(name, record);
}

/// A new field whose identifier is free keeps it. One whose identifier is
/// taken gets the identifier with a number behind it: the first number,
/// counting from 2, that gives an identifier no field has.
pub proof fn law_first_free_number(fields: Seq<(Seq<char>, TypeView)>, base: Seq<char>)
    ensures
        !taken(fields, base) ==> unique_name(fields, base) == base,
        taken(fields, base) ==> exists|n: nat|
            2 <= n && unique_name(fields, base) == #[trigger] numbered(base, n) && !taken(
                fields,
                numbered(base, n),
            ) && forall|j: nat| 2 <= j < n ==> taken(fields, #[trigger] numbered(base, j)),
{
    if taken(fields, base) {
        lemma_first_free(fields, base, 2, fields.len());
    }
}

/// The anonymous members of a model stand in the order of their metadata
/// names, whatever order metadata declares them in, and each is found
/// under its metadata name.
pub proof fn law_members_by_name(name: TypeNameView, record: TypeRecordView, i: int)
    requires
        0 <= i < record.nested.len(),
    ensures
        sorted(model_of(name, record).nested),
        has_key(model_of(name, record).nested, record.nested[i].name),
{
    lemma_model_well_formed(name, record);
    lemma_members_filed(name, record.nested, record.nested.len(), i);
}

/// A type without field records and without an identity is given exactly
/// one field: the reserved byte.
pub proof fn law_empty_type_is_padded(name: TypeNameView, record: TypeRecordView)
    requires
        record.fields.len() == 0,
        !record.guid.is_present(),
    ensures
        model_of(name, record).fields == seq![(reserved(), TypeView::reserved_byte())],
{
}

/// A model is never without storage unless its type has an identity.
pub proof fn law_storage_or_identity(name: TypeNameView, record: TypeRecordView)
    ensures
        model_of(name, record).fields.len() == 0 ==> record.guid.is_present(),
{
    lemma_model_well_formed(name, record);
}

/// For a type with an identity exactly one thing is declared: the
/// constant that holds the identity. No aggregate, no shadow, no derived
/// operation, and nothing for the types declared inside it.
pub proof fn law_identity_declares_constant(model: StructView)
    requires
        model.guid.is_present(),
    ensures
        model.declaration() == (DeclarationView::Constant { name: model.name, guid: model.guid }),
{
}

/// Where the type or a type declared inside it, at any depth, keeps its
/// fields in shared storage, nothing is derived for the type: its
/// declaration is not the full one, the only one that holds a shadow,
/// default construction, equality, formatting or a copy mark.
pub proof fn law_union_derives_nothing(model: StructView)
    requires
        model.holds_union(),
    ensures
        !(model.declaration() is Full),
        model.declaration().shape() != EmissionShape::FullAggregate,
{
}

/// The four forms are decided by identity and layout alone, and the
/// declaration has the form that was decided.
pub proof fn law_shape_decides(model: StructView)
    ensures
        model.declaration().shape() == model.shape(),
        model.shape() == EmissionShape::ConstantOnly <==> model.guid.is_present(),
        model.shape() == EmissionShape::Union <==> !model.guid.is_present()
            && model.name.def.explicit(),
        model.shape() == EmissionShape::PlainNoDerive <==> !model.guid.is_present()
            && !model.name.def.explicit() && model.holds_union(),
        model.shape() == EmissionShape::FullAggregate <==> !model.guid.is_present()
            && !model.holds_union(),
{
}

/// In a full declaration the type is marked as copied by its bytes if and
/// only if every one of its fields can be.
pub proof fn law_copy_mark(model: StructView)
    requires
        model.shape() == EmissionShape::FullAggregate,
    ensures
        model.declaration() is Full,
        model.declaration()->Full_derived.copy <==> model.all_blittable(),
{
}

/// A delegate is stored, and declared, without any level of pointer,
/// whatever the record holds for it.
pub proof fn law_delegates_direct(name: TypeNameView, record: TypeRecordView, i: int)
    requires
        0 <= i < model_of(name, record).fields.len(),
        model_of(name, record).fields[i].1.kind is Delegate,
    ensures
        model_of(name, record).fields[i].1.pointers == 0,
        model_of(name, record).aggregate().members[i].1.pointers == 0,
{
    lemma_model_well_formed(name, record);
}

} // verus!
