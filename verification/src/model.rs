//! The structural model of a type definition: what is built from the
//! definition's record, once, and then read when the type is declared.
use crate::fields::{assign_name, distinct, field_views, lemma_unique_name_free, unique_name};
use crate::ordered::{
    has_key, insert, lemma_insert, lemma_insert_entries, lemma_insert_keeps_keys, lower_bound,
    sorted,
};
use crate::record::{
    flags_literal, FieldRecordView, NestedRecordView, TypeRecord, TypeRecordView,
};
use crate::text::{decimal, name_less, push_char, push_decimal, snake, to_snake};
use crate::types::{
    ConstantValue, Type, TypeDef, TypeGuid, TypeKind, TypeKindView, TypeName, TypeNameView,
    TypeView,
};
use vstd::prelude::*;
use vstd::string::*;

verus! {

/// The model of one type, with the models of the anonymous types declared
/// inside it.
#[derive(Debug, PartialEq, Eq)]
pub struct Struct {
    /// The name the type is declared under.
    pub name: TypeName,
    /// The storage fields in metadata order, each under its identifier.
    pub fields: Vec<(String, Type)>,
    /// The literal fields in metadata order, each under its metadata name.
    pub constants: Vec<(String, ConstantValue)>,
    /// The structural signature; empty unless the type takes part in the
    /// runtime's scheme of type identity.
    pub signature: String,
    /// The type is a transparent wrapper: its fields are reached by
    /// position.
    pub is_typedef: bool,
    /// The identity of the type, if it has one.
    pub guid: TypeGuid,
    /// The models of the anonymous members, each under the member's
    /// metadata name, in the order of those names.
    pub nested: Vec<(String, Struct)>,
}

/// What a [`Struct`] stands for.
pub struct StructView {
    pub name: TypeNameView,
    pub fields: Seq<(Seq<char>, TypeView)>,
    pub constants: Seq<(Seq<char>, ConstantValue)>,
    pub signature: Seq<char>,
    pub is_typedef: bool,
    pub guid: TypeGuid,
    pub nested: Seq<(Seq<char>, StructView)>,
}

/// What a list of constants stands for.
pub open spec fn constant_views(constants: Seq<(String, ConstantValue)>) -> Seq<
    (Seq<char>, ConstantValue),
> {
    Seq::new(constants.len(), |i: int| (constants[i].0@, constants[i].1))
}

/// What a list of members stands for.
pub open spec fn member_views(members: Seq<(String, Struct)>) -> Seq<(Seq<char>, StructView)> {
    Seq::new(members.len(), |i: int| (members[i].0@, members[i].1@))
}

impl Struct {
    /// What the model stands for.
    pub open spec fn model(&self) -> StructView
        decreases self,
    {
        StructView {
            name: self.name@,
            fields: field_views(self.fields@),
            constants: constant_views(self.constants@),
            signature: self.signature@,
            is_typedef: self.is_typedef,
            guid: self.guid,
            nested: Seq::new(
                self.nested@.len(),
                |i: int|
                    if 0 <= i < self.nested@.len() {
                        (self.nested@[i].0@, self.nested@[i].1.model())
                    } else {
                        arbitrary()
                    },
            ),
        }
    }
}

impl View for Struct {
    type V = StructView;

    open spec fn view(&self) -> StructView {
        self.model()
    }
}

impl StructView {
    /// Whether every delegate among the fields is held directly.
    pub open spec fn delegates_direct(self) -> bool {
        forall|i: int|
            0 <= i < self.fields.len() && (#[trigger] self.fields[i]).1.kind is Delegate
                ==> self.fields[i].1.pointers == 0
    }

    /// What holds of every model that is built: no two fields share an
    /// identifier; a type without an identity has at least one field;
    /// delegates are held directly; the anonymous members stand in the
    /// order of their metadata names; and all of this holds of each
    /// member's model too.
    pub open spec fn well_formed(self) -> bool
        decreases self,
    {
        &&& distinct(self.fields)
        &&& (self.fields.len() == 0 ==> self.guid.is_present())
        &&& self.delegates_direct()
        &&& sorted(self.nested)
        &&& forall|i: int|
            #![trigger self.nested[i]]
            0 <= i < self.nested.len() ==> self.nested[i].1.well_formed()
    }
}

/// The identifier of the byte that stands in for the storage of a type
/// without fields.
pub open spec fn reserved() -> Seq<char> {
    seq!['r', 'e', 's', 'e', 'r', 'v', 'e', 'd']
}

/// The name given to the anonymous member that is resolved when `index`
/// members of the enclosing type are in place: the enclosing name, an
/// underscore, and `index` in decimal, in the enclosing namespace.
pub open spec fn member_name(parent: TypeNameView, index: nat, def: TypeDef) -> TypeNameView {
    TypeNameView {
        namespace: parent.namespace,
        name: parent.name.push('_') + decimal(index),
        def,
    }
}

/// A field's declared type with its reference to an anonymous member, if
/// it is one, resolved: the member's metadata name gives way to the name
/// under which the member's model is declared.
pub open spec fn resolved(ty: TypeView, members: Seq<(Seq<char>, StructView)>) -> TypeView {
    match ty.kind {
        TypeKindView::Struct(name) => {
            if has_key(members, name.name) {
                ty.with_kind(
                    TypeKindView::Struct(members[lower_bound(members, name.name) as int].1.name),
                )
            } else {
                ty
            }
        },
        _ => ty,
    }
}

/// The type a field is stored with: its declared type, resolved among the
/// anonymous members, and held directly if it is a delegate.
pub open spec fn stored_type(ty: TypeView, members: Seq<(Seq<char>, StructView)>) -> TypeView {
    resolved(ty, members).normalized()
}

/// The storage fields that the first `n` field records give, before any
/// padding: literal fields are passed over, and every other field gets a
/// fresh identifier and its stored type.
pub open spec fn fields_upto(
    records: Seq<FieldRecordView>,
    members: Seq<(Seq<char>, StructView)>,
    n: nat,
) -> Seq<(Seq<char>, TypeView)>
    decreases n,
{
    if n == 0 {
        Seq::empty()
    } else {
        let before = fields_upto(records, members, (n - 1) as nat);
        let record = records[n - 1];
        if record.is_literal() {
            before
        } else {
            before.push(
                (unique_name(before, snake(record.name)), stored_type(record.ty, members)),
            )
        }
    }
}

/// The constants that the first `n` field records give: the literal
/// fields that have a value, under their metadata names.
pub open spec fn constants_upto(records: Seq<FieldRecordView>, n: nat) -> Seq<
    (Seq<char>, ConstantValue),
>
    decreases n,
{
    if n == 0 {
        Seq::empty()
    } else {
        let before = constants_upto(records, (n - 1) as nat);
        let record = records[n - 1];
        match record.constant {
            Some(value) if record.is_literal() => before.push((record.name, value)),
            _ => before,
        }
    }
}

/// The fields of a model: those of its records, or, where there are none
/// and the type has no identity, the one reserved byte.
pub open spec fn padded(fields: Seq<(Seq<char>, TypeView)>, guid: TypeGuid) -> Seq<
    (Seq<char>, TypeView),
> {
    if fields.len() == 0 && !guid.is_present() {
        seq![(reserved(), TypeView::reserved_byte())]
    } else {
        fields
    }
}

/// The models of the first `n` anonymous members of the type named
/// `parent`, in the order of their metadata names. A member is named by
/// the number of members in place when it is resolved.
pub open spec fn members_upto(parent: TypeNameView, defs: Seq<NestedRecordView>, n: nat) -> Seq<
    (Seq<char>, StructView),
>
    decreases defs, n,
{
    if n == 0 || n > defs.len() {
        Seq::empty()
    } else {
        let before = members_upto(parent, defs, (n - 1) as nat);
        let def = defs[n - 1];
        insert(before, def.name, model_of(member_name(parent, before.len(), def.def), def.record))
    }
}

/// The model of the type that is declared as `name` and defined by
/// `record`.
pub open spec fn model_of(name: TypeNameView, record: TypeRecordView) -> StructView
    decreases record, 0nat,
{
    let members = members_upto(name, record.nested, record.nested.len());
    StructView {
        name,
        fields: padded(fields_upto(record.fields, members, record.fields.len()), record.guid),
        constants: constants_upto(record.fields, record.fields.len()),
        signature: if name.def.winrt {
            record.signature
        } else {
            Seq::empty()
        },
        is_typedef: record.native_typedef,
        guid: record.guid,
        nested: members,
    }
}

/// The fields that records give have pairwise different identifiers, and
/// the delegates among them are held directly.
pub proof fn lemma_fields_upto(
    records: Seq<FieldRecordView>,
    members: Seq<(Seq<char>, StructView)>,
    n: nat,
)
    ensures
        distinct(fields_upto(records, members, n)),
        forall|i: int|
            0 <= i < fields_upto(records, members, n).len() && (#[trigger] fields_upto(
                records,
                members,
                n,
            )[i]).1.kind is Delegate ==> fields_upto(records, members, n)[i].1.pointers == 0,
    decreases n,
{
    if n > 0 {
        let before = fields_upto(records, members, (n - 1) as nat);
        lemma_fields_upto(records, members, (n - 1) as nat);
        lemma_unique_name_free(before, snake(records[n - 1].name));
    }
}

/// The members of a type stand in the order of their metadata names, and
/// each of their models is well formed.
pub proof fn lemma_members_upto(parent: TypeNameView, defs: Seq<NestedRecordView>, n: nat)
    ensures
        sorted(members_upto(parent, defs, n)),
        forall|i: int|
            #![trigger members_upto(parent, defs, n)[i]]
            0 <= i < members_upto(parent, defs, n).len() ==> members_upto(
                parent,
                defs,
                n,
            )[i].1.well_formed(),
    decreases defs, n,
{
    if n == 0 || n > defs.len() {
    } else {
        let before = members_upto(parent, defs, (n - 1) as nat);
        let def = defs[n - 1];
        let child = model_of(member_name(parent, before.len(), def.def), def.record);
        lemma_members_upto(parent, defs, (n - 1) as nat);
        lemma_model_well_formed(member_name(parent, before.len(), def.def), def.record);
        lemma_insert(before, def.name, child);
        lemma_insert_entries(before, def.name, child);
    }
}

/// Each of the first `n` anonymous members is found under its metadata
/// name.
pub proof fn lemma_members_filed(
    parent: TypeNameView,
    defs: Seq<NestedRecordView>,
    n: nat,
    i: int,
)
    requires
        0 <= i < n <= defs.len(),
    ensures
        has_key(members_upto(parent, defs, n), defs[i].name),
    decreases n,
{
    let before = members_upto(parent, defs, (n - 1) as nat);
    let def = defs[n - 1];
    let child = model_of(member_name(parent, before.len(), def.def), def.record);
    lemma_members_upto(parent, defs, (n - 1) as nat);
    lemma_insert(before, def.name, child);
    if i < n - 1 {
        lemma_members_filed(parent, defs, (n - 1) as nat, i);
        lemma_insert_keeps_keys(before, def.name, child, defs[i].name);
    }
}

/// Every model that is built is well formed.
pub proof fn lemma_model_well_formed(name: TypeNameView, record: TypeRecordView)
    ensures
        model_of(name, record).well_formed(),
    decreases record, 0nat,
{
    let members = members_upto(name, record.nested, record.nested.len());
    lemma_members_upto(name, record.nested, record.nested.len());
    lemma_fields_upto(record.fields, members, record.fields.len());
}

fn reserved_name() -> (id: String)
    ensures
        id@ == reserved(),
{
    proof {
        reveal_strlit("reserved");
    }
    let id = String::from_str("reserved");
    assert(id@.len() == 8);
    assert(id@ =~= reserved());
    id
}

fn member_position(members: &Vec<(String, Struct)>, key: &str) -> (at: usize)
    ensures
        at == lower_bound(member_views(members@), key@),
        at <= members.len(),
{
    let ghost all = member_views(members@);
    let mut at: usize = 0;
    proof {
        assert(all.skip(0) == all);
    }
    while at < members.len() && name_less(members[at].0.as_str(), key)
        invariant
            all == member_views(members@),
            at <= members.len(),
            lower_bound(all, key@) == at + lower_bound(all.skip(at as int), key@),
        decreases members.len() - at,
    {
        proof {
            let rest = all.skip(at as int);
            assert(rest[0] == all[at as int]);
            assert(rest.drop_first() == all.skip(at + 1));
        }
        at = at + 1;
    }
    proof {
        let rest = all.skip(at as int);
        if at < members.len() {
            assert(rest[0] == all[at as int]);
        }
    }
    at
}

fn file_member(members: &mut Vec<(String, Struct)>, key: String, value: Struct)
    ensures
        member_views(final(members)@) == insert(member_views(old(members)@), key@, value@),
{
    let at = member_position(members, key.as_str());
    let ghost before = member_views(members@);
    if at < members.len() && members[at].0 == key {
        members.set(at, (key, value));
        assert(member_views(members@) =~= before.update(at as int, (key@, value@)));
    } else {
        members.insert(at, (key, value));
        assert(member_views(members@) =~= before.insert(at as int, (key@, value@)));
    }
}

fn store_type(ty: &Type, members: &Vec<(String, Struct)>) -> (stored: Type)
    ensures
        stored@ == stored_type(ty@, member_views(members@)),
{
    let mut stored = ty.clone();
    match &ty.kind {
        TypeKind::Struct(name) => {
            let at = member_position(members, name.name.as_str());
            if at < members.len() && members[at].0 == name.name {
                stored.kind = TypeKind::Struct(members[at].1.name.clone());
            }
        },
        TypeKind::Delegate(_) => {
            stored.pointers = 0;
        },
        _ => {},
    }
    stored
}

impl Struct {
    /// Builds the model of the type that is declared as `name` and defined
    /// by `record`. A type declared inside the definition must have a
    /// made-up name (`TypeRecord::has_generated_names` tells).
    pub fn from_type_name(name: TypeName, record: &TypeRecord) -> (model: Struct)
        requires
            record@.names_generated(),
        ensures
            model@ == model_of(name@, record@),
            model@.well_formed(),
        decreases record,
    {
        proof {
            lemma_model_well_formed(name@, record@);
        }
        let signature = if name.def.winrt {
            record.signature.clone()
        } else {
            String::new()
        };

        let mut nested: Vec<(String, Struct)> = Vec::new();
        let mut i: usize = 0;
        while i < record.nested.len()
            invariant
                i <= record.nested.len(),
                record@.names_generated(),
                member_views(nested@) == members_upto(name@, record@.nested, i as nat),
            decreases record.nested.len() - i,
        {
            let def = &record.nested[i];
            assert(record@.nested[i as int] == def@);
            let mut text = name.name.clone();
            push_char(&mut text, '_');
            push_decimal(&mut text, nested.len() as u128);
            let member = TypeName { namespace: name.namespace.clone(), name: text, def: def.def };
            let child = Struct::from_type_name(member, &def.record);
            file_member(&mut nested, def.name.clone(), child);
            i = i + 1;
        }

        let mut fields: Vec<(String, Type)> = Vec::new();
        let mut constants: Vec<(String, ConstantValue)> = Vec::new();
        let mut j: usize = 0;
        while j < record.fields.len()
            invariant
                j <= record.fields.len(),
                field_views(fields@) == fields_upto(
                    record@.fields,
                    member_views(nested@),
                    j as nat,
                ),
                constant_views(constants@) == constants_upto(record@.fields, j as nat),
            decreases record.fields.len() - j,
        {
            let ghost fields_before = field_views(fields@);
            let ghost constants_before = constant_views(constants@);
            assert(record@.fields[j as int] == record.fields@[j as int]@);
            let field = &record.fields[j];
            if flags_literal(field.flags) {
                if let Some(value) = field.constant {
                    constants.push((field.name.clone(), value));
                    assert(constant_views(constants@) =~= constants_before.push(
                        (field.name@, value),
                    ));
                }
            } else {
                let stored = store_type(&field.ty, &nested);
                let id = assign_name(&fields, to_snake(field.name.as_str()));
                fields.push((id, stored));
                assert(field_views(fields@) =~= fields_before.push((id@, stored@)));
            }
            j = j + 1;
        }

        let guid = record.guid;
        if fields.len() == 0 && !guid.present() {
            fields.push((reserved_name(), Type::reserved_byte()));
            assert(field_views(fields@) =~= seq![(reserved(), TypeView::reserved_byte())]);
        }

        let model = Struct {
            name,
            fields,
            constants,
            signature,
            is_typedef: record.native_typedef,
            guid,
            nested,
        };
        assert(model@.nested =~= member_views(model.nested@));
        model
    }
}

} // verus!
