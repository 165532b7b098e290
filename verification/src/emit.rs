//! What is declared for a model: a constant, a union, a plain aggregate,
//! or an aggregate with everything that is derived for it.
use crate::fields::field_views;
use crate::literal::{byte_string, byte_string_literal, index_literal};
use crate::model::{constant_views, Struct, StructView};
use crate::text::decimal;
use crate::types::{ConstantValue, Type, TypeGuid, TypeName, TypeNameView, TypeView};
use vstd::prelude::*;
use vstd::string::*;

verus! {

/// The four forms a declaration takes.
#[derive(Clone, Copy, Debug, PartialEq, Eq, Structural)]
pub enum EmissionShape {
    /// The type has an identity: it is declared as a constant of that
    /// identity, and nothing else.
    ConstantOnly,
    /// The fields share their storage.
    Union,
    /// A union is declared somewhere inside the type: the type is an
    /// aggregate for which nothing is derived.
    PlainNoDerive,
    /// An aggregate with its shadow and its derived operations.
    FullAggregate,
}

/// How an operation reaches a field of the value it works on.
#[derive(Debug, PartialEq, Eq)]
pub enum Access {
    /// By the field's identifier.
    Named(String),
    /// By the field's position, written as an unsuffixed integer literal.
    Positional(String),
}

/// What an [`Access`] stands for.
pub enum AccessView {
    Named(Seq<char>),
    Positional(Seq<char>),
}

impl View for Access {
    type V = AccessView;

    open spec fn view(&self) -> AccessView {
        match self {
            Access::Named(id) => AccessView::Named(id@),
            Access::Positional(literal) => AccessView::Positional(literal@),
        }
    }
}

/// One term of the equality operation.
#[derive(Debug, PartialEq, Eq)]
pub struct Comparison {
    pub access: Access,
    /// The field is compared by the address it holds, not by structure.
    pub by_address: bool,
}

/// What a [`Comparison`] stands for.
pub struct ComparisonView {
    pub access: AccessView,
    pub by_address: bool,
}

impl View for Comparison {
    type V = ComparisonView;

    open spec fn view(&self) -> ComparisonView {
        ComparisonView { access: self.access@, by_address: self.by_address }
    }
}

/// One field listed by the formatting operation.
#[derive(Debug, PartialEq, Eq)]
pub struct DebugField {
    /// The text the field is listed under.
    pub label: String,
    pub access: Access,
}

/// What a [`DebugField`] stands for.
pub struct DebugFieldView {
    pub label: Seq<char>,
    pub access: AccessView,
}

impl View for DebugField {
    type V = DebugFieldView;

    open spec fn view(&self) -> DebugFieldView {
        DebugFieldView { label: self.label@, access: self.access@ }
    }
}

/// The declaration of a type's storage.
#[derive(Debug, PartialEq, Eq)]
pub struct Aggregate {
    pub name: TypeName,
    /// The fields are declared without their identifiers.
    pub positional: bool,
    /// The fields, in storage order.
    pub members: Vec<(String, Type)>,
}

/// What an [`Aggregate`] stands for.
pub struct AggregateView {
    pub name: TypeNameView,
    pub positional: bool,
    pub members: Seq<(Seq<char>, TypeView)>,
}

impl View for Aggregate {
    type V = AggregateView;

    open spec fn view(&self) -> AggregateView {
        AggregateView {
            name: self.name@,
            positional: self.positional,
            members: field_views(self.members@),
        }
    }
}

/// What is derived for an aggregate beside its declaration. The shadow
/// aggregate has the aggregate's fields, each in the representation it
/// has at a foreign call; default construction gives each field the
/// default of its type, by position or by identifier as the aggregate
/// declares them.
#[derive(Debug, PartialEq, Eq)]
pub struct Derived {
    /// The name of the shadow aggregate.
    pub shadow: String,
    /// The fields that formatting lists, in field order.
    pub debug: Vec<DebugField>,
    /// The terms whose conjunction is equality; none where equality always
    /// holds.
    pub equality: Vec<Comparison>,
    /// The type is marked as copied by copying its bytes.
    pub copy: bool,
    /// The byte-string literal of the structural signature, for a type
    /// that has one.
    pub runtime_type: Option<String>,
}

/// What a [`Derived`] stands for.
pub struct DerivedView {
    pub shadow: Seq<char>,
    pub debug: Seq<DebugFieldView>,
    pub equality: Seq<ComparisonView>,
    pub copy: bool,
    pub runtime_type: Option<Seq<char>>,
}

/// What lists of the two kinds of entry stand for.
pub open spec fn debug_views(entries: Seq<DebugField>) -> Seq<DebugFieldView> {
    Seq::new(entries.len(), |i: int| entries[i]@)
}

pub open spec fn comparison_views(terms: Seq<Comparison>) -> Seq<ComparisonView> {
    Seq::new(terms.len(), |i: int| terms[i]@)
}

impl View for Derived {
    type V = DerivedView;

    open spec fn view(&self) -> DerivedView {
        DerivedView {
            shadow: self.shadow@,
            debug: debug_views(self.debug@),
            equality: comparison_views(self.equality@),
            copy: self.copy,
            runtime_type: match self.runtime_type {
                Some(literal) => Some(literal@),
                None => None,
            },
        }
    }
}

/// Everything that is declared for one model.
#[derive(Debug, PartialEq, Eq)]
pub enum Declaration {
    /// A constant of the identity type, named as the type and holding its
    /// identity.
    Constant { name: TypeName, guid: TypeGuid },
    /// A union, followed by the declarations of its anonymous members.
    Union { body: Aggregate, nested: Vec<Declaration> },
    /// An aggregate and its constants, followed by the declarations of its
    /// anonymous members.
    Plain { body: Aggregate, constants: Vec<(String, ConstantValue)>, nested: Vec<Declaration> },
    /// An aggregate, its constants and what is derived for it, followed by
    /// the declarations of its anonymous members.
    Full {
        body: Aggregate,
        constants: Vec<(String, ConstantValue)>,
        derived: Derived,
        nested: Vec<Declaration>,
    },
}

/// What a [`Declaration`] stands for.
pub enum DeclarationView {
    Constant { name: TypeNameView, guid: TypeGuid },
    Union { body: AggregateView, nested: Seq<DeclarationView> },
    Plain {
        body: AggregateView,
        constants: Seq<(Seq<char>, ConstantValue)>,
        nested: Seq<DeclarationView>,
    },
    Full {
        body: AggregateView,
        constants: Seq<(Seq<char>, ConstantValue)>,
        derived: DerivedView,
        nested: Seq<DeclarationView>,
    },
}

/// What a list of declarations stands for.
pub open spec fn declaration_views(list: Seq<Declaration>) -> Seq<DeclarationView>
    decreases list,
{
    Seq::new(
        list.len(),
        |i: int|
            if 0 <= i < list.len() {
                list[i].model()
            } else {
                arbitrary()
            },
    )
}

impl Declaration {
    /// What the declaration stands for.
    pub open spec fn model(&self) -> DeclarationView
        decreases self,
    {
        match self {
            Declaration::Constant { name, guid } => DeclarationView::Constant {
                name: name@,
                guid: *guid,
            },
            Declaration::Union { body, nested } => DeclarationView::Union {
                body: body@,
                nested: declaration_views(nested@),
            },
            Declaration::Plain { body, constants, nested } => DeclarationView::Plain {
                body: body@,
                constants: constant_views(constants@),
                nested: declaration_views(nested@),
            },
            Declaration::Full { body, constants, derived, nested } => DeclarationView::Full {
                body: body@,
                constants: constant_views(constants@),
                derived: derived@,
                nested: declaration_views(nested@),
            },
        }
    }
}

impl View for Declaration {
    type V = DeclarationView;

    open spec fn view(&self) -> DeclarationView {
        self.model()
    }
}

impl DeclarationView {
    /// The form of the declaration.
    pub open spec fn shape(self) -> EmissionShape {
        match self {
            DeclarationView::Constant { .. } => EmissionShape::ConstantOnly,
            DeclarationView::Union { .. } => EmissionShape::Union,
            DeclarationView::Plain { .. } => EmissionShape::PlainNoDerive,
            DeclarationView::Full { .. } => EmissionShape::FullAggregate,
        }
    }
}

impl StructView {
    /// Whether the type or a type declared inside it, at any depth, keeps
    /// its fields in shared storage.
    pub open spec fn holds_union(self) -> bool
        decreases self,
    {
        self.name.def.explicit() || exists|i: int|
            #![trigger self.nested[i]]
            0 <= i < self.nested.len() && self.nested[i].1.holds_union()
    }

    /// The form in which the type is declared.
    pub open spec fn shape(self) -> EmissionShape {
        if self.guid.is_present() {
            EmissionShape::ConstantOnly
        } else if self.name.def.explicit() {
            EmissionShape::Union
        } else if self.holds_union() {
            EmissionShape::PlainNoDerive
        } else {
            EmissionShape::FullAggregate
        }
    }

    /// How the operations derived for the type reach its field `i`: by
    /// position in a transparent wrapper, by identifier otherwise.
    pub open spec fn access(self, i: int) -> AccessView {
        if self.is_typedef {
            AccessView::Positional(decimal((i as u32) as nat))
        } else {
            AccessView::Named(self.fields[i].0)
        }
    }

    /// The declaration of the type's storage.
    pub open spec fn aggregate(self) -> AggregateView {
        AggregateView { name: self.name, positional: self.is_typedef, members: self.fields }
    }

    /// The terms of equality: one for each field, in field order; a bare
    /// function pointer is compared by address.
    pub open spec fn comparisons(self) -> Seq<ComparisonView> {
        Seq::new(
            self.fields.len(),
            |i: int|
                ComparisonView {
                    access: self.access(i),
                    by_address: self.fields[i].1.kind.is_native_callback(),
                },
        )
    }

    /// What formatting lists of the first `n` fields: every field but the
    /// bare function pointers, under its identifier.
    pub open spec fn debug_upto(self, n: nat) -> Seq<DebugFieldView>
        decreases n,
    {
        if n == 0 {
            Seq::empty()
        } else {
            let before = self.debug_upto((n - 1) as nat);
            if self.fields[n - 1].1.kind.is_native_callback() {
                before
            } else {
                before.push(
                    DebugFieldView { label: self.fields[n - 1].0, access: self.access(n - 1) },
                )
            }
        }
    }

    /// Whether every field can be duplicated by copying its bytes.
    pub open spec fn all_blittable(self) -> bool {
        forall|i: int| 0 <= i < self.fields.len() ==> (#[trigger] self.fields[i]).1.kind.blittable()
    }

    /// What is derived for the type when its declaration is full.
    pub open spec fn derived(self) -> DerivedView {
        DerivedView {
            shadow: self.name.name + seq!['_', 'a', 'b', 'i'],
            debug: self.debug_upto(self.fields.len()),
            equality: self.comparisons(),
            copy: self.all_blittable(),
            runtime_type: if self.signature.len() == 0 {
                None
            } else {
                Some(byte_string(self.signature))
            },
        }
    }

    /// The declarations of the anonymous members, in the order the model
    /// holds them.
    pub open spec fn member_declarations(self) -> Seq<DeclarationView>
        decreases self, 0nat,
    {
        Seq::new(
            self.nested.len(),
            |i: int|
                if 0 <= i < self.nested.len() {
                    self.nested[i].1.declaration()
                } else {
                    arbitrary()
                },
        )
    }

    /// Everything that is declared for the type.
    pub open spec fn declaration(self) -> DeclarationView
        decreases self, 1nat,
    {
        match self.shape() {
            EmissionShape::ConstantOnly => DeclarationView::Constant {
                name: self.name,
                guid: self.guid,
            },
            EmissionShape::Union => DeclarationView::Union {
                body: self.aggregate(),
                nested: self.member_declarations(),
            },
            EmissionShape::PlainNoDerive => DeclarationView::Plain {
                body: self.aggregate(),
                constants: self.constants,
                nested: self.member_declarations(),
            },
            EmissionShape::FullAggregate => DeclarationView::Full {
                body: self.aggregate(),
                constants: self.constants,
                derived: self.derived(),
                nested: self.member_declarations(),
            },
        }
    }
}

fn copy_fields(fields: &Vec<(String, Type)>) -> (copy: Vec<(String, Type)>)
    ensures
        field_views(copy@) == field_views(fields@),
{
    let mut copy: Vec<(String, Type)> = Vec::new();
    let mut i: usize = 0;
    while i < fields.len()
        invariant
            i <= fields.len(),
            field_views(copy@) == field_views(fields@).take(i as int),
        decreases fields.len() - i,
    {
        let ghost before = field_views(copy@);
        copy.push((fields[i].0.clone(), fields[i].1.clone()));
        assert(field_views(copy@) =~= before.push(field_views(fields@)[i as int]));
        assert(field_views(fields@).take(i + 1) =~= before.push(field_views(fields@)[i as int]));
        i = i + 1;
    }
    assert(field_views(fields@).take(fields.len() as int) =~= field_views(fields@));
    copy
}

fn copy_constants(constants: &Vec<(String, ConstantValue)>) -> (copy: Vec<(String, ConstantValue)>)
    ensures
        constant_views(copy@) == constant_views(constants@),
{
    let mut copy: Vec<(String, ConstantValue)> = Vec::new();
    let mut i: usize = 0;
    while i < constants.len()
        invariant
            i <= constants.len(),
            constant_views(copy@) == constant_views(constants@).take(i as int),
        decreases constants.len() - i,
    {
        let ghost before = constant_views(copy@);
        copy.push((constants[i].0.clone(), constants[i].1));
        assert(constant_views(copy@) =~= before.push(constant_views(constants@)[i as int]));
        assert(constant_views(constants@).take(i + 1) =~= before.push(
            constant_views(constants@)[i as int],
        ));
        i = i + 1;
    }
    assert(constant_views(constants@).take(constants.len() as int) =~= constant_views(constants@));
    copy
}

impl Struct {
    /// Tells whether the type or a type declared inside it, at any depth,
    /// keeps its fields in shared storage.
    pub fn holds_union(&self) -> (r: bool)
        ensures
            r == self@.holds_union(),
        decreases self,
    {
        if self.name.def.is_explicit() {
            return true;
        }
        let mut i: usize = 0;
        while i < self.nested.len()
            invariant
                i <= self.nested.len(),
                !self@.name.def.explicit(),
                forall|j: int| 0 <= j < i ==> !(#[trigger] self@.nested[j]).1.holds_union(),
            decreases self.nested.len() - i,
        {
            assert(self@.nested[i as int].1 == self.nested@[i as int].1@);
            if self.nested[i].1.holds_union() {
                return true;
            }
            i = i + 1;
        }
        false
    }

    /// The form in which the type is declared.
    pub fn shape(&self) -> (shape: EmissionShape)
        ensures
            shape == self@.shape(),
    {
        if self.guid.present() {
            EmissionShape::ConstantOnly
        } else if self.name.def.is_explicit() {
            EmissionShape::Union
        } else if self.holds_union() {
            EmissionShape::PlainNoDerive
        } else {
            EmissionShape::FullAggregate
        }
    }

    fn access(&self, i: usize) -> (access: Access)
        requires
            i < self.fields.len(),
        ensures
            access@ == self@.access(i as int),
    {
        if self.is_typedef {
            Access::Positional(index_literal(#[verifier::truncate] (i as u32)))
        } else {
            Access::Named(self.fields[i].0.clone())
        }
    }

    fn aggregate(&self) -> (body: Aggregate)
        ensures
            body@ == self@.aggregate(),
    {
        Aggregate {
            name: self.name.clone(),
            positional: self.is_typedef,
            members: copy_fields(&self.fields),
        }
    }

    fn all_blittable(&self) -> (r: bool)
        ensures
            r == self@.all_blittable(),
    {
        let mut i: usize = 0;
        while i < self.fields.len()
            invariant
                i <= self.fields.len(),
                forall|j: int| 0 <= j < i ==> (#[trigger] self@.fields[j]).1.kind.blittable(),
            decreases self.fields.len() - i,
        {
            if !self.fields[i].1.kind.is_blittable() {
                assert(!self@.fields[i as int].1.kind.blittable());
                return false;
            }
            i = i + 1;
        }
        true
    }

    fn derived(&self) -> (derived: Derived)
        ensures
            derived@ == self@.derived(),
    {
        let mut shadow = self.name.name.clone();
        proof {
            reveal_strlit("_abi");
        }
        shadow.append("_abi");
        assert(shadow@ =~= self@.name.name + seq!['_', 'a', 'b', 'i']);

        let mut debug: Vec<DebugField> = Vec::new();
        let mut equality: Vec<Comparison> = Vec::new();
        let mut i: usize = 0;
        while i < self.fields.len()
            invariant
                i <= self.fields.len(),
                debug_views(debug@) == self@.debug_upto(i as nat),
                comparison_views(equality@) == self@.comparisons().take(i as int),
            decreases self.fields.len() - i,
        {
            let ghost debug_before = debug_views(debug@);
            let ghost equality_before = comparison_views(equality@);
            let callback = self.fields[i].1.kind.is_native_callback();
            assert(self@.fields[i as int] == (self.fields@[i as int].0@, self.fields@[i as int].1@));
            if !callback {
                let entry = DebugField { label: self.fields[i].0.clone(), access: self.access(i) };
                debug.push(entry);
                assert(debug_views(debug@) =~= debug_before.push(entry@));
            }
            let term = Comparison { access: self.access(i), by_address: callback };
            equality.push(term);
            assert(comparison_views(equality@) =~= equality_before.push(term@));
            assert(self@.comparisons().take(i + 1) =~= equality_before.push(term@));
            i = i + 1;
        }
        assert(self@.comparisons().take(self.fields.len() as int) =~= self@.comparisons());

        let runtime_type = if self.signature.as_str().unicode_len() == 0 {
            None
        } else {
            Some(byte_string_literal(self.signature.as_str()))
        };
        Derived { shadow, debug, equality, copy: self.all_blittable(), runtime_type }
    }

    /// Decides everything that is declared for the type and for the
    /// anonymous types inside it.
    pub fn gen(&self) -> (declaration: Declaration)
        ensures
            declaration@ == self@.declaration(),
        decreases self,
    {
        let shape = self.shape();
        if let EmissionShape::ConstantOnly = shape {
            return Declaration::Constant { name: self.name.clone(), guid: self.guid };
        }
        let mut nested: Vec<Declaration> = Vec::new();
        let mut i: usize = 0;
        while i < self.nested.len()
            invariant
                i <= self.nested.len(),
                declaration_views(nested@) == self@.member_declarations().take(i as int),
            decreases self.nested.len() - i,
        {
            let ghost before = declaration_views(nested@);
            let member = self.nested[i].1.gen();
            assert(self@.nested[i as int].1 == self.nested@[i as int].1@);
            nested.push(member);
            assert(declaration_views(nested@) =~= before.push(member@));
            assert(self@.member_declarations().take(i + 1) =~= before.push(member@));
            i = i + 1;
        }
        assert(self@.member_declarations().take(self.nested.len() as int)
            =~= self@.member_declarations());
        match shape {
            EmissionShape::Union => Declaration::Union { body: self.aggregate(), nested },
            EmissionShape::PlainNoDerive => Declaration::Plain {
                body: self.aggregate(),
                constants: copy_constants(&self.constants),
                nested,
            },
            _ => Declaration::Full {
                body: self.aggregate(),
                constants: copy_constants(&self.constants),
                derived: self.derived(),
                nested,
            },
        }
    }
}

} // verus!
