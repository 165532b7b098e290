//! The values a field's declared type resolves to, and the names and
//! handles they refer to.
use vstd::prelude::*;
use vstd::string::*;

verus! {

/// The identity of a type: 128 bits, all of them zero when the type has none.
#[derive(Clone, Copy, Debug, PartialEq, Eq, Structural)]
pub struct TypeGuid {
    pub value: u128,
}

impl TypeGuid {
    /// Whether this is an identity at all.
    pub open spec fn is_present(&self) -> bool {
        self.value != 0
    }

    /// Tells whether this is an identity at all.
    pub fn present(&self) -> (r: bool)
        ensures
            r == self.is_present(),
    {
        self.value != 0
    }
}

impl Default for TypeGuid {
    /// The absent identity.
    fn default() -> (r: Self)
        ensures
            r.value == 0,
            !r.is_present(),
    {
        TypeGuid { value: 0 }
    }
}

/// Handle of a type definition in metadata, with the flags that are read
/// from the definition when a type that refers to it is declared.
#[derive(Clone, Copy, Debug, PartialEq, Eq, Structural)]
pub struct TypeDef {
    /// Index of the metadata file that holds the definition.
    pub file: u16,
    /// Index of the definition's row in that file.
    pub row: u32,
    /// The definition's attribute flags, as metadata holds them.
    pub flags: u32,
    /// The definition belongs to the Windows Runtime type system.
    pub winrt: bool,
    /// A value of the defined type can be duplicated by copying its bytes.
    pub blittable: bool,
}

impl TypeDef {
    /// Whether the flags ask for explicit layout: every field of the
    /// defined type at a stated offset, so that the fields share storage.
    pub open spec fn explicit(self) -> bool {
        self.flags & 0x10 != 0
    }

    /// Tells whether the flags ask for explicit layout.
    pub fn is_explicit(&self) -> (r: bool)
        ensures
            r == self.explicit(),
    {
        self.flags & 0x10 != 0
    }
}

/// The name a type is declared or referred to by.
#[derive(Debug, PartialEq, Eq)]
pub struct TypeName {
    pub namespace: String,
    pub name: String,
    pub def: TypeDef,
}

/// What a [`TypeName`] stands for.
pub struct TypeNameView {
    pub namespace: Seq<char>,
    pub name: Seq<char>,
    pub def: TypeDef,
}

impl View for TypeName {
    type V = TypeNameView;

    open spec fn view(&self) -> TypeNameView {
        TypeNameView { namespace: self.namespace@, name: self.name@, def: self.def }
    }
}

impl Clone for TypeName {
    fn clone(&self) -> (r: Self)
        ensures
            r@ == self@,
    {
        TypeName { namespace: self.namespace.clone(), name: self.name.clone(), def: self.def }
    }
}

/// What kind of thing a resolved type is.
#[derive(Debug, PartialEq, Eq)]
pub enum TypeKind {
    Bool,
    Char,
    I8,
    U8,
    I16,
    U16,
    I32,
    U32,
    I64,
    U64,
    ISize,
    USize,
    Single,
    Double,
    Guid,
    String,
    Object,
    Class(TypeName),
    Interface(TypeName),
    Enum(TypeName),
    Struct(TypeName),
    Delegate(TypeName),
    Generic(String),
}

/// What a [`TypeKind`] stands for.
pub enum TypeKindView {
    Bool,
    Char,
    I8,
    U8,
    I16,
    U16,
    I32,
    U32,
    I64,
    U64,
    ISize,
    USize,
    Single,
    Double,
    Guid,
    String,
    Object,
    Class(TypeNameView),
    Interface(TypeNameView),
    Enum(TypeNameView),
    Struct(TypeNameView),
    Delegate(TypeNameView),
    Generic(Seq<char>),
}

impl TypeKindView {
    /// Whether a value of this kind can be duplicated by copying its bytes:
    /// numbers, characters, identities and enumerations can; a structure can
    /// if its definition says so; strings, objects, classes, interfaces,
    /// delegates and generic parameters cannot.
    pub open spec fn blittable(self) -> bool {
        match self {
            TypeKindView::String
            | TypeKindView::Object
            | TypeKindView::Class(_)
            | TypeKindView::Interface(_)
            | TypeKindView::Delegate(_)
            | TypeKindView::Generic(_) => false,
            TypeKindView::Struct(name) => name.def.blittable,
            _ => true,
        }
    }

    /// The definitions that a type of this kind refers to.
    pub open spec fn dependencies(self) -> Seq<TypeDef> {
        match self {
            TypeKindView::Class(name)
            | TypeKindView::Interface(name)
            | TypeKindView::Enum(name)
            | TypeKindView::Struct(name)
            | TypeKindView::Delegate(name) => seq![name.def],
            _ => Seq::<TypeDef>::empty(),
        }
    }

    /// Whether this is a delegate that is no Windows Runtime type: a bare
    /// function pointer, which has an address and no structure.
    pub open spec fn is_native_callback(self) -> bool {
        self matches TypeKindView::Delegate(name) && !name.def.winrt
    }
}

impl View for TypeKind {
    type V = TypeKindView;

    open spec fn view(&self) -> TypeKindView {
        match self {
            TypeKind::Bool => TypeKindView::Bool,
            TypeKind::Char => TypeKindView::Char,
            TypeKind::I8 => TypeKindView::I8,
            TypeKind::U8 => TypeKindView::U8,
            TypeKind::I16 => TypeKindView::I16,
            TypeKind::U16 => TypeKindView::U16,
            TypeKind::I32 => TypeKindView::I32,
            TypeKind::U32 => TypeKindView::U32,
            TypeKind::I64 => TypeKindView::I64,
            TypeKind::U64 => TypeKindView::U64,
            TypeKind::ISize => TypeKindView::ISize,
            TypeKind::USize => TypeKindView::USize,
            TypeKind::Single => TypeKindView::Single,
            TypeKind::Double => TypeKindView::Double,
            TypeKind::Guid => TypeKindView::Guid,
            TypeKind::String => TypeKindView::String,
            TypeKind::Object => TypeKindView::Object,
            TypeKind::Class(name) => TypeKindView::Class(name@),
            TypeKind::Interface(name) => TypeKindView::Interface(name@),
            TypeKind::Enum(name) => TypeKindView::Enum(name@),
            TypeKind::Struct(name) => TypeKindView::Struct(name@),
            TypeKind::Delegate(name) => TypeKindView::Delegate(name@),
            TypeKind::Generic(name) => TypeKindView::Generic(name@),
        }
    }
}

impl Clone for TypeKind {
    fn clone(&self) -> (r: Self)
        ensures
            r@ == self@,
    {
        match self {
            TypeKind::Bool => TypeKind::Bool,
            TypeKind::Char => TypeKind::Char,
            TypeKind::I8 => TypeKind::I8,
            TypeKind::U8 => TypeKind::U8,
            TypeKind::I16 => TypeKind::I16,
            TypeKind::U16 => TypeKind::U16,
            TypeKind::I32 => TypeKind::I32,
            TypeKind::U32 => TypeKind::U32,
            TypeKind::I64 => TypeKind::I64,
            TypeKind::U64 => TypeKind::U64,
            TypeKind::ISize => TypeKind::ISize,
            TypeKind::USize => TypeKind::USize,
            TypeKind::Single => TypeKind::Single,
            TypeKind::Double => TypeKind::Double,
            TypeKind::Guid => TypeKind::Guid,
            TypeKind::String => TypeKind::String,
            TypeKind::Object => TypeKind::Object,
            TypeKind::Class(name) => TypeKind::Class(name.clone()),
            TypeKind::Interface(name) => TypeKind::Interface(name.clone()),
            TypeKind::Enum(name) => TypeKind::Enum(name.clone()),
            TypeKind::Struct(name) => TypeKind::Struct(name.clone()),
            TypeKind::Delegate(name) => TypeKind::Delegate(name.clone()),
            TypeKind::Generic(name) => TypeKind::Generic(name.clone()),
        }
    }
}

impl TypeKind {
    /// Tells whether a value of this kind can be duplicated by copying its
    /// bytes.
    pub fn is_blittable(&self) -> (r: bool)
        ensures
            r == self@.blittable(),
    {
        match self {
            TypeKind::String
            | TypeKind::Object
            | TypeKind::Class(_)
            | TypeKind::Interface(_)
            | TypeKind::Delegate(_)
            | TypeKind::Generic(_) => false,
            TypeKind::Struct(name) => name.def.blittable,
            _ => true,
        }
    }

    /// The definitions that a type of this kind refers to.
    pub fn dependencies(&self) -> (r: Vec<TypeDef>)
        ensures
            r@ == self@.dependencies(),
    {
        let mut r: Vec<TypeDef> = Vec::new();
        match self {
            TypeKind::Class(name)
            | TypeKind::Interface(name)
            | TypeKind::Enum(name)
            | TypeKind::Struct(name)
            | TypeKind::Delegate(name) => {
                r.push(name.def);
            },
            _ => {},
        }
        r
    }

    /// Tells whether this is a delegate that is no Windows Runtime type.
    pub fn is_native_callback(&self) -> (r: bool)
        ensures
            r == self@.is_native_callback(),
    {
        match self {
            TypeKind::Delegate(name) => !name.def.winrt,
            _ => false,
        }
    }
}

/// A field's declared type, resolved.
#[derive(Debug, PartialEq, Eq)]
pub struct Type {
    pub kind: TypeKind,
    /// How many levels of pointer stand between the field and the kind.
    pub pointers: usize,
    /// The length, where the field is a fixed-size array of the kind.
    pub array: Option<u32>,
    pub by_ref: bool,
    pub is_const: bool,
    pub is_array: bool,
    pub is_input: bool,
    pub name: String,
}

/// What a [`Type`] stands for.
pub struct TypeView {
    pub kind: TypeKindView,
    pub pointers: usize,
    pub array: Option<u32>,
    pub by_ref: bool,
    pub is_const: bool,
    pub is_array: bool,
    pub is_input: bool,
    pub name: Seq<char>,
}

impl TypeView {
    /// The type of the single byte that stands in for the storage of a type
    /// without fields.
    pub open spec fn reserved_byte() -> TypeView {
        TypeView {
            kind: TypeKindView::U8,
            pointers: 0,
            array: None,
            by_ref: false,
            is_const: false,
            is_array: false,
            is_input: false,
            name: Seq::<char>::empty(),
        }
    }

    /// This type with its kind replaced.
    pub open spec fn with_kind(self, kind: TypeKindView) -> TypeView {
        TypeView { kind, ..self }
    }

    /// This type as it is stored in a model: a delegate is held directly,
    /// whatever depth of pointer the metadata records for it.
    pub open spec fn normalized(self) -> TypeView {
        if self.kind is Delegate {
            TypeView { pointers: 0, ..self }
        } else {
            self
        }
    }
}

impl View for Type {
    type V = TypeView;

    open spec fn view(&self) -> TypeView {
        TypeView {
            kind: self.kind@,
            pointers: self.pointers,
            array: self.array,
            by_ref: self.by_ref,
            is_const: self.is_const,
            is_array: self.is_array,
            is_input: self.is_input,
            name: self.name@,
        }
    }
}

impl Clone for Type {
    fn clone(&self) -> (r: Self)
        ensures
            r@ == self@,
    {
        Type {
            kind: self.kind.clone(),
            pointers: self.pointers,
            array: self.array,
            by_ref: self.by_ref,
            is_const: self.is_const,
            is_array: self.is_array,
            is_input: self.is_input,
            name: self.name.clone(),
        }
    }
}

impl Type {
    /// The type of the single byte that stands in for the storage of a type
    /// without fields.
    pub fn reserved_byte() -> (r: Type)
        ensures
            r@ == TypeView::reserved_byte(),
    {
        Type {
            kind: TypeKind::U8,
            pointers: 0,
            array: None,
            by_ref: false,
            is_const: false,
            is_array: false,
            is_input: false,
            name: String::new(),
        }
    }
}

/// The value of a literal field, under the type it is declared with.
/// Floating-point values are held as their bit patterns.
#[derive(Clone, Copy, Debug, PartialEq, Eq, Structural)]
pub enum ConstantValue {
    Bool(bool),
    I8(i8),
    U8(u8),
    I16(i16),
    U16(u16),
    I32(i32),
    U32(u32),
    I64(i64),
    U64(u64),
    Single(u32),
    Double(u64),
}

} // verus!
