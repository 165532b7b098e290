use struct_gen::emit::{Access, Comparison, DebugField, Declaration, EmissionShape};
use struct_gen::model::Struct;
use struct_gen::record::{FieldRecord, NestedRecord, TypeRecord};
use struct_gen::types::{ConstantValue, Type, TypeDef, TypeGuid, TypeKind, TypeName};

fn def(row: u32) -> TypeDef {
    TypeDef { file: 0, row, flags: 0x0010_0109, winrt: false, blittable: true }
}

fn name(text: &str, def: TypeDef) -> TypeName {
    TypeName { namespace: "Windows.Win32".to_string(), name: text.to_string(), def }
}

fn plain(kind: TypeKind) -> Type {
    Type {
        kind,
        pointers: 0,
        array: None,
        by_ref: false,
        is_const: false,
        is_array: false,
        is_input: false,
        name: String::new(),
    }
}

fn typed(text: &str, ty: Type) -> FieldRecord {
    FieldRecord { name: text.to_string(), flags: 0x0006, constant: None, ty }
}

fn field(text: &str, kind: TypeKind) -> FieldRecord {
    typed(text, plain(kind))
}

fn literal(text: &str, value: Option<ConstantValue>) -> FieldRecord {
    FieldRecord { name: text.to_string(), flags: 0x8056, constant: value, ty: plain(TypeKind::I32) }
}

fn record(fields: Vec<FieldRecord>) -> TypeRecord {
    TypeRecord {
        native_typedef: false,
        guid: TypeGuid::default(),
        signature: String::new(),
        fields,
        nested: Vec::new(),
    }
}

fn member(def: TypeDef, text: &str, record: TypeRecord) -> NestedRecord {
    NestedRecord { def, name: text.to_string(), record }
}

fn named(id: &str) -> Access {
    Access::Named(id.to_string())
}

fn at(literal: &str) -> Access {
    Access::Positional(literal.to_string())
}

#[test]
fn declaring_twice_gives_the_same_declaration() {
    let mut rec = record(vec![field("A", TypeKind::I32), field("B", TypeKind::String)]);
    rec.native_typedef = true;
    let model = Struct::from_type_name(name("PAIR", def(1)), &rec);
    assert_eq!(model.gen(), model.gen());
}

#[test]
fn identity_hides_fields_constants_and_members() {
    let mut rec = record(vec![
        field("A", TypeKind::I32),
        literal("C", Some(ConstantValue::U8(1))),
    ]);
    rec.guid = TypeGuid { value: 0x1234 };
    let explicit = TypeDef { flags: 0x0010_0111, ..def(3) };
    rec.nested.push(member(explicit, "_u", record(vec![field("X", TypeKind::U8)])));
    let shown = TypeDef { flags: 0x0010_0111, ..def(2) };
    let model = Struct::from_type_name(name("IID_Thing", shown), &rec);
    assert_eq!(model.nested.len(), 1);
    assert_eq!(model.constants.len(), 1);
    assert_eq!(
        model.gen(),
        Declaration::Constant { name: name("IID_Thing", shown), guid: TypeGuid { value: 0x1234 } }
    );
}

#[test]
fn union_among_the_members_leaves_a_plain_aggregate() {
    let explicit = TypeDef { flags: 0x0010_0111, ..def(5) };
    let mut rec = record(vec![
        field("Tag", TypeKind::U32),
        literal("NONE", Some(ConstantValue::U32(0))),
    ]);
    rec.nested.push(member(explicit, "_u", record(vec![field("X", TypeKind::U8)])));
    let model = Struct::from_type_name(name("VARIANT", def(4)), &rec);
    assert!(model.holds_union());
    assert_eq!(model.shape(), EmissionShape::PlainNoDerive);
    match model.gen() {
        Declaration::Plain { body, constants, nested } => {
            assert_eq!(body.members.len(), 1);
            assert_eq!(body.members[0].0, "tag");
            assert_eq!(constants, vec![("NONE".to_string(), ConstantValue::U32(0))]);
            assert_eq!(nested.len(), 1);
            match &nested[0] {
                Declaration::Union { body, nested } => {
                    assert_eq!(body.name, name("VARIANT_0", explicit));
                    assert_eq!(body.members.len(), 1);
                    assert!(nested.is_empty());
                }
                other => panic!("unexpected declaration {:?}", other),
            }
        }
        other => panic!("unexpected declaration {:?}", other),
    }
}

#[test]
fn union_two_levels_down_still_suppresses_derivation() {
    let explicit = TypeDef { flags: 0x0010_0111, ..def(8) };
    let mut middle = record(vec![field("M", TypeKind::U8)]);
    middle.nested.push(member(explicit, "_deep", record(vec![field("D", TypeKind::U8)])));
    let mut rec = record(vec![field("T", TypeKind::U8)]);
    rec.nested.push(member(def(7), "_middle", middle));
    let model = Struct::from_type_name(name("TOP", def(6)), &rec);
    assert!(model.holds_union());
    assert!(model.nested[0].1.holds_union());
    assert_eq!(model.shape(), EmissionShape::PlainNoDerive);
    match model.gen() {
        Declaration::Plain { nested, .. } => match &nested[0] {
            Declaration::Plain { nested, .. } => {
                assert!(matches!(nested[0], Declaration::Union { .. }));
            }
            other => panic!("unexpected declaration {:?}", other),
        },
        other => panic!("unexpected declaration {:?}", other),
    }
}

#[test]
fn members_without_unions_are_declared_in_full() {
    let mut rec = record(vec![field("T", TypeKind::U8)]);
    rec.nested.push(member(def(11), "_b", record(vec![field("B", TypeKind::U8)])));
    rec.nested.push(member(def(12), "_a", record(vec![field("A", TypeKind::U8)])));
    let model = Struct::from_type_name(name("HOST", def(10)), &rec);
    assert!(!model.holds_union());
    match model.gen() {
        Declaration::Full { nested, .. } => {
            assert_eq!(nested.len(), 2);
            match (&nested[0], &nested[1]) {
                (Declaration::Full { body: first, .. }, Declaration::Full { body: second, .. }) => {
                    assert_eq!(first.name.name, "HOST_1");
                    assert_eq!(second.name.name, "HOST_0");
                }
                other => panic!("unexpected declarations {:?}", other),
            }
        }
        other => panic!("unexpected declaration {:?}", other),
    }
}

#[test]
fn copy_mark_needs_every_field_blittable() {
    let every = record(vec![field("A", TypeKind::I32), field("B", TypeKind::Double)]);
    match Struct::from_type_name(name("ALL", def(20)), &every).gen() {
        Declaration::Full { derived, .. } => assert!(derived.copy),
        other => panic!("unexpected declaration {:?}", other),
    }
    let one_not = record(vec![field("A", TypeKind::I32), field("B", TypeKind::String)]);
    match Struct::from_type_name(name("ONE", def(21)), &one_not).gen() {
        Declaration::Full { derived, .. } => assert!(!derived.copy),
        other => panic!("unexpected declaration {:?}", other),
    }
}

#[test]
fn blittable_kinds() {
    assert!(TypeKind::Bool.is_blittable());
    assert!(TypeKind::Char.is_blittable());
    assert!(TypeKind::U64.is_blittable());
    assert!(TypeKind::Single.is_blittable());
    assert!(TypeKind::Guid.is_blittable());
    assert!(TypeKind::Enum(name("E", def(30))).is_blittable());
    assert!(TypeKind::Struct(name("S", def(31))).is_blittable());
    let owning = TypeDef { blittable: false, ..def(32) };
    assert!(!TypeKind::Struct(name("S", owning)).is_blittable());
    assert!(!TypeKind::String.is_blittable());
    assert!(!TypeKind::Object.is_blittable());
    assert!(!TypeKind::Class(name("C", def(33))).is_blittable());
    assert!(!TypeKind::Interface(name("I", def(34))).is_blittable());
    assert!(!TypeKind::Delegate(name("D", def(35))).is_blittable());
    assert!(!TypeKind::Generic("T".to_string()).is_blittable());
}

#[test]
fn kinds_that_refer_to_definitions() {
    assert_eq!(TypeKind::Class(name("C", def(33))).dependencies(), vec![def(33)]);
    assert_eq!(TypeKind::Delegate(name("D", def(35))).dependencies(), vec![def(35)]);
    assert!(TypeKind::U8.dependencies().is_empty());
    assert!(TypeKind::Generic("T".to_string()).dependencies().is_empty());
}

#[test]
fn bare_function_pointer_is_compared_by_address_and_not_listed() {
    let bare = name("WNDPROC", def(40));
    let runtime = name("Handler", TypeDef { winrt: true, ..def(41) });
    assert!(TypeKind::Delegate(bare.clone()).is_native_callback());
    assert!(!TypeKind::Delegate(runtime.clone()).is_native_callback());
    assert!(!TypeKind::Struct(bare.clone()).is_native_callback());
    let rec = record(vec![
        field("Size", TypeKind::U32),
        field("Proc", TypeKind::Delegate(bare)),
        field("Handler", TypeKind::Delegate(runtime)),
    ]);
    match Struct::from_type_name(name("CLASS", def(42)), &rec).gen() {
        Declaration::Full { derived, .. } => {
            assert_eq!(
                derived.debug,
                vec![
                    DebugField { label: "size".to_string(), access: named("size") },
                    DebugField { label: "handler".to_string(), access: named("handler") },
                ]
            );
            assert_eq!(
                derived.equality,
                vec![
                    Comparison { access: named("size"), by_address: false },
                    Comparison { access: named("proc"), by_address: true },
                    Comparison { access: named("handler"), by_address: false },
                ]
            );
            assert!(!derived.copy);
        }
        other => panic!("unexpected declaration {:?}", other),
    }
}

#[test]
fn transparent_wrapper_reaches_fields_by_position() {
    let mut fields = Vec::new();
    for i in 0..11 {
        fields.push(field(&format!("F{}", i), TypeKind::U8));
    }
    let mut rec = record(fields);
    rec.native_typedef = true;
    match Struct::from_type_name(name("WIDE", def(50)), &rec).gen() {
        Declaration::Full { body, derived, .. } => {
            assert!(body.positional);
            assert_eq!(body.members.len(), 11);
            assert_eq!(derived.debug[0], DebugField { label: "f0".to_string(), access: at("0") });
            assert_eq!(derived.debug[9], DebugField { label: "f9".to_string(), access: at("9") });
            assert_eq!(derived.debug[10], DebugField { label: "f10".to_string(), access: at("10") });
            assert_eq!(derived.equality[0], Comparison { access: at("0"), by_address: false });
            assert_eq!(derived.equality[10], Comparison { access: at("10"), by_address: false });
        }
        other => panic!("unexpected declaration {:?}", other),
    }
}

#[test]
fn bare_function_pointer_in_a_wrapper_is_reached_by_position() {
    let mut rec = record(vec![field("Proc", TypeKind::Delegate(name("PROC", def(60))))]);
    rec.native_typedef = true;
    match Struct::from_type_name(name("HOOK", def(61)), &rec).gen() {
        Declaration::Full { derived, .. } => {
            assert!(derived.debug.is_empty());
            assert_eq!(derived.equality, vec![Comparison { access: at("0"), by_address: true }]);
        }
        other => panic!("unexpected declaration {:?}", other),
    }
}

#[test]
fn signature_becomes_a_byte_string_literal() {
    let mut rec = record(vec![field("X", TypeKind::Single), field("Y", TypeKind::Single)]);
    rec.signature = "struct(Windows.Foundation.Point;f4;f4)".to_string();
    let winrt = TypeDef { winrt: true, ..def(70) };
    match Struct::from_type_name(name("Point", winrt), &rec).gen() {
        Declaration::Full { derived, .. } => {
            assert_eq!(
                derived.runtime_type,
                Some("b\"struct(Windows.Foundation.Point;f4;f4)\"".to_string())
            );
        }
        other => panic!("unexpected declaration {:?}", other),
    }
    match Struct::from_type_name(name("Point", def(70)), &rec).gen() {
        Declaration::Full { derived, .. } => assert_eq!(derived.runtime_type, None),
        other => panic!("unexpected declaration {:?}", other),
    }
}

#[test]
fn explicit_layout_is_one_bit_of_the_flags() {
    let with = |flags: u32| TypeDef { flags, ..def(90) };
    assert!(with(0x10).is_explicit());
    assert!(with(0x0010_0111).is_explicit());
    assert!(with(0xffff_ffff).is_explicit());
    assert!(!with(0).is_explicit());
    assert!(!with(0x08).is_explicit());
    assert!(!with(0x0010_0109).is_explicit());
    assert!(!with(0xffff_ffef).is_explicit());
}

#[test]
fn union_with_blittable_fields_carries_no_copy_mark() {
    let rec = record(vec![field("A", TypeKind::I32), field("B", TypeKind::I32)]);
    let explicit = TypeDef { flags: 0x0010_0111, ..def(80) };
    let model = Struct::from_type_name(name("U", explicit), &rec);
    assert!(matches!(model.gen(), Declaration::Union { .. }));
}

#[test]
fn model_put_together_by_hand_is_declared_as_it_stands() {
    let model = Struct {
        name: name("BARE", def(95)),
        fields: Vec::new(),
        constants: vec![("K".to_string(), ConstantValue::I8(-1))],
        signature: String::new(),
        is_typedef: false,
        guid: TypeGuid::default(),
        nested: Vec::new(),
    };
    match model.gen() {
        Declaration::Full { body, constants, derived, nested } => {
            assert!(body.members.is_empty());
            assert_eq!(constants, vec![("K".to_string(), ConstantValue::I8(-1))]);
            assert!(derived.debug.is_empty());
            assert!(derived.equality.is_empty());
            assert!(derived.copy);
            assert_eq!(derived.shadow, "BARE_abi");
            assert!(nested.is_empty());
        }
        other => panic!("unexpected declaration {:?}", other),
    }
    assert!(model.dependencies().is_empty());
}
