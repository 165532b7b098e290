use struct_gen::model::Struct;
use struct_gen::record::{FieldRecord, NestedRecord, TypeRecord};
use struct_gen::types::{ConstantValue, Type, TypeDef, TypeGuid, TypeKind, TypeName};

fn def(row: u32) -> TypeDef {
    TypeDef { file: 0, row, flags: 0x0010_0109, winrt: false, blittable: true }
}

fn name(text: &str, def: TypeDef) -> TypeName {
    TypeName { namespace: "Windows.Win32".to_string(), name: text.to_string(), def }
}

fn plain(kind: TypeKind) -> Type {
    Type {
        kind,
        pointers: 0,
        array: None,
        by_ref: false,
        is_const: false,
        is_array: false,
        is_input: false,
        name: String::new(),
    }
}

fn typed(text: &str, ty: Type) -> FieldRecord {
    FieldRecord { name: text.to_string(), flags: 0x0006, constant: None, ty }
}

fn field(text: &str, kind: TypeKind) -> FieldRecord {
    typed(text, plain(kind))
}

fn literal(text: &str, value: Option<ConstantValue>) -> FieldRecord {
    FieldRecord { name: text.to_string(), flags: 0x8056, constant: value, ty: plain(TypeKind::I32) }
}

fn record(fields: Vec<FieldRecord>) -> TypeRecord {
    TypeRecord {
        native_typedef: false,
        guid: TypeGuid::default(),
        signature: String::new(),
        fields,
        nested: Vec::new(),
    }
}

fn member(row: u32, text: &str, record: TypeRecord) -> NestedRecord {
    NestedRecord { def: def(row), name: text.to_string(), record }
}

fn identifiers(model: &Struct) -> Vec<&str> {
    model.fields.iter().map(|f| f.0.as_str()).collect()
}

#[test]
fn building_twice_gives_the_same_model() {
    let build = || {
        let mut rec = record(vec![
            field("cbSize", TypeKind::U32),
            literal("MAX", Some(ConstantValue::I32(7))),
            field("CbSize", TypeKind::U32),
        ]);
        rec.nested.push(member(20, "_Anonymous_e__Union", record(vec![field("X", TypeKind::I8)])));
        Struct::from_type_name(name("HEADER", def(10)), &rec)
    };
    let first = build();
    let second = build();
    assert_eq!(first, second);
    assert_eq!(first.gen(), second.gen());
    assert_eq!(first.dependencies(), second.dependencies());
}

#[test]
fn identifiers_are_pairwise_distinct() {
    let rec = record(vec![
        field("count", TypeKind::U8),
        field("Count", TypeKind::U8),
        field("count2", TypeKind::U8),
        field("COUNT", TypeKind::U8),
        field("Count", TypeKind::U8),
    ]);
    let model = Struct::from_type_name(name("MANY", def(11)), &rec);
    assert_eq!(identifiers(&model), vec!["count", "count2", "count22", "count3", "count4"]);
    for i in 0..model.fields.len() {
        for j in 0..i {
            assert_ne!(model.fields[i].0, model.fields[j].0);
        }
    }
}

#[test]
fn numbering_goes_past_nine() {
    let mut fields = Vec::new();
    for _ in 0..12 {
        fields.push(field("a", TypeKind::U8));
    }
    let model = Struct::from_type_name(name("TWELVE", def(12)), &record(fields));
    assert_eq!(
        identifiers(&model),
        vec!["a", "a2", "a3", "a4", "a5", "a6", "a7", "a8", "a9", "a10", "a11", "a12"]
    );
}

#[test]
fn fields_keep_metadata_order_and_constants_take_no_storage() {
    let rec = record(vec![
        field("Second", TypeKind::U16),
        literal("LIMIT", Some(ConstantValue::U32(64))),
        field("First", TypeKind::U64),
        literal("UNSET", None),
        literal("FLAG", Some(ConstantValue::Bool(true))),
    ]);
    let model = Struct::from_type_name(name("MIXED", def(13)), &rec);
    assert_eq!(identifiers(&model), vec!["second", "first"]);
    assert_eq!(model.fields[0].1, plain(TypeKind::U16));
    assert_eq!(model.fields[1].1, plain(TypeKind::U64));
    assert_eq!(
        model.constants,
        vec![
            ("LIMIT".to_string(), ConstantValue::U32(64)),
            ("FLAG".to_string(), ConstantValue::Bool(true)),
        ]
    );
}

#[test]
fn the_literal_bit_alone_decides_what_a_field_is() {
    let with = |flags: u32, constant: Option<ConstantValue>| FieldRecord {
        name: "F".to_string(),
        flags,
        constant,
        ty: plain(TypeKind::U16),
    };
    let rec = record(vec![
        with(0x0040, Some(ConstantValue::U16(1))),
        with(0x8016, Some(ConstantValue::U16(2))),
        with(0xffbf, None),
        with(0xffff, Some(ConstantValue::U16(3))),
        with(0x0041, None),
        with(0x0000, None),
    ]);
    let model = Struct::from_type_name(name("FLAGS", def(26)), &rec);
    assert_eq!(identifiers(&model), vec!["f", "f2", "f3"]);
    assert_eq!(
        model.constants,
        vec![("F".to_string(), ConstantValue::U16(1)), ("F".to_string(), ConstantValue::U16(3))]
    );
}

#[test]
fn only_literal_fields_still_get_the_reserved_byte() {
    let rec = record(vec![literal("ONE", Some(ConstantValue::I64(1)))]);
    let model = Struct::from_type_name(name("CONSTANTS", def(14)), &rec);
    assert_eq!(identifiers(&model), vec!["reserved"]);
    assert_eq!(model.fields[0].1, Type::reserved_byte());
    assert_eq!(model.constants.len(), 1);
}

#[test]
fn identity_without_fields_is_not_padded() {
    let mut rec = record(Vec::new());
    rec.guid = TypeGuid { value: 1 };
    assert!(rec.guid.present());
    assert!(!TypeGuid::default().present());
    let model = Struct::from_type_name(name("CLSID_Thing", def(15)), &rec);
    assert!(model.fields.is_empty());
    assert_eq!(model.guid, TypeGuid { value: 1 });
}

#[test]
fn delegate_is_held_directly() {
    let callback = name("WNDPROC", def(30));
    let mut declared = plain(TypeKind::Delegate(callback.clone()));
    declared.pointers = 1;
    let mut other = plain(TypeKind::U8);
    other.pointers = 2;
    let rec = record(vec![
        typed("lpfnWndProc", declared),
        typed("pData", other),
    ]);
    let model = Struct::from_type_name(name("WNDCLASS", def(16)), &rec);
    assert_eq!(model.fields[0].0, "lpfn_wnd_proc");
    assert_eq!(model.fields[0].1.kind, TypeKind::Delegate(callback));
    assert_eq!(model.fields[0].1.pointers, 0);
    assert_eq!(model.fields[1].0, "p_data");
    assert_eq!(model.fields[1].1.pointers, 2);
}

#[test]
fn signature_is_kept_for_runtime_types_only() {
    let mut rec = record(vec![field("X", TypeKind::Single)]);
    rec.signature = "struct(Windows.Foundation.Point;f4)".to_string();
    let native = Struct::from_type_name(name("Point", def(17)), &rec);
    assert_eq!(native.signature, "");
    let winrt = TypeDef { winrt: true, ..def(17) };
    let runtime = Struct::from_type_name(name("Point", winrt), &rec);
    assert_eq!(runtime.signature, "struct(Windows.Foundation.Point;f4)");
}

#[test]
fn typedef_marker_is_carried_over() {
    let mut rec = record(vec![field("Value", TypeKind::ISize)]);
    rec.native_typedef = true;
    let model = Struct::from_type_name(name("HWND", def(18)), &rec);
    assert!(model.is_typedef);
    assert!(!Struct::from_type_name(name("X", def(18)), &record(Vec::new())).is_typedef);
}

#[test]
fn members_are_named_by_position_and_filed_by_metadata_name() {
    let mut rec = record(vec![typed(
        "Anonymous",
        plain(TypeKind::Struct(name("_Anonymous_e__Struct", def(41)))),
    )]);
    rec.nested.push(member(40, "_b_e__Union", record(vec![field("U", TypeKind::U8)])));
    rec.nested.push(member(41, "_Anonymous_e__Struct", record(vec![field("S", TypeKind::U8)])));
    rec.nested.push(member(42, "_a_e__Struct", record(Vec::new())));
    assert!(rec.has_generated_names());
    let model = Struct::from_type_name(name("OUTER", def(19)), &rec);
    let keys: Vec<&str> = model.nested.iter().map(|m| m.0.as_str()).collect();
    assert_eq!(keys, vec!["_Anonymous_e__Struct", "_a_e__Struct", "_b_e__Union"]);
    assert_eq!(model.nested[0].1.name, name("OUTER_1", def(41)));
    assert_eq!(model.nested[1].1.name, name("OUTER_2", def(42)));
    assert_eq!(model.nested[2].1.name, name("OUTER_0", def(40)));
    assert_eq!(model.nested[1].1.fields[0].0, "reserved");
    assert_eq!(model.fields[0].0, "anonymous");
    assert_eq!(model.fields[0].1.kind, TypeKind::Struct(name("OUTER_1", def(41))));
}

#[test]
fn member_filed_twice_is_replaced_and_counted_once() {
    let mut rec = record(Vec::new());
    rec.nested.push(member(50, "_u", record(vec![field("First", TypeKind::U8)])));
    rec.nested.push(member(51, "_u", record(vec![field("Second", TypeKind::U8)])));
    rec.nested.push(member(52, "_v", record(Vec::new())));
    let model = Struct::from_type_name(name("P", def(21)), &rec);
    assert_eq!(model.nested.len(), 2);
    assert_eq!(model.nested[0].0, "_u");
    assert_eq!(model.nested[0].1.name, name("P_1", def(51)));
    assert_eq!(model.nested[0].1.fields[0].0, "second");
    assert_eq!(model.nested[1].0, "_v");
    assert_eq!(model.nested[1].1.name, name("P_1", def(52)));
}

#[test]
fn members_of_members_are_named_after_their_parent() {
    let mut inner = record(Vec::new());
    inner.nested.push(member(61, "_deep", record(Vec::new())));
    let mut rec = record(Vec::new());
    rec.nested.push(member(60, "_inner", inner));
    let model = Struct::from_type_name(name("TOP", def(22)), &rec);
    assert_eq!(model.nested[0].1.name.name, "TOP_0");
    assert_eq!(model.nested[0].1.name.namespace, "Windows.Win32");
    assert_eq!(model.nested[0].1.nested[0].1.name.name, "TOP_0_0");
}

#[test]
fn reference_to_an_unknown_structure_is_left_alone() {
    let other = name("RECT", def(70));
    let rec = record(vec![typed("Bounds", plain(TypeKind::Struct(other.clone())))]);
    let model = Struct::from_type_name(name("WINDOW", def(23)), &rec);
    assert_eq!(model.fields[0].1.kind, TypeKind::Struct(other));
}

#[test]
fn names_that_are_not_generated_are_told_apart() {
    let mut good = record(Vec::new());
    good.nested.push(member(80, "_x", record(Vec::new())));
    assert!(good.has_generated_names());

    let mut bad = record(Vec::new());
    bad.nested.push(member(81, "Named", record(Vec::new())));
    assert!(!bad.has_generated_names());

    let mut deep_inner = record(Vec::new());
    deep_inner.nested.push(member(83, "", record(Vec::new())));
    let mut deep = record(Vec::new());
    deep.nested.push(member(82, "_ok", deep_inner));
    assert!(!deep.has_generated_names());
}

#[test]
fn dependencies_follow_fields_then_members() {
    let mut rec = record(vec![
        field("Plain", TypeKind::U32),
        typed("Rect", plain(TypeKind::Struct(name("RECT", def(90))))),
        typed("Proc", plain(TypeKind::Delegate(name("PROC", def(91))))),
        typed("Again", plain(TypeKind::Struct(name("RECT", def(90))))),
    ]);
    rec.nested.push(member(
        95,
        "_z",
        record(vec![typed("Kind", plain(TypeKind::Enum(name("KIND", def(92)))))]),
    ));
    rec.nested.push(member(
        96,
        "_a",
        record(vec![typed("Obj", plain(TypeKind::Interface(name("IThing", def(93)))))]),
    ));
    let model = Struct::from_type_name(name("D", def(24)), &rec);
    assert_eq!(model.dependencies(), vec![def(90), def(91), def(90), def(93), def(92)]);
    assert!(Struct::from_type_name(name("E", def(25)), &record(Vec::new()))
        .dependencies()
        .is_empty());
}
