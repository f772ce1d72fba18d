use swift_bridge_ir::model::{
    BridgedEntity, BridgedFn, BridgedType, ElementType, FieldName, FnParam, Owner, Receiver,
    ReceiverForm, ReceiverMode, Scalar, StructField, SwiftBridgeModule,
};
use swift_bridge_ir::ordering::str_lt;
use swift_bridge_ir::text::decimal_text;

fn scalar(s: Scalar) -> BridgedType {
    BridgedType::Plain(ElementType::Scalar(s))
}

fn slice_of(s: Scalar) -> BridgedType {
    BridgedType::RefSlice(ElementType::Scalar(s))
}

fn param(name: &str, ty: BridgedType) -> FnParam {
    FnParam { name: name.to_string(), ty }
}

fn native_fn(name: &str, params: Vec<FnParam>, ret: Option<BridgedType>) -> BridgedFn {
    BridgedFn { name: name.to_string(), receiver: None, params, ret, owner: Owner::Native }
}

fn rust_only_module() -> SwiftBridgeModule {
    SwiftBridgeModule {
        types: vec![
            BridgedEntity::Opaque { name: "Handle".to_string(), owner: Owner::Native },
            BridgedEntity::Value {
                display_name: "Point".to_string(),
                fields: vec![
                    StructField { name: FieldName::Named("x".to_string()), ty: scalar(Scalar::F64) },
                    StructField { name: FieldName::Positional, ty: scalar(Scalar::Bool) },
                ],
            },
        ],
        functions: vec![
            native_fn("bytes", vec![], Some(slice_of(Scalar::U8))),
            native_fn("flags", vec![], Some(slice_of(Scalar::Bool))),
            native_fn("count", vec![param("n", scalar(Scalar::Usize))], Some(scalar(Scalar::I64))),
        ],
    }
}

#[test]
fn empty_module_is_notice_line() {
    let m = SwiftBridgeModule { types: vec![], functions: vec![] };
    assert_eq!(m.generate_c_header(), "// File automatically generated by swift-bridge.\n");
}

#[test]
fn swift_only_module_is_notice_line() {
    let m = SwiftBridgeModule {
        types: vec![
            BridgedEntity::Opaque { name: "A".to_string(), owner: Owner::Foreign },
            BridgedEntity::Opaque { name: "B".to_string(), owner: Owner::Foreign },
        ],
        functions: vec![BridgedFn {
            name: "call".to_string(),
            receiver: Some(Receiver {
                entity: "A".to_string(),
                mode: ReceiverMode::ByRef,
                form: ReceiverForm::Bare,
            }),
            params: vec![param("x", scalar(Scalar::U32))],
            ret: Some(slice_of(Scalar::U8)),
            owner: Owner::Foreign,
        }],
    };
    assert_eq!(m.generate_c_header(), "// File automatically generated by swift-bridge.\n");
}

#[test]
fn shared_std_header_listed_once() {
    let m = SwiftBridgeModule {
        types: vec![],
        functions: vec![
            native_fn("a", vec![param("x", scalar(Scalar::U32))], None),
            native_fn("b", vec![], Some(scalar(Scalar::I16))),
        ],
    };
    let header = m.generate_c_header();
    assert_eq!(header.matches("#include <stdint.h>").count(), 1);
    assert_eq!(
        m.generate_c_header_inner(),
        "#include <stdint.h>\nvoid __swift_bridge__$a(uint32_t x);\nint16_t __swift_bridge__$b(void);\n"
    );
}

#[test]
fn std_headers_and_wrappers_in_ascending_order() {
    let expected = "#include <stdbool.h>\n\
#include <stdint.h>\n\
typedef struct FfiSlice_bool { bool* start; uintptr_t len; } FfiSlice_bool;\n\
typedef struct FfiSlice_uint8_t { uint8_t* start; uintptr_t len; } FfiSlice_uint8_t;\n\
typedef struct Handle Handle;\n\
void __swift_bridge__$Handle$_free(void* self);\n\
typedef struct Point { double x; bool _1; } Point;\n\
FfiSlice_uint8_t __swift_bridge__$bytes(void);\n\
FfiSlice_bool __swift_bridge__$flags(void);\n\
int64_t __swift_bridge__$count(uintptr_t n);\n";
    assert_eq!(rust_only_module().generate_c_header_inner(), expected);
}

#[test]
fn generating_twice_gives_same_text() {
    let m = rust_only_module();
    let first = m.generate_c_header();
    let second = m.generate_c_header();
    assert_eq!(first, second);
    assert_eq!(first, rust_only_module().generate_c_header());
}

#[test]
fn wrapper_order_does_not_follow_discovery() {
    let forward = SwiftBridgeModule {
        types: vec![],
        functions: vec![
            native_fn("f", vec![], Some(slice_of(Scalar::U8))),
            native_fn("g", vec![], Some(slice_of(Scalar::I32))),
        ],
    };
    let backward = SwiftBridgeModule {
        types: vec![],
        functions: vec![
            native_fn("g", vec![], Some(slice_of(Scalar::I32))),
            native_fn("f", vec![], Some(slice_of(Scalar::U8))),
        ],
    };
    let a = forward.generate_c_header_inner();
    let b = backward.generate_c_header_inner();
    let preamble = "#include <stdint.h>\n\
typedef struct FfiSlice_int32_t { int32_t* start; uintptr_t len; } FfiSlice_int32_t;\n\
typedef struct FfiSlice_uint8_t { uint8_t* start; uintptr_t len; } FfiSlice_uint8_t;\n";
    assert!(a.starts_with(preamble));
    assert!(b.starts_with(preamble));
}

#[test]
fn unnamed_fields_numbered_by_absolute_position() {
    let mut fields = vec![];
    for i in 0..12 {
        if i % 2 == 0 {
            fields.push(StructField { name: FieldName::Named(format!("f{}", i)), ty: scalar(Scalar::I8) });
        } else {
            fields.push(StructField { name: FieldName::Positional, ty: scalar(Scalar::I8) });
        }
    }
    let m = SwiftBridgeModule {
        types: vec![BridgedEntity::Value { display_name: "Wide".to_string(), fields }],
        functions: vec![],
    };
    assert_eq!(
        m.generate_c_header_inner(),
        "#include <stdint.h>\ntypedef struct Wide { int8_t f0; int8_t _1; int8_t f2; int8_t _3; \
int8_t f4; int8_t _5; int8_t f6; int8_t _7; int8_t f8; int8_t _9; int8_t f10; int8_t _11; } Wide;\n"
    );
}

#[test]
fn float_fields_need_no_std_header() {
    let m = SwiftBridgeModule {
        types: vec![BridgedEntity::Value {
            display_name: "V".to_string(),
            fields: vec![
                StructField { name: FieldName::Named("a".to_string()), ty: scalar(Scalar::F32) },
                StructField { name: FieldName::Named("b".to_string()), ty: scalar(Scalar::F64) },
            ],
        }],
        functions: vec![],
    };
    assert_eq!(m.generate_c_header_inner(), "typedef struct V { float a; double b; } V;\n");
}

#[test]
fn every_scalar_spelling() {
    let kinds = [
        (Scalar::U8, "uint8_t"),
        (Scalar::I8, "int8_t"),
        (Scalar::U16, "uint16_t"),
        (Scalar::I16, "int16_t"),
        (Scalar::U32, "uint32_t"),
        (Scalar::I32, "int32_t"),
        (Scalar::U64, "uint64_t"),
        (Scalar::I64, "int64_t"),
        (Scalar::Usize, "uintptr_t"),
        (Scalar::Isize, "intptr_t"),
        (Scalar::F32, "float"),
        (Scalar::F64, "double"),
        (Scalar::Bool, "bool"),
    ];
    for (kind, c) in kinds {
        let m = SwiftBridgeModule { types: vec![], functions: vec![native_fn("f", vec![], Some(scalar(kind)))] };
        let text = m.generate_c_header_inner();
        assert!(text.ends_with(&format!("{} __swift_bridge__$f(void);\n", c)), "{}", text);
    }
}

#[test]
fn methods_with_every_receiver_share_one_shape() {
    let modes = [ReceiverMode::ByValue, ReceiverMode::ByRef, ReceiverMode::ByMutRef];
    let forms = [ReceiverForm::Bare, ReceiverForm::Typed];
    let mut functions = vec![];
    for mode in modes {
        for form in forms {
            functions.push(BridgedFn {
                name: "m".to_string(),
                receiver: Some(Receiver { entity: "H".to_string(), mode, form }),
                params: vec![param("v", scalar(Scalar::U16))],
                ret: Some(scalar(Scalar::Bool)),
                owner: Owner::Native,
            });
        }
    }
    let m = SwiftBridgeModule { types: vec![], functions };
    let line = "bool __swift_bridge__$H$m(void* self, uint16_t v);\n";
    assert_eq!(
        m.generate_c_header_inner(),
        format!("#include <stdbool.h>\n#include <stdint.h>\n{}", line.repeat(6))
    );
}

#[test]
fn foreign_items_left_out_among_native_ones() {
    let m = SwiftBridgeModule {
        types: vec![
            BridgedEntity::Opaque { name: "Swifty".to_string(), owner: Owner::Foreign },
            BridgedEntity::Opaque { name: "Rusty".to_string(), owner: Owner::Native },
        ],
        functions: vec![
            BridgedFn {
                name: "from_swift".to_string(),
                receiver: None,
                params: vec![param("a", scalar(Scalar::U8))],
                ret: None,
                owner: Owner::Foreign,
            },
            native_fn(
                "take",
                vec![
                    param("h", BridgedType::Plain(ElementType::Opaque("Rusty".to_string()))),
                    param("f", scalar(Scalar::F32)),
                ],
                None,
            ),
        ],
    };
    assert_eq!(
        m.generate_c_header_inner(),
        "typedef struct Rusty Rusty;\nvoid __swift_bridge__$Rusty$_free(void* self);\n\
void __swift_bridge__$take(void* h, float f);\n"
    );
}

#[test]
fn slice_parameter_asks_for_wrapper() {
    let m = SwiftBridgeModule {
        types: vec![],
        functions: vec![native_fn(
            "sum",
            vec![param("xs", BridgedType::RefSlice(ElementType::Value("Point".to_string())))],
            None,
        )],
    };
    assert_eq!(
        m.generate_c_header_inner(),
        "typedef struct FfiSlice_Point { Point* start; uintptr_t len; } FfiSlice_Point;\n\
void __swift_bridge__$sum(FfiSlice_Point xs);\n"
    );
}

#[test]
fn decimal_numerals() {
    assert_eq!(decimal_text(0), "0");
    assert_eq!(decimal_text(7), "7");
    assert_eq!(decimal_text(10), "10");
    assert_eq!(decimal_text(1203), "1203");
    assert_eq!(decimal_text(usize::MAX), usize::MAX.to_string());
}

#[test]
fn lexicographic_comparison() {
    assert!(str_lt("stdbool.h", "stdint.h"));
    assert!(!str_lt("stdint.h", "stdbool.h"));
    assert!(str_lt("int", "int32_t"));
    assert!(!str_lt("same", "same"));
    assert!(str_lt("", "a"));
    assert!(!str_lt("b", "a"));
}
