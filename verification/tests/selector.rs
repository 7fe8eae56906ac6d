use fn_typecheck::diagnostics::{CompileError, Handler};
use fn_typecheck::namespace::{Purity, Visibility};
use fn_typecheck::parsed::Ident;
use fn_typecheck::span::Span;
use fn_typecheck::text::u64_to_dec;
use fn_typecheck::ty::{TyCodeBlock, TyFunctionDecl, TyFunctionParameter};
use fn_typecheck::type_system::{IntegerBits, TypeArgument, TypeEngine, TypeId, TypeInfo};

fn ident(text: &str) -> Ident {
    Ident { text: text.to_string(), span: Span::dummy() }
}

fn param(name: &str, type_argument: TypeArgument) -> TyFunctionParameter {
    TyFunctionParameter {
        name: ident(name),
        is_reference: false,
        is_mutable: false,
        mutability_span: Span::dummy(),
        type_argument,
    }
}

fn decl(name: &str, parameters: Vec<TyFunctionParameter>) -> TyFunctionDecl {
    TyFunctionDecl {
        purity: Purity::Pure,
        name: ident(name),
        implementing_type: None,
        body: TyCodeBlock { contents: vec![] },
        parameters,
        span: Span::dummy(),
        return_type: TypeArgument::from_id(TypeId { index: 0 }, Span::dummy()),
        type_parameters: vec![],
        visibility: Visibility::Public,
        is_contract_call: false,
    }
}

#[test]
fn test_function_selector_behavior() {
    let mut engine = TypeEngine::new();
    let mut handler = Handler::new();

    let no_param_decl = decl("foo", vec![]);
    let selector_text = no_param_decl.to_selector_name(&mut handler, &engine).expect("test failure");
    assert_eq!(selector_text, "foo()".to_string());

    let str5 = engine.insert(TypeInfo::Str(5));
    let u32_id = engine.insert(TypeInfo::UnsignedInteger(IntegerBits::ThirtyTwo));
    let str5_initial = engine.insert(TypeInfo::Str(5));
    let two_param_decl = decl(
        "bar",
        vec![
            param("foo", TypeArgument::from_id(str5, Span::dummy())),
            param(
                "baz",
                TypeArgument {
                    type_id: u32_id,
                    initial_type_id: str5_initial,
                    span: Span::dummy(),
                },
            ),
        ],
    );
    let selector_text = two_param_decl.to_selector_name(&mut handler, &engine).expect("test failure");
    assert_eq!(selector_text, "bar(str[5],u32)".to_string());
}

#[test]
fn selector_uses_resolved_type_never_initial() {
    // The second parameter's surface syntax said str[5]; resolution decided
    // u32. Only the resolved identifier may show in the selector.
    let mut engine = TypeEngine::new();
    let mut handler = Handler::new();
    let initial = engine.insert(TypeInfo::Str(5));
    let resolved = engine.insert(TypeInfo::UnsignedInteger(IntegerBits::ThirtyTwo));
    let d = decl(
        "f",
        vec![param(
            "p",
            TypeArgument { type_id: resolved, initial_type_id: initial, span: Span::dummy() },
        )],
    );
    let s = d.to_selector_name(&mut handler, &engine).expect("selector");
    assert_eq!(s, "f(u32)");
    assert!(!s.contains("str[5]"));
}

#[test]
fn selector_encodes_composites() {
    let mut engine = TypeEngine::new();
    let mut handler = Handler::new();
    let u8_id = engine.insert(TypeInfo::UnsignedInteger(IntegerBits::Eight));
    let bool_id = engine.insert(TypeInfo::Boolean);
    let tuple_id = engine.insert(TypeInfo::Tuple(vec![u8_id, bool_id]));
    let u64_id = engine.insert(TypeInfo::UnsignedInteger(IntegerBits::SixtyFour));
    let array_id = engine.insert(TypeInfo::Array(u64_id, 3));
    let struct_id = engine.insert(TypeInfo::Struct {
        name: "Pair".to_string(),
        fields: vec![u8_id, u64_id],
    });
    let enum_id = engine.insert(TypeInfo::Enum {
        name: "Choice".to_string(),
        variants: vec![bool_id],
    });
    let d = decl(
        "g",
        vec![
            param("a", TypeArgument::from_id(tuple_id, Span::dummy())),
            param("b", TypeArgument::from_id(array_id, Span::dummy())),
            param("c", TypeArgument::from_id(struct_id, Span::dummy())),
            param("d", TypeArgument::from_id(enum_id, Span::dummy())),
        ],
    );
    let s = d.to_selector_name(&mut handler, &engine).expect("selector");
    assert_eq!(s, "g((u8,bool),a[u64;3],s(u8,u64),e(bool))");
}

#[test]
fn selector_reports_error_recovery_as_error() {
    let mut engine = TypeEngine::new();
    let mut handler = Handler::new();
    let bad = engine.insert(TypeInfo::ErrorRecovery);
    let d = decl("h", vec![param("p", TypeArgument::from_id(bad, Span::dummy()))]);
    let r = d.to_selector_name(&mut handler, &engine);
    assert!(r.is_err());
    assert_eq!(handler.errors.len(), 1);
    assert!(matches!(handler.errors[0], CompileError::TypeNotAllowedInSelector { .. }));
}

#[test]
fn decimal_rendering_is_exact() {
    assert_eq!(u64_to_dec(0), "0");
    assert_eq!(u64_to_dec(7), "7");
    assert_eq!(u64_to_dec(42), "42");
    assert_eq!(u64_to_dec(1234567890), "1234567890");
    assert_eq!(u64_to_dec(u64::MAX), "18446744073709551615");
}
