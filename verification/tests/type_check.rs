use fn_typecheck::diagnostics::{CompileError, Handler, Warning};
use fn_typecheck::function::{classify_visibility, unify_return_statements};
use fn_typecheck::namespace::{AbiMode, Namespace, Purity, TypeCheckContext, Visibility};
use fn_typecheck::parsed::{
    AstNode, AstNodeContent, CodeBlock, Expression, FunctionDeclaration, FunctionParameter, Ident,
    Literal, TypeParameter,
};
use fn_typecheck::span::Span;
use fn_typecheck::ty::{ReturnSite, TyFunctionDecl};
use fn_typecheck::type_system::{IntegerBits, TypeArgument, TypeEngine, TypeId, TypeInfo};

fn ident(text: &str) -> Ident {
    Ident { text: text.to_string(), span: Span::dummy() }
}

fn return_stmt(expr: Expression) -> AstNode {
    AstNode { content: AstNodeContent::ReturnStatement(expr), span: Span::dummy() }
}

fn lit(value: Literal) -> Expression {
    Expression::Literal { value, span: Span::dummy() }
}

fn fn_decl(
    name: &str,
    parameters: Vec<FunctionParameter>,
    type_parameters: Vec<TypeParameter>,
    return_type: TypeId,
    body: Vec<AstNode>,
) -> FunctionDeclaration {
    FunctionDeclaration {
        name: ident(name),
        body: CodeBlock { contents: body },
        parameters,
        span: Span::dummy(),
        return_type: TypeArgument::from_id(return_type, Span::dummy()),
        type_parameters,
        visibility: Visibility::Private,
        purity: Purity::Pure,
    }
}

fn fresh() -> (Handler, TypeCheckContext, TypeEngine) {
    (Handler::new(), TypeCheckContext::new(Namespace::new()), TypeEngine::new())
}

#[test]
fn non_snake_case_name_warns_once_and_check_succeeds() {
    let (mut handler, ctx, mut engine) = fresh();
    let unit = engine.insert(TypeInfo::Boolean);
    let decl = fn_decl("notSnakeCase", vec![], vec![], unit, vec![]);
    let r = TyFunctionDecl::type_check(&mut handler, ctx, &mut engine, decl, false, false);
    assert!(r.is_ok());
    assert_eq!(handler.warnings.len(), 1);
    assert!(matches!(
        handler.warnings[0],
        Warning::NonSnakeCaseFunctionName { .. }
    ));
    assert_eq!(handler.errors.len(), 0);
}

#[test]
fn snake_case_name_warns_nothing() {
    let (mut handler, ctx, mut engine) = fresh();
    let unit = engine.insert(TypeInfo::Boolean);
    let decl = fn_decl("snake_case", vec![], vec![], unit, vec![]);
    let r = TyFunctionDecl::type_check(&mut handler, ctx, &mut engine, decl, false, false);
    assert!(r.is_ok());
    assert_eq!(handler.warnings.len(), 0);
}

#[test]
fn nesting_disallowed_is_a_structural_error() {
    let (mut handler, ctx, mut engine) = fresh();
    let ctx = ctx.disallow_functions();
    let unit = engine.insert(TypeInfo::Boolean);
    let decl = fn_decl("inner", vec![], vec![], unit, vec![]);
    let r = TyFunctionDecl::type_check(&mut handler, ctx, &mut engine, decl, false, false);
    assert!(r.is_err());
    assert_eq!(handler.errors.len(), 1);
    assert!(matches!(
        handler.errors[0],
        CompileError::NestedFunctionsDisallowed { .. }
    ));
}

#[test]
fn duplicate_generic_name_aborts() {
    let (mut handler, ctx, mut engine) = fresh();
    let unit = engine.insert(TypeInfo::Boolean);
    let decl = fn_decl(
        "f",
        vec![],
        vec![TypeParameter { name: ident("T") }, TypeParameter { name: ident("T") }],
        unit,
        vec![],
    );
    let r = TyFunctionDecl::type_check(&mut handler, ctx, &mut engine, decl, false, false);
    assert!(r.is_err());
    assert_eq!(handler.errors.len(), 1);
    assert!(matches!(handler.errors[0], CompileError::DuplicateGenericName { .. }));
}

#[test]
fn one_matching_one_mismatching_return_fails_once_but_visits_both() {
    let (mut handler, ctx, mut engine) = fresh();
    let u32_id = engine.insert(TypeInfo::UnsignedInteger(IntegerBits::ThirtyTwo));
    let body = vec![
        return_stmt(lit(Literal::U32(1))),
        return_stmt(lit(Literal::Boolean(true))),
    ];
    let decl = fn_decl("f", vec![], vec![], u32_id, body);
    let r = TyFunctionDecl::type_check(&mut handler, ctx, &mut engine, decl, false, false);
    assert!(r.is_err());
    // Exactly one unification failure: the matching return costs nothing,
    // the mismatching one is reported.
    assert_eq!(handler.errors.len(), 1);
    assert!(matches!(handler.errors[0], CompileError::TypeMismatch { .. }));
}

#[test]
fn every_mismatching_return_gets_its_own_diagnostic() {
    let (mut handler, ctx, mut engine) = fresh();
    let u32_id = engine.insert(TypeInfo::UnsignedInteger(IntegerBits::ThirtyTwo));
    let body = vec![
        return_stmt(lit(Literal::Boolean(true))),
        return_stmt(lit(Literal::U32(1))),
        return_stmt(lit(Literal::Boolean(false))),
    ];
    let decl = fn_decl("f", vec![], vec![], u32_id, body);
    let r = TyFunctionDecl::type_check(&mut handler, ctx, &mut engine, decl, false, false);
    assert!(r.is_err());
    assert_eq!(handler.errors.len(), 2);
}

#[test]
fn returns_nested_in_blocks_and_branches_are_gathered() {
    let (mut handler, ctx, mut engine) = fresh();
    let u32_id = engine.insert(TypeInfo::UnsignedInteger(IntegerBits::ThirtyTwo));
    let nested = Expression::If {
        condition: Box::new(lit(Literal::Boolean(true))),
        then_block: CodeBlock { contents: vec![return_stmt(lit(Literal::Boolean(false)))] },
        else_block: CodeBlock { contents: vec![return_stmt(lit(Literal::Boolean(true)))] },
        span: Span::dummy(),
    };
    let body = vec![AstNode {
        content: AstNodeContent::Expression(nested),
        span: Span::dummy(),
    }];
    let decl = fn_decl("f", vec![], vec![], u32_id, body);
    let r = TyFunctionDecl::type_check(&mut handler, ctx, &mut engine, decl, false, false);
    assert!(r.is_err());
    // Both nested returns mismatch and both are reported.
    assert_eq!(handler.errors.len(), 2);
}

#[test]
fn method_outside_impl_self_is_forced_public() {
    let (mut handler, ctx, mut engine) = fresh();
    let unit = engine.insert(TypeInfo::Boolean);
    let decl = fn_decl("m", vec![], vec![], unit, vec![]);
    let d = TyFunctionDecl::type_check(&mut handler, ctx, &mut engine, decl, true, false)
        .expect("check");
    assert_eq!(d.visibility, Visibility::Public);
    assert!(!d.is_contract_call);
}

#[test]
fn method_in_impl_self_keeps_declared_visibility() {
    let (mut handler, ctx, mut engine) = fresh();
    let unit = engine.insert(TypeInfo::Boolean);
    let decl = fn_decl("m", vec![], vec![], unit, vec![]);
    let d = TyFunctionDecl::type_check(&mut handler, ctx, &mut engine, decl, true, true)
        .expect("check");
    assert_eq!(d.visibility, Visibility::Private);
    assert!(!d.is_contract_call);
}

#[test]
fn free_function_in_abi_impl_is_contract_callable() {
    let (mut handler, ctx, mut engine) = fresh();
    let ctx = ctx.with_abi_mode(AbiMode::ImplAbiFn);
    let unit = engine.insert(TypeInfo::Boolean);
    let decl = fn_decl("f", vec![], vec![], unit, vec![]);
    let d = TyFunctionDecl::type_check(&mut handler, ctx, &mut engine, decl, false, false)
        .expect("check");
    assert_eq!(d.visibility, Visibility::Private);
    assert!(d.is_contract_call);
}

#[test]
fn classify_decision_table() {
    let table = [
        (Visibility::Private, true, true, AbiMode::NonAbi, Visibility::Private, false),
        (Visibility::Private, true, false, AbiMode::NonAbi, Visibility::Public, false),
        (Visibility::Private, true, false, AbiMode::ImplAbiFn, Visibility::Public, false),
        (Visibility::Private, false, false, AbiMode::ImplAbiFn, Visibility::Private, true),
        (Visibility::Public, false, false, AbiMode::NonAbi, Visibility::Public, false),
    ];
    for (declared, is_method, in_self, abi, want_vis, want_call) in table {
        let got = classify_visibility(declared, is_method, in_self, abi);
        assert_eq!(got.0, want_vis);
        assert_eq!(got.1, want_call);
    }
}

#[test]
fn return_type_resolution_failure_does_not_block_body_checking() {
    let (mut handler, ctx, mut engine) = fresh();
    let missing = engine.insert(TypeInfo::Custom { name: "Missing".to_string() });
    let body = vec![AstNode {
        content: AstNodeContent::Expression(lit(Literal::U8(1))),
        span: Span::dummy(),
    }];
    let decl = fn_decl("f", vec![], vec![], missing, body);
    let d = TyFunctionDecl::type_check(&mut handler, ctx, &mut engine, decl, false, false)
        .expect("degraded, not aborted");
    // The resolution failure was recorded, the body was still checked and
    // kept, and the return type degraded to error recovery.
    assert_eq!(handler.errors.len(), 1);
    assert!(matches!(handler.errors[0], CompileError::UnknownTypeName { .. }));
    assert_eq!(d.body.contents.len(), 1);
    assert!(matches!(engine.get(d.return_type.type_id), TypeInfo::ErrorRecovery));
}

#[test]
fn unresolvable_parameter_type_aborts_after_processing_all_parameters() {
    let (mut handler, ctx, mut engine) = fresh();
    let bad1 = engine.insert(TypeInfo::Custom { name: "NoSuch".to_string() });
    let bad2 = engine.insert(TypeInfo::Custom { name: "AlsoMissing".to_string() });
    let unit = engine.insert(TypeInfo::Boolean);
    let p = |name: &str, id: TypeId| FunctionParameter {
        name: ident(name),
        is_reference: false,
        is_mutable: false,
        mutability_span: Span::dummy(),
        type_argument: TypeArgument::from_id(id, Span::dummy()),
    };
    let decl = fn_decl("f", vec![p("a", bad1), p("b", bad2)], vec![], unit, vec![]);
    let r = TyFunctionDecl::type_check(&mut handler, ctx, &mut engine, decl, false, false);
    assert!(r.is_err());
    // Both failures were recorded before the check was aborted.
    assert_eq!(handler.errors.len(), 2);
}

#[test]
fn parameters_are_bound_and_generics_resolve() {
    let (mut handler, ctx, mut engine) = fresh();
    let t_ref = engine.insert(TypeInfo::Custom { name: "T".to_string() });
    let p = FunctionParameter {
        name: ident("x"),
        is_reference: false,
        is_mutable: false,
        mutability_span: Span::dummy(),
        type_argument: TypeArgument::from_id(t_ref, Span::dummy()),
    };
    let t_ret = engine.insert(TypeInfo::Custom { name: "T".to_string() });
    let body = vec![return_stmt(Expression::Variable { name: ident("x") })];
    let decl = fn_decl("id_fn", vec![p], vec![TypeParameter { name: ident("T") }], t_ret, body);
    let d = TyFunctionDecl::type_check(&mut handler, ctx, &mut engine, decl, false, false)
        .expect("check");
    assert_eq!(handler.errors.len(), 0);
    assert_eq!(d.parameters.len(), 1);
    assert_eq!(d.type_parameters.len(), 1);
    // The parameter's resolved type is the generic's, and its provenance kept.
    assert_eq!(d.parameters[0].type_argument.type_id, d.type_parameters[0].type_id);
    assert_eq!(d.parameters[0].type_argument.initial_type_id, t_ref);
}

#[test]
fn unknown_variable_degrades_to_empty_body() {
    let (mut handler, ctx, mut engine) = fresh();
    let unit = engine.insert(TypeInfo::Boolean);
    let body = vec![AstNode {
        content: AstNodeContent::Expression(Expression::Variable { name: ident("ghost_var") }),
        span: Span::dummy(),
    }];
    let decl = fn_decl("f", vec![], vec![], unit, body);
    let d = TyFunctionDecl::type_check(&mut handler, ctx, &mut engine, decl, false, false)
        .expect("degraded, not aborted");
    assert_eq!(handler.errors.len(), 1);
    assert!(matches!(handler.errors[0], CompileError::UnknownVariable { .. }));
    assert_eq!(d.body.contents.len(), 0);
}

#[test]
fn numeric_literal_unifies_with_declared_width() {
    let (mut handler, ctx, mut engine) = fresh();
    let u64_id = engine.insert(TypeInfo::UnsignedInteger(IntegerBits::SixtyFour));
    let body = vec![return_stmt(lit(Literal::Numeric(5)))];
    let decl = fn_decl("f", vec![], vec![], u64_id, body);
    let r = TyFunctionDecl::type_check(&mut handler, ctx, &mut engine, decl, false, false);
    assert!(r.is_ok());
    assert_eq!(handler.errors.len(), 0);
}

#[test]
fn unify_return_statements_reports_each_site() {
    let mut handler = Handler::new();
    let mut engine = TypeEngine::new();
    let u8_id = engine.insert(TypeInfo::UnsignedInteger(IntegerBits::Eight));
    let bool_id = engine.insert(TypeInfo::Boolean);
    let other_u8 = engine.insert(TypeInfo::UnsignedInteger(IntegerBits::Eight));
    let sites = vec![
        ReturnSite { return_type: bool_id, span: Span::dummy() },
        ReturnSite { return_type: other_u8, span: Span::dummy() },
        ReturnSite { return_type: bool_id, span: Span::dummy() },
    ];
    let r = unify_return_statements(&mut handler, &mut engine, &sites, u8_id);
    assert!(r.is_err());
    assert_eq!(handler.errors.len(), 2);
    assert!(matches!(handler.errors[0], CompileError::TypeMismatch { .. }));
    assert!(matches!(handler.errors[1], CompileError::TypeMismatch { .. }));
}

#[test]
fn unification_rewrites_numeric_placeholders_for_all_holders() {
    let mut handler = Handler::new();
    let mut engine = TypeEngine::new();
    let numeric = engine.insert(TypeInfo::Numeric);
    let u16_id = engine.insert(TypeInfo::UnsignedInteger(IntegerBits::Sixteen));
    let sites = vec![ReturnSite { return_type: numeric, span: Span::dummy() }];
    let r = unify_return_statements(&mut handler, &mut engine, &sites, u16_id);
    assert!(r.is_ok());
    // The placeholder's slot was rewritten in place: every holder of the
    // identifier now sees the concrete width.
    assert!(matches!(
        engine.get(numeric),
        TypeInfo::UnsignedInteger(IntegerBits::Sixteen)
    ));
}

#[test]
fn shadowed_name_resolves_to_latest_binding() {
    let mut ns = Namespace::new();
    let first = TypeId { index: 4 };
    let second = TypeId { index: 9 };
    ns.insert_symbol("T".to_string(), first);
    ns.insert_symbol("T".to_string(), second);
    assert_eq!(ns.lookup(&"T".to_string()), Some(second));
    assert_eq!(ns.lookup(&"U".to_string()), None);
}

#[test]
fn unknown_type_name_error_carries_the_name() {
    let (mut handler, ctx, mut engine) = fresh();
    let bad = engine.insert(TypeInfo::Custom { name: "NoSuch".to_string() });
    let unit = engine.insert(TypeInfo::Boolean);
    let p = FunctionParameter {
        name: ident("a"),
        is_reference: false,
        is_mutable: false,
        mutability_span: Span::dummy(),
        type_argument: TypeArgument::from_id(bad, Span::dummy()),
    };
    let r = TyFunctionDecl::type_check(
        &mut handler,
        ctx,
        &mut engine,
        fn_decl("f", vec![p], vec![], unit, vec![]),
        false,
        false,
    );
    assert!(r.is_err());
    match &handler.errors[0] {
        CompileError::UnknownTypeName { name, .. } => assert_eq!(name, "NoSuch"),
        other => panic!("unexpected diagnostic: {:?}", other),
    }
}

#[test]
fn implicit_return_gives_the_block_its_type() {
    let (mut handler, ctx, mut engine) = fresh();
    let u8_id = engine.insert(TypeInfo::UnsignedInteger(IntegerBits::Eight));
    let body = vec![AstNode {
        content: AstNodeContent::ImplicitReturnExpression(lit(Literal::U8(3))),
        span: Span::dummy(),
    }];
    let decl = fn_decl("f", vec![], vec![], u8_id, body);
    let d = TyFunctionDecl::type_check(&mut handler, ctx, &mut engine, decl, false, false)
        .expect("check");
    // The trailing implicit return matches the annotation: no diagnostic,
    // the declaration is kept with its one statement.
    assert_eq!(handler.errors.len(), 0);
    assert_eq!(d.body.contents.len(), 1);
}

#[test]
fn mismatching_trailing_implicit_return_is_recorded_without_aborting() {
    let (mut handler, ctx, mut engine) = fresh();
    let u32_id = engine.insert(TypeInfo::UnsignedInteger(IntegerBits::ThirtyTwo));
    let body = vec![AstNode {
        content: AstNodeContent::ImplicitReturnExpression(lit(Literal::Boolean(true))),
        span: Span::dummy(),
    }];
    let decl = fn_decl("f", vec![], vec![], u32_id, body);
    let d = TyFunctionDecl::type_check(&mut handler, ctx, &mut engine, decl, false, false)
        .expect("degraded, not aborted");
    // The body's trailing expression does not match the annotation: one
    // mismatch is recorded, the body is kept, the check goes on.
    assert_eq!(handler.errors.len(), 1);
    assert!(matches!(handler.errors[0], CompileError::TypeMismatch { .. }));
    assert_eq!(d.body.contents.len(), 1);
}

#[test]
fn trailing_numeric_literal_adopts_the_declared_width() {
    let (mut handler, ctx, mut engine) = fresh();
    let u32_id = engine.insert(TypeInfo::UnsignedInteger(IntegerBits::ThirtyTwo));
    let body = vec![AstNode {
        content: AstNodeContent::ImplicitReturnExpression(lit(Literal::Numeric(7))),
        span: Span::dummy(),
    }];
    let decl = fn_decl("f", vec![], vec![], u32_id, body);
    let r = TyFunctionDecl::type_check(&mut handler, ctx, &mut engine, decl, false, false);
    assert!(r.is_ok());
    assert_eq!(handler.errors.len(), 0);
}

#[test]
fn only_the_last_implicit_return_is_held_against_the_annotation() {
    let (mut handler, ctx, mut engine) = fresh();
    let u8_id = engine.insert(TypeInfo::UnsignedInteger(IntegerBits::Eight));
    let body = vec![
        AstNode {
            content: AstNodeContent::ImplicitReturnExpression(lit(Literal::Boolean(true))),
            span: Span::dummy(),
        },
        AstNode {
            content: AstNodeContent::ImplicitReturnExpression(lit(Literal::U8(1))),
            span: Span::dummy(),
        },
    ];
    let decl = fn_decl("f", vec![], vec![], u8_id, body);
    let r = TyFunctionDecl::type_check(&mut handler, ctx, &mut engine, decl, false, false);
    assert!(r.is_ok());
    assert_eq!(handler.errors.len(), 0);
}

#[test]
fn child_scope_checks_without_disturbing_the_parent() {
    let mut parent = Namespace::new();
    parent.insert_symbol("t".to_string(), TypeId { index: 3 });
    let mut child = parent.child();
    child.insert_symbol("u".to_string(), TypeId { index: 5 });
    assert_eq!(child.lookup(&"t".to_string()), Some(TypeId { index: 3 }));
    assert_eq!(child.lookup(&"u".to_string()), Some(TypeId { index: 5 }));
    assert_eq!(parent.lookup(&"u".to_string()), None);
    assert_eq!(parent.bindings.len(), 1);
}

#[test]
fn composite_types_unify_only_as_identities() {
    let mut handler = Handler::new();
    let mut engine = TypeEngine::new();
    let u8_id = engine.insert(TypeInfo::UnsignedInteger(IntegerBits::Eight));
    let bool_id = engine.insert(TypeInfo::Boolean);
    let tup_a = engine.insert(TypeInfo::Tuple(vec![u8_id, bool_id]));
    let tup_same = engine.insert(TypeInfo::Tuple(vec![u8_id, bool_id]));
    let tup_other = engine.insert(TypeInfo::Tuple(vec![bool_id, u8_id]));
    let same = vec![ReturnSite { return_type: tup_same, span: Span::dummy() }];
    assert!(unify_return_statements(&mut handler, &mut engine, &same, tup_a).is_ok());
    assert_eq!(handler.errors.len(), 0);
    let other = vec![ReturnSite { return_type: tup_other, span: Span::dummy() }];
    assert!(unify_return_statements(&mut handler, &mut engine, &other, tup_a).is_err());
    assert_eq!(handler.errors.len(), 1);
    assert!(matches!(handler.errors[0], CompileError::TypeMismatch { .. }));
}

#[test]
fn error_recovery_unifies_with_anything() {
    let mut handler = Handler::new();
    let mut engine = TypeEngine::new();
    let u8_id = engine.insert(TypeInfo::UnsignedInteger(IntegerBits::Eight));
    let recovery = engine.insert(TypeInfo::ErrorRecovery);
    let sites = vec![ReturnSite { return_type: recovery, span: Span::dummy() }];
    assert!(unify_return_statements(&mut handler, &mut engine, &sites, u8_id).is_ok());
    assert_eq!(handler.errors.len(), 0);
}
