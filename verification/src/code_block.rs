//! Type checking of statement sequences: each expression of a body receives
//! a type identifier, with failures reported to the sink and short-circuited
//! to the caller, which substitutes a degraded result rather than aborting.

use vstd::prelude::*;

use crate::diagnostics::{errors_view, CompileError, ErrorEmitted, ErrorV, Handler, WarningV};
use crate::namespace::{binds_valid, lemma_lookup_valid, lookup_spec, Namespace};
use crate::parsed::{AstNodeContent, CodeBlock, Expression, Ident, Literal};
use crate::span::Span;
use crate::ty::{
    gather_block_spec, gather_expr_spec, gather_node_spec, gather_nodes_spec, lemma_gather_push,
    lemma_sites_valid_concat, lemma_sites_valid_extends, sites_valid, trailing_implicit_spec,
    ReturnSite, TyAstNode, TyAstNodeContent, TyCodeBlock, TyExpression, TyExpressionKind,
};
use crate::type_system::{
    components_below, descriptors_match, extends, preserves_concrete, unify_spec, valid_id,
    IntegerBits, TypeEngine, TypeId, TypeInfo, TypeInfoV,
};

verus! {

/// The descriptor a literal is interned under: suffixed integers at their
/// width, an unsuffixed integer as a numeric placeholder for later
/// unification to decide.
pub open spec fn literal_info_v(value: Literal) -> TypeInfoV {
    match value {
        Literal::U8(_) => TypeInfoV::UnsignedInteger(IntegerBits::Eight),
        Literal::U16(_) => TypeInfoV::UnsignedInteger(IntegerBits::Sixteen),
        Literal::U32(_) => TypeInfoV::UnsignedInteger(IntegerBits::ThirtyTwo),
        Literal::U64(_) => TypeInfoV::UnsignedInteger(IntegerBits::SixtyFour),
        Literal::Numeric(_) => TypeInfoV::Numeric,
        Literal::Boolean(_) => TypeInfoV::Boolean,
    }
}

fn literal_info(value: Literal) -> (t: TypeInfo)
    ensures
        t@ == literal_info_v(value),
{
    match value {
        Literal::U8(_) => TypeInfo::UnsignedInteger(IntegerBits::Eight),
        Literal::U16(_) => TypeInfo::UnsignedInteger(IntegerBits::Sixteen),
        Literal::U32(_) => TypeInfo::UnsignedInteger(IntegerBits::ThirtyTwo),
        Literal::U64(_) => TypeInfo::UnsignedInteger(IntegerBits::SixtyFour),
        Literal::Numeric(_) => TypeInfo::Numeric,
        Literal::Boolean(_) => TypeInfo::Boolean,
    }
}

fn clone_ident(ident: &Ident) -> (r: Ident)
    ensures
        r.text@ == ident.text@,
        r.span == ident.span,
{
    Ident { text: ident.text.clone(), span: ident.span }
}

/// Checks one expression against the scope: literals are interned, variables
/// are looked up (an unbound name is reported and short-circuits), blocks and
/// branches are checked recursively.
pub fn check_expression(
    handler: &mut Handler,
    namespace: &Namespace,
    engine: &mut TypeEngine,
    expr: &Expression,
) -> (r: Result<TyExpression, ErrorEmitted>)
    requires
        old(engine).wf(),
        binds_valid(namespace@, old(engine)@.len() as int),
    ensures
        final(engine).wf(),
        extends(old(engine)@, final(engine)@),
        final(handler).warnings_v() == old(handler).warnings_v(),
        r matches Ok(te) ==> final(handler).errors_v() == old(handler).errors_v() && valid_id(
            final(engine)@,
            te.return_type,
        ) && sites_valid(gather_expr_spec(te), final(engine)@),
        r is Err ==> exists|n: Seq<char>, sp: Span|
            final(handler).errors_v() == old(handler).errors_v().push(
                ErrorV::UnknownVariable { name: n, span: sp },
            ),
        (*expr matches Expression::Literal { value, span } ==> r matches Ok(te)
            && final(engine)@ == old(engine)@.push(literal_info_v(value))
            && te.return_type.index == old(engine)@.len() && te.span == span),
        (*expr matches Expression::Variable { name } ==> final(engine)@ == old(engine)@ && (match
            lookup_spec(namespace@, name.text@) {
            Some(id) => r matches Ok(te) && te.return_type == id && te.span == name.span
                && final(handler).errors_v() == old(handler).errors_v(),
            None => r is Err && final(handler).errors_v() == old(handler).errors_v().push(
                ErrorV::UnknownVariable { name: name.text@, span: name.span },
            ),
        })),
    decreases *expr, 1int,
{
    match expr {
        Expression::Literal { value, span } => {
            let id = engine.insert(literal_info(*value));
            Ok(TyExpression { kind: TyExpressionKind::Literal(*value), return_type: id, span: *span })
        },
        Expression::Variable { name } => {
            match namespace.lookup(&name.text) {
                Some(id) => {
                    proof {
                        lemma_lookup_valid(namespace@, name.text@, old(engine)@.len() as int);
                    }
                    Ok(
                        TyExpression {
                            kind: TyExpressionKind::Variable(clone_ident(name)),
                            return_type: id,
                            span: name.span,
                        },
                    )
                },
                None => Err(
                    handler.emit_err(
                        CompileError::UnknownVariable { name: name.text.clone(), span: name.span },
                    ),
                ),
            }
        },
        Expression::Block { block, span } => {
            proof {
                assert(decreases_to!(*expr => *block));
            }
            // A nested block carries no return-type annotation of its own.
            match check_code_block(handler, namespace, engine, block, None) {
                Ok(p) => {
                    let tyblock = p.0;
                    let ghost block_sites = gather_block_spec(tyblock);
                    let ghost engine_after_block = engine@;
                    let ty = match p.1 {
                        Some(t) => t,
                        None => {
                            let unit_info = TypeInfo::Tuple(Vec::new());
                            proof {
                                assert(components_below(unit_info@, engine@.len() as int));
                            }
                            engine.insert(unit_info)
                        },
                    };
                    proof {
                        assert(extends(old(engine)@, engine@));
                        lemma_sites_valid_extends(block_sites, engine_after_block, engine@);
                    }
                    Ok(
                        TyExpression {
                            kind: TyExpressionKind::Block(tyblock),
                            return_type: ty,
                            span: *span,
                        },
                    )
                },
                Err(t) => Err(t),
            }
        },
        Expression::If { condition, then_block, else_block, span } => {
            proof {
                assert(decreases_to!(*expr => **condition));
                assert(decreases_to!(*expr => *then_block));
                assert(decreases_to!(*expr => *else_block));
            }
            let cond = match check_expression(handler, namespace, engine, condition) {
                Ok(c) => c,
                Err(t) => {
                    return Err(t);
                },
            };
            let ghost engine_after_cond = engine@;
            let then_b = match check_code_block(handler, namespace, engine, then_block, None) {
                Ok(p) => p.0,
                Err(t) => {
                    return Err(t);
                },
            };
            let ghost engine_after_then = engine@;
            let else_b = match check_code_block(handler, namespace, engine, else_block, None) {
                Ok(p) => p.0,
                Err(t) => {
                    return Err(t);
                },
            };
            let ghost engine_after_else = engine@;
            let unit_info = TypeInfo::Tuple(Vec::new());
            proof {
                assert(components_below(unit_info@, engine@.len() as int));
            }
            let ghost cond_sites = gather_expr_spec(cond);
            let ghost then_sites = gather_nodes_spec(then_b.contents@);
            let ghost else_sites = gather_nodes_spec(else_b.contents@);
            let unit_id = engine.insert(unit_info);
            let te = TyExpression {
                kind: TyExpressionKind::If {
                    condition: Box::new(cond),
                    then_block: then_b,
                    else_block: else_b,
                },
                return_type: unit_id,
                span: *span,
            };
            proof {
                lemma_sites_valid_extends(cond_sites, engine_after_cond, engine@);
                lemma_sites_valid_extends(then_sites, engine_after_then, engine@);
                lemma_sites_valid_extends(else_sites, engine_after_else, engine@);
                lemma_sites_valid_concat(cond_sites, then_sites, engine@);
                lemma_sites_valid_concat(cond_sites + then_sites, else_sites, engine@);
                assert(gather_expr_spec(te) == cond_sites + then_sites + else_sites);
            }
            Ok(te)
        },
    }
}

/// Checks a statement sequence in order. The block's own type is that of its
/// last implicit return, or none where it has no implicit return; a failure
/// anywhere in the sequence short-circuits after being reported.
///
/// Where a return-type annotation is given, the trailing implicit return is
/// unified against it — the expected-type hint for the body — with any
/// mismatch recorded in the sink and checking going on: a degraded result,
/// never an abort. A block without implicit returns has nothing to hold
/// against the annotation, so no such diagnostic is raised for it.
pub fn check_code_block(
    handler: &mut Handler,
    namespace: &Namespace,
    engine: &mut TypeEngine,
    body: &CodeBlock,
    type_annotation: Option<TypeId>,
) -> (r: Result<(TyCodeBlock, Option<TypeId>), ErrorEmitted>)
    requires
        old(engine).wf(),
        binds_valid(namespace@, old(engine)@.len() as int),
        type_annotation matches Some(rt) ==> valid_id(old(engine)@, rt),
    ensures
        final(engine).wf(),
        preserves_concrete(old(engine)@, final(engine)@),
        type_annotation is None ==> extends(old(engine)@, final(engine)@),
        final(handler).warnings_v() == old(handler).warnings_v(),
        r matches Ok(p) ==> ({
            &&& p.0.contents@.len() == body.contents@.len()
            &&& p.1 == trailing_implicit_spec(p.0.contents@)
            &&& (p.1 matches Some(t) ==> valid_id(final(engine)@, t))
            &&& sites_valid(gather_block_spec(p.0), final(engine)@)
            &&& (final(handler).errors_v() == old(handler).errors_v() || (
            type_annotation matches Some(rt) && p.1 matches Some(t) && exists|sp: Span|
                final(handler).errors_v() == old(handler).errors_v().push(
                    ErrorV::TypeMismatch { expected: rt, found: t, span: sp },
                )))
            &&& (type_annotation matches Some(rt) && p.1 matches Some(t) && unify_spec(
                final(engine)@,
                t,
                rt,
                Span { start: 0, end: 0 },
            ).1.len() > 0 ==> final(handler).errors_v().len() > old(handler).errors_v().len())
            &&& (type_annotation is None || p.1 is None ==> final(handler).errors_v() == old(
                handler,
            ).errors_v())
        }),
        body.contents@.len() == 0 ==> r is Ok,
        r is Err ==> exists|n: Seq<char>, sp: Span|
            final(handler).errors_v() == old(handler).errors_v().push(
                ErrorV::UnknownVariable { name: n, span: sp },
            ),
    decreases *body, 0int,
{
    let mut typed: Vec<TyAstNode> = Vec::new();
    let mut block_ty: Option<TypeId> = None;
    let mut trailing_span = Span::dummy();
    let mut i: usize = 0;
    while i < body.contents.len()
        invariant
            old(engine).wf(),
            binds_valid(namespace@, old(engine)@.len() as int),
            type_annotation matches Some(rt) ==> valid_id(old(engine)@, rt),
            engine.wf(),
            extends(old(engine)@, engine@),
            handler.warnings_v() == old(handler).warnings_v(),
            handler.errors_v() == old(handler).errors_v(),
            typed@.len() == i,
            i <= body.contents@.len(),
            block_ty == trailing_implicit_spec(typed@),
            block_ty matches Some(t) ==> valid_id(engine@, t),
            sites_valid(gather_nodes_spec(typed@), engine@),
        decreases body.contents@.len() - i,
    {
        proof {
            assert(decreases_to!(*body => body.contents));
            assert(decreases_to!(body.contents => body.contents@));
            assert(decreases_to!(body.contents@ => body.contents@[i as int]));
        }
        let ghost engine_at_entry = engine@;
        let ghost typed_before = typed@;
        let node = &body.contents[i];
        match &node.content {
            AstNodeContent::Expression(e) => {
                let te = match check_expression(handler, namespace, engine, e) {
                    Ok(te) => te,
                    Err(t) => {
                        return Err(t);
                    },
                };
                let tn = TyAstNode { content: TyAstNodeContent::Expression(te), span: node.span };
                proof {
                    lemma_sites_valid_extends(gather_nodes_spec(typed@), engine_at_entry, engine@);
                    lemma_gather_push(typed@, tn);
                    lemma_sites_valid_concat(gather_nodes_spec(typed@), gather_node_spec(tn), engine@);
                }
                typed.push(tn);
                proof {
                    assert(typed@.drop_last() =~= typed_before);
                    assert(typed@.last() == tn);
                }
            },
            AstNodeContent::ReturnStatement(e) => {
                let te = match check_expression(handler, namespace, engine, e) {
                    Ok(te) => te,
                    Err(t) => {
                        return Err(t);
                    },
                };
                let tn = TyAstNode {
                    content: TyAstNodeContent::ReturnStatement(te),
                    span: node.span,
                };
                proof {
                    lemma_sites_valid_extends(gather_nodes_spec(typed@), engine_at_entry, engine@);
                    let site = ReturnSite { return_type: te.return_type, span: te.span };
                    assert(gather_node_spec(tn) == seq![site] + gather_expr_spec(te));
                    lemma_sites_valid_concat(seq![site], gather_expr_spec(te), engine@);
                    lemma_gather_push(typed@, tn);
                    lemma_sites_valid_concat(gather_nodes_spec(typed@), gather_node_spec(tn), engine@);
                }
                typed.push(tn);
                proof {
                    assert(typed@.drop_last() =~= typed_before);
                    assert(typed@.last() == tn);
                }
            },
            AstNodeContent::ImplicitReturnExpression(e) => {
                let te = match check_expression(handler, namespace, engine, e) {
                    Ok(te) => te,
                    Err(t) => {
                        return Err(t);
                    },
                };
                block_ty = Some(te.return_type);
                trailing_span = te.span;
                let tn = TyAstNode {
                    content: TyAstNodeContent::ImplicitReturnExpression(te),
                    span: node.span,
                };
                proof {
                    lemma_sites_valid_extends(gather_nodes_spec(typed@), engine_at_entry, engine@);
                    lemma_gather_push(typed@, tn);
                    lemma_sites_valid_concat(gather_nodes_spec(typed@), gather_node_spec(tn), engine@);
                }
                typed.push(tn);
                proof {
                    assert(typed@.drop_last() =~= typed_before);
                    assert(typed@.last() == tn);
                }
            },
        }
        i += 1;
    }
    let ghost sites = gather_nodes_spec(typed@);
    if let Some(rt) = type_annotation {
        if let Some(t) = block_ty {
            let ghost pre = engine@;
            let ghost pre_errs = handler.errors_v();
            let ghost site_errs = unify_spec(pre, t, rt, trailing_span).1;
            let (mut warnings, mut errors) = engine.unify(t, rt, trailing_span);
            while warnings.len() > 0
                invariant
                    crate::diagnostics::warnings_view(warnings@) == Seq::<WarningV>::empty(),
                    handler.warnings_v() == old(handler).warnings_v(),
                    handler.errors_v() == pre_errs,
                decreases warnings@.len(),
            {
                proof {
                    assert(crate::diagnostics::warnings_view(warnings@).len() == warnings@.len());
                }
                let w = warnings.remove(0);
                handler.emit_warn(w);
            }
            proof {
                assert(errors_view(errors@) == site_errs);
            }
            while errors.len() > 0
                invariant
                    handler.errors_v() + errors_view(errors@) == pre_errs + site_errs,
                    handler.warnings_v() == old(handler).warnings_v(),
                decreases errors@.len(),
            {
                let ghost errs_pre = errors@;
                let e = errors.remove(0);
                proof {
                    assert(errors@ =~= errs_pre.drop_first());
                    assert(errors_view(errs_pre) =~= seq![e@] + errors_view(errors@));
                }
                let _ = handler.emit_err(e);
            }
            proof {
                assert(handler.errors_v() + Seq::<ErrorV>::empty() =~= handler.errors_v());
                assert(handler.errors_v() == pre_errs + site_errs);
                let fin = engine@;
                if site_errs.len() == 0 {
                    assert(pre_errs + site_errs =~= pre_errs);
                    if t.index == rt.index {
                    } else if pre[t.index as int] is ErrorRecovery || pre[rt.index as int]
                        is ErrorRecovery {
                        assert(fin == pre);
                    } else if pre[t.index as int] is Numeric && pre[rt.index as int]
                        is UnsignedInteger {
                        assert(fin[t.index as int] == pre[rt.index as int]);
                        assert(fin[rt.index as int] == pre[rt.index as int]);
                        assert(descriptors_match(fin[t.index as int], fin[rt.index as int]));
                    } else if pre[t.index as int] is UnsignedInteger && pre[rt.index as int]
                        is Numeric {
                        assert(fin[rt.index as int] == pre[t.index as int]);
                        assert(fin[t.index as int] == pre[t.index as int]);
                        assert(descriptors_match(fin[t.index as int], fin[rt.index as int]));
                    } else {
                        assert(descriptors_match(pre[t.index as int], pre[rt.index as int]));
                        assert(fin == pre);
                    }
                    assert(unify_spec(fin, t, rt, Span { start: 0, end: 0 }).1.len() == 0);
                } else {
                    assert(site_errs =~= seq![
                        ErrorV::TypeMismatch { expected: rt, found: t, span: trailing_span },
                    ]);
                    assert(handler.errors_v() =~= pre_errs.push(
                        ErrorV::TypeMismatch { expected: rt, found: t, span: trailing_span },
                    ));
                }
                assert forall|j: int|
                    0 <= j < old(engine)@.len() && !((#[trigger] old(engine)@[j])
                        is Numeric) implies engine@[j] == old(engine)@[j] by {
                    assert(pre[j] == old(engine)@[j]);
                }
                assert(sites_valid(sites, engine@));
            }
        }
    }
    Ok((TyCodeBlock { contents: typed }, block_ty))
}

} // verus!
