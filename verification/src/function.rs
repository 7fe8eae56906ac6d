//! Checking one function declaration end to end: scoped binding of generics
//! and parameters, return-type resolution, body checking with degraded
//! fallback, unification of every return statement against the declared
//! return type, and visibility/ABI classification.

use vstd::prelude::*;

use crate::code_block::check_code_block;
use crate::diagnostics::{errors_view, CompileError, ErrorEmitted, ErrorV, Handler, Warning, WarningV};
use crate::namespace::{
    binds_valid, custom_name, resolve_spec, AbiMode, BindV, ConstShadowingMode, Namespace,
    TypeCheckContext, Visibility,
};
use crate::parsed::{FunctionDeclaration, FunctionParameter, Ident, TypeParameter};
use crate::style::{is_snake_case, is_snake_case_spec};
use crate::ty::{
    param_type_ids, sites_valid, ReturnSite, TyCodeBlock, TyFunctionDecl, TyFunctionParameter,
    TyTypeParameter,
};
use crate::type_system::{
    extends, preserves_concrete, unify_spec, valid_id, TypeArgument, TypeEngine, TypeId, TypeInfo,
    TypeInfoV,
};

verus! {

/// The visibility and contract-call decision table. A method keeps its
/// declared visibility inside its own inherent implementation but is forced
/// public elsewhere (a trait cannot be satisfied by something stricter), and
/// is never a contract call; a free function keeps its declared visibility
/// and is a contract call exactly when the enclosing scope is an ABI
/// implementation.
pub open spec fn classify_spec(
    declared: Visibility,
    is_method: bool,
    is_in_impl_self: bool,
    abi_mode: AbiMode,
) -> (Visibility, bool) {
    if is_method {
        if is_in_impl_self {
            (declared, false)
        } else {
            (Visibility::Public, false)
        }
    } else {
        (declared, abi_mode is ImplAbiFn)
    }
}

/// Decides visibility and contract-call status once, from the call context
/// alone; see [`classify_spec`] for the table.
pub fn classify_visibility(
    declared: Visibility,
    is_method: bool,
    is_in_impl_self: bool,
    abi_mode: AbiMode,
) -> (r: (Visibility, bool))
    ensures
        r == classify_spec(declared, is_method, is_in_impl_self, abi_mode),
        is_method && !is_in_impl_self ==> r.0 == Visibility::Public,
        is_method ==> !r.1,
        !is_method ==> r.0 == declared && (r.1 <==> abi_mode is ImplAbiFn),
{
    if is_method {
        if is_in_impl_self {
            (declared, false)
        } else {
            (Visibility::Public, false)
        }
    } else {
        (declared, matches!(abi_mode, AbiMode::ImplAbiFn))
    }
}

/// What unifying every return site in order does: the arena after all
/// rewrites, and every mismatch error, in site order.
pub open spec fn unify_all_spec(
    slots: Seq<TypeInfoV>,
    sites: Seq<ReturnSite>,
    return_type: TypeId,
) -> (Seq<TypeInfoV>, Seq<ErrorV>)
    decreases sites.len(),
{
    if sites.len() == 0 {
        (slots, Seq::empty())
    } else {
        let step = unify_spec(slots, sites[0].return_type, return_type, sites[0].span);
        let rest = unify_all_spec(step.0, sites.drop_first(), return_type);
        (rest.0, step.1 + rest.1)
    }
}

/// Unifies the types of the return statements and the return type of the
/// function declaration. Every site is visited even after a failure, so each
/// mismatched return gets its own diagnostic; warnings from unification are
/// forwarded unconditionally; the whole check fails iff any site mismatched,
/// with the ticket of the last failure.
pub fn unify_return_statements(
    handler: &mut Handler,
    engine: &mut TypeEngine,
    return_statements: &Vec<ReturnSite>,
    return_type: TypeId,
) -> (r: Result<(), ErrorEmitted>)
    requires
        old(engine).wf(),
        valid_id(old(engine)@, return_type),
        sites_valid(return_statements@, old(engine)@),
    ensures
        final(engine).wf(),
        final(engine)@ == unify_all_spec(old(engine)@, return_statements@, return_type).0,
        final(engine)@.len() == old(engine)@.len(),
        final(handler).errors_v() == old(handler).errors_v() + unify_all_spec(
            old(engine)@,
            return_statements@,
            return_type,
        ).1,
        final(handler).warnings_v() == old(handler).warnings_v(),
        r is Ok <==> unify_all_spec(old(engine)@, return_statements@, return_type).1.len() == 0,
{
    let ghost full = unify_all_spec(old(engine)@, return_statements@, return_type);
    let mut error_emitted: Option<ErrorEmitted> = None;
    let mut i: usize = 0;
    proof {
        assert(return_statements@.skip(0) =~= return_statements@);
    }
    while i < return_statements.len()
        invariant
            i <= return_statements@.len(),
            engine.wf(),
            engine@.len() == old(engine)@.len(),
            valid_id(engine@, return_type),
            sites_valid(return_statements@, engine@),
            unify_all_spec(engine@, return_statements@.skip(i as int), return_type).0 == full.0,
            handler.errors_v() + unify_all_spec(
                engine@,
                return_statements@.skip(i as int),
                return_type,
            ).1 == old(handler).errors_v() + full.1,
            handler.warnings_v() == old(handler).warnings_v(),
            handler.errors_v().len() >= old(handler).errors_v().len(),
            error_emitted is Some <==> handler.errors_v().len() > old(handler).errors_v().len(),
            full == unify_all_spec(old(engine)@, return_statements@, return_type),
        decreases return_statements@.len() - i,
    {
        let site = return_statements[i];
        proof {
            assert(return_statements@.skip(i as int)[0] == return_statements@[i as int]);
            assert(return_statements@.skip(i as int).drop_first() =~= return_statements@.skip(
                i as int + 1,
            ));
        }
        let ghost errors_at_site = handler.errors_v();
        let ghost site_errs = unify_spec(engine@, site.return_type, return_type, site.span).1;
        let (mut warnings, mut errors) = engine.unify(site.return_type, return_type, site.span);
        while warnings.len() > 0
            invariant
                crate::diagnostics::warnings_view(warnings@) == Seq::<WarningV>::empty(),
                handler.warnings_v() == old(handler).warnings_v(),
                handler.errors_v() == errors_at_site,
            decreases warnings@.len(),
        {
            proof {
                assert(crate::diagnostics::warnings_view(warnings@).len() == warnings@.len());
            }
            let w = warnings.remove(0);
            handler.emit_warn(w);
        }
        proof {
            assert(errors_view(errors@) == site_errs);
        }
        while errors.len() > 0
            invariant
                handler.errors_v() + errors_view(errors@) == errors_at_site + site_errs,
                handler.warnings_v() == old(handler).warnings_v(),
                handler.errors_v().len() >= errors_at_site.len(),
                errors_at_site.len() >= old(handler).errors_v().len(),
                error_emitted is Some <==> handler.errors_v().len() > old(
                    handler,
                ).errors_v().len(),
            decreases errors@.len(),
        {
            let ghost errs_pre = errors@;
            let e = errors.remove(0);
            proof {
                assert(errors@ =~= errs_pre.drop_first());
                assert(errors_view(errs_pre) =~= seq![e@] + errors_view(errors@));
            }
            error_emitted = Some(handler.emit_err(e));
        }
        i += 1;
    }
    proof {
        assert(return_statements@.skip(return_statements@.len() as int).len() == 0);
        assert(handler.errors_v() + Seq::<ErrorV>::empty() =~= handler.errors_v());
    }
    match error_emitted {
        Some(err) => Err(err),
        None => Ok(()),
    }
}

/// Two of the declaration's generic parameters share a name.
pub open spec fn has_duplicate_generics(params: Seq<TypeParameter>) -> bool {
    exists|i: int, j: int|
        0 <= i < j < params.len() && (#[trigger] params[i]).name.text@ == (
        #[trigger] params[j]).name.text@
}

/// The descriptor a generic parameter is interned under.
pub open spec fn generic_info_v(p: TypeParameter) -> TypeInfoV {
    TypeInfoV::UnknownGeneric { name: p.name.text@ }
}

/// The descriptors generic binding appends to the arena, in order.
pub open spec fn generics_infos(params: Seq<TypeParameter>) -> Seq<TypeInfoV> {
    params.map_values(|p: TypeParameter| generic_info_v(p))
}

/// The bindings generic binding appends to the scope, given the arena length
/// it started from.
pub open spec fn generics_binds(params: Seq<TypeParameter>, base: int) -> Seq<BindV> {
    Seq::new(
        params.len(),
        |i: int| BindV { name: params[i].name.text@, type_id: TypeId { index: (base + i) as usize } },
    )
}

fn clone_ident(ident: &Ident) -> (r: Ident)
    ensures
        r.text@ == ident.text@,
        r.span == ident.span,
{
    Ident { text: ident.text.clone(), span: ident.span }
}

/// Validates and registers the declaration's generic parameters: each name
/// must be fresh among this declaration's generics; each is interned as a
/// generic descriptor and bound by name in the scope. The first duplicate is
/// a structural failure that aborts the whole declaration.
pub fn type_check_type_params(
    handler: &mut Handler,
    namespace: &mut Namespace,
    engine: &mut TypeEngine,
    type_parameters: &Vec<TypeParameter>,
) -> (r: Result<Vec<TyTypeParameter>, ErrorEmitted>)
    requires
        old(engine).wf(),
    ensures
        final(engine).wf(),
        extends(old(engine)@, final(engine)@),
        final(handler).warnings_v() == old(handler).warnings_v(),
        r is Ok <==> !has_duplicate_generics(type_parameters@),
        r matches Ok(tps) ==> ({
            &&& final(engine)@ == old(engine)@ + generics_infos(type_parameters@)
            &&& final(namespace)@ == old(namespace)@ + generics_binds(
                type_parameters@,
                old(engine)@.len() as int,
            )
            &&& final(handler).errors_v() == old(handler).errors_v()
            &&& tps@.len() == type_parameters@.len()
            &&& forall|k: int|
                0 <= k < tps@.len() ==> (#[trigger] tps@[k]).name.text@
                    == type_parameters@[k].name.text@ && tps@[k].type_id.index == old(
                    engine,
                )@.len() + k
        }),
        r is Err ==> final(handler).errors_v().len() == old(handler).errors_v().len() + 1
            && final(handler).errors_v().last() is DuplicateGenericName,
{
    let ghost base = old(engine)@.len() as int;
    let mut tps: Vec<TyTypeParameter> = Vec::new();
    let mut i: usize = 0;
    while i < type_parameters.len()
        invariant
            old(engine).wf(),
            engine.wf(),
            i <= type_parameters@.len(),
            base == old(engine)@.len() as int,
            engine@ == old(engine)@ + generics_infos(type_parameters@.take(i as int)),
            namespace@ == old(namespace)@ + generics_binds(
                type_parameters@.take(i as int),
                base,
            ),
            handler.errors_v() == old(handler).errors_v(),
            handler.warnings_v() == old(handler).warnings_v(),
            tps@.len() == i,
            forall|k: int|
                0 <= k < i ==> (#[trigger] tps@[k]).name.text@ == type_parameters@[k].name.text@
                    && tps@[k].type_id.index == base + k,
            !has_duplicate_generics(type_parameters@.take(i as int)),
        decreases type_parameters@.len() - i,
    {
        let p = &type_parameters[i];
        let mut j: usize = 0;
        let mut dup = false;
        while j < tps.len()
            invariant
                j <= tps@.len(),
                tps@.len() == i,
                i < type_parameters@.len(),
                forall|k: int|
                    0 <= k < i ==> (#[trigger] tps@[k]).name.text@
                        == type_parameters@[k].name.text@,
                dup <==> exists|a: int|
                    0 <= a < j && (#[trigger] tps@[a]).name.text@
                        == type_parameters@[i as int].name.text@,
            decreases tps@.len() - j,
        {
            if tps[j].name.text == type_parameters[i].name.text {
                dup = true;
                proof {
                    assert(tps@[j as int].name.text@ == type_parameters@[i as int].name.text@);
                }
            }
            j += 1;
        }
        if dup {
            let t = handler.emit_err(
                CompileError::DuplicateGenericName { name: p.name.text.clone(), span: p.name.span },
            );
            return Err(t);
        }
        let id = engine.insert(TypeInfo::UnknownGeneric { name: p.name.text.clone() });
        namespace.insert_symbol(p.name.text.clone(), id);
        tps.push(TyTypeParameter { name: clone_ident(&p.name), type_id: id });
        proof {
            assert(generics_infos(type_parameters@.take(i as int + 1)) =~= generics_infos(
                type_parameters@.take(i as int),
            ).push(generic_info_v(type_parameters@[i as int])));
            assert(engine@ =~= old(engine)@ + generics_infos(type_parameters@.take(i as int + 1)));
            assert(generics_binds(type_parameters@.take(i as int + 1), base) =~= generics_binds(
                type_parameters@.take(i as int),
                base,
            ).push(
                BindV {
                    name: type_parameters@[i as int].name.text@,
                    type_id: TypeId { index: (base + i as int) as usize },
                },
            ));
            assert(namespace@ =~= old(namespace)@ + generics_binds(
                type_parameters@.take(i as int + 1),
                base,
            ));
            assert(!has_duplicate_generics(type_parameters@.take(i as int + 1))) by {
                assert forall|a: int, b: int|
                    0 <= a < b < i as int + 1 implies !((#[trigger] type_parameters@.take(
                    i as int + 1,
                )[a]).name.text@ == (#[trigger] type_parameters@.take(
                    i as int + 1,
                )[b]).name.text@) by {
                    if b == i as int {
                        assert(tps@[a].name.text@ == type_parameters@[a].name.text@);
                    } else {
                        assert(!has_duplicate_generics(type_parameters@.take(i as int)));
                        assert(type_parameters@.take(i as int)[a] == type_parameters@.take(
                            i as int + 1,
                        )[a]);
                        assert(type_parameters@.take(i as int)[b] == type_parameters@.take(
                            i as int + 1,
                        )[b]);
                    }
                }
            }
        }
        i += 1;
    }
    proof {
        assert(type_parameters@.take(type_parameters@.len() as int) =~= type_parameters@);
    }
    Ok(tps)
}

/// What binding the whole parameter list does: the scope it leaves behind,
/// whether every declared type resolved, the resolved identifier of each
/// parameter that did resolve, in order, and the diagnostic recorded for each
/// one that did not, in order.
pub struct ParamsOutcome {
    pub binds: Seq<BindV>,
    pub ok: bool,
    pub resolved: Seq<TypeId>,
    pub errors: Seq<ErrorV>,
}

/// Folds parameter binding over the list. Binding continues across all
/// parameters even after a failure: each failure is recorded at once, each
/// later parameter is still processed, and only the caller re-raises a
/// ticket afterwards.
pub open spec fn params_fold(
    slots: Seq<TypeInfoV>,
    binds: Seq<BindV>,
    params: Seq<FunctionParameter>,
) -> ParamsOutcome
    decreases params.len(),
{
    if params.len() == 0 {
        ParamsOutcome { binds, ok: true, resolved: Seq::empty(), errors: Seq::empty() }
    } else {
        match resolve_spec(slots, binds, params[0].type_argument.type_id) {
            Some(t) => {
                let rest = params_fold(
                    slots,
                    binds.push(BindV { name: params[0].name.text@, type_id: t }),
                    params.drop_first(),
                );
                ParamsOutcome {
                    binds: rest.binds,
                    ok: rest.ok,
                    resolved: seq![t] + rest.resolved,
                    errors: rest.errors,
                }
            },
            None => {
                let rest = params_fold(slots, binds, params.drop_first());
                ParamsOutcome {
                    binds: rest.binds,
                    ok: false,
                    resolved: rest.resolved,
                    errors: seq![
                        ErrorV::UnknownTypeName {
                            name: custom_name(
                                slots[params[0].type_argument.type_id.index as int],
                            ),
                            span: params[0].type_argument.span,
                        },
                    ] + rest.errors,
                }
            },
        }
    }
}

impl TyFunctionParameter {
    /// Checks one value parameter: resolves its declared type against the
    /// scope and binds the parameter's name to the resolved type. A
    /// resolution failure is recorded and returned; the scope is then left
    /// unchanged.
    pub fn type_check(
        handler: &mut Handler,
        namespace: &mut Namespace,
        engine: &TypeEngine,
        parameter: &FunctionParameter,
    ) -> (r: Result<TyFunctionParameter, ErrorEmitted>)
        requires
            valid_id(engine@, parameter.type_argument.type_id),
            binds_valid(old(namespace)@, engine@.len() as int),
        ensures
            final(handler).warnings_v() == old(handler).warnings_v(),
            binds_valid(final(namespace)@, engine@.len() as int),
            match resolve_spec(engine@, old(namespace)@, parameter.type_argument.type_id) {
                Some(t) => r matches Ok(tp) && ({
                    &&& tp.name.text@ == parameter.name.text@
                    &&& tp.name.span == parameter.name.span
                    &&& tp.is_reference == parameter.is_reference
                    &&& tp.is_mutable == parameter.is_mutable
                    &&& tp.mutability_span == parameter.mutability_span
                    &&& tp.type_argument.type_id == t
                    &&& tp.type_argument.initial_type_id == parameter.type_argument.initial_type_id
                    &&& tp.type_argument.span == parameter.type_argument.span
                    &&& valid_id(engine@, t)
                    &&& final(namespace)@ == old(namespace)@.push(
                        BindV { name: parameter.name.text@, type_id: t },
                    )
                    &&& final(handler).errors_v() == old(handler).errors_v()
                }),
                None => r is Err && final(namespace)@ == old(namespace)@
                    && final(handler).errors_v() == old(handler).errors_v().push(
                    ErrorV::UnknownTypeName {
                        name: custom_name(engine@[parameter.type_argument.type_id.index as int]),
                        span: parameter.type_argument.span,
                    },
                ),
            },
    {
        match namespace.resolve_type(
            handler,
            engine,
            parameter.type_argument.type_id,
            &parameter.type_argument.span,
        ) {
            Ok(t) => {
                namespace.insert_symbol(parameter.name.text.clone(), t);
                Ok(
                    TyFunctionParameter {
                        name: clone_ident(&parameter.name),
                        is_reference: parameter.is_reference,
                        is_mutable: parameter.is_mutable,
                        mutability_span: parameter.mutability_span,
                        type_argument: TypeArgument {
                            type_id: t,
                            initial_type_id: parameter.type_argument.initial_type_id,
                            span: parameter.type_argument.span,
                        },
                    },
                )
            },
            Err(t) => Err(t),
        }
    }
}

/// Unification never changes the number of interned descriptors.
pub proof fn lemma_unify_all_len(slots: Seq<TypeInfoV>, sites: Seq<ReturnSite>, return_type: TypeId)
    requires
        valid_id(slots, return_type),
        sites_valid(sites, slots),
    ensures
        unify_all_spec(slots, sites, return_type).0.len() == slots.len(),
    decreases sites.len(),
{
    if sites.len() > 0 {
        assert(valid_id(slots, sites[0].return_type));
        let step = unify_spec(slots, sites[0].return_type, return_type, sites[0].span);
        assert(step.0.len() == slots.len());
        assert(sites_valid(sites.drop_first(), step.0)) by {
            assert(forall|i: int|
                0 <= i < sites.drop_first().len() ==> sites.drop_first()[i] == sites[i + 1]);
        }
        lemma_unify_all_len(step.0, sites.drop_first(), return_type);
    }
}

/// Unification rewrites only numeric placeholders, so any other slot comes
/// out of the whole pass unchanged.
pub proof fn lemma_unify_all_preserves(
    slots: Seq<TypeInfoV>,
    sites: Seq<ReturnSite>,
    return_type: TypeId,
    k: int,
)
    requires
        0 <= k < slots.len(),
        !(slots[k] is Numeric),
        valid_id(slots, return_type),
        sites_valid(sites, slots),
    ensures
        unify_all_spec(slots, sites, return_type).0[k] == slots[k],
    decreases sites.len(),
{
    if sites.len() > 0 {
        assert(valid_id(slots, sites[0].return_type));
        let step = unify_spec(slots, sites[0].return_type, return_type, sites[0].span);
        assert(step.0.len() == slots.len());
        assert(step.0[k] == slots[k]);
        assert(sites_valid(sites.drop_first(), step.0)) by {
            assert(forall|i: int|
                0 <= i < sites.drop_first().len() ==> sites.drop_first()[i] == sites[i + 1]);
        }
        lemma_unify_all_preserves(step.0, sites.drop_first(), return_type, k);
    }
}

/// Every error the whole unification pass records is a type mismatch.
pub proof fn lemma_unify_all_errors_are_mismatches(
    slots: Seq<TypeInfoV>,
    sites: Seq<ReturnSite>,
    return_type: TypeId,
)
    ensures
        forall|k: int|
            0 <= k < unify_all_spec(slots, sites, return_type).1.len() ==> (
            #[trigger] unify_all_spec(slots, sites, return_type).1[k]) is TypeMismatch,
    decreases sites.len(),
{
    if sites.len() > 0 {
        let step = unify_spec(slots, sites[0].return_type, return_type, sites[0].span);
        lemma_unify_all_errors_are_mismatches(step.0, sites.drop_first(), return_type);
        let rest = unify_all_spec(step.0, sites.drop_first(), return_type);
        assert forall|k: int|
            0 <= k < unify_all_spec(slots, sites, return_type).1.len() implies (
        #[trigger] unify_all_spec(slots, sites, return_type).1[k]) is TypeMismatch by {
            if k < step.1.len() {
                assert(unify_all_spec(slots, sites, return_type).1[k] == step.1[k]);
            } else {
                assert(unify_all_spec(slots, sites, return_type).1[k] == rest.1[k
                    - step.1.len()]);
            }
        }
    }
}

/// The style warning the check records for `name`: exactly one where the
/// name is not snake_case, none otherwise.
pub open spec fn snake_warnings(name: Ident) -> Seq<WarningV> {
    if is_snake_case_spec(name.text@) {
        Seq::empty()
    } else {
        seq![WarningV::NonSnakeCaseFunctionName { name: name.text@, span: name.span }]
    }
}

/// What the binding stages make of the declaration before its body is
/// checked: the arena with the generics interned, and the whole parameter
/// fold over the scope with the generics bound.
pub struct StagedOutcome {
    pub slots: Seq<TypeInfoV>,
    pub params: ParamsOutcome,
}

/// The binding stages, composed.
pub open spec fn staged(
    slots: Seq<TypeInfoV>,
    binds: Seq<BindV>,
    decl: FunctionDeclaration,
) -> StagedOutcome {
    let slots2 = slots + generics_infos(decl.type_parameters@);
    StagedOutcome {
        slots: slots2,
        params: params_fold(
            slots2,
            binds + generics_binds(decl.type_parameters@, slots.len() as int),
            decl.parameters@,
        ),
    }
}

impl TyFunctionDecl {
    /// Turns an untyped function declaration into a fully checked one.
    ///
    /// Where function declarations are disallowed, the declaration is
    /// refused outright with a structural error and nothing else happens. A
    /// name that is not snake_case costs exactly one warning and never
    /// blocks. Duplicate generic names abort; a parameter whose type does
    /// not resolve aborts, but only after every parameter was processed and
    /// reported. A return annotation that does not resolve degrades to an
    /// error-recovery descriptor and checking continues; a body that fails
    /// to check degrades to an empty body; the body's trailing implicit
    /// return is held against the resolved annotation inside the body check,
    /// any mismatch recorded without aborting. Every return statement
    /// reachable in the body is then unified against the declared return
    /// type, and the declaration fails iff any of them mismatched.
    /// Visibility and contract-call status come from the decision table
    /// alone.
    pub fn type_check(
        handler: &mut Handler,
        ctx: TypeCheckContext,
        engine: &mut TypeEngine,
        fn_decl: FunctionDeclaration,
        is_method: bool,
        is_in_impl_self: bool,
    ) -> (r: Result<TyFunctionDecl, ErrorEmitted>)
        requires
            old(engine).wf(),
            binds_valid(ctx.namespace@, old(engine)@.len() as int),
            valid_id(old(engine)@, fn_decl.return_type.type_id),
            forall|i: int|
                0 <= i < fn_decl.parameters@.len() ==> valid_id(
                    old(engine)@,
                    (#[trigger] fn_decl.parameters@[i]).type_argument.type_id,
                ),
        ensures
            final(engine).wf(),
            // the arena only grows, and no concrete descriptor is rewritten:
            // unification rewrites numeric placeholders alone
            final(engine)@.len() >= old(engine)@.len(),
            forall|j: int|
                0 <= j < old(engine)@.len() && !((#[trigger] old(engine)@[j]) is Numeric)
                    ==> final(engine)@[j] == old(engine)@[j],
            ctx.functions_disallowed ==> r is Err
                && final(handler).errors_v() == old(handler).errors_v().push(
                ErrorV::NestedFunctionsDisallowed { span: fn_decl.span },
            ) && final(handler).warnings_v() == old(handler).warnings_v()
                && final(engine)@ == old(engine)@,
            !ctx.functions_disallowed ==> final(handler).warnings_v() == old(handler).warnings_v()
                + snake_warnings(fn_decl.name),
            r is Err ==> final(handler).errors_v().len() > old(handler).errors_v().len(),
            // where failure comes from, and from nowhere else: a disallowed
            // context, a duplicate generic, an unresolvable parameter type,
            // or a return statement that mismatched (a recorded mismatch is
            // then the last diagnostic); in particular neither a failed
            // return-type resolution nor a failed body check aborts
            r is Err ==> ctx.functions_disallowed || has_duplicate_generics(
                fn_decl.type_parameters@,
            ) || !staged(old(engine)@, ctx.namespace@, fn_decl).params.ok
                || final(handler).errors_v().last() is TypeMismatch,
            !ctx.functions_disallowed && has_duplicate_generics(fn_decl.type_parameters@)
                ==> r is Err,
            !ctx.functions_disallowed && !has_duplicate_generics(fn_decl.type_parameters@)
                && !staged(old(engine)@, ctx.namespace@, fn_decl).params.ok ==> r is Err,
            !ctx.functions_disallowed && !has_duplicate_generics(fn_decl.type_parameters@)
                && staged(old(engine)@, ctx.namespace@, fn_decl).params.ok
                && fn_decl.body.contents@.len() == 0 ==> r is Ok,
            // each unresolvable parameter's diagnostic stands in the log, in
            // parameter order, right where the binding stage put it
            !ctx.functions_disallowed && !has_duplicate_generics(fn_decl.type_parameters@) ==> ({
                let perrs = staged(old(engine)@, ctx.namespace@, fn_decl).params.errors;
                let base = old(handler).errors_v().len() as int;
                &&& final(handler).errors_v().len() >= base + perrs.len()
                &&& final(handler).errors_v().subrange(base, base + perrs.len() as int) == perrs
            }),
            r matches Ok(d) ==> ({
                let st = staged(old(engine)@, ctx.namespace@, fn_decl);
                &&& d.name == fn_decl.name
                &&& d.span == fn_decl.span
                &&& d.purity == fn_decl.purity
                &&& d.implementing_type is None
                &&& d.visibility == classify_spec(
                    fn_decl.visibility,
                    is_method,
                    is_in_impl_self,
                    ctx.abi_mode,
                ).0
                &&& d.is_contract_call == classify_spec(
                    fn_decl.visibility,
                    is_method,
                    is_in_impl_self,
                    ctx.abi_mode,
                ).1
                &&& is_method && !is_in_impl_self ==> d.visibility == Visibility::Public
                &&& is_method ==> !d.is_contract_call
                &&& !is_method ==> d.visibility == fn_decl.visibility && (d.is_contract_call
                    <==> ctx.abi_mode is ImplAbiFn)
                &&& d.parameters@.len() == fn_decl.parameters@.len()
                // each parameter carries the identifier the resolution fold
                // assigned it — the selector and every downstream decision
                // read exactly these
                &&& param_type_ids(d.parameters@) == st.params.resolved
                &&& forall|k: int|
                    0 <= k < d.parameters@.len() ==> ({
                        let dp = #[trigger] d.parameters@[k];
                        let fp = fn_decl.parameters@[k];
                        &&& dp.name.text@ == fp.name.text@
                        &&& dp.name.span == fp.name.span
                        &&& dp.is_reference == fp.is_reference
                        &&& dp.is_mutable == fp.is_mutable
                        &&& dp.mutability_span == fp.mutability_span
                        &&& dp.type_argument.initial_type_id == fp.type_argument.initial_type_id
                        &&& dp.type_argument.span == fp.type_argument.span
                        &&& valid_id(final(engine)@, dp.type_argument.type_id)
                    })
                &&& d.type_parameters@.len() == fn_decl.type_parameters@.len()
                &&& forall|k: int|
                    0 <= k < d.type_parameters@.len() ==> (#[trigger] d.type_parameters@[k]).name.text@
                        == fn_decl.type_parameters@[k].name.text@
                &&& valid_id(final(engine)@, d.return_type.type_id)
                &&& d.return_type.initial_type_id == fn_decl.return_type.initial_type_id
                &&& d.return_type.span == fn_decl.return_type.span
                &&& (match resolve_spec(st.slots, st.params.binds, fn_decl.return_type.type_id) {
                    Some(t) => d.return_type.type_id == t,
                    None => final(engine)@[d.return_type.type_id.index as int] is ErrorRecovery,
                })
                &&& (d.body.contents@.len() == fn_decl.body.contents@.len()
                    || d.body.contents@.len() == 0)
            }),
    {
        // If functions aren't allowed in this location, refuse the whole
        // declaration: a structural error, no partial result.
        if ctx.functions_disallowed {
            return Err(
                handler.emit_err(CompileError::NestedFunctionsDisallowed { span: fn_decl.span }),
            );
        }
        // Warn against non-snake-case function names; never blocks.
        if !is_snake_case(fn_decl.name.text.as_str()) {
            handler.emit_warn(
                Warning::NonSnakeCaseFunctionName {
                    name: fn_decl.name.text.clone(),
                    span: fn_decl.name.span,
                },
            );
        }
        let ghost warnings_after_style = handler.warnings_v();
        proof {
            assert(warnings_after_style =~= old(handler).warnings_v() + snake_warnings(
                fn_decl.name,
            ));
        }
        // The function's own scope: sequential constant shadowing, its own
        // purity, and no nested function declarations.
        let ghost outer_abi_mode = ctx.abi_mode;
        let ghost ns0 = ctx.namespace@;
        let mut ctx = ctx.with_purity(fn_decl.purity).with_const_shadowing_mode(
            ConstShadowingMode::Sequential,
        ).disallow_functions();
        proof {
            assert(ctx.abi_mode == outer_abi_mode);
            assert(ctx.namespace@ == ns0);
        }

        // Bind the generic parameters into the scope.
        let new_type_parameters = match type_check_type_params(
            handler,
            &mut ctx.namespace,
            engine,
            &fn_decl.type_parameters,
        ) {
            Ok(v) => v,
            Err(t) => {
                return Err(t);
            },
        };
        let ghost slots2 = engine@;
        let ghost fold_full = params_fold(slots2, ctx.namespace@, fn_decl.parameters@);
        proof {
            assert(binds_valid(ctx.namespace@, engine@.len() as int));
            assert(fn_decl.parameters@.skip(0) =~= fn_decl.parameters@);
            assert(fold_full == staged(old(engine)@, ns0, fn_decl).params);
        }

        // Bind and check the value parameters. Binding continues across all
        // of them even after a failure: each failure is recorded at once,
        // and a ticket is re-raised only after the full list was processed.
        let mut new_parameters: Vec<TyFunctionParameter> = Vec::new();
        let mut error_emitted: Option<ErrorEmitted> = None;
        let mut i: usize = 0;
        while i < fn_decl.parameters.len()
            invariant
                i <= fn_decl.parameters@.len(),
                ctx.abi_mode == outer_abi_mode,
                engine.wf(),
                engine@ == slots2,
                forall|k: int|
                    0 <= k < fn_decl.parameters@.len() ==> valid_id(
                        engine@,
                        (#[trigger] fn_decl.parameters@[k]).type_argument.type_id,
                    ),
                binds_valid(ctx.namespace@, engine@.len() as int),
                handler.warnings_v() == warnings_after_style,
                handler.errors_v().len() >= old(handler).errors_v().len(),
                error_emitted is Some ==> handler.errors_v().len() > old(handler).errors_v().len(),
                params_fold(slots2, ctx.namespace@, fn_decl.parameters@.skip(i as int)).binds
                    == fold_full.binds,
                fold_full.ok == (error_emitted is None && params_fold(
                    slots2,
                    ctx.namespace@,
                    fn_decl.parameters@.skip(i as int),
                ).ok),
                handler.errors_v() + params_fold(
                    slots2,
                    ctx.namespace@,
                    fn_decl.parameters@.skip(i as int),
                ).errors == old(handler).errors_v() + fold_full.errors,
                error_emitted is None ==> fold_full.resolved == param_type_ids(new_parameters@)
                    + params_fold(slots2, ctx.namespace@, fn_decl.parameters@.skip(i as int)).resolved,
                error_emitted is None ==> new_parameters@.len() == i
                    && handler.errors_v() == old(handler).errors_v(),
                forall|k: int|
                    0 <= k < new_parameters@.len() && error_emitted is None ==> ({
                        let dp = #[trigger] new_parameters@[k];
                        let fp = fn_decl.parameters@[k];
                        &&& dp.name.text@ == fp.name.text@
                        &&& dp.name.span == fp.name.span
                        &&& dp.is_reference == fp.is_reference
                        &&& dp.is_mutable == fp.is_mutable
                        &&& dp.mutability_span == fp.mutability_span
                        &&& dp.type_argument.initial_type_id == fp.type_argument.initial_type_id
                        &&& dp.type_argument.span == fp.type_argument.span
                        &&& valid_id(engine@, dp.type_argument.type_id)
                    }),
            decreases fn_decl.parameters@.len() - i,
        {
            proof {
                assert(fn_decl.parameters@.skip(i as int)[0] == fn_decl.parameters@[i as int]);
                assert(fn_decl.parameters@.skip(i as int).drop_first() =~= fn_decl.parameters@.skip(
                    i as int + 1,
                ));
            }
            let ghost ids_before = param_type_ids(new_parameters@);
            match TyFunctionParameter::type_check(
                handler,
                &mut ctx.namespace,
                engine,
                &fn_decl.parameters[i],
            ) {
                Ok(p) => {
                    proof {
                        assert(param_type_ids(new_parameters@.push(p)) =~= ids_before.push(
                            p.type_argument.type_id,
                        ));
                        assert(ids_before.push(p.type_argument.type_id) =~= ids_before + seq![
                            p.type_argument.type_id,
                        ]);
                    }
                    new_parameters.push(p);
                },
                Err(t) => {
                    error_emitted = Some(t);
                },
            }
            i += 1;
        }
        proof {
            assert(fn_decl.parameters@.skip(fn_decl.parameters@.len() as int).len() == 0);
            assert(handler.errors_v() + Seq::<ErrorV>::empty() =~= handler.errors_v());
            if error_emitted is None {
                assert(param_type_ids(new_parameters@) + Seq::<TypeId>::empty()
                    =~= param_type_ids(new_parameters@));
            }
        }
        let ghost errs_after_params = handler.errors_v();
        proof {
            assert(errs_after_params == old(handler).errors_v() + fold_full.errors);
            assert(errs_after_params.subrange(
                old(handler).errors_v().len() as int,
                errs_after_params.len() as int,
            ) =~= fold_full.errors);
        }
        if let Some(t) = error_emitted {
            return Err(t);
        }

        // Resolve the declared return type. A failure was recorded in the
        // sink already; substitute error recovery and keep checking, because
        // a missing return type must not block checking of the body.
        let return_type_id = match ctx.namespace.resolve_type(
            handler,
            engine,
            fn_decl.return_type.type_id,
            &fn_decl.return_type.span,
        ) {
            Ok(t) => t,
            Err(_) => engine.insert(TypeInfo::ErrorRecovery),
        };
        let ghost slots_after_resolve = engine@;
        let ghost errs_after_resolve = handler.errors_v();
        proof {
            assert(errs_after_resolve.subrange(0, errs_after_params.len() as int)
                =~= errs_after_params);
        }
        let return_type = TypeArgument {
            type_id: return_type_id,
            initial_type_id: fn_decl.return_type.initial_type_id,
            span: fn_decl.return_type.span,
        };

        // Check the body against the resolved annotation: the trailing
        // implicit return is unified against it in there, a mismatch
        // recorded without aborting. On internal failure substitute an empty
        // body: a degraded but total result rather than an abort.
        let body = match check_code_block(
            handler,
            &ctx.namespace,
            engine,
            &fn_decl.body,
            Some(return_type_id),
        ) {
            Ok(p) => {
                proof {
                    assert(preserves_concrete(slots_after_resolve, engine@));
                }
                p.0
            },
            Err(_) => {
                let ghost before_recovery = engine@;
                let _ = engine.insert(TypeInfo::ErrorRecovery);
                proof {
                    assert forall|j: int|
                        0 <= j < slots_after_resolve.len() && !((
                        #[trigger] slots_after_resolve[j]) is Numeric) implies engine@[j]
                        == slots_after_resolve[j] by {
                        assert(before_recovery[j] == slots_after_resolve[j]);
                    }
                    assert(preserves_concrete(slots_after_resolve, engine@));
                }
                TyCodeBlock { contents: Vec::new() }
            },
        };
        let ghost errs_after_body = handler.errors_v();
        proof {
            assert(errs_after_body.subrange(0, errs_after_resolve.len() as int)
                =~= errs_after_resolve);
            assert(errs_after_body.subrange(0, errs_after_params.len() as int)
                =~= errs_after_params);
        }

        // Gather every reachable return statement and unify each against the
        // declared return type.
        let return_statements = body.gather_return_statements();
        let ghost slots_before_unify = engine@;
        proof {
            if body.contents@.len() == 0 {
                assert(return_statements@.len() == 0);
            }
            assert(sites_valid(return_statements@, engine@));
            lemma_unify_all_len(engine@, return_statements@, return_type_id);
            if resolve_spec(slots2, fold_full.binds, fn_decl.return_type.type_id) is None {
                assert(slots_after_resolve[return_type_id.index as int] is ErrorRecovery);
                assert(engine@[return_type_id.index as int]
                    == slots_after_resolve[return_type_id.index as int]);
                lemma_unify_all_preserves(
                    engine@,
                    return_statements@,
                    return_type_id,
                    return_type_id.index as int,
                );
            }
        }
        let unify_result = unify_return_statements(
            handler,
            engine,
            &return_statements,
            return_type_id,
        );
        proof {
            // the arena kept every concrete descriptor of the caller's slots
            assert forall|j: int|
                0 <= j < old(engine)@.len() && !((#[trigger] old(engine)@[j]) is Numeric) implies
                engine@[j] == old(engine)@[j] by {
                assert(slots2[j] == old(engine)@[j]);
                assert(slots_after_resolve[j] == slots2[j]);
                assert(slots_before_unify[j] == slots_after_resolve[j]);
                lemma_unify_all_preserves(
                    slots_before_unify,
                    return_statements@,
                    return_type_id,
                    j,
                );
            }
            // the parameter diagnostics stay where the binding stage put them
            assert(handler.errors_v().subrange(0, errs_after_body.len() as int)
                =~= errs_after_body);
            assert(handler.errors_v().subrange(0, errs_after_params.len() as int)
                =~= errs_after_params);
            assert(handler.errors_v().subrange(
                old(handler).errors_v().len() as int,
                old(handler).errors_v().len() + fold_full.errors.len() as int,
            ) =~= fold_full.errors);
        }
        match unify_result {
            Ok(u) => u,
            Err(t) => {
                proof {
                    let mism = unify_all_spec(
                        slots_before_unify,
                        return_statements@,
                        return_type_id,
                    ).1;
                    lemma_unify_all_errors_are_mismatches(
                        slots_before_unify,
                        return_statements@,
                        return_type_id,
                    );
                    assert(mism.len() > 0);
                    assert(handler.errors_v().last() == mism[mism.len() - 1]);
                }
                return Err(t);
            },
        };

        // Decide visibility and contract-call status from the call context.
        let classified = classify_visibility(
            fn_decl.visibility,
            is_method,
            is_in_impl_self,
            ctx.abi_mode,
        );

        let function_decl = TyFunctionDecl {
            name: fn_decl.name,
            body,
            parameters: new_parameters,
            implementing_type: None,
            span: fn_decl.span,
            return_type,
            type_parameters: new_type_parameters,
            visibility: classified.0,
            is_contract_call: classified.1,
            purity: fn_decl.purity,
        };
        Ok(function_decl)
    }
}

} // verus!
