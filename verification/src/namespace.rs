//! The scoped symbol environment and the flags a declaration is checked
//! under, together with resolution of syntactic type names against it.

use vstd::prelude::*;

use crate::diagnostics::{CompileError, ErrorEmitted, ErrorV, Handler};
use crate::span::Span;
use crate::type_system::{valid_id, TypeEngine, TypeId, TypeInfo, TypeInfoV};

verus! {

/// Declared visibility of an item.
#[derive(Clone, Copy, PartialEq, Eq, Structural, Debug)]
pub enum Visibility {
    Private,
    Public,
}

/// The effect discipline a function declares.
#[derive(Clone, Copy, PartialEq, Eq, Structural, Debug)]
pub enum Purity {
    Pure,
    Reads,
    Writes,
    ReadsWrites,
}

/// Whether the enclosing scope is an ABI implementation: only there a free
/// function is an externally callable contract entry point.
#[derive(Clone, Copy, PartialEq, Eq, Structural, Debug)]
pub enum AbiMode {
    ImplAbiFn,
    NonAbi,
}

/// How constant shadowing behaves in the current scope.
#[derive(Clone, Copy, PartialEq, Eq, Structural, Debug)]
pub enum ConstShadowingMode {
    Sequential,
    ItemStyle,
}

/// One name bound to a type identifier.
pub struct Binding {
    pub name: String,
    pub type_id: TypeId,
}

/// The mathematical shape of a [`Binding`].
pub struct BindV {
    pub name: Seq<char>,
    pub type_id: TypeId,
}

impl View for Binding {
    type V = BindV;

    open spec fn view(&self) -> BindV {
        BindV { name: self.name@, type_id: self.type_id }
    }
}

/// The name bound most recently, if any: later bindings shadow earlier ones.
pub open spec fn lookup_spec(binds: Seq<BindV>, name: Seq<char>) -> Option<TypeId>
    decreases binds.len(),
{
    if binds.len() == 0 {
        None
    } else if binds.last().name == name {
        Some(binds.last().type_id)
    } else {
        lookup_spec(binds.drop_last(), name)
    }
}

/// Every identifier bound in `binds` is a handle into an arena of `n` slots.
pub open spec fn binds_valid(binds: Seq<BindV>, n: int) -> bool {
    forall|i: int| 0 <= i < binds.len() ==> (#[trigger] binds[i]).type_id.index < n
}

/// Whatever lookup finds in a valid environment is a valid handle.
pub proof fn lemma_lookup_valid(binds: Seq<BindV>, name: Seq<char>, n: int)
    requires
        binds_valid(binds, n),
    ensures
        match lookup_spec(binds, name) {
            Some(id) => id.index < n,
            None => true,
        },
    decreases binds.len(),
{
    if binds.len() > 0 && !(binds.last().name == name) {
        assert(binds_valid(binds.drop_last(), n));
        lemma_lookup_valid(binds.drop_last(), name, n);
    }
}

/// The symbol environment of one scope.
pub struct Namespace {
    pub bindings: Vec<Binding>,
}

impl View for Namespace {
    type V = Seq<BindV>;

    open spec fn view(&self) -> Seq<BindV> {
        self.bindings@.map_values(|b: Binding| b@)
    }
}

impl Namespace {
    /// A scope with nothing bound.
    pub fn new() -> (ns: Namespace)
        ensures
            ns@ == Seq::<BindV>::empty(),
    {
        let ns = Namespace { bindings: Vec::new() };
        proof {
            assert(ns@ =~= Seq::<BindV>::empty());
        }
        ns
    }

    /// Binds `name` to `id`; an existing binding of the same name is
    /// shadowed, not replaced.
    pub fn insert_symbol(&mut self, name: String, id: TypeId)
        ensures
            final(self)@ == old(self)@.push(BindV { name: name@, type_id: id }),
    {
        self.bindings.push(Binding { name, type_id: id });
        proof {
            assert(self@ =~= old(self)@.push(BindV { name: name@, type_id: id }));
        }
    }

    /// An independent copy of this scope, for checking a declaration without
    /// disturbing the caller's bindings: the check mutates the scope it is
    /// given and assumes exclusive access to it for the declaration's
    /// lifetime.
    pub fn child(&self) -> (ns: Namespace)
        ensures
            ns@ == self@,
    {
        let mut bindings: Vec<Binding> = Vec::new();
        let mut i: usize = 0;
        while i < self.bindings.len()
            invariant
                i <= self.bindings@.len(),
                bindings@.len() == i,
                forall|k: int| 0 <= k < i ==> (#[trigger] bindings@[k])@ == self@[k],
            decreases self.bindings@.len() - i,
        {
            let copy = Binding {
                name: self.bindings[i].name.clone(),
                type_id: self.bindings[i].type_id,
            };
            proof {
                assert(self@[i as int] == self.bindings@[i as int]@);
                assert(copy@ == self@[i as int]);
            }
            bindings.push(copy);
            i += 1;
        }
        let ns = Namespace { bindings };
        proof {
            assert forall|k: int| 0 <= k < ns@.len() implies ns@[k] == self@[k] by {
                assert(ns@[k] == ns.bindings@[k]@);
            }
            assert(ns@ =~= self@);
        }
        ns
    }

    /// Looks `name` up, latest binding first.
    pub fn lookup(&self, name: &String) -> (r: Option<TypeId>)
        ensures
            r == lookup_spec(self@, name@),
    {
        let mut i: usize = self.bindings.len();
        proof {
            assert(self@.take(i as int) =~= self@);
        }
        while i > 0
            invariant
                i <= self.bindings.len(),
                lookup_spec(self@, name@) == lookup_spec(self@.take(i as int), name@),
            decreases i,
        {
            i -= 1;
            if self.bindings[i].name == *name {
                proof {
                    assert(self@.take(i as int + 1).last() == self@[i as int]);
                }
                return Some(self.bindings[i].type_id);
            }
            proof {
                assert(self@.take(i as int + 1).last() == self@[i as int]);
                assert(self@.take(i as int + 1).drop_last() =~= self@.take(i as int));
            }
        }
        proof {
            assert(self@.take(0).len() == 0);
        }
        None
    }

    /// Resolves `type_id` against this scope: a [`TypeInfoV::Custom`] name is
    /// looked up (reporting an unknown name to the sink), anything else is
    /// already resolved.
    pub fn resolve_type(
        &self,
        handler: &mut Handler,
        engine: &TypeEngine,
        type_id: TypeId,
        span: &Span,
    ) -> (r: Result<TypeId, ErrorEmitted>)
        requires
            valid_id(engine@, type_id),
            binds_valid(self@, engine@.len() as int),
        ensures
            match resolve_spec(engine@, self@, type_id) {
                Some(t) => r == Result::<TypeId, ErrorEmitted>::Ok(t) && valid_id(engine@, t)
                    && *final(handler) == *old(handler),
                None => r is Err && final(handler).errors_v() == old(handler).errors_v().push(
                    ErrorV::UnknownTypeName {
                        name: custom_name(engine@[type_id.index as int]),
                        span: *span,
                    },
                ) && final(handler).warnings_v() == old(handler).warnings_v(),
            },
    {
        proof {
            assert(engine@[type_id.index as int] == engine.slots@[type_id.index as int]@);
        }
        match engine.get(type_id) {
            TypeInfo::Custom { name } => {
                match self.lookup(name) {
                    Some(t) => {
                        proof {
                            lemma_lookup_valid(self@, name@, engine@.len() as int);
                        }
                        Ok(t)
                    },
                    None => Err(
                        handler.emit_err(
                            CompileError::UnknownTypeName { name: name.clone(), span: *span },
                        ),
                    ),
                }
            },
            _ => Ok(type_id),
        }
    }
}

/// The shape a syntactic type name takes in the arena; empty for any other
/// descriptor.
pub open spec fn custom_name(info: TypeInfoV) -> Seq<char> {
    match info {
        TypeInfoV::Custom { name } => name,
        _ => Seq::empty(),
    }
}

/// What resolution returns: a syntactic name resolves to whatever the scope
/// binds it to; every other descriptor already stands for itself.
pub open spec fn resolve_spec(slots: Seq<TypeInfoV>, binds: Seq<BindV>, id: TypeId) -> Option<
    TypeId,
> {
    match slots[id.index as int] {
        TypeInfoV::Custom { name } => lookup_spec(binds, name),
        _ => Some(id),
    }
}

/// The context one declaration is checked in: its scope plus the flags that
/// the surrounding declaration pass set.
pub struct TypeCheckContext {
    pub namespace: Namespace,
    pub purity: Purity,
    pub abi_mode: AbiMode,
    pub const_shadowing_mode: ConstShadowingMode,
    pub functions_disallowed: bool,
}

impl TypeCheckContext {
    /// A context over `namespace` with the default flags.
    pub fn new(namespace: Namespace) -> (ctx: TypeCheckContext)
        ensures
            ctx.namespace == namespace,
            ctx.purity == Purity::Pure,
            ctx.abi_mode == AbiMode::NonAbi,
            ctx.const_shadowing_mode == ConstShadowingMode::ItemStyle,
            !ctx.functions_disallowed,
    {
        TypeCheckContext {
            namespace,
            purity: Purity::Pure,
            abi_mode: AbiMode::NonAbi,
            const_shadowing_mode: ConstShadowingMode::ItemStyle,
            functions_disallowed: false,
        }
    }

    /// The same context under another purity.
    pub fn with_purity(self, purity: Purity) -> (r: TypeCheckContext)
        ensures
            r == (TypeCheckContext { purity, ..self }),
    {
        TypeCheckContext { purity, ..self }
    }

    /// The same context under another ABI mode.
    pub fn with_abi_mode(self, abi_mode: AbiMode) -> (r: TypeCheckContext)
        ensures
            r == (TypeCheckContext { abi_mode, ..self }),
    {
        TypeCheckContext { abi_mode, ..self }
    }

    /// The same context under another constant shadowing mode.
    pub fn with_const_shadowing_mode(self, mode: ConstShadowingMode) -> (r: TypeCheckContext)
        ensures
            r == (TypeCheckContext { const_shadowing_mode: mode, ..self }),
    {
        TypeCheckContext { const_shadowing_mode: mode, ..self }
    }

    /// The same context with function declarations disallowed, as inside a
    /// function body.
    pub fn disallow_functions(self) -> (r: TypeCheckContext)
        ensures
            r == (TypeCheckContext { functions_disallowed: true, ..self }),
    {
        TypeCheckContext { functions_disallowed: true, ..self }
    }

}

} // verus!
