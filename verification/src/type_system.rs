//! The type engine: an arena of type descriptors indexed by small integer
//! identifiers.
//!
//! A [`TypeId`] is an opaque handle into the arena; its equality is identity,
//! not structure. Unification may rewrite the descriptor behind an identifier,
//! so every holder of that identifier observes the update.

use vstd::prelude::*;

use crate::diagnostics::{CompileError, ErrorV, Warning};
use crate::span::Span;

verus! {

/// A handle into the type engine's arena.
#[derive(Clone, Copy, PartialEq, Eq, Structural, Debug)]
pub struct TypeId {
    pub index: usize,
}

/// The bit width of an unsigned integer type.
#[derive(Clone, Copy, PartialEq, Eq, Structural, Debug)]
pub enum IntegerBits {
    Eight,
    Sixteen,
    ThirtyTwo,
    SixtyFour,
}

/// The concrete shape a type identifier currently resolves to.
///
/// Composite descriptors refer to their components by identifier; the arena
/// interns components before the composite, so component indices are always
/// below the composite's own index.
pub enum TypeInfo {
    /// An integer literal whose concrete width is not yet decided.
    Numeric,
    Boolean,
    UnsignedInteger(IntegerBits),
    /// A string of fixed length.
    Str(u64),
    Tuple(Vec<TypeId>),
    Array(TypeId, u64),
    Struct { name: String, fields: Vec<TypeId> },
    Enum { name: String, variants: Vec<TypeId> },
    /// A syntactic type name not yet resolved against the scope.
    Custom { name: String },
    /// A generic parameter bound in some scope.
    UnknownGeneric { name: String },
    /// Sentinel substituted after a failure already recorded in the sink; it
    /// keeps later analysis total and unifies with anything.
    ErrorRecovery,
}

/// The mathematical shape of a [`TypeInfo`].
pub enum TypeInfoV {
    Numeric,
    Boolean,
    UnsignedInteger(IntegerBits),
    Str(u64),
    Tuple(Seq<TypeId>),
    Array(TypeId, u64),
    Struct { name: Seq<char>, fields: Seq<TypeId> },
    Enum { name: Seq<char>, variants: Seq<TypeId> },
    Custom { name: Seq<char> },
    UnknownGeneric { name: Seq<char> },
    ErrorRecovery,
}

impl View for TypeInfo {
    type V = TypeInfoV;

    open spec fn view(&self) -> TypeInfoV {
        match self {
            TypeInfo::Numeric => TypeInfoV::Numeric,
            TypeInfo::Boolean => TypeInfoV::Boolean,
            TypeInfo::UnsignedInteger(bits) => TypeInfoV::UnsignedInteger(*bits),
            TypeInfo::Str(len) => TypeInfoV::Str(*len),
            TypeInfo::Tuple(fields) => TypeInfoV::Tuple(fields@),
            TypeInfo::Array(elem, len) => TypeInfoV::Array(*elem, *len),
            TypeInfo::Struct { name, fields } => {
                TypeInfoV::Struct { name: name@, fields: fields@ }
            },
            TypeInfo::Enum { name, variants } => {
                TypeInfoV::Enum { name: name@, variants: variants@ }
            },
            TypeInfo::Custom { name } => TypeInfoV::Custom { name: name@ },
            TypeInfo::UnknownGeneric { name } => TypeInfoV::UnknownGeneric { name: name@ },
            TypeInfo::ErrorRecovery => TypeInfoV::ErrorRecovery,
        }
    }
}

/// A type argument as written at a use site: the initial identifier records
/// the surface syntax for diagnostics and provenance only; every downstream
/// decision reads the resolved identifier.
#[derive(Clone, Copy, PartialEq, Eq, Structural, Debug)]
pub struct TypeArgument {
    /// The resolved identifier; rewritten by resolution and the only one the
    /// selector encoder and the unifier ever read.
    pub type_id: TypeId,
    /// The identifier produced for the surface syntax, kept for provenance.
    pub initial_type_id: TypeId,
    pub span: Span,
}

impl TypeArgument {
    /// A fresh argument whose resolved and initial identifiers coincide.
    pub fn from_id(id: TypeId, span: Span) -> (a: TypeArgument)
        ensures
            a == (TypeArgument { type_id: id, initial_type_id: id, span: span }),
    {
        TypeArgument { type_id: id, initial_type_id: id, span }
    }
}

/// All component identifiers of `info` lie strictly below `bound`.
pub open spec fn components_below(info: TypeInfoV, bound: int) -> bool {
    match info {
        TypeInfoV::Tuple(fields) => forall|i: int|
            0 <= i < fields.len() ==> (#[trigger] fields[i]).index < bound,
        TypeInfoV::Array(elem, _) => elem.index < bound,
        TypeInfoV::Struct { fields, .. } => forall|i: int|
            0 <= i < fields.len() ==> (#[trigger] fields[i]).index < bound,
        TypeInfoV::Enum { variants, .. } => forall|i: int|
            0 <= i < variants.len() ==> (#[trigger] variants[i]).index < bound,
        _ => true,
    }
}

/// `info` has no components at all, so rewriting any slot to it cannot break
/// the arena's ordering.
pub open spec fn component_free(info: TypeInfoV) -> bool {
    match info {
        TypeInfoV::Tuple(_) => false,
        TypeInfoV::Array(_, _) => false,
        TypeInfoV::Struct { .. } => false,
        TypeInfoV::Enum { .. } => false,
        _ => true,
    }
}

/// `more` holds everything `base` holds, unchanged and in place, and
/// possibly further descriptors after it. Checking only ever appends to or
/// rewrites single slots of the arena; rewriting is confined to `unify`, so
/// every stage that merely interns new descriptors extends the arena.
pub open spec fn extends(base: Seq<TypeInfoV>, more: Seq<TypeInfoV>) -> bool {
    base.len() <= more.len() && (forall|i: int| 0 <= i < base.len() ==> more[i] == #[trigger] base[i])
}

/// Every slot of `base` that is not a numeric placeholder survives into
/// `more` unchanged and in place; `more` may hold further descriptors after
/// them. This is what a whole checking pass guarantees of the arena: stages
/// intern new descriptors at the end, and only unification rewrites a slot,
/// always a [`TypeInfoV::Numeric`] one.
pub open spec fn preserves_concrete(base: Seq<TypeInfoV>, more: Seq<TypeInfoV>) -> bool {
    base.len() <= more.len() && (forall|i: int|
        0 <= i < base.len() && !((#[trigger] base[i]) is Numeric) ==> more[i] == base[i])
}

/// `id` is a handle into an arena of the given contents.
pub open spec fn valid_id(slots: Seq<TypeInfoV>, id: TypeId) -> bool {
    id.index < slots.len()
}

/// Two descriptors that unification accepts without rewriting anything.
/// Composite descriptors match only when their components are the *same*
/// identifiers: identifier equality is identity, never structure.
pub open spec fn descriptors_match(a: TypeInfoV, b: TypeInfoV) -> bool {
    match (a, b) {
        (TypeInfoV::Boolean, TypeInfoV::Boolean) => true,
        (TypeInfoV::Numeric, TypeInfoV::Numeric) => true,
        (TypeInfoV::UnsignedInteger(x), TypeInfoV::UnsignedInteger(y)) => x == y,
        (TypeInfoV::Str(n), TypeInfoV::Str(m)) => n == m,
        (TypeInfoV::Tuple(x), TypeInfoV::Tuple(y)) => x == y,
        (TypeInfoV::Array(e1, n1), TypeInfoV::Array(e2, n2)) => e1 == e2 && n1 == n2,
        (
            TypeInfoV::Struct { name: n1, fields: f1 },
            TypeInfoV::Struct { name: n2, fields: f2 },
        ) => n1 == n2 && f1 == f2,
        (
            TypeInfoV::Enum { name: n1, variants: v1 },
            TypeInfoV::Enum { name: n2, variants: v2 },
        ) => n1 == n2 && v1 == v2,
        _ => false,
    }
}

/// What one unification call does to the arena and which errors it records:
/// the updated arena contents and the mismatch errors, in order.
///
/// Identical identifiers and [`TypeInfoV::ErrorRecovery`] unify silently; a
/// still-undecided [`TypeInfoV::Numeric`] is rewritten in place to a concrete
/// unsigned integer met on the other side, which every holder of that
/// identifier observes; matching descriptors unify without effect; everything
/// else is a mismatch, reported and left unchanged.
pub open spec fn unify_spec(slots: Seq<TypeInfoV>, found: TypeId, expected: TypeId, span: Span) -> (
    Seq<TypeInfoV>,
    Seq<ErrorV>,
) {
    let a = slots[found.index as int];
    let b = slots[expected.index as int];
    if found.index == expected.index {
        (slots, Seq::empty())
    } else if a is ErrorRecovery || b is ErrorRecovery {
        (slots, Seq::empty())
    } else if a is Numeric && b is UnsignedInteger {
        (slots.update(found.index as int, b), Seq::empty())
    } else if a is UnsignedInteger && b is Numeric {
        (slots.update(expected.index as int, a), Seq::empty())
    } else if descriptors_match(a, b) {
        (slots, Seq::empty())
    } else {
        (slots, seq![ErrorV::TypeMismatch { expected, found, span }])
    }
}

/// The type engine. It owns the arena; all reads and writes go through it.
pub struct TypeEngine {
    pub slots: Vec<TypeInfo>,
}

impl View for TypeEngine {
    type V = Seq<TypeInfoV>;

    open spec fn view(&self) -> Seq<TypeInfoV> {
        self.slots@.map_values(|t: TypeInfo| t@)
    }
}

impl TypeEngine {
    /// Every composite descriptor's components lie strictly below its own
    /// index: components are interned before the composites built from them.
    pub open spec fn wf(&self) -> bool {
        forall|i: int| 0 <= i < self@.len() ==> components_below(#[trigger] self@[i], i)
    }

    /// An engine with nothing interned.
    pub fn new() -> (e: TypeEngine)
        ensures
            e@ == Seq::<TypeInfoV>::empty(),
            e.wf(),
    {
        let e = TypeEngine { slots: Vec::new() };
        proof {
            assert(e@ =~= Seq::<TypeInfoV>::empty());
        }
        e
    }

    /// Interns a descriptor and hands back its fresh identifier. The
    /// descriptor's components must already be interned.
    pub fn insert(&mut self, info: TypeInfo) -> (id: TypeId)
        requires
            components_below(info@, old(self)@.len() as int),
        ensures
            final(self)@ == old(self)@.push(info@),
            id.index == old(self)@.len(),
            old(self).wf() ==> final(self).wf(),
    {
        let index = self.slots.len();
        self.slots.push(info);
        proof {
            assert(self@ =~= old(self)@.push(info@));
            assert forall|i: int| 0 <= i < self@.len() && old(self).wf() implies components_below(
                #[trigger] self@[i],
                i,
            ) by {
                if i < old(self)@.len() {
                    assert(components_below(old(self)@[i], i));
                }
            }
        }
        TypeId { index }
    }

    /// Reads the descriptor currently behind `id`.
    pub fn get(&self, id: TypeId) -> (info: &TypeInfo)
        requires
            valid_id(self@, id),
        ensures
            info@ == self@[id.index as int],
    {
        &self.slots[id.index]
    }

    /// Reconciles `found` with `expected`, mutating the arena where a numeric
    /// placeholder meets a concrete integer, exactly as [`unify_spec`] says.
    /// Warnings are part of the unification interface; no descriptor kind
    /// modelled here produces one, so the returned list is empty.
    pub fn unify(&mut self, found: TypeId, expected: TypeId, span: Span) -> (r: (
        Vec<Warning>,
        Vec<CompileError>,
    ))
        requires
            valid_id(old(self)@, found),
            valid_id(old(self)@, expected),
        ensures
            final(self)@ == unify_spec(old(self)@, found, expected, span).0,
            crate::diagnostics::errors_view(r.1@) == unify_spec(
                old(self)@,
                found,
                expected,
                span,
            ).1,
            crate::diagnostics::warnings_view(r.0@) == Seq::<crate::diagnostics::WarningV>::empty(),
            old(self).wf() ==> final(self).wf(),
            final(self)@.len() == old(self)@.len(),
    {
        proof {
            assert(crate::diagnostics::warnings_view(Seq::<Warning>::empty()) =~= Seq::<
                crate::diagnostics::WarningV,
            >::empty());
        }
        let warnings: Vec<Warning> = Vec::new();
        let mut errors: Vec<CompileError> = Vec::new();
        proof {
            assert(warnings@ =~= Seq::<Warning>::empty());
            assert(crate::diagnostics::errors_view(errors@) =~= Seq::<ErrorV>::empty());
        }
        if found.index == expected.index {
            return (warnings, errors);
        }
        proof {
            assert(old(self)@[found.index as int] == old(self).slots@[found.index as int]@);
            assert(old(self)@[expected.index as int] == old(self).slots@[expected.index as int]@);
        }
        let decision: (bool, Option<IntegerBits>, Option<IntegerBits>) = decide_unify(
            &self.slots[found.index],
            &self.slots[expected.index],
        );
        let matched = decision.0;
        proof {
            let a = old(self)@[found.index as int];
            let b = old(self)@[expected.index as int];
            assert(matched == (a is ErrorRecovery || b is ErrorRecovery || (a is Numeric
                && b is UnsignedInteger) || (a is UnsignedInteger && b is Numeric)
                || descriptors_match(a, b)));
        }
        if let Some(bits) = decision.1 {
            self.slots[found.index] = TypeInfo::UnsignedInteger(bits);
        }
        if let Some(bits) = decision.2 {
            self.slots[expected.index] = TypeInfo::UnsignedInteger(bits);
        }
        proof {
            assert(self@ =~= unify_spec(old(self)@, found, expected, span).0);
            assert forall|i: int| 0 <= i < self@.len() && old(self).wf() implies components_below(
                #[trigger] self@[i],
                i,
            ) by {
                assert(components_below(old(self)@[i], i));
            }
        }
        if !matched {
            errors.push(CompileError::TypeMismatch { expected, found, span });
            proof {
                assert(crate::diagnostics::errors_view(errors@) =~= seq![
                    ErrorV::TypeMismatch { expected, found, span },
                ]);
                assert(unify_spec(old(self)@, found, expected, span).1 =~= seq![
                    ErrorV::TypeMismatch { expected, found, span },
                ]);
            }
        } else {
            proof {
                assert(unify_spec(old(self)@, found, expected, span).1 =~= Seq::<
                    ErrorV,
                >::empty());
                assert(crate::diagnostics::errors_view(errors@) =~= Seq::<ErrorV>::empty());
            }
        }
        (warnings, errors)
    }
}

/// Decides one unification step from the two descriptors alone: whether they
/// reconcile, and whether the found or the expected slot is a numeric
/// placeholder to be rewritten to the concrete integer met on the other side.
fn decide_unify(a: &TypeInfo, b: &TypeInfo) -> (r: (bool, Option<IntegerBits>, Option<IntegerBits>))
    ensures
        r.0 == (a@ is ErrorRecovery || b@ is ErrorRecovery || (a@ is Numeric
            && b@ is UnsignedInteger) || (a@ is UnsignedInteger && b@ is Numeric)
            || descriptors_match(a@, b@)),
        r.1 == (if a@ is Numeric && b@ is UnsignedInteger && !(a@ is ErrorRecovery)
            && !(b@ is ErrorRecovery) {
            Some(b@->UnsignedInteger_0)
        } else {
            Option::<IntegerBits>::None
        }),
        r.2 == (if a@ is UnsignedInteger && b@ is Numeric && !(a@ is ErrorRecovery)
            && !(b@ is ErrorRecovery) {
            Some(a@->UnsignedInteger_0)
        } else {
            Option::<IntegerBits>::None
        }),
{
    match (a, b) {
        (TypeInfo::ErrorRecovery, _) => (true, None, None),
        (_, TypeInfo::ErrorRecovery) => (true, None, None),
        (TypeInfo::Numeric, TypeInfo::UnsignedInteger(bits)) => (true, Some(*bits), None),
        (TypeInfo::UnsignedInteger(bits), TypeInfo::Numeric) => (true, None, Some(*bits)),
        (TypeInfo::Numeric, TypeInfo::Numeric) => (true, None, None),
        (TypeInfo::Boolean, TypeInfo::Boolean) => (true, None, None),
        (TypeInfo::UnsignedInteger(x), TypeInfo::UnsignedInteger(y)) => (*x == *y, None, None),
        (TypeInfo::Str(n), TypeInfo::Str(m)) => (*n == *m, None, None),
        (TypeInfo::Tuple(x), TypeInfo::Tuple(y)) => (id_vecs_equal(x, y), None, None),
        (TypeInfo::Array(e1, n1), TypeInfo::Array(e2, n2)) => {
            (e1.index == e2.index && *n1 == *n2, None, None)
        },
        (TypeInfo::Struct { name: n1, fields: f1 }, TypeInfo::Struct { name: n2, fields: f2 }) => {
            (*n1 == *n2 && id_vecs_equal(f1, f2), None, None)
        },
        (TypeInfo::Enum { name: n1, variants: v1 }, TypeInfo::Enum { name: n2, variants: v2 }) => {
            (*n1 == *n2 && id_vecs_equal(v1, v2), None, None)
        },
        _ => (false, None, None),
    }
}

/// Compares two component lists as identifiers.
fn id_vecs_equal(a: &Vec<TypeId>, b: &Vec<TypeId>) -> (r: bool)
    ensures
        r <==> a@ == b@,
{
    if a.len() != b.len() {
        proof {
            assert(a@ != b@);
        }
        return false;
    }
    let mut i: usize = 0;
    while i < a.len()
        invariant
            i <= a.len(),
            a@.len() == b@.len(),
            forall|j: int| 0 <= j < i ==> a@[j] == b@[j],
        decreases a@.len() - i,
    {
        if a[i].index != b[i].index {
            proof {
                assert(a@[i as int] != b@[i as int]);
            }
            return false;
        }
        i += 1;
    }
    proof {
        assert(a@ =~= b@);
    }
    true
}

} // verus!
