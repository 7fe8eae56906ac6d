//! The diagnostic sink: an append-only log of warnings and errors for one
//! compilation run, threaded explicitly through every checking function.
//!
//! A fallible operation reports its diagnostic here and returns an
//! [`ErrorEmitted`] ticket: a payload-free proof that an error was recorded.
//! Callers propagate the ticket to short-circuit, and never re-derive the
//! diagnostic from it.

use vstd::prelude::*;

use crate::span::Span;
use crate::type_system::TypeId;

verus! {

/// A style or advisory finding; never blocks the check.
#[derive(Debug)]
pub enum Warning {
    NonSnakeCaseFunctionName { name: String, span: Span },
}

/// The mathematical shape of a [`Warning`].
pub enum WarningV {
    NonSnakeCaseFunctionName { name: Seq<char>, span: Span },
}

impl View for Warning {
    type V = WarningV;

    open spec fn view(&self) -> WarningV {
        match self {
            Warning::NonSnakeCaseFunctionName { name, span } => {
                WarningV::NonSnakeCaseFunctionName { name: name@, span: *span }
            },
        }
    }
}

/// A failure of the check. Every variant names the inputs that produce it.
#[derive(Debug)]
pub enum CompileError {
    /// A function was declared where the context disallows function
    /// declarations (a structural error: the whole declaration is refused).
    NestedFunctionsDisallowed { span: Span },
    /// Two generic parameters of one declaration share a name.
    DuplicateGenericName { name: String, span: Span },
    /// A syntactic type name could not be found in scope.
    UnknownTypeName { name: String, span: Span },
    /// A variable in the body is not bound in scope.
    UnknownVariable { name: String, span: Span },
    /// A return statement's type does not unify with the declared return type.
    TypeMismatch { expected: TypeId, found: TypeId, span: Span },
    /// Selector encoding reached a descriptor that has no canonical encoding.
    TypeNotAllowedInSelector { span: Span },
}

/// The mathematical shape of a [`CompileError`].
pub enum ErrorV {
    NestedFunctionsDisallowed { span: Span },
    DuplicateGenericName { name: Seq<char>, span: Span },
    UnknownTypeName { name: Seq<char>, span: Span },
    UnknownVariable { name: Seq<char>, span: Span },
    TypeMismatch { expected: TypeId, found: TypeId, span: Span },
    TypeNotAllowedInSelector { span: Span },
}

impl View for CompileError {
    type V = ErrorV;

    open spec fn view(&self) -> ErrorV {
        match self {
            CompileError::NestedFunctionsDisallowed { span } => {
                ErrorV::NestedFunctionsDisallowed { span: *span }
            },
            CompileError::DuplicateGenericName { name, span } => {
                ErrorV::DuplicateGenericName { name: name@, span: *span }
            },
            CompileError::UnknownTypeName { name, span } => {
                ErrorV::UnknownTypeName { name: name@, span: *span }
            },
            CompileError::UnknownVariable { name, span } => {
                ErrorV::UnknownVariable { name: name@, span: *span }
            },
            CompileError::TypeMismatch { expected, found, span } => {
                ErrorV::TypeMismatch { expected: *expected, found: *found, span: *span }
            },
            CompileError::TypeNotAllowedInSelector { span } => {
                ErrorV::TypeNotAllowedInSelector { span: *span }
            },
        }
    }
}

/// Proof that an error was recorded in the sink. It carries no payload and
/// must not be interpreted; its mere presence lets control flow short-circuit
/// without duplicating the diagnostic.
#[derive(Clone, Copy, PartialEq, Eq, Structural, Debug)]
pub struct ErrorEmitted;

/// The sequence of warning shapes held by a warning log.
pub open spec fn warnings_view(s: Seq<Warning>) -> Seq<WarningV> {
    s.map_values(|w: Warning| w@)
}

/// The sequence of error shapes held by an error log.
pub open spec fn errors_view(s: Seq<CompileError>) -> Seq<ErrorV> {
    s.map_values(|e: CompileError| e@)
}

/// The diagnostic sink for one compilation run.
pub struct Handler {
    pub warnings: Vec<Warning>,
    pub errors: Vec<CompileError>,
}

impl Handler {
    /// The warnings recorded so far, oldest first.
    pub open spec fn warnings_v(&self) -> Seq<WarningV> {
        warnings_view(self.warnings@)
    }

    /// The errors recorded so far, oldest first.
    pub open spec fn errors_v(&self) -> Seq<ErrorV> {
        errors_view(self.errors@)
    }

    /// A sink with nothing recorded.
    pub fn new() -> (h: Handler)
        ensures
            h.warnings_v() == Seq::<WarningV>::empty(),
            h.errors_v() == Seq::<ErrorV>::empty(),
    {
        let h = Handler { warnings: Vec::new(), errors: Vec::new() };
        proof {
            assert(h.warnings_v() =~= Seq::<WarningV>::empty());
            assert(h.errors_v() =~= Seq::<ErrorV>::empty());
        }
        h
    }

    /// Records a warning. Warnings never block.
    pub fn emit_warn(&mut self, warning: Warning)
        ensures
            final(self).warnings_v() == old(self).warnings_v().push(warning@),
            final(self).errors_v() == old(self).errors_v(),
    {
        self.warnings.push(warning);
        proof {
            assert(self.warnings_v() =~= old(self).warnings_v().push(warning@));
        }
    }

    /// Records an error and hands back the ticket that proves it.
    pub fn emit_err(&mut self, error: CompileError) -> (t: ErrorEmitted)
        ensures
            final(self).errors_v() == old(self).errors_v().push(error@),
            final(self).warnings_v() == old(self).warnings_v(),
    {
        self.errors.push(error);
        proof {
            assert(self.errors_v() =~= old(self).errors_v().push(error@));
        }
        ErrorEmitted
    }
}

} // verus!
