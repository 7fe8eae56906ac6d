//! The typed declaration produced by the check, the traversal that collects
//! every return statement reachable in a body, and the canonical selector
//! encoding of a resolved signature.

use vstd::prelude::*;
use vstd::string::StringExecFns;

use crate::diagnostics::{CompileError, ErrorEmitted, ErrorV, Handler};
use crate::namespace::{Purity, Visibility};
use crate::parsed::{Ident, Literal};
use crate::span::Span;
use crate::text::{dec_str, u64_to_dec};
use crate::type_system::{IntegerBits, TypeArgument, TypeEngine, TypeId, TypeInfo, TypeInfoV};

verus! {

/// A generic parameter bound in the declaration's scope.
pub struct TyTypeParameter {
    pub name: Ident,
    pub type_id: TypeId,
}

/// A checked value parameter. The type argument's resolved identifier is the
/// one every downstream decision reads; the initial identifier is provenance.
pub struct TyFunctionParameter {
    pub name: Ident,
    pub is_reference: bool,
    pub is_mutable: bool,
    pub mutability_span: Span,
    pub type_argument: TypeArgument,
}

/// A checked expression and the identifier of its type.
pub struct TyExpression {
    pub kind: TyExpressionKind,
    pub return_type: TypeId,
    pub span: Span,
}

/// The shape of a checked expression.
pub enum TyExpressionKind {
    Literal(Literal),
    Variable(Ident),
    Block(TyCodeBlock),
    If { condition: Box<TyExpression>, then_block: TyCodeBlock, else_block: TyCodeBlock },
}

/// What one checked statement does.
pub enum TyAstNodeContent {
    Expression(TyExpression),
    ReturnStatement(TyExpression),
    ImplicitReturnExpression(TyExpression),
}

/// One checked statement.
pub struct TyAstNode {
    pub content: TyAstNodeContent,
    pub span: Span,
}

/// A checked statement sequence.
pub struct TyCodeBlock {
    pub contents: Vec<TyAstNode>,
}

/// What the return unifier needs of one return statement: the identifier of
/// the returned expression's type, and where the statement stands.
#[derive(Clone, Copy, PartialEq, Eq, Structural, Debug)]
pub struct ReturnSite {
    pub return_type: TypeId,
    pub span: Span,
}

/// A fully checked function declaration.
pub struct TyFunctionDecl {
    pub name: Ident,
    pub body: TyCodeBlock,
    pub parameters: Vec<TyFunctionParameter>,
    /// Back-reference to the enclosing type, set by a later declaration pass;
    /// never set during this check.
    pub implementing_type: Option<Ident>,
    pub span: Span,
    pub return_type: TypeArgument,
    pub type_parameters: Vec<TyTypeParameter>,
    pub visibility: Visibility,
    pub is_contract_call: bool,
    pub purity: Purity,
}

/// Every return statement reachable in the statements, in order.
pub open spec fn gather_nodes_spec(nodes: Seq<TyAstNode>) -> Seq<ReturnSite>
    decreases nodes, nodes.len(),
{
    if nodes.len() == 0 {
        Seq::empty()
    } else {
        gather_node_spec(nodes[0]) + gather_nodes_spec(nodes.drop_first())
    }
}

/// Every return statement reachable in one statement, in order: a return
/// statement contributes itself, then whatever its expression nests.
pub open spec fn gather_node_spec(node: TyAstNode) -> Seq<ReturnSite>
    decreases node, 0int,
{
    match node.content {
        TyAstNodeContent::Expression(e) => gather_expr_spec(e),
        TyAstNodeContent::ReturnStatement(e) => seq![
            ReturnSite { return_type: e.return_type, span: e.span },
        ] + gather_expr_spec(e),
        TyAstNodeContent::ImplicitReturnExpression(e) => gather_expr_spec(e),
    }
}

/// Every return statement reachable under one expression, in order.
pub open spec fn gather_expr_spec(expr: TyExpression) -> Seq<ReturnSite>
    decreases expr, 0int,
{
    match expr.kind {
        TyExpressionKind::Literal(_) => Seq::empty(),
        TyExpressionKind::Variable(_) => Seq::empty(),
        TyExpressionKind::Block(block) => gather_nodes_spec(block.contents@),
        TyExpressionKind::If { condition, then_block, else_block } => gather_expr_spec(*condition)
            + gather_nodes_spec(then_block.contents@) + gather_nodes_spec(else_block.contents@),
    }
}

/// Every return statement reachable in the block, in order.
pub open spec fn gather_block_spec(block: TyCodeBlock) -> Seq<ReturnSite> {
    gather_nodes_spec(block.contents@)
}

impl TyCodeBlock {
    /// Collects every return statement transitively reachable in this block,
    /// including from nested blocks and branches, into a flat list in source
    /// order.
    pub fn gather_return_statements(&self) -> (r: Vec<ReturnSite>)
        ensures
            r@ == gather_block_spec(*self),
    {
        let mut acc: Vec<ReturnSite> = Vec::new();
        gather_block(self, &mut acc);
        acc
    }
}

fn gather_block(block: &TyCodeBlock, acc: &mut Vec<ReturnSite>)
    ensures
        final(acc)@ == old(acc)@ + gather_block_spec(*block),
    decreases *block, 1int,
{
    let mut i: usize = 0;
    proof {
        assert(block.contents@.skip(0) =~= block.contents@);
    }
    while i < block.contents.len()
        invariant
            i <= block.contents@.len(),
            old(acc)@ + gather_nodes_spec(block.contents@) == acc@ + gather_nodes_spec(
                block.contents@.skip(i as int),
            ),
        decreases *block, 0int, block.contents@.len() - i,
    {
        proof {
            assert(decreases_to!(*block => block.contents));
            assert(decreases_to!(block.contents => block.contents@));
            assert(decreases_to!(block.contents@ => block.contents@[i as int]));
            assert(block.contents@.skip(i as int)[0] == block.contents@[i as int]);
            assert(block.contents@.skip(i as int).drop_first() =~= block.contents@.skip(
                i as int + 1,
            ));
        }
        gather_node(&block.contents[i], acc);
        i += 1;
    }
    proof {
        assert(acc@ + gather_nodes_spec(block.contents@.skip(block.contents@.len() as int)) =~= acc@);
    }
}

fn gather_node(node: &TyAstNode, acc: &mut Vec<ReturnSite>)
    ensures
        final(acc)@ == old(acc)@ + gather_node_spec(*node),
    decreases *node, 1int,
{
    match &node.content {
        TyAstNodeContent::Expression(e) => {
            gather_expr(e, acc);
        },
        TyAstNodeContent::ReturnStatement(e) => {
            let site = ReturnSite { return_type: e.return_type, span: e.span };
            acc.push(site);
            proof {
                assert(old(acc)@.push(site) =~= old(acc)@ + seq![site]);
            }
            gather_expr(e, acc);
            proof {
                assert(acc@ =~= old(acc)@ + gather_node_spec(*node));
            }
        },
        TyAstNodeContent::ImplicitReturnExpression(e) => {
            gather_expr(e, acc);
        },
    }
}

fn gather_expr(expr: &TyExpression, acc: &mut Vec<ReturnSite>)
    ensures
        final(acc)@ == old(acc)@ + gather_expr_spec(*expr),
    decreases *expr, 1int,
{
    match &expr.kind {
        TyExpressionKind::Literal(_) => {
            proof {
                assert(old(acc)@ + gather_expr_spec(*expr) =~= acc@);
            }
        },
        TyExpressionKind::Variable(_) => {
            proof {
                assert(old(acc)@ + gather_expr_spec(*expr) =~= acc@);
            }
        },
        TyExpressionKind::Block(block) => {
            gather_block(block, acc);
        },
        TyExpressionKind::If { condition, then_block, else_block } => {
            gather_expr(condition, acc);
            gather_block(then_block, acc);
            gather_block(else_block, acc);
        },
    }
}

/// The type identifier of the block's trailing implicit return: the last
/// statement that is an implicit return expression decides, and a block whose
/// last statement is anything else has none.
pub open spec fn trailing_implicit_spec(nodes: Seq<TyAstNode>) -> Option<TypeId>
    decreases nodes.len(),
{
    if nodes.len() == 0 {
        None
    } else {
        match nodes.last().content {
            TyAstNodeContent::ImplicitReturnExpression(e) => Some(e.return_type),
            _ => trailing_implicit_spec(nodes.drop_last()),
        }
    }
}

/// Every gathered return site's type identifier is a handle into an arena of
/// the given contents.
pub open spec fn sites_valid(sites: Seq<ReturnSite>, slots: Seq<TypeInfoV>) -> bool {
    forall|i: int|
        0 <= i < sites.len() ==> crate::type_system::valid_id(
            slots,
            (#[trigger] sites[i]).return_type,
        )
}

/// Validity of gathered sites is closed under concatenation.
pub proof fn lemma_sites_valid_concat(a: Seq<ReturnSite>, b: Seq<ReturnSite>, slots: Seq<TypeInfoV>)
    requires
        sites_valid(a, slots),
        sites_valid(b, slots),
    ensures
        sites_valid(a + b, slots),
{
    assert forall|i: int| 0 <= i < (a + b).len() implies crate::type_system::valid_id(
        slots,
        (#[trigger] (a + b)[i]).return_type,
    ) by {
        if i < a.len() {
            assert((a + b)[i] == a[i]);
        } else {
            assert((a + b)[i] == b[i - a.len()]);
        }
    }
}

/// Validity of gathered sites persists as the arena grows.
pub proof fn lemma_sites_valid_extends(
    sites: Seq<ReturnSite>,
    base: Seq<TypeInfoV>,
    more: Seq<TypeInfoV>,
)
    requires
        sites_valid(sites, base),
        crate::type_system::extends(base, more),
    ensures
        sites_valid(sites, more),
{
}

/// Gathering distributes over appending one statement at the end.
pub proof fn lemma_gather_push(nodes: Seq<TyAstNode>, node: TyAstNode)
    ensures
        gather_nodes_spec(nodes.push(node)) == gather_nodes_spec(nodes) + gather_node_spec(node),
    decreases nodes.len(),
{
    reveal_with_fuel(gather_nodes_spec, 3);
    if nodes.len() == 0 {
        assert(nodes.push(node)[0] == node);
        assert(nodes.push(node).drop_first() =~= Seq::<TyAstNode>::empty());
        assert(gather_nodes_spec(nodes.push(node)) =~= gather_nodes_spec(nodes)
            + gather_node_spec(node));
    } else {
        assert(nodes.push(node)[0] == nodes[0]);
        assert(nodes.push(node).drop_first() =~= nodes.drop_first().push(node));
        lemma_gather_push(nodes.drop_first(), node);
        assert(gather_nodes_spec(nodes.push(node)) =~= gather_nodes_spec(nodes)
            + gather_node_spec(node));
    }
}

/// The canonical encoding of an unsigned integer type.
pub open spec fn bits_str(b: IntegerBits) -> Seq<char> {
    match b {
        IntegerBits::Eight => "u8"@,
        IntegerBits::Sixteen => "u16"@,
        IntegerBits::ThirtyTwo => "u32"@,
        IntegerBits::SixtyFour => "u64"@,
    }
}

/// The canonical encoding of the type behind `id`, or `None` where the
/// descriptor has no canonical form: an error-recovery sentinel, an
/// unresolved name or generic, a still-undecided numeric, or a composite
/// whose component indices do not lie below its own (which a well-formed
/// arena rules out).
pub open spec fn encode_type_v(slots: Seq<TypeInfoV>, id: int) -> Option<Seq<char>>
    decreases id, 1int, 0int,
{
    if !(0 <= id < slots.len()) {
        None
    } else {
        match slots[id] {
            TypeInfoV::Boolean => Some("bool"@),
            TypeInfoV::UnsignedInteger(b) => Some(bits_str(b)),
            TypeInfoV::Str(n) => Some("str["@ + dec_str(n as nat) + "]"@),
            TypeInfoV::Tuple(fields) => match encode_list_v(slots, fields, id) {
                Some(s) => Some("("@ + s + ")"@),
                None => None,
            },
            TypeInfoV::Array(elem, n) => if elem.index < id {
                match encode_type_v(slots, elem.index as int) {
                    Some(s) => Some("a["@ + s + ";"@ + dec_str(n as nat) + "]"@),
                    None => None,
                }
            } else {
                None
            },
            TypeInfoV::Struct { fields, .. } => match encode_list_v(slots, fields, id) {
                Some(s) => Some("s("@ + s + ")"@),
                None => None,
            },
            TypeInfoV::Enum { variants, .. } => match encode_list_v(slots, variants, id) {
                Some(s) => Some("e("@ + s + ")"@),
                None => None,
            },
            _ => None,
        }
    }
}

/// The comma-separated encodings of `ids`, each of which must lie strictly
/// below `bound` in the arena.
pub open spec fn encode_list_v(slots: Seq<TypeInfoV>, ids: Seq<TypeId>, bound: int) -> Option<
    Seq<char>,
>
    decreases bound, 0int, ids.len(),
{
    if ids.len() == 0 {
        Some(Seq::empty())
    } else if !(ids[0].index < bound) {
        None
    } else {
        match encode_type_v(slots, ids[0].index as int) {
            Some(head) => match encode_list_v(slots, ids.drop_first(), bound) {
                Some(tail) => Some(
                    if ids.len() == 1 {
                        head
                    } else {
                        head + ","@ + tail
                    },
                ),
                None => None,
            },
            None => None,
        }
    }
}

/// The resolved type identifiers of a parameter list, in order. The selector
/// reads nothing else of the parameters.
pub open spec fn param_type_ids(params: Seq<TyFunctionParameter>) -> Seq<TypeId> {
    params.map_values(|p: TyFunctionParameter| p.type_argument.type_id)
}

/// The canonical selector of a declaration: `name(t1,t2,...)` over the
/// resolved parameter types, or `None` where some parameter type has no
/// canonical encoding.
pub open spec fn selector_spec(slots: Seq<TypeInfoV>, decl: TyFunctionDecl) -> Option<Seq<char>> {
    match encode_list_v(slots, param_type_ids(decl.parameters@), slots.len() as int) {
        Some(args) => Some(decl.name.text@ + "("@ + args + ")"@),
        None => None,
    }
}

/// The selector is a function of the declared name and the parameters'
/// resolved type identifiers alone: two declarations that agree on those
/// encode identically, whatever their initial identifiers, spans, bodies or
/// flags say.
pub proof fn lemma_selector_reads_resolved_ids_only(
    slots: Seq<TypeInfoV>,
    a: TyFunctionDecl,
    b: TyFunctionDecl,
)
    requires
        a.name.text@ == b.name.text@,
        param_type_ids(a.parameters@) == param_type_ids(b.parameters@),
    ensures
        selector_spec(slots, a) == selector_spec(slots, b),
{
}

/// A declaration with no parameters encodes to its bare name followed by
/// `()`, whatever the arena holds.
pub proof fn lemma_nullary_selector(slots: Seq<TypeInfoV>, decl: TyFunctionDecl)
    requires
        decl.parameters@.len() == 0,
    ensures
        selector_spec(slots, decl) == Some(decl.name.text@ + "()"@),
{
    reveal_strlit("(");
    reveal_strlit(")");
    reveal_strlit("()");
    assert(param_type_ids(decl.parameters@).len() == 0);
    assert(decl.name.text@ + "("@ + Seq::<char>::empty() + ")"@ =~= decl.name.text@ + "()"@);
}

fn encode_type(engine: &TypeEngine, id: TypeId) -> (r: Option<String>)
    ensures
        match r {
            Some(s) => encode_type_v(engine@, id.index as int) == Some(s@),
            None => encode_type_v(engine@, id.index as int) is None,
        },
    decreases id.index, 1int, 0int,
{
    if id.index >= engine.slots.len() {
        return None;
    }
    proof {
        assert(engine@[id.index as int] == engine.slots@[id.index as int]@);
    }
    match engine.get(id) {
        TypeInfo::Boolean => {
            let s = "bool".to_owned();
            proof {
                assert(s@ == "bool"@);
            }
            Some(s)
        },
        TypeInfo::UnsignedInteger(b) => {
            let s = match b {
                IntegerBits::Eight => "u8",
                IntegerBits::Sixteen => "u16",
                IntegerBits::ThirtyTwo => "u32",
                IntegerBits::SixtyFour => "u64",
            };
            Some(s.to_owned())
        },
        TypeInfo::Str(n) => {
            let mut s = "str[".to_owned();
            s.append(u64_to_dec(*n).as_str());
            s.append("]");
            proof {
                assert(s@ =~= "str["@ + dec_str(*n as nat) + "]"@);
            }
            Some(s)
        },
        TypeInfo::Tuple(fields) => {
            match encode_args(engine, fields, 0, id.index) {
                Some(args) => {
                    let mut s = "(".to_owned();
                    s.append(args.as_str());
                    s.append(")");
                    proof {
                        assert(fields@.skip(0) =~= fields@);
                        assert(s@ =~= "("@ + args@ + ")"@);
                    }
                    Some(s)
                },
                None => {
                    proof {
                        assert(fields@.skip(0) =~= fields@);
                    }
                    None
                },
            }
        },
        TypeInfo::Array(elem, n) => {
            if elem.index >= id.index {
                return None;
            }
            match encode_type(engine, *elem) {
                Some(inner) => {
                    let mut s = "a[".to_owned();
                    s.append(inner.as_str());
                    s.append(";");
                    s.append(u64_to_dec(*n).as_str());
                    s.append("]");
                    proof {
                        assert(s@ =~= "a["@ + inner@ + ";"@ + dec_str(*n as nat) + "]"@);
                    }
                    Some(s)
                },
                None => None,
            }
        },
        TypeInfo::Struct { fields, .. } => {
            match encode_args(engine, fields, 0, id.index) {
                Some(args) => {
                    let mut s = "s(".to_owned();
                    s.append(args.as_str());
                    s.append(")");
                    proof {
                        assert(fields@.skip(0) =~= fields@);
                        assert(s@ =~= "s("@ + args@ + ")"@);
                    }
                    Some(s)
                },
                None => {
                    proof {
                        assert(fields@.skip(0) =~= fields@);
                    }
                    None
                },
            }
        },
        TypeInfo::Enum { variants, .. } => {
            match encode_args(engine, variants, 0, id.index) {
                Some(args) => {
                    let mut s = "e(".to_owned();
                    s.append(args.as_str());
                    s.append(")");
                    proof {
                        assert(variants@.skip(0) =~= variants@);
                        assert(s@ =~= "e("@ + args@ + ")"@);
                    }
                    Some(s)
                },
                None => {
                    proof {
                        assert(variants@.skip(0) =~= variants@);
                    }
                    None
                },
            }
        },
        _ => None,
    }
}

fn encode_args(engine: &TypeEngine, ids: &Vec<TypeId>, i: usize, bound: usize) -> (r: Option<
    String,
>)
    requires
        i <= ids@.len(),
    ensures
        match r {
            Some(s) => encode_list_v(engine@, ids@.skip(i as int), bound as int) == Some(s@),
            None => encode_list_v(engine@, ids@.skip(i as int), bound as int) is None,
        },
    decreases bound, 0int, ids@.len() - i,
{
    if i == ids.len() {
        let s = String::new();
        proof {
            assert(ids@.skip(i as int).len() == 0);
        }
        return Some(s);
    }
    proof {
        assert(ids@.skip(i as int)[0] == ids@[i as int]);
        assert(ids@.skip(i as int).drop_first() =~= ids@.skip(i as int + 1));
    }
    let id = ids[i];
    if id.index >= bound {
        return None;
    }
    match encode_type(engine, id) {
        Some(head) => {
            match encode_args(engine, ids, i + 1, bound) {
                Some(tail) => {
                    if i + 1 == ids.len() {
                        Some(head)
                    } else {
                        let mut s = head;
                        s.append(",");
                        s.append(tail.as_str());
                        proof {
                            assert(ids@.skip(i as int).len() != 1);
                        }
                        Some(s)
                    }
                },
                None => None,
            }
        },
        None => None,
    }
}

impl TyFunctionDecl {
    /// Derives the canonical selector `name(t1,t2,...)` of this declaration
    /// over the *resolved* type identifier of each parameter — never the
    /// initial one, which may reflect syntax that only existed during
    /// inference. A descriptor with no canonical encoding is a correctness
    /// defect for contract dispatch, reported as an error, never silently
    /// substituted.
    pub fn to_selector_name(&self, handler: &mut Handler, engine: &TypeEngine) -> (r: Result<
        String,
        ErrorEmitted,
    >)
        ensures
            match selector_spec(engine@, *self) {
                Some(s) => r matches Ok(sel) && sel@ == s && *final(handler) == *old(handler),
                None => r is Err && final(handler).errors_v() == old(handler).errors_v().push(
                    ErrorV::TypeNotAllowedInSelector { span: self.span },
                ) && final(handler).warnings_v() == old(handler).warnings_v(),
            },
    {
        let mut ids: Vec<TypeId> = Vec::new();
        let mut i: usize = 0;
        while i < self.parameters.len()
            invariant
                i <= self.parameters@.len(),
                ids@ == param_type_ids(self.parameters@.take(i as int)),
            decreases self.parameters@.len() - i,
        {
            ids.push(self.parameters[i].type_argument.type_id);
            proof {
                assert(self.parameters@.take(i as int + 1).drop_last() =~= self.parameters@.take(
                    i as int,
                ));
                assert(ids@ =~= param_type_ids(self.parameters@.take(i as int + 1)));
            }
            i += 1;
        }
        proof {
            assert(self.parameters@.take(self.parameters@.len() as int) =~= self.parameters@);
            assert(ids@.skip(0) =~= ids@);
        }
        match encode_args(engine, &ids, 0, engine.slots.len()) {
            Some(args) => {
                let mut s = self.name.text.clone();
                s.append("(");
                s.append(args.as_str());
                s.append(")");
                proof {
                    assert(s@ =~= self.name.text@ + "("@ + args@ + ")"@);
                }
                Ok(s)
            },
            None => Err(
                handler.emit_err(CompileError::TypeNotAllowedInSelector { span: self.span }),
            ),
        }
    }
}

} // verus!
