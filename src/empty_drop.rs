//! The `empty_drop` lint: a `Drop` implementation whose `drop` does nothing
//! only hurts readability and stops the type from being destructured.
//!
//! ```text
//! struct S;
//!
//! impl Drop for S {
//!     fn drop(&mut self) {}
//! }
//! ```
//!
//! Only the function body itself is examined: `fn drop(&mut self) { {} }`
//! holds a nested block and is not reported.
use vstd::prelude::*;

use crate::hir::{Block, Body, DefId, Expr, Impl, ImplItemKind, Item, ItemKind, Span, TraitRef};

verus! {

/// The message of every finding.
pub open spec fn message_text() -> Seq<char> {
    "empty drop implementation"@
}

/// The advice attached to every finding.
pub open spec fn help_text() -> Seq<char> {
    "try removing this impl"@
}

/// A finding of the lint, to be handed to the diagnostic sink.
#[derive(Debug)]
pub struct Finding {
    /// Where the finding points: the whole implementation block.
    pub span: Span,
    pub message: String,
    pub help: String,
}

impl View for Finding {
    type V = (Span, Seq<char>, Seq<char>);

    open spec fn view(&self) -> (Span, Seq<char>, Seq<char>) {
        (self.span, self.message@, self.help@)
    }
}

/// The finding reported for a declaration at `span`.
pub open spec fn finding_at(span: Span) -> (Span, Seq<char>, Seq<char>) {
    (span, message_text(), help_text())
}

/// `e` is a block with no statements and no trailing expression.
pub open spec fn is_empty_block(e: Expr) -> bool {
    e matches Expr::Block(b) && b.stmts@.len() == 0 && b.expr is None
}

/// `imp` is an implementation of the trait `t`.
pub open spec fn implements_trait(imp: Impl, t: DefId) -> bool {
    imp.of_trait matches Some(tr) && tr.def_id == Some(t)
}

/// `imp` has exactly one member, a function whose body is an empty block.
pub open spec fn sole_member_is_empty_fn(imp: Impl) -> bool {
    &&& imp.items@.len() == 1
    &&& imp.items@[0].kind matches ImplItemKind::Fn(body) && is_empty_block(body.value)
}

/// `item` is an implementation of `drop_trait` whose one function does nothing.
pub open spec fn is_empty_drop(drop_trait: DefId, item: Item) -> bool {
    item.kind matches ItemKind::Impl(imp) && implements_trait(imp, drop_trait)
        && sole_member_is_empty_fn(imp)
}

/// What the lint reports for `item`: the finding at the span of the whole
/// implementation block, or nothing.
pub open spec fn inspect(drop_trait: DefId, item: Item) -> Option<(Span, Seq<char>, Seq<char>)> {
    if is_empty_drop(drop_trait, item) {
        Some(finding_at(item.span))
    } else {
        None
    }
}

/// The view of a result of `check_item`.
pub open spec fn finding_view(r: Option<Finding>) -> Option<(Span, Seq<char>, Seq<char>)> {
    match r {
        Some(f) => Some(f@),
        None => None,
    }
}

/// The lint, configured with the identity of the language's `Drop` trait.
#[derive(Clone, Copy, Debug)]
pub struct EmptyDrop {
    pub drop_trait: DefId,
}

impl EmptyDrop {
    /// The lint for the destructor trait `drop_trait`.
    pub fn new(drop_trait: DefId) -> (r: EmptyDrop)
        ensures
            r.drop_trait == drop_trait,
    {
        EmptyDrop { drop_trait }
    }

    /// Inspects one top-level declaration; returns the finding to report if it
    /// is an empty implementation of the destructor trait.
    pub fn check_item(&self, item: &Item) -> (r: Option<Finding>)
        ensures
            finding_view(r) == inspect(self.drop_trait, *item),
    {
        if let ItemKind::Impl(imp) = &item.kind {
            if imp.items.len() == 1 && refers_to(&imp.of_trait, self.drop_trait) {
                if let ImplItemKind::Fn(body) = &imp.items[0].kind {
                    if body_is_empty(body) {
                        return Some(
                            Finding {
                                span: item.span,
                                message: "empty drop implementation".to_owned(),
                                help: "try removing this impl".to_owned(),
                            },
                        );
                    }
                }
            }
        }
        None
    }
}

/// A declaration that is not an implementation of the destructor trait
/// (an inherent block, or an implementation of any other trait) is never
/// reported, whatever its members.
pub proof fn lemma_other_trait_not_reported(drop_trait: DefId, item: Item)
    requires
        item.kind is Impl,
        item.kind->Impl_0.of_trait is Some,
        item.kind->Impl_0.of_trait->Some_0.def_id != Some(drop_trait),
    ensures
        inspect(drop_trait, item) is None,
{
}

/// An implementation of the destructor trait with more than one member is
/// never reported.
pub proof fn lemma_several_members_not_reported(drop_trait: DefId, item: Item)
    requires
        item.kind is Impl,
        implements_trait(item.kind->Impl_0, drop_trait),
        item.kind->Impl_0.items@.len() > 1,
    ensures
        inspect(drop_trait, item) is None,
{
}

/// An implementation of the destructor trait whose one member is a function
/// with the body `{}` is reported once, at the span of the implementation.
pub proof fn lemma_empty_body_reported(drop_trait: DefId, item: Item)
    requires
        item.kind is Impl,
        implements_trait(item.kind->Impl_0, drop_trait),
        item.kind->Impl_0.items@.len() == 1,
        item.kind->Impl_0.items@[0].kind is Fn,
        item.kind->Impl_0.items@[0].kind->Fn_0.value is Block,
        item.kind->Impl_0.items@[0].kind->Fn_0.value->Block_0.stmts@.len() == 0,
        item.kind->Impl_0.items@[0].kind->Fn_0.value->Block_0.expr is None,
    ensures
        inspect(drop_trait, item) == Some(finding_at(item.span)),
{
}

/// An implementation of the destructor trait whose member `i` is a function
/// whose body holds at least one statement is never reported, even where
/// that statement is itself an empty block.
pub proof fn lemma_statement_not_reported(drop_trait: DefId, item: Item, i: int)
    requires
        item.kind is Impl,
        implements_trait(item.kind->Impl_0, drop_trait),
        0 <= i < item.kind->Impl_0.items@.len(),
        item.kind->Impl_0.items@[i].kind is Fn,
        item.kind->Impl_0.items@[i].kind->Fn_0.value is Block,
        item.kind->Impl_0.items@[i].kind->Fn_0.value->Block_0.stmts@.len() > 0,
    ensures
        inspect(drop_trait, item) is None,
{
}

/// Inspecting the same declaration twice gives the same result: what
/// `check_item` promises of one call fixes the finding.
pub proof fn lemma_check_item_deterministic(
    rule: EmptyDrop,
    item: Item,
    a: Option<Finding>,
    b: Option<Finding>,
)
    requires
        finding_view(a) == inspect(rule.drop_trait, item),
        finding_view(b) == inspect(rule.drop_trait, item),
    ensures
        finding_view(a) == finding_view(b),
{
}

/// Whether the trait reference `of_trait` resolves to the trait `t`.
fn refers_to(of_trait: &Option<TraitRef>, t: DefId) -> (r: bool)
    ensures
        r == (of_trait matches Some(tr) && tr.def_id == Some(t)),
{
    match of_trait {
        Some(tr) => match tr.def_id {
            Some(d) => d == t,
            None => false,
        },
        None => false,
    }
}

/// Whether the function body is a block with neither statements nor a
/// trailing expression. Nested blocks are not looked into.
fn body_is_empty(body: &Body) -> (r: bool)
    ensures
        r == is_empty_block(body.value),
{
    match &body.value {
        Expr::Block(b) => block_is_empty(b),
        _ => false,
    }
}

fn block_is_empty(b: &Block) -> (r: bool)
    ensures
        r == (b.stmts@.len() == 0 && b.expr is None),
{
    b.stmts.len() == 0 && b.expr.is_none()
}

} // verus!
