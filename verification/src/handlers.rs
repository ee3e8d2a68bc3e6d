//! Feature handlers: the capability-gated leaves behind the lifecycle gate.
//!
//! Each handler is pure: the completion list and the hover payload are fixed
//! values, and resolving a completion item returns the item itself, which
//! makes resolution idempotent by contract.

use vstd::prelude::*;

use crate::protocol::{CompletionItem, CompletionKind, ItemV};

verus! {

/// The completion list this server offers: a finite, order-preserving
/// sequence with stable labels.
pub open spec fn spec_completion_items() -> Seq<ItemV> {
    seq![
        ItemV { label: "Hello"@, kind: CompletionKind::Text, detail: Some("Some detail"@) },
        ItemV { label: "Bye"@, kind: CompletionKind::Text, detail: Some("Some detail"@) },
    ]
}

/// Ghost view of a sequence of completion items.
pub open spec fn items_view(s: Seq<CompletionItem>) -> Seq<ItemV> {
    s.map_values(|i: CompletionItem| i.view())
}

/// Handles a completion request: returns the fixed completion list.
pub fn completion_items() -> (r: Vec<CompletionItem>)
    ensures
        items_view(r@) == spec_completion_items(),
{
    let mut r: Vec<CompletionItem> = Vec::new();
    r.push(CompletionItem {
        label: "Hello".to_owned(),
        kind: CompletionKind::Text,
        detail: Some("Some detail".to_owned()),
    });
    r.push(CompletionItem {
        label: "Bye".to_owned(),
        kind: CompletionKind::Text,
        detail: Some("Some detail".to_owned()),
    });
    proof {
        assert(items_view(r@) =~= spec_completion_items());
    }
    r
}

/// Resolves a previously emitted completion item: the item is returned
/// unchanged, so resolving twice yields the same result both times.
pub fn resolve_item(item: CompletionItem) -> (r: CompletionItem)
    ensures
        r == item,
{
    item
}

/// Resolution at the ghost level: the identity on item views.
pub open spec fn spec_resolved(i: ItemV) -> ItemV {
    i
}

/// Resolution is idempotent: resolving a resolved item changes nothing.
pub proof fn lemma_resolve_idempotent(i: ItemV)
    ensures
        spec_resolved(spec_resolved(i)) == spec_resolved(i),
{
}

/// A hover payload: a single textual content with no range.
#[derive(Debug, PartialEq, Eq)]
pub struct HoverContent {
    pub value: String,
}

/// Ghost view of a `HoverContent`.
#[verifier::ext_equal]
pub struct HoverContentV {
    pub value: Seq<char>,
}

impl HoverContent {
    pub open spec fn view(self) -> HoverContentV {
        HoverContentV { value: self.value@ }
    }

    pub fn duplicate(&self) -> (r: HoverContent)
        ensures
            r == *self,
    {
        HoverContent { value: self.value.clone() }
    }
}

/// The hover payload this server always shows.
pub open spec fn spec_hover_content() -> HoverContentV {
    HoverContentV { value: "You're hovering!"@ }
}

/// Handles a hover request: returns the fixed hover payload.
pub fn hover_content() -> (r: HoverContent)
    ensures
        r.view() == spec_hover_content(),
{
    let r = HoverContent { value: "You're hovering!".to_owned() };
    proof {
        assert(r.view() =~= spec_hover_content());
    }
    r
}

} // verus!
