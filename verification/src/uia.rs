//! Reading the caret from UI Automation: which text range of an element
//! gives it, and how the walk from the focused element up its ancestors
//! settles on a caret.
//!
//! The caller reads the ranges and walks the tree; these functions decide
//! from what was read.
use vstd::prelude::*;

use crate::editability::{
    accepts_caret_probe_spec, evidence_accepts_caret_probe, CaretAnchor, NodeEvidence,
    MAX_UIA_CARET_DESCENDANT_DEPTH, MAX_UIA_CARET_DESCENDANT_NODES, MAX_UIA_CARET_PARENT_DEPTH,
};

verus! {

/// What a caret source gave: a caret, a reason to show none, or nothing.
#[derive(Clone, Copy, Debug, PartialEq, Eq, Structural)]
pub enum CaretProbe {
    Found(CaretAnchor),
    Suppress,
    Missing,
}

/// What an element's text patterns gave, each anchor already checked to lie
/// within the element.
#[derive(Clone, Copy, Debug, PartialEq, Eq, Structural)]
pub struct ElementCaretFacts {
    /// The end of the active IME composition, from the text-edit pattern.
    pub composition: Option<CaretAnchor>,
    /// Whether a selection range was read, and if so whether it is not
    /// collapsed.
    pub selection_noncollapsed: Option<bool>,
    /// The caret beside the (collapsed) selection.
    pub selection_anchor: Option<CaretAnchor>,
    /// Only exact geometry is believed (browser address boxes).
    pub exact_geometry_only: bool,
    /// The element's value is not empty.
    pub value_nonempty: bool,
    /// The caret range of the second text pattern.
    pub caret_range_anchor: Option<CaretAnchor>,
}

/// The caret of one element: an active composition's end first; a
/// selection that is not collapsed shows no caret; with exact geometry only,
/// the collapsed selection decides, and without one a non-empty field shows
/// none; then the text pattern's caret range, then the selection.
pub open spec fn element_caret_spec(f: ElementCaretFacts) -> CaretProbe {
    if f.composition is Some {
        CaretProbe::Found(f.composition->0)
    } else if f.selection_noncollapsed == Some(true) {
        CaretProbe::Suppress
    } else if f.exact_geometry_only && f.selection_noncollapsed is Some {
        match f.selection_anchor {
            Some(a) => CaretProbe::Found(a),
            None => CaretProbe::Missing,
        }
    } else if f.exact_geometry_only && f.value_nonempty {
        CaretProbe::Missing
    } else if f.caret_range_anchor is Some {
        CaretProbe::Found(f.caret_range_anchor->0)
    } else if f.selection_noncollapsed is Some {
        match f.selection_anchor {
            Some(a) => CaretProbe::Found(a),
            None => CaretProbe::Missing,
        }
    } else {
        CaretProbe::Missing
    }
}

/// Decides an element's caret from what its text patterns gave.
pub fn element_caret(f: ElementCaretFacts) -> (r: CaretProbe)
    ensures
        r == element_caret_spec(f),
{
    if let Some(a) = f.composition {
        return CaretProbe::Found(a);
    }
    if f.selection_noncollapsed == Some(true) {
        return CaretProbe::Suppress;
    }
    let has_selection = f.selection_noncollapsed.is_some();
    if f.exact_geometry_only && has_selection {
        return match f.selection_anchor {
            Some(a) => CaretProbe::Found(a),
            None => CaretProbe::Missing,
        };
    }
    if f.exact_geometry_only && f.value_nonempty {
        return CaretProbe::Missing;
    }
    if let Some(a) = f.caret_range_anchor {
        return CaretProbe::Found(a);
    }
    if has_selection {
        match f.selection_anchor {
            Some(a) => CaretProbe::Found(a),
            None => CaretProbe::Missing,
        }
    } else {
        CaretProbe::Missing
    }
}

/// What the walk read at one element, from the focused element up: its
/// evidence, its own caret, the caret of a search of its descendants, and
/// the caret assumed inside it when it is an empty editable field.
#[derive(Clone, Copy, Debug, PartialEq, Eq, Structural)]
pub struct WalkNode {
    pub evidence: NodeEvidence,
    pub caret: CaretProbe,
    pub descendants: CaretProbe,
    pub empty_field_caret: Option<CaretAnchor>,
}

/// The walk's result from node `i` on, with the fallback found so far.
pub open spec fn walk_spec(
    nodes: Seq<WalkNode>,
    i: int,
    console_like: bool,
    exact: bool,
    walker: bool,
    fallback: Option<CaretAnchor>,
) -> CaretProbe
    decreases nodes.len() - i,
{
    if i < 0 || i >= nodes.len() || i >= MAX_UIA_CARET_PARENT_DEPTH || (!walker && i > 0) {
        match fallback {
            Some(a) => CaretProbe::Found(a),
            None => CaretProbe::Missing,
        }
    } else {
        let node = nodes[i];
        if accepts_caret_probe_spec(node.evidence, console_like, exact) && node.caret != CaretProbe::Missing {
            node.caret
        } else if accepts_caret_probe_spec(node.evidence, false, exact) && walker
            && node.descendants != CaretProbe::Missing {
            node.descendants
        } else {
            let next_fallback = if accepts_caret_probe_spec(node.evidence, false, exact)
                && fallback is None {
                node.empty_field_caret
            } else {
                fallback
            };
            walk_spec(nodes, i + 1, console_like, exact, walker, next_fallback)
        }
    }
}

/// The caret that the walk settles on: the focused element's own caret when
/// its evidence allows a probe; else a search of its descendants (when a
/// tree walker is available); else, from the focused element up at most the
/// parent depth (only the focused element without a tree walker), each
/// element's own caret when allowed, then its descendants' when it is
/// editable, and finally the first empty editable field's assumed caret. A caret source that suppresses the caret ends the
/// walk with no caret.
pub open spec fn uia_walk_spec(
    nodes: Seq<WalkNode>,
    console_like: bool,
    exact: bool,
    walker: bool,
    initial_descendants: CaretProbe,
) -> CaretProbe {
    if nodes.len() > 0 && accepts_caret_probe_spec(nodes[0].evidence, console_like, exact)
        && nodes[0].caret != CaretProbe::Missing {
        nodes[0].caret
    } else if walker && initial_descendants != CaretProbe::Missing {
        initial_descendants
    } else {
        walk_spec(nodes, 0, console_like, exact, walker, None)
    }
}

/// Settles the walk from the focused element (`nodes[0]`) up its ancestors.
pub fn uia_walk_result(
    nodes: &Vec<WalkNode>,
    console_like: bool,
    exact: bool,
    walker: bool,
    initial_descendants: CaretProbe,
) -> (r: CaretProbe)
    ensures
        r == uia_walk_spec(nodes@, console_like, exact, walker, initial_descendants),
{
    if nodes.len() > 0 && evidence_accepts_caret_probe(nodes[0].evidence, console_like, exact)
        && nodes[0].caret != CaretProbe::Missing {
        return nodes[0].caret;
    }
    if walker && initial_descendants != CaretProbe::Missing {
        return initial_descendants;
    }
    let mut fallback: Option<CaretAnchor> = None;
    let mut i: usize = 0;
    while i < nodes.len() && i < MAX_UIA_CARET_PARENT_DEPTH && (walker || i == 0)
        invariant
            i <= nodes@.len(),
            uia_walk_spec(nodes@, console_like, exact, walker, initial_descendants) == walk_spec(
                nodes@,
                i as int,
                console_like,
                exact,
                walker,
                fallback,
            ),
        decreases nodes@.len() - i,
    {
        let node = nodes[i];
        let editable = evidence_accepts_caret_probe(node.evidence, false, exact);
        if evidence_accepts_caret_probe(node.evidence, console_like, exact) && node.caret
            != CaretProbe::Missing {
            return node.caret;
        }
        if editable && walker && node.descendants != CaretProbe::Missing {
            return node.descendants;
        }
        if editable && fallback.is_none() {
            fallback = node.empty_field_caret;
        }
        i = i + 1;
    }
    match fallback {
        Some(a) => CaretProbe::Found(a),
        None => CaretProbe::Missing,
    }
}

/// A suppressed caret is final: once an allowed element's own caret source
/// suppresses the caret, the walk from there ends with no caret, whatever
/// lies further up and whatever fallback was found below.
pub proof fn lemma_suppression_is_final(
    nodes: Seq<WalkNode>,
    i: int,
    console_like: bool,
    exact: bool,
    walker: bool,
    fallback: Option<CaretAnchor>,
)
    requires
        0 <= i < nodes.len(),
        i < MAX_UIA_CARET_PARENT_DEPTH,
        walker || i == 0,
        accepts_caret_probe_spec(nodes[i].evidence, console_like, exact),
        nodes[i].caret == CaretProbe::Suppress,
    ensures
        walk_spec(nodes, i, console_like, exact, walker, fallback) == CaretProbe::Suppress,
{
}

/// The walk looks at most the parent depth of elements: elements beyond it
/// never change the result.
pub proof fn lemma_walk_is_bounded(
    nodes: Seq<WalkNode>,
    extra: Seq<WalkNode>,
    i: int,
    console_like: bool,
    exact: bool,
    walker: bool,
    fallback: Option<CaretAnchor>,
)
    requires
        0 <= i,
        nodes.len() >= MAX_UIA_CARET_PARENT_DEPTH,
    ensures
        walk_spec(nodes, i, console_like, exact, walker, fallback) == walk_spec(
            nodes + extra,
            i,
            console_like,
            exact,
            walker,
            fallback,
        ),
    decreases MAX_UIA_CARET_PARENT_DEPTH - i,
{
    if i < MAX_UIA_CARET_PARENT_DEPTH {
        assert((nodes + extra)[i] == nodes[i]);
        let node = nodes[i];
        let next_fallback = if accepts_caret_probe_spec(node.evidence, false, exact)
            && fallback is None {
            node.empty_field_caret
        } else {
            fallback
        };
        lemma_walk_is_bounded(nodes, extra, i + 1, console_like, exact, walker, next_fallback);
    }
}

/// What was read of one element on the way from the focused element up:
/// its evidence and whether its bounds contain the accessible caret.
#[derive(Clone, Copy, Debug, PartialEq, Eq, Structural)]
pub struct ChainElement {
    pub evidence: NodeEvidence,
    pub contains_anchor: bool,
}

/// Whether an element of the chain within the parent depth (only the
/// focused element without a tree walker) allows a caret probe and contains
/// the anchor.
pub open spec fn anchor_confirmed_in_chain(chain: Seq<ChainElement>, exact: bool, walker: bool) -> bool {
    exists|j: int|
        0 <= j < chain.len() && j <= MAX_UIA_CARET_PARENT_DEPTH && (walker || j == 0)
            && accepts_caret_probe_spec(#[trigger] chain[j].evidence, false, exact)
            && chain[j].contains_anchor
}

/// The accessible caret, when it is believed: without UI Automation or a
/// focused element, unless exact geometry is required; else when a
/// descendant found by the tree walker, or an element from the focused one
/// up, allows a caret probe and contains it.
pub open spec fn accessible_anchor_spec(
    anchor: CaretAnchor,
    exact: bool,
    automation: bool,
    chain: Seq<ChainElement>,
    walker: bool,
    descendant_contains_anchor: bool,
) -> Option<CaretAnchor> {
    if !automation || chain.len() == 0 {
        if exact {
            None
        } else {
            Some(anchor)
        }
    } else if (walker && descendant_contains_anchor) || anchor_confirmed_in_chain(chain, exact, walker) {
        Some(anchor)
    } else {
        None
    }
}

/// Decides whether the accessible caret `anchor` (already known to lie in
/// the focused window) is believed. `chain` holds the focused element and its
/// ancestors, empty when no focused element was found.
pub fn confirm_accessible_caret(
    anchor: CaretAnchor,
    exact: bool,
    automation: bool,
    chain: &Vec<ChainElement>,
    walker: bool,
    descendant_contains_anchor: bool,
) -> (r: Option<CaretAnchor>)
    ensures
        r == accessible_anchor_spec(anchor, exact, automation, chain@, walker, descendant_contains_anchor),
{
    if !automation || chain.len() == 0 {
        return if exact {
            None
        } else {
            Some(anchor)
        };
    }
    if walker && descendant_contains_anchor {
        return Some(anchor);
    }
    let mut i: usize = 0;
    while i < chain.len() && i <= MAX_UIA_CARET_PARENT_DEPTH && (walker || i == 0)
        invariant
            i <= chain@.len(),
            automation,
            chain@.len() > 0,
            !(walker && descendant_contains_anchor),
            forall|j: int|
                0 <= j < i ==> !(accepts_caret_probe_spec(#[trigger] chain@[j].evidence, false, exact)
                    && chain@[j].contains_anchor),
        decreases chain@.len() - i,
    {
        let element = chain[i];
        if evidence_accepts_caret_probe(element.evidence, false, exact) && element.contains_anchor {
            assert(accepts_caret_probe_spec(chain@[i as int].evidence, false, exact));
            return Some(anchor);
        }
        i = i + 1;
    }
    proof {
        if anchor_confirmed_in_chain(chain@, exact, walker) {
            let j = choose|j: int|
                0 <= j < chain@.len() && j <= MAX_UIA_CARET_PARENT_DEPTH && (walker || j == 0)
                    && accepts_caret_probe_spec(#[trigger] chain@[j].evidence, false, exact)
                    && chain@[j].contains_anchor;
            assert(j >= i);
        }
    }
    None
}

} // verus!

verus! {

/// An element found under the focused element, with what was read from
/// it: its evidence, its own caret, whether it contains the caret anchor
/// being checked, the caret assumed inside it when it is an empty field,
/// and its children.
#[derive(Debug)]
pub struct ElementNode {
    pub evidence: NodeEvidence,
    pub caret: CaretProbe,
    pub contains_anchor: bool,
    pub empty_field_caret: Option<CaretAnchor>,
    pub children: Vec<ElementNode>,
}

/// What a search of an element's descendants looks for.
#[derive(Clone, Copy, Debug, PartialEq, Eq, Structural)]
pub enum DescendantSearch {
    /// An editable field or document.
    Editable,
    /// An element that allows a caret probe and contains the anchor.
    ContainsAnchor { exact_geometry_only: bool },
    /// An element whose own caret source answers (with a caret or a
    /// suppression).
    Caret,
}

/// Whether the search stops at `node`.
pub open spec fn search_hit(node: ElementNode, search: DescendantSearch) -> bool {
    match search {
        DescendantSearch::Editable => node.evidence == NodeEvidence::EditableField || node.evidence
            == NodeEvidence::EditableDocument,
        DescendantSearch::ContainsAnchor { exact_geometry_only } => accepts_caret_probe_spec(
            node.evidence,
            false,
            exact_geometry_only,
        ) && node.contains_anchor,
        DescendantSearch::Caret => node.caret != CaretProbe::Missing,
    }
}

/// The elements below the siblings `children[i..]`, in the order a
/// depth-first walk meets them, at most `depth` levels down.
pub open spec fn descendants_in_order(children: Seq<ElementNode>, i: int, depth: nat) -> Seq<
    ElementNode,
>
    decreases depth, children.len() - i,
{
    if depth == 0 || i < 0 || i >= children.len() {
        seq![]
    } else {
        seq![children[i]] + descendants_in_order(children[i].children@, 0, (depth - 1) as nat)
            + descendants_in_order(children, i + 1, depth)
    }
}

/// The index of the first element of `s` where the search stops, or the
/// length of `s` when there is none.
pub open spec fn first_hit(s: Seq<ElementNode>, search: DescendantSearch) -> int
    decreases s.len(),
{
    if s.len() == 0 {
        0
    } else if search_hit(s[0], search) {
        0
    } else {
        1 + first_hit(s.drop_first(), search)
    }
}

proof fn lemma_first_hit_bounds(s: Seq<ElementNode>, search: DescendantSearch)
    ensures
        0 <= first_hit(s, search) <= s.len(),
        first_hit(s, search) < s.len() ==> search_hit(s[first_hit(s, search)], search),
        forall|k: int| 0 <= k < first_hit(s, search) ==> !search_hit(#[trigger] s[k], search),
    decreases s.len(),
{
    if s.len() > 0 && !search_hit(s[0], search) {
        lemma_first_hit_bounds(s.drop_first(), search);
        assert forall|k: int| 0 <= k < first_hit(s, search) implies !search_hit(#[trigger] s[k], search) by {
            if k > 0 {
                assert(s[k] == s.drop_first()[k - 1]);
            }
        }
    }
}

proof fn lemma_first_hit_concat(x: Seq<ElementNode>, y: Seq<ElementNode>, search: DescendantSearch)
    ensures
        first_hit(x + y, search) == if first_hit(x, search) < x.len() {
            first_hit(x, search)
        } else {
            x.len() + first_hit(y, search)
        },
    decreases x.len(),
{
    if x.len() == 0 {
        assert(x + y =~= y);
    } else {
        assert((x + y)[0] == x[0]);
        if !search_hit(x[0], search) {
            assert((x + y).drop_first() =~= x.drop_first() + y);
            lemma_first_hit_concat(x.drop_first(), y, search);
        }
    }
}

/// Searches the descendants of the siblings `children[i..]`, depth-first,
/// at most `depth` levels down, visiting at most `*remaining` elements and
/// spending one unit of `*remaining` per element visited. The first element
/// where the search stops gives its own caret.
pub fn search_descendants(
    children: &Vec<ElementNode>,
    i: usize,
    depth: usize,
    remaining: &mut usize,
    search: DescendantSearch,
) -> (r: Option<CaretProbe>)
    ensures
        ({
            let visit = descendants_in_order(children@, i as int, depth as nat);
            let budget = if *old(remaining) < visit.len() {
                *old(remaining) as int
            } else {
                visit.len() as int
            };
            let k = first_hit(visit, search);
            &&& (r is Some <==> k < budget)
            &&& (r matches Some(c) ==> c == visit[k].caret && *final(remaining) == *old(remaining)
                - (k + 1))
            &&& (r is None ==> *final(remaining) == *old(remaining) - budget)
        }),
    decreases depth, children@.len() - i,
{
    let ghost visit = descendants_in_order(children@, i as int, depth as nat);
    let ghost start = *remaining;
    proof {
        lemma_first_hit_bounds(visit, search);
    }
    if depth == 0 || i >= children.len() || *remaining == 0 {
        return None;
    }
    let child = &children[i];
    let ghost below = descendants_in_order(child.children@, 0, (depth - 1) as nat);
    let ghost after = descendants_in_order(children@, i + 1, depth as nat);
    assert(visit == seq![children@[i as int]] + below + after);
    proof {
        lemma_first_hit_concat(seq![children@[i as int]], below + after, search);
        lemma_first_hit_concat(below, after, search);
        lemma_first_hit_bounds(below, search);
        lemma_first_hit_bounds(after, search);
        assert((seq![children@[i as int]] + below + after) =~= seq![children@[i as int]] + (below
            + after));
    }
    *remaining = *remaining - 1;
    let hit = match search {
        DescendantSearch::Editable => match child.evidence {
            NodeEvidence::EditableField | NodeEvidence::EditableDocument => true,
            _ => false,
        },
        DescendantSearch::ContainsAnchor { exact_geometry_only } => evidence_accepts_caret_probe(
            child.evidence,
            false,
            exact_geometry_only,
        ) && child.contains_anchor,
        DescendantSearch::Caret => child.caret != CaretProbe::Missing,
    };
    if hit {
        return Some(child.caret);
    }
    if *remaining > 0 {
        let found = search_descendants(&child.children, 0, depth - 1, remaining, search);
        if found.is_some() {
            return found;
        }
    }
    if *remaining == 0 {
        return None;
    }
    search_descendants(children, i + 1, depth, remaining, search)
}

/// The element where a search below `children` with the descendant depth
/// and budget stops, if it stops within the budget.
pub open spec fn bounded_search_hit(children: Seq<ElementNode>, search: DescendantSearch) -> Option<
    ElementNode,
> {
    let visit = descendants_in_order(children, 0, MAX_UIA_CARET_DESCENDANT_DEPTH as nat);
    let k = first_hit(visit, search);
    if k < MAX_UIA_CARET_DESCENDANT_NODES && k < visit.len() {
        Some(visit[k])
    } else {
        None
    }
}

fn bounded_search(children: &Vec<ElementNode>, search: DescendantSearch) -> (r: Option<CaretProbe>)
    ensures
        r == (match bounded_search_hit(children@, search) {
            Some(node) => Some(node.caret),
            None => None,
        }),
{
    let mut remaining = MAX_UIA_CARET_DESCENDANT_NODES;
    search_descendants(children, 0, MAX_UIA_CARET_DESCENDANT_DEPTH, &mut remaining, search)
}

/// The caret of the first descendant, within the descendant depth and
/// budget, whose own caret source answers.
pub fn descendant_caret_anchor(children: &Vec<ElementNode>) -> (r: CaretProbe)
    ensures
        r == (match bounded_search_hit(children@, DescendantSearch::Caret) {
            Some(node) => node.caret,
            None => CaretProbe::Missing,
        }),
{
    match bounded_search(children, DescendantSearch::Caret) {
        Some(c) => c,
        None => CaretProbe::Missing,
    }
}

/// Whether a descendant within the descendant depth and budget is an
/// editable field or document.
pub fn descendant_contains_editable(children: &Vec<ElementNode>) -> (r: bool)
    ensures
        r == bounded_search_hit(children@, DescendantSearch::Editable) is Some,
{
    bounded_search(children, DescendantSearch::Editable).is_some()
}

/// Whether a descendant within the descendant depth and budget allows a
/// caret probe and contains the anchor.
pub fn descendant_contains_matching_anchor(children: &Vec<ElementNode>, exact_geometry_only: bool) -> (r:
    bool)
    ensures
        r == bounded_search_hit(
            children@,
            DescendantSearch::ContainsAnchor { exact_geometry_only },
        ) is Some,
{
    bounded_search(children, DescendantSearch::ContainsAnchor { exact_geometry_only }).is_some()
}

/// The caret of a fallback: the assumed caret of an empty field, if any.
pub open spec fn fallback_probe(fallback: Option<CaretAnchor>) -> CaretProbe {
    match fallback {
        Some(a) => CaretProbe::Found(a),
        None => CaretProbe::Missing,
    }
}

/// What a search for a caret below `children` (at most `depth` levels down,
/// with `remaining` elements of budget) gives, and the budget left.
pub open spec fn caret_search_outcome(children: Seq<ElementNode>, depth: nat, remaining: nat) -> (
    CaretProbe,
    nat,
) {
    let visit = descendants_in_order(children, 0, depth);
    let budget = if remaining < visit.len() {
        remaining as int
    } else {
        visit.len() as int
    };
    let k = first_hit(visit, DescendantSearch::Caret);
    if k < budget {
        (visit[k].caret, (remaining - (k + 1)) as nat)
    } else {
        (CaretProbe::Missing, (remaining - budget) as nat)
    }
}

/// The search for the caret of an editable descendant, over the siblings
/// `children[i..]`, and the budget it leaves. Each element visited spends one
/// unit. An editable element gives its own caret, else the caret of any of
/// its descendants, else its assumed caret when it is an empty field (kept
/// as a fallback, the first one found, while the later siblings are
/// searched); any other element has its own descendants searched the same
/// way. A caret or a suppression ends the search; when the budget runs out,
/// or the siblings do, the fallback is the result.
pub open spec fn editable_walk(
    children: Seq<ElementNode>,
    i: int,
    depth: nat,
    remaining: nat,
    exact_geometry_only: bool,
    fallback: Option<CaretAnchor>,
) -> (CaretProbe, nat)
    decreases depth, children.len() - i,
{
    if depth == 0 || i < 0 || i >= children.len() || remaining == 0 {
        (fallback_probe(fallback), remaining)
    } else {
        let child = children[i];
        let rem = (remaining - 1) as nat;
        if accepts_caret_probe_spec(child.evidence, false, exact_geometry_only) {
            if child.caret != CaretProbe::Missing {
                (child.caret, rem)
            } else {
                let below = caret_search_outcome(child.children@, (depth - 1) as nat, rem);
                if below.0 != CaretProbe::Missing {
                    below
                } else {
                    let next_fallback = if fallback is None {
                        child.empty_field_caret
                    } else {
                        fallback
                    };
                    editable_walk(children, i + 1, depth, below.1, exact_geometry_only, next_fallback)
                }
            }
        } else {
            let below = editable_walk(
                child.children@,
                0,
                (depth - 1) as nat,
                rem,
                exact_geometry_only,
                None,
            );
            if below.0 != CaretProbe::Missing {
                below
            } else {
                editable_walk(children, i + 1, depth, below.1, exact_geometry_only, fallback)
            }
        }
    }
}

/// Searches below the siblings `children[i..]` for the caret of an editable
/// descendant, as `editable_walk` says, spending `*remaining`.
pub fn editable_descendant_caret(
    children: &Vec<ElementNode>,
    i: usize,
    depth: usize,
    remaining: &mut usize,
    exact_geometry_only: bool,
    fallback: Option<CaretAnchor>,
) -> (r: CaretProbe)
    ensures
        (r, *final(remaining) as nat) == editable_walk(
            children@,
            i as int,
            depth as nat,
            *old(remaining) as nat,
            exact_geometry_only,
            fallback,
        ),
    decreases depth, children@.len() - i,
{
    if depth == 0 || i >= children.len() || *remaining == 0 {
        return match fallback {
            Some(a) => CaretProbe::Found(a),
            None => CaretProbe::Missing,
        };
    }
    let child = &children[i];
    *remaining = *remaining - 1;
    if evidence_accepts_caret_probe(child.evidence, false, exact_geometry_only) {
        if child.caret != CaretProbe::Missing {
            return child.caret;
        }
        let ghost rem = *remaining;
        let found = search_descendants(
            &child.children,
            0,
            depth - 1,
            remaining,
            DescendantSearch::Caret,
        );
        proof {
            lemma_first_hit_bounds(
                descendants_in_order(child.children@, 0, (depth - 1) as nat),
                DescendantSearch::Caret,
            );
        }
        if let Some(c) = found {
            return c;
        }
        let next_fallback = if fallback.is_none() {
            child.empty_field_caret
        } else {
            fallback
        };
        editable_descendant_caret(
            children,
            i + 1,
            depth,
            remaining,
            exact_geometry_only,
            next_fallback,
        )
    } else {
        let below = editable_descendant_caret(
            &child.children,
            0,
            depth - 1,
            remaining,
            exact_geometry_only,
            None,
        );
        if below != CaretProbe::Missing {
            return below;
        }
        editable_descendant_caret(children, i + 1, depth, remaining, exact_geometry_only, fallback)
    }
}

/// The caret of an editable descendant of an element whose children are
/// `children`: searched at most the descendant depth down and over at most
/// the descendant budget of elements.
pub fn descendant_editable_caret_anchor(children: &Vec<ElementNode>, exact_geometry_only: bool) -> (r:
    CaretProbe)
    ensures
        r == editable_walk(
            children@,
            0,
            MAX_UIA_CARET_DESCENDANT_DEPTH as nat,
            MAX_UIA_CARET_DESCENDANT_NODES as nat,
            exact_geometry_only,
            None,
        ).0,
{
    let mut remaining = MAX_UIA_CARET_DESCENDANT_NODES;
    editable_descendant_caret(
        children,
        0,
        MAX_UIA_CARET_DESCENDANT_DEPTH,
        &mut remaining,
        exact_geometry_only,
        None,
    )
}

/// The search stops at the first element, in depth-first order within its
/// depth, where it is satisfied, and there is such an element exactly when
/// some element within the depth satisfies it: with a budget no smaller
/// than the number of those elements, the search finds a caret if and only
/// if one of them satisfies it.
pub proof fn lemma_descendant_search_finds_first_hit(
    children: Seq<ElementNode>,
    depth: nat,
    search: DescendantSearch,
)
    ensures
        ({
            let visit = descendants_in_order(children, 0, depth);
            let k = first_hit(visit, search);
            &&& 0 <= k <= visit.len()
            &&& forall|j: int| 0 <= j < k ==> !search_hit(#[trigger] visit[j], search)
            &&& (k < visit.len() <==> exists|j: int|
                0 <= j < visit.len() && search_hit(#[trigger] visit[j], search))
        }),
{
    let visit = descendants_in_order(children, 0, depth);
    lemma_first_hit_bounds(visit, search);
    let k = first_hit(visit, search);
    if k < visit.len() {
        assert(search_hit(visit[k], search));
    }
}

} // verus!
