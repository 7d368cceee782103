use ime_caret::editability::{
    CaretAnchor, NodeEvidence, MAX_UIA_CARET_DESCENDANT_DEPTH, MAX_UIA_CARET_DESCENDANT_NODES,
    MAX_UIA_CARET_PARENT_DEPTH,
};
use ime_caret::uia::{
    confirm_accessible_caret, ChainElement,
    descendant_caret_anchor, descendant_contains_editable, descendant_contains_matching_anchor,
    descendant_editable_caret_anchor, editable_descendant_caret, element_caret,
    search_descendants, uia_walk_result, CaretProbe, DescendantSearch, ElementCaretFacts,
    ElementNode, WalkNode,
};

fn anchor(x: i32) -> CaretAnchor {
    CaretAnchor { x, top: 10, bottom: 30 }
}

fn no_facts() -> ElementCaretFacts {
    ElementCaretFacts {
        composition: None,
        selection_noncollapsed: None,
        selection_anchor: None,
        exact_geometry_only: false,
        value_nonempty: false,
        caret_range_anchor: None,
    }
}

#[test]
fn active_composition_end_wins_over_every_other_range() {
    let facts = ElementCaretFacts {
        composition: Some(anchor(5)),
        selection_noncollapsed: Some(true),
        caret_range_anchor: Some(anchor(7)),
        ..no_facts()
    };
    assert_eq!(element_caret(facts), CaretProbe::Found(anchor(5)));
}

#[test]
fn a_selection_that_is_not_collapsed_shows_no_caret() {
    let facts = ElementCaretFacts {
        selection_noncollapsed: Some(true),
        selection_anchor: Some(anchor(3)),
        caret_range_anchor: Some(anchor(7)),
        ..no_facts()
    };
    assert_eq!(element_caret(facts), CaretProbe::Suppress);
}

#[test]
fn exact_geometry_trusts_only_the_collapsed_selection() {
    let with_selection = ElementCaretFacts {
        selection_noncollapsed: Some(false),
        selection_anchor: Some(anchor(3)),
        exact_geometry_only: true,
        caret_range_anchor: Some(anchor(7)),
        ..no_facts()
    };
    assert_eq!(element_caret(with_selection), CaretProbe::Found(anchor(3)));

    let filled_without_selection = ElementCaretFacts {
        exact_geometry_only: true,
        value_nonempty: true,
        caret_range_anchor: Some(anchor(7)),
        ..no_facts()
    };
    assert_eq!(element_caret(filled_without_selection), CaretProbe::Missing);

    let empty_without_selection = ElementCaretFacts {
        exact_geometry_only: true,
        caret_range_anchor: Some(anchor(7)),
        ..no_facts()
    };
    assert_eq!(element_caret(empty_without_selection), CaretProbe::Found(anchor(7)));
}

#[test]
fn caret_range_comes_before_the_selection_and_nothing_gives_missing() {
    let both = ElementCaretFacts {
        selection_noncollapsed: Some(false),
        selection_anchor: Some(anchor(3)),
        caret_range_anchor: Some(anchor(7)),
        ..no_facts()
    };
    assert_eq!(element_caret(both), CaretProbe::Found(anchor(7)));

    let selection_only = ElementCaretFacts {
        selection_noncollapsed: Some(false),
        selection_anchor: Some(anchor(3)),
        ..no_facts()
    };
    assert_eq!(element_caret(selection_only), CaretProbe::Found(anchor(3)));
    assert_eq!(element_caret(no_facts()), CaretProbe::Missing);
}

fn walk_node(evidence: NodeEvidence, caret: CaretProbe) -> WalkNode {
    WalkNode { evidence, caret, descendants: CaretProbe::Missing, empty_field_caret: None }
}

#[test]
fn focused_element_caret_comes_first() {
    let nodes = vec![
        walk_node(NodeEvidence::EditableField, CaretProbe::Found(anchor(1))),
        walk_node(NodeEvidence::EditableField, CaretProbe::Found(anchor(2))),
    ];
    let found = uia_walk_result(&nodes, false, false, true, CaretProbe::Found(anchor(9)));
    assert_eq!(found, CaretProbe::Found(anchor(1)));
}

#[test]
fn focused_descendants_come_before_the_ancestors() {
    let nodes = vec![
        walk_node(NodeEvidence::Unknown, CaretProbe::Found(anchor(1))),
        walk_node(NodeEvidence::EditableField, CaretProbe::Found(anchor(2))),
    ];
    let found = uia_walk_result(&nodes, false, false, true, CaretProbe::Found(anchor(9)));
    assert_eq!(found, CaretProbe::Found(anchor(9)));
    let without_walker = uia_walk_result(&nodes, false, false, false, CaretProbe::Found(anchor(9)));
    assert_eq!(without_walker, CaretProbe::Missing);
}

#[test]
fn walk_climbs_to_an_editable_ancestor() {
    let nodes = vec![
        walk_node(NodeEvidence::SelectableText, CaretProbe::Found(anchor(1))),
        walk_node(NodeEvidence::Unknown, CaretProbe::Missing),
        walk_node(NodeEvidence::EditableDocument, CaretProbe::Found(anchor(3))),
    ];
    assert_eq!(
        uia_walk_result(&nodes, false, false, true, CaretProbe::Missing),
        CaretProbe::Found(anchor(3))
    );
    // With exact geometry only, an editable document is not probed.
    assert_eq!(
        uia_walk_result(&nodes, false, true, true, CaretProbe::Missing),
        CaretProbe::Missing
    );
    // A console window probes every element.
    assert_eq!(
        uia_walk_result(&nodes, true, false, true, CaretProbe::Missing),
        CaretProbe::Found(anchor(1))
    );
}

#[test]
fn a_suppressed_caret_ends_the_walk() {
    let mut empty_field = walk_node(NodeEvidence::EditableField, CaretProbe::Missing);
    empty_field.empty_field_caret = Some(anchor(4));
    let nodes = vec![
        empty_field,
        walk_node(NodeEvidence::EditableField, CaretProbe::Suppress),
        walk_node(NodeEvidence::EditableField, CaretProbe::Found(anchor(6))),
    ];
    assert_eq!(
        uia_walk_result(&nodes, false, false, true, CaretProbe::Missing),
        CaretProbe::Suppress
    );
}

#[test]
fn empty_editable_field_gives_the_fallback_caret() {
    let mut empty_field = walk_node(NodeEvidence::EditableField, CaretProbe::Missing);
    empty_field.empty_field_caret = Some(anchor(4));
    let mut second = walk_node(NodeEvidence::EditableField, CaretProbe::Missing);
    second.empty_field_caret = Some(anchor(8));
    let nodes = vec![empty_field, second, walk_node(NodeEvidence::Unknown, CaretProbe::Missing)];
    assert_eq!(
        uia_walk_result(&nodes, false, false, true, CaretProbe::Missing),
        CaretProbe::Found(anchor(4))
    );
}

#[test]
fn walk_stops_at_the_parent_depth() {
    let mut nodes = Vec::new();
    for _ in 0..MAX_UIA_CARET_PARENT_DEPTH {
        nodes.push(walk_node(NodeEvidence::Unknown, CaretProbe::Missing));
    }
    nodes.push(walk_node(NodeEvidence::EditableField, CaretProbe::Found(anchor(1))));
    assert_eq!(
        uia_walk_result(&nodes, false, false, true, CaretProbe::Missing),
        CaretProbe::Missing
    );
    nodes.remove(0);
    assert_eq!(
        uia_walk_result(&nodes, false, false, true, CaretProbe::Missing),
        CaretProbe::Found(anchor(1))
    );
}

fn leaf(evidence: NodeEvidence, caret: CaretProbe) -> ElementNode {
    ElementNode { evidence, caret, contains_anchor: false, empty_field_caret: None, children: Vec::new() }
}

fn parent(children: Vec<ElementNode>) -> ElementNode {
    ElementNode {
        evidence: NodeEvidence::Unknown,
        caret: CaretProbe::Missing,
        contains_anchor: false,
        empty_field_caret: None,
        children,
    }
}

#[test]
fn descendant_search_is_depth_first_and_spends_one_per_element() {
    // parent(a: parent(b: editable 2), c: editable 3)
    let tree = vec![
        parent(vec![leaf(NodeEvidence::EditableField, CaretProbe::Found(anchor(2)))]),
        leaf(NodeEvidence::EditableField, CaretProbe::Found(anchor(3))),
    ];
    let mut remaining = MAX_UIA_CARET_DESCENDANT_NODES;
    let found = search_descendants(
        &tree,
        0,
        MAX_UIA_CARET_DESCENDANT_DEPTH,
        &mut remaining,
        DescendantSearch::Editable,
    );
    assert_eq!(found, Some(CaretProbe::Found(anchor(2))));
    assert_eq!(remaining, MAX_UIA_CARET_DESCENDANT_NODES - 2);

    // One level only: the nested field is out of reach.
    let mut remaining = MAX_UIA_CARET_DESCENDANT_NODES;
    let found = search_descendants(&tree, 0, 1, &mut remaining, DescendantSearch::Editable);
    assert_eq!(found, Some(CaretProbe::Found(anchor(3))));
    assert_eq!(remaining, MAX_UIA_CARET_DESCENDANT_NODES - 2);
}

#[test]
fn descendant_search_gives_up_when_the_budget_runs_out() {
    let tree = vec![
        leaf(NodeEvidence::Unknown, CaretProbe::Missing),
        leaf(NodeEvidence::Unknown, CaretProbe::Missing),
        leaf(NodeEvidence::Unknown, CaretProbe::Found(anchor(5))),
    ];
    let mut remaining: usize = 2;
    let found = search_descendants(&tree, 0, 4, &mut remaining, DescendantSearch::Caret);
    assert_eq!(found, None);
    assert_eq!(remaining, 0);

    let mut remaining: usize = 3;
    let found = search_descendants(&tree, 0, 4, &mut remaining, DescendantSearch::Caret);
    assert_eq!(found, Some(CaretProbe::Found(anchor(5))));
    assert_eq!(remaining, 0);

    let mut remaining: usize = 10;
    let found = search_descendants(&tree, 0, 4, &mut remaining, DescendantSearch::Editable);
    assert_eq!(found, None);
    assert_eq!(remaining, 7);
}

#[test]
fn anchor_search_needs_an_allowed_element_that_contains_the_anchor() {
    let mut document = leaf(NodeEvidence::EditableDocument, CaretProbe::Found(anchor(1)));
    document.contains_anchor = true;
    let mut field = leaf(NodeEvidence::EditableField, CaretProbe::Found(anchor(2)));
    field.contains_anchor = true;
    let outside = leaf(NodeEvidence::EditableField, CaretProbe::Found(anchor(3)));
    let tree = vec![outside, document, field];

    let mut remaining = MAX_UIA_CARET_DESCENDANT_NODES;
    let relaxed = search_descendants(
        &tree,
        0,
        MAX_UIA_CARET_DESCENDANT_DEPTH,
        &mut remaining,
        DescendantSearch::ContainsAnchor { exact_geometry_only: false },
    );
    assert_eq!(relaxed, Some(CaretProbe::Found(anchor(1))));

    let mut remaining = MAX_UIA_CARET_DESCENDANT_NODES;
    let exact = search_descendants(
        &tree,
        0,
        MAX_UIA_CARET_DESCENDANT_DEPTH,
        &mut remaining,
        DescendantSearch::ContainsAnchor { exact_geometry_only: true },
    );
    assert_eq!(exact, Some(CaretProbe::Found(anchor(2))));
}

#[test]
fn editable_descendant_gives_its_own_caret_or_one_below_it() {
    // An editable field without a caret whose child answers.
    let mut field = leaf(NodeEvidence::EditableField, CaretProbe::Missing);
    field.children.push(leaf(NodeEvidence::Unknown, CaretProbe::Found(anchor(6))));
    let tree = vec![leaf(NodeEvidence::Unknown, CaretProbe::Found(anchor(1))), field];
    assert_eq!(descendant_editable_caret_anchor(&tree, false), CaretProbe::Found(anchor(6)));

    // A caret of an element that is not editable does not count.
    let tree = vec![leaf(NodeEvidence::SelectableText, CaretProbe::Found(anchor(1)))];
    assert_eq!(descendant_editable_caret_anchor(&tree, false), CaretProbe::Missing);

    // Exact geometry skips editable documents.
    let tree = vec![
        leaf(NodeEvidence::EditableDocument, CaretProbe::Found(anchor(2))),
        leaf(NodeEvidence::EditableField, CaretProbe::Suppress),
    ];
    assert_eq!(descendant_editable_caret_anchor(&tree, false), CaretProbe::Found(anchor(2)));
    assert_eq!(descendant_editable_caret_anchor(&tree, true), CaretProbe::Suppress);
}

#[test]
fn empty_editable_descendant_is_the_fallback_when_nothing_answers() {
    let mut first = leaf(NodeEvidence::EditableField, CaretProbe::Missing);
    first.empty_field_caret = Some(anchor(4));
    let mut second = leaf(NodeEvidence::EditableField, CaretProbe::Missing);
    second.empty_field_caret = Some(anchor(8));
    let tree = vec![first, second];
    assert_eq!(descendant_editable_caret_anchor(&tree, false), CaretProbe::Found(anchor(4)));

    // A later sibling's caret wins over the fallback.
    let mut first = leaf(NodeEvidence::EditableField, CaretProbe::Missing);
    first.empty_field_caret = Some(anchor(4));
    let tree = vec![first, leaf(NodeEvidence::EditableField, CaretProbe::Found(anchor(9)))];
    let mut remaining: usize = 10;
    let found = editable_descendant_caret(&tree, 0, 4, &mut remaining, false, None);
    assert_eq!(found, CaretProbe::Found(anchor(9)));
    assert_eq!(remaining, 8);

    // With the budget spent on the first field, its fallback is the result.
    let mut first = leaf(NodeEvidence::EditableField, CaretProbe::Missing);
    first.empty_field_caret = Some(anchor(4));
    let tree = vec![first, leaf(NodeEvidence::EditableField, CaretProbe::Found(anchor(9)))];
    let mut remaining: usize = 1;
    let found = editable_descendant_caret(&tree, 0, 4, &mut remaining, false, None);
    assert_eq!(found, CaretProbe::Found(anchor(4)));
    assert_eq!(remaining, 0);
}

#[test]
fn bounded_descendant_searches_use_the_fixed_depth_and_budget() {
    // A caret five levels down is beyond the descendant depth.
    let mut deep = vec![leaf(NodeEvidence::EditableField, CaretProbe::Found(anchor(5)))];
    for _ in 0..MAX_UIA_CARET_DESCENDANT_DEPTH {
        deep = vec![parent(deep)];
    }
    assert_eq!(descendant_caret_anchor(&deep), CaretProbe::Missing);
    assert!(!descendant_contains_editable(&deep));
    let shallow = deep.remove(0).children;
    assert_eq!(descendant_caret_anchor(&shallow), CaretProbe::Found(anchor(5)));
    assert!(descendant_contains_editable(&shallow));

    // More siblings than the budget: the last one is never visited.
    let mut wide = Vec::new();
    for _ in 0..MAX_UIA_CARET_DESCENDANT_NODES {
        wide.push(leaf(NodeEvidence::Unknown, CaretProbe::Missing));
    }
    let mut target = leaf(NodeEvidence::EditableField, CaretProbe::Found(anchor(1)));
    target.contains_anchor = true;
    wide.push(target);
    assert!(!descendant_contains_matching_anchor(&wide, true));
    wide.remove(0);
    assert!(descendant_contains_matching_anchor(&wide, true));
}

fn chain_element(evidence: NodeEvidence, contains_anchor: bool) -> ChainElement {
    ChainElement { evidence, contains_anchor }
}

#[test]
fn accessible_caret_is_believed_without_automation_unless_geometry_must_be_exact() {
    let a = anchor(3);
    assert_eq!(confirm_accessible_caret(a, false, false, &Vec::new(), true, false), Some(a));
    assert_eq!(confirm_accessible_caret(a, true, false, &Vec::new(), true, false), None);
    assert_eq!(confirm_accessible_caret(a, false, true, &Vec::new(), true, false), Some(a));
    assert_eq!(confirm_accessible_caret(a, true, true, &Vec::new(), true, false), None);
}

#[test]
fn accessible_caret_needs_an_editable_element_that_contains_it() {
    let a = anchor(3);
    let chain = vec![
        chain_element(NodeEvidence::Unknown, true),
        chain_element(NodeEvidence::EditableDocument, true),
        chain_element(NodeEvidence::EditableField, false),
    ];
    assert_eq!(confirm_accessible_caret(a, false, true, &chain, true, false), Some(a));
    // Exact geometry does not accept the document.
    assert_eq!(confirm_accessible_caret(a, true, true, &chain, true, false), None);
    // A matching descendant confirms it at once.
    assert_eq!(confirm_accessible_caret(a, true, true, &chain, true, true), Some(a));
    // Without a tree walker only the focused element counts.
    assert_eq!(confirm_accessible_caret(a, false, true, &chain, false, true), None);
}

#[test]
fn accessible_caret_chain_is_read_up_to_the_parent_depth() {
    let a = anchor(3);
    let mut chain = Vec::new();
    for _ in 0..=MAX_UIA_CARET_PARENT_DEPTH {
        chain.push(chain_element(NodeEvidence::Unknown, true));
    }
    chain.push(chain_element(NodeEvidence::EditableField, true));
    assert_eq!(confirm_accessible_caret(a, true, true, &chain, true, false), None);
    chain.remove(0);
    assert_eq!(confirm_accessible_caret(a, true, true, &chain, true, false), Some(a));
}
