//! Navigating deeply nested data sets (e.g. SR content sequences) with
//! path segments.
//!
//! The nested data set is modeled as a tree of elements whose leaves
//! carry their display text; the caller converts a parsed document into
//! this tree once. Navigation itself — tag lookup, item selection,
//! first-item defaulting — is verified here.

use vstd::prelude::*;

verus! {

/// The value of one element of a nested data set: leaf text (as the
/// caller renders it), or a sequence of items.
pub enum NodeValue {
    Text(String),
    Sequence(Vec<DicomNode>),
}

/// One element of a nested data set.
pub struct NodeElement {
    pub group: u16,
    pub element: u16,
    pub value: NodeValue,
}

/// One item of a nested data set: its elements, in stored order.
pub struct DicomNode {
    pub elements: Vec<NodeElement>,
}

/// One hop in a navigation path. When `item_index` is given, the tag
/// must name a sequence and the hop descends into that item.
#[derive(Clone, PartialEq, Eq, Debug)]
pub struct PathSegment {
    pub group: u16,
    pub element: u16,
    pub item_index: Option<usize>,
}

impl PathSegment {
    /// Navigate to a non-sequence element.
    pub fn element(group: u16, element: u16) -> (r: PathSegment)
        ensures
            r.group == group && r.element == element && r.item_index is None,
    {
        PathSegment { group, element, item_index: None }
    }

    /// Navigate into the `item_index`-th item of a sequence.
    pub fn item(group: u16, element: u16, item_index: usize) -> (r: PathSegment)
        ensures
            r.group == group && r.element == element && r.item_index == Some(item_index),
    {
        PathSegment { group, element, item_index: Some(item_index) }
    }
}

/// The position of the first element under the given tag at or after
/// `from`, if any.
pub open spec fn spec_find_element(elements: Seq<NodeElement>, group: u16, element: u16, from: int) -> Option<int>
    decreases elements.len() - from when 0 <= from <= elements.len()
{
    if from >= elements.len() {
        None
    } else if elements[from].group == group && elements[from].element == element {
        Some(from)
    } else {
        spec_find_element(elements, group, element, from + 1)
    }
}

/// What navigating the path from segment `i` on, starting at `node`,
/// resolves to: the leaf's text when the walk ends on a text element,
/// and nothing when a tag is absent, an item index is out of range, a
/// hop expects a sequence where none is, or the walk ends inside a
/// sequence. A hop without an item index that is not the last segment
/// descends into the first item.
pub open spec fn spec_value_at_path(node: DicomNode, path: Seq<PathSegment>, i: int) -> Option<
    Seq<char>,
>
    decreases path.len() - i when 0 <= i <= path.len()
{
    if i >= path.len() {
        None
    } else {
        let seg = path[i];
        match spec_find_element(node.elements@, seg.group, seg.element, 0) {
            None => None,
            Some(j) => {
                let found = node.elements@[j];
                match seg.item_index {
                    Some(idx) => match found.value {
                        NodeValue::Sequence(items) => if idx < items@.len() {
                            spec_value_at_path(items@[idx as int], path, i + 1)
                        } else {
                            None
                        },
                        NodeValue::Text(_) => None,
                    },
                    None => if i == path.len() - 1 {
                        match found.value {
                            NodeValue::Text(s) => Some(s@),
                            NodeValue::Sequence(_) => None,
                        }
                    } else {
                        match found.value {
                            NodeValue::Sequence(items) => if items@.len() > 0 {
                                spec_value_at_path(items@[0], path, i + 1)
                            } else {
                                None
                            },
                            NodeValue::Text(_) => None,
                        }
                    },
                }
            },
        }
    }
}

/// Finds the first element under the given tag.
fn find_element<'a>(node: &'a DicomNode, group: u16, element: u16) -> (r: Option<&'a NodeElement>)
    ensures
        match r {
            Some(e) => spec_find_element(node.elements@, group, element, 0) matches Some(j)
                && node.elements@[j] == *e,
            None => spec_find_element(node.elements@, group, element, 0) is None,
        },
{
    let n = node.elements.len();
    let mut i: usize = 0;
    while i < n
        invariant
            n == node.elements@.len(),
            0 <= i <= n,
            spec_find_element(node.elements@, group, element, 0) == spec_find_element(
                node.elements@,
                group,
                element,
                i as int,
            ),
        decreases n - i,
    {
        let e = &node.elements[i];
        if e.group == group && e.element == element {
            return Some(e);
        }
        i = i + 1;
    }
    None
}

/// Resolves a navigation path within a nested data set, returning the
/// resolved leaf text when the path ends on a text element.
pub fn value_at_path(node: &DicomNode, path: &Vec<PathSegment>) -> (r: Option<String>)
    ensures
        match r {
            Some(s) => spec_value_at_path(*node, path@, 0) == Some(s@),
            None => spec_value_at_path(*node, path@, 0) is None,
        },
{
    let n = path.len();
    if n == 0 {
        return None;
    }
    let mut current: &DicomNode = node;
    let mut i: usize = 0;
    while i < n
        invariant
            n == path@.len(),
            0 <= i < n,
            spec_value_at_path(*node, path@, 0) == spec_value_at_path(*current, path@, i as int),
        decreases n - i,
    {
        let seg = &path[i];
        let found = match find_element(current, seg.group, seg.element) {
            Some(e) => e,
            None => {
                return None;
            },
        };

        match &seg.item_index {
            Some(item_index) => {
                match &found.value {
                    NodeValue::Sequence(items) => {
                        if *item_index < items.len() {
                            current = &items[*item_index];
                        } else {
                            return None;
                        }
                    },
                    NodeValue::Text(_) => {
                        return None;
                    },
                }
            },
            None => {
                if i == n - 1 {
                    match &found.value {
                        NodeValue::Text(s) => {
                            return Some(s.clone());
                        },
                        NodeValue::Sequence(_) => {
                            return None;
                        },
                    }
                } else {
                    match &found.value {
                        NodeValue::Sequence(items) => {
                            if items.len() > 0 {
                                current = &items[0];
                            } else {
                                return None;
                            }
                        },
                        NodeValue::Text(_) => {
                            return None;
                        },
                    }
                }
            },
        }
        i = i + 1;
        if i >= n {
            // A final hop with an item index descends and ends inside
            // the sequence: nothing is resolved.
            return None;
        }
    }
    None
}

} // verus!
