//! Navigation in nested SR-like structures.

use dicom_tools::structured::{value_at_path, DicomNode, NodeElement, NodeValue, PathSegment};

fn text(group: u16, element: u16, value: &str) -> NodeElement {
    NodeElement {
        group,
        element,
        value: NodeValue::Text(String::from(value)),
    }
}

fn sequence(group: u16, element: u16, items: Vec<DicomNode>) -> NodeElement {
    NodeElement {
        group,
        element,
        value: NodeValue::Sequence(items),
    }
}

/// The SR-like document of the navigation scenarios: a content
/// sequence whose first item carries a concept-name code sequence and
/// a nested content sequence with a text value.
fn build_sr_like_tree() -> DicomNode {
    let concept = DicomNode {
        elements: vec![
            text(0x0008, 0x0100, "121070"),
            text(0x0008, 0x0104, "Findings"),
            text(0x0008, 0x0102, "DCM"),
        ],
    };

    let nested_text = DicomNode {
        elements: vec![
            text(0x0040, 0xA040, "TEXT"),
            text(0x0040, 0xA160, "Lesion size 3mm"),
        ],
    };

    let container_child = DicomNode {
        elements: vec![sequence(0x0040, 0xA730, vec![nested_text])],
    };

    let root_container = DicomNode {
        elements: vec![
            text(0x0040, 0xA040, "CONTAINER"),
            sequence(0x0040, 0xA043, vec![concept]),
            sequence(0x0040, 0xA730, vec![container_child]),
        ],
    };

    DicomNode {
        elements: vec![
            text(0x0010, 0x0010, "Structured^Report"),
            text(0x0010, 0x0020, "SR001"),
            text(0x0008, 0x0060, "SR"),
            text(0x0008, 0x0016, "1.2.840.10008.5.1.4.1.1.88.11"),
            text(0x0008, 0x0018, "1.2.826.0.1.3680043.2.1125.3.1"),
            sequence(0x0040, 0xA730, vec![root_container]),
        ],
    }
}

#[test]
fn test_value_at_path_simple_element() {
    let obj = build_sr_like_tree();
    let path = vec![PathSegment::element(0x0010, 0x0010)];
    let value = value_at_path(&obj, &path);
    assert_eq!(value, Some("Structured^Report".to_string()));
}

#[test]
fn test_value_at_path_sequence_navigation() {
    let obj = build_sr_like_tree();
    // ContentSequence -> first item -> ConceptNameCodeSequence -> first
    // item -> CodeMeaning.
    let path = vec![
        PathSegment::element(0x0040, 0xA730),
        PathSegment::element(0x0040, 0xA043),
        PathSegment::element(0x0008, 0x0104),
    ];
    let value = value_at_path(&obj, &path);
    assert_eq!(value, Some("Findings".to_string()));
}

#[test]
fn test_value_at_path_item_index() {
    let obj = build_sr_like_tree();
    let path = vec![
        PathSegment::item(0x0040, 0xA730, 0),
        PathSegment::element(0x0040, 0xA040),
    ];
    let value = value_at_path(&obj, &path);
    assert_eq!(value, Some("CONTAINER".to_string()));
}

#[test]
fn test_value_at_path_item_index_out_of_range() {
    let obj = build_sr_like_tree();
    let path = vec![
        PathSegment::item(0x0040, 0xA730, 4),
        PathSegment::element(0x0040, 0xA040),
    ];
    assert_eq!(value_at_path(&obj, &path), None);
}

#[test]
fn test_value_at_path_invalid_path() {
    let obj = build_sr_like_tree();
    let path = vec![PathSegment::element(0x9999, 0x9999)];
    assert_eq!(value_at_path(&obj, &path), None);
}

#[test]
fn test_value_at_path_empty_path() {
    let obj = build_sr_like_tree();
    let path = vec![];
    assert_eq!(value_at_path(&obj, &path), None);
}

#[test]
fn test_path_segment_element() {
    let segment = PathSegment::element(0x0010, 0x0010);
    assert_eq!(segment.group, 0x0010);
    assert_eq!(segment.element, 0x0010);
    assert_eq!(segment.item_index, None);
}

#[test]
fn test_path_segment_item() {
    let segment = PathSegment::item(0x0040, 0xA730, 0);
    assert_eq!(segment.group, 0x0040);
    assert_eq!(segment.element, 0xA730);
    assert_eq!(segment.item_index, Some(0));
}

#[test]
fn structured_path_navigation_reads_nested_sequences() {
    let obj = build_sr_like_tree();

    let text_path = vec![
        PathSegment::item(0x0040, 0xA730, 0),
        PathSegment::item(0x0040, 0xA730, 0),
        PathSegment::item(0x0040, 0xA730, 0),
        PathSegment::element(0x0040, 0xA160),
    ];
    let text = value_at_path(&obj, &text_path);
    assert_eq!(text.as_deref(), Some("Lesion size 3mm"));

    let concept_path = vec![
        PathSegment::item(0x0040, 0xA730, 0),
        PathSegment::item(0x0040, 0xA043, 0),
        PathSegment::element(0x0008, 0x0104),
    ];
    let meaning = value_at_path(&obj, &concept_path);
    assert_eq!(meaning.as_deref(), Some("Findings"));
}
