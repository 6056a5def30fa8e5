//! Validation messages, metadata extraction and the field map.

use dicom_tools::dump::truncate;
use dicom_tools::fieldmap::FieldMap;
use dicom_tools::metadata::{extract_basic_metadata, extract_detailed_metadata, insert_if, MetadataFields};
use dicom_tools::models::ValidationSummary;
use dicom_tools::validation::validation_messages;

fn empty_fields() -> MetadataFields {
    MetadataFields {
        patient_name: None,
        patient_id: None,
        patient_birth_date: None,
        patient_sex: None,
        study_date: None,
        study_time: None,
        study_description: None,
        accession_number: None,
        modality: None,
        sop_class_uid: None,
        sop_instance_uid: None,
        transfer_syntax: None,
        has_pixel_data: false,
        rows: None,
        columns: None,
        number_of_frames: None,
        rows_text: None,
        columns_text: None,
        pixel_representation: None,
        photometric_interpretation: None,
        number_of_frames_text: None,
    }
}

#[test]
fn truncate_limits_preview() {
    let preview = truncate("ABCDEFGHIJ", 5);
    assert_eq!(preview, "ABCDE…");
}

#[test]
fn truncate_keeps_short_input() {
    assert_eq!(truncate("AB", 5), "AB");
    assert_eq!(truncate("ABCDE", 5), "ABCDE");
    assert_eq!(truncate("", 0), "");
}

#[test]
fn validation_messages_splits_errors_and_warnings() {
    let summary = ValidationSummary {
        valid: false,
        missing_tags: vec!["PatientID".into(), "Modality".into()],
        has_pixel_data: false,
    };
    let (errors, warnings) = validation_messages(&summary);
    assert_eq!(errors.len(), 1);
    assert_eq!(warnings.len(), 1);
    assert!(errors[0].contains("Missing 2 attribute"));
    assert!(warnings[0].contains("Pixel Data"));
}

#[test]
fn validation_messages_exact_error_line() {
    let summary = ValidationSummary {
        valid: false,
        missing_tags: vec!["PatientID".into(), "Modality".into(), "Rows".into()],
        has_pixel_data: true,
    };
    let (errors, warnings) = validation_messages(&summary);
    assert_eq!(
        errors,
        vec![String::from("Missing 3 attribute(s): PatientID, Modality, Rows")]
    );
    assert!(warnings.is_empty());
}

#[test]
fn validation_messages_empty_for_clean_summary() {
    let summary = ValidationSummary {
        valid: true,
        missing_tags: vec![],
        has_pixel_data: true,
    };
    let (errors, warnings) = validation_messages(&summary);
    assert!(errors.is_empty());
    assert!(warnings.is_empty());
}

#[test]
fn insert_if_skips_absent_values() {
    let mut map = FieldMap::new();
    insert_if(&mut map, "Name", Some(String::from("Doe^John")));
    insert_if(&mut map, "ID", None);
    assert_eq!(map.len(), 1);
    assert_eq!(map.get("Name").map(String::as_str), Some("Doe^John"));
    assert!(map.get("ID").is_none());
}

#[test]
fn field_map_insert_replaces_existing_key() {
    let mut map = FieldMap::new();
    insert_if(&mut map, "Name", Some(String::from("A")));
    insert_if(&mut map, "Name", Some(String::from("B")));
    assert_eq!(map.len(), 1);
    assert_eq!(map.get("Name").map(String::as_str), Some("B"));
}

#[test]
fn extract_basic_metadata_copies_fields() {
    let mut fields = empty_fields();
    fields.patient_name = Some(String::from("Doe^Jane"));
    fields.modality = Some(String::from("OT"));
    fields.has_pixel_data = true;
    fields.rows = Some(512);
    fields.columns = Some(256);

    let basic = extract_basic_metadata(&fields);
    assert_eq!(basic.patient_name.as_deref(), Some("Doe^Jane"));
    assert_eq!(basic.modality.as_deref(), Some("OT"));
    assert!(basic.has_pixel_data);
    assert_eq!(basic.rows, Some(512));
    assert_eq!(basic.columns, Some(256));
    assert_eq!(basic.patient_id, None);
    assert_eq!(basic.number_of_frames, None);
}

#[test]
fn extract_detailed_metadata_materializes_present_fields_only() {
    let mut fields = empty_fields();
    fields.patient_name = Some(String::from("Doe^Jane"));
    fields.patient_sex = Some(String::from("F"));
    fields.study_date = Some(String::from("20240101"));
    fields.modality = Some(String::from("OT"));
    fields.sop_class_uid = Some(String::from("1.2.840.10008.5.1.4.1.1.7"));
    fields.transfer_syntax = Some(String::from("1.2.840.10008.1.2.1"));

    let detailed = extract_detailed_metadata(&fields);
    assert_eq!(detailed.patient.len(), 2);
    assert_eq!(detailed.patient.get("Name").map(String::as_str), Some("Doe^Jane"));
    assert_eq!(detailed.patient.get("Sex").map(String::as_str), Some("F"));
    assert!(detailed.patient.get("ID").is_none());
    assert_eq!(detailed.study.get("Date").map(String::as_str), Some("20240101"));
    assert!(detailed.study.get("Time").is_none());
    assert_eq!(detailed.image.get("Modality").map(String::as_str), Some("OT"));
    assert_eq!(
        detailed.misc.get("SOP Class UID").map(String::as_str),
        Some("1.2.840.10008.5.1.4.1.1.7")
    );
    assert_eq!(
        detailed.misc.get("Transfer Syntax").map(String::as_str),
        Some("1.2.840.10008.1.2.1")
    );
    assert!(detailed.misc.get("SOP Instance UID").is_none());
}

#[test]
fn validation_messages_counts_in_decimal() {
    let tags: Vec<String> = (0..12).map(|i| format!("Tag{i}")).collect();
    let summary = ValidationSummary {
        valid: false,
        missing_tags: tags,
        has_pixel_data: true,
    };
    let (errors, _) = validation_messages(&summary);
    assert!(errors[0].starts_with("Missing 12 attribute(s): Tag0, Tag1,"));
}

#[test]
fn truncate_cuts_at_byte_boundary() {
    // "áé" is two characters but four UTF-8 bytes: a limit of 2 bytes
    // sits on the boundary after "á" and cuts there.
    assert_eq!(truncate("áé", 2), "á…");
    assert_eq!(truncate("áé", 4), "áé");
}
