//! Extraction of basic and detailed metadata from a document's
//! attribute values.

use dicom_tools::metadata::{extract_basic_metadata, extract_detailed_metadata, MetadataFields};

fn create_test_fields() -> MetadataFields {
    MetadataFields {
        patient_name: Some("Test^Patient".to_string()),
        patient_id: Some("PAT123".to_string()),
        patient_birth_date: Some("19900101".to_string()),
        patient_sex: Some("M".to_string()),
        study_date: Some("20240101".to_string()),
        study_time: Some("120000".to_string()),
        study_description: None,
        accession_number: Some("ACC456".to_string()),
        modality: Some("CT".to_string()),
        sop_class_uid: Some("1.2.840.10008.5.1.4.1.1.2".to_string()),
        sop_instance_uid: Some("1.2.3.4.5.6.7".to_string()),
        transfer_syntax: None,
        has_pixel_data: false,
        rows: Some(512),
        columns: Some(512),
        number_of_frames: Some(10),
        rows_text: Some("512".to_string()),
        columns_text: Some("512".to_string()),
        pixel_representation: None,
        photometric_interpretation: None,
        number_of_frames_text: Some("10".to_string()),
    }
}

#[test]
fn test_extract_basic_metadata() {
    let basic = extract_basic_metadata(&create_test_fields());

    assert_eq!(basic.patient_name, Some("Test^Patient".to_string()));
    assert_eq!(basic.patient_id, Some("PAT123".to_string()));
    assert_eq!(basic.study_date, Some("20240101".to_string()));
    assert_eq!(basic.modality, Some("CT".to_string()));
    assert_eq!(
        basic.sop_class_uid,
        Some("1.2.840.10008.5.1.4.1.1.2".to_string())
    );
    assert_eq!(basic.rows, Some(512));
    assert_eq!(basic.columns, Some(512));
    assert_eq!(basic.number_of_frames, Some(10));
    assert!(!basic.has_pixel_data);
}

#[test]
fn test_extract_detailed_metadata() {
    let detailed = extract_detailed_metadata(&create_test_fields());

    assert_eq!(detailed.patient.get("Name"), Some(&"Test^Patient".to_string()));
    assert_eq!(detailed.patient.get("ID"), Some(&"PAT123".to_string()));
    assert_eq!(detailed.patient.get("Birth Date"), Some(&"19900101".to_string()));
    assert_eq!(detailed.patient.get("Sex"), Some(&"M".to_string()));

    assert_eq!(detailed.study.get("Date"), Some(&"20240101".to_string()));
    assert_eq!(detailed.study.get("Time"), Some(&"120000".to_string()));
    assert_eq!(detailed.study.get("Accession Number"), Some(&"ACC456".to_string()));

    assert_eq!(detailed.image.get("Modality"), Some(&"CT".to_string()));
    assert_eq!(detailed.image.get("Rows"), Some(&"512".to_string()));
    assert_eq!(detailed.image.get("Columns"), Some(&"512".to_string()));
    assert_eq!(detailed.image.get("Number of Frames"), Some(&"10".to_string()));

    assert_eq!(
        detailed.misc.get("SOP Class UID"),
        Some(&"1.2.840.10008.5.1.4.1.1.2".to_string())
    );
    assert_eq!(
        detailed.misc.get("SOP Instance UID"),
        Some(&"1.2.3.4.5.6.7".to_string())
    );
}

#[test]
fn test_extract_metadata_with_pixel_data() {
    let mut fields = create_test_fields();
    fields.has_pixel_data = true;

    let basic = extract_basic_metadata(&fields);
    assert!(basic.has_pixel_data);
}

#[test]
fn test_extract_metadata_missing_fields() {
    let fields = MetadataFields {
        patient_name: None,
        patient_id: None,
        patient_birth_date: None,
        patient_sex: None,
        study_date: None,
        study_time: None,
        study_description: None,
        accession_number: None,
        modality: None,
        sop_class_uid: None,
        sop_instance_uid: None,
        transfer_syntax: None,
        has_pixel_data: false,
        rows: None,
        columns: None,
        number_of_frames: None,
        rows_text: None,
        columns_text: None,
        pixel_representation: None,
        photometric_interpretation: None,
        number_of_frames_text: None,
    };
    let basic = extract_basic_metadata(&fields);

    assert_eq!(basic.patient_name, None);
    assert_eq!(basic.patient_id, None);
    assert_eq!(basic.study_date, None);
    assert_eq!(basic.modality, None);
    assert!(!basic.has_pixel_data);
}
