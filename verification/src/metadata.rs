//! Building metadata summaries from a document's attribute values.
//!
//! The caller reads the raw attributes out of a DICOM document and
//! hands them over as plain optional values; the functions here select
//! and categorize them. Only fields that are present materialize in the
//! output, so the summaries stay clean of empty entries.

use crate::fieldmap::FieldMap;
use crate::fieldmap::spec_insert;
use crate::models::BasicMetadata;
use crate::models::DetailedMetadata;
use vstd::prelude::*;

verus! {

/// The attribute values that the metadata summaries are built from,
/// read out of one document. A `None` marks an absent attribute.
#[derive(Clone, Debug)]
pub struct MetadataFields {
    pub patient_name: Option<String>,
    pub patient_id: Option<String>,
    pub patient_birth_date: Option<String>,
    pub patient_sex: Option<String>,
    pub study_date: Option<String>,
    pub study_time: Option<String>,
    pub study_description: Option<String>,
    pub accession_number: Option<String>,
    pub modality: Option<String>,
    pub sop_class_uid: Option<String>,
    pub sop_instance_uid: Option<String>,
    pub transfer_syntax: Option<String>,
    pub has_pixel_data: bool,
    pub rows: Option<u32>,
    pub columns: Option<u32>,
    pub number_of_frames: Option<u32>,
    pub rows_text: Option<String>,
    pub columns_text: Option<String>,
    pub pixel_representation: Option<String>,
    pub photometric_interpretation: Option<String>,
    pub number_of_frames_text: Option<String>,
}

/// Clones an optional string; the copy equals the original.
fn clone_opt_string(o: &Option<String>) -> (r: Option<String>)
    ensures
        r == *o,
{
    match o {
        Some(s) => Some(s.clone()),
        None => None,
    }
}

/// The view of an optional string.
pub open spec fn opt_view(o: Option<String>) -> Option<Seq<char>> {
    match o {
        Some(s) => Some(s@),
        None => None,
    }
}

/// The entry list after conditionally inserting a label: unchanged when
/// the value is absent.
pub open spec fn spec_insert_opt(
    entries: Seq<(Seq<char>, Seq<char>)>,
    label: Seq<char>,
    value: Option<Seq<char>>,
) -> Seq<(Seq<char>, Seq<char>)> {
    match value {
        Some(v) => spec_insert(entries, label, v),
        None => entries,
    }
}

/// Inserts a labeled value only when it is present, so absent fields
/// leave no empty entries behind.
pub fn insert_if(map: &mut FieldMap, label: &str, value: Option<String>)
    ensures
        final(map)@ == spec_insert_opt(old(map)@, label@, opt_view(value)),
{
    match value {
        Some(v) => {
            map.insert(String::from_str(label), v);
        },
        None => {},
    }
}

/// Selects the handful of fields most callers care about.
pub fn extract_basic_metadata(fields: &MetadataFields) -> (r: BasicMetadata)
    ensures
        r.patient_name == fields.patient_name,
        r.patient_id == fields.patient_id,
        r.study_date == fields.study_date,
        r.modality == fields.modality,
        r.sop_class_uid == fields.sop_class_uid,
        r.has_pixel_data == fields.has_pixel_data,
        r.transfer_syntax == fields.transfer_syntax,
        r.rows == fields.rows,
        r.columns == fields.columns,
        r.number_of_frames == fields.number_of_frames,
{
    BasicMetadata {
        patient_name: clone_opt_string(&fields.patient_name),
        patient_id: clone_opt_string(&fields.patient_id),
        study_date: clone_opt_string(&fields.study_date),
        modality: clone_opt_string(&fields.modality),
        sop_class_uid: clone_opt_string(&fields.sop_class_uid),
        has_pixel_data: fields.has_pixel_data,
        transfer_syntax: clone_opt_string(&fields.transfer_syntax),
        rows: fields.rows,
        columns: fields.columns,
        number_of_frames: fields.number_of_frames,
    }
}

/// The patient table: name, id, birth date, sex. Labels are inserted
/// in sorted order, so the table iterates its keys sorted.
pub open spec fn spec_patient_map(f: MetadataFields) -> Seq<(Seq<char>, Seq<char>)> {
    spec_insert_opt(
        spec_insert_opt(
            spec_insert_opt(
                spec_insert_opt(
                    Seq::<(Seq<char>, Seq<char>)>::empty(),
                    "Birth Date"@,
                    opt_view(f.patient_birth_date),
                ),
                "ID"@,
                opt_view(f.patient_id),
            ),
            "Name"@,
            opt_view(f.patient_name),
        ),
        "Sex"@,
        opt_view(f.patient_sex),
    )
}

/// The study table: date, time, description, accession number. Labels
/// are inserted in sorted order, so the table iterates its keys sorted.
pub open spec fn spec_study_map(f: MetadataFields) -> Seq<(Seq<char>, Seq<char>)> {
    spec_insert_opt(
        spec_insert_opt(
            spec_insert_opt(
                spec_insert_opt(
                    Seq::<(Seq<char>, Seq<char>)>::empty(),
                    "Accession Number"@,
                    opt_view(f.accession_number),
                ),
                "Date"@,
                opt_view(f.study_date),
            ),
            "Description"@,
            opt_view(f.study_description),
        ),
        "Time"@,
        opt_view(f.study_time),
    )
}

/// The image table: modality, geometry and pixel interpretation.
/// Labels are inserted in sorted order, so the table iterates its keys
/// sorted.
pub open spec fn spec_image_map(f: MetadataFields) -> Seq<(Seq<char>, Seq<char>)> {
    spec_insert_opt(
        spec_insert_opt(
            spec_insert_opt(
                spec_insert_opt(
                    spec_insert_opt(
                        spec_insert_opt(
                            Seq::<(Seq<char>, Seq<char>)>::empty(),
                            "Columns"@,
                            opt_view(f.columns_text),
                        ),
                        "Modality"@,
                        opt_view(f.modality),
                    ),
                    "Number of Frames"@,
                    opt_view(f.number_of_frames_text),
                ),
                "Photometric Interpretation"@,
                opt_view(f.photometric_interpretation),
            ),
            "Pixel Representation"@,
            opt_view(f.pixel_representation),
        ),
        "Rows"@,
        opt_view(f.rows_text),
    )
}

/// The misc table: the identifying UIDs and the transfer syntax.
/// Labels are inserted in sorted order, so the table iterates its keys
/// sorted.
pub open spec fn spec_misc_map(f: MetadataFields) -> Seq<(Seq<char>, Seq<char>)> {
    spec_insert_opt(
        spec_insert_opt(
            spec_insert_opt(
                Seq::<(Seq<char>, Seq<char>)>::empty(),
                "SOP Class UID"@,
                opt_view(f.sop_class_uid),
            ),
            "SOP Instance UID"@,
            opt_view(f.sop_instance_uid),
        ),
        "Transfer Syntax"@,
        opt_view(f.transfer_syntax),
    )
}

/// Builds the categorized tables for rendering: patient, study, image
/// and misc, each holding exactly the fields that are present. Labels
/// go in in sorted order, so each table also iterates its keys sorted.
pub fn extract_detailed_metadata(fields: &MetadataFields) -> (r: DetailedMetadata)
    ensures
        r.patient@ == spec_patient_map(*fields),
        r.study@ == spec_study_map(*fields),
        r.image@ == spec_image_map(*fields),
        r.misc@ == spec_misc_map(*fields),
{
    let mut patient = FieldMap::new();
    insert_if(&mut patient, "Birth Date", clone_opt_string(&fields.patient_birth_date));
    insert_if(&mut patient, "ID", clone_opt_string(&fields.patient_id));
    insert_if(&mut patient, "Name", clone_opt_string(&fields.patient_name));
    insert_if(&mut patient, "Sex", clone_opt_string(&fields.patient_sex));

    let mut study = FieldMap::new();
    insert_if(&mut study, "Accession Number", clone_opt_string(&fields.accession_number));
    insert_if(&mut study, "Date", clone_opt_string(&fields.study_date));
    insert_if(&mut study, "Description", clone_opt_string(&fields.study_description));
    insert_if(&mut study, "Time", clone_opt_string(&fields.study_time));

    let mut image = FieldMap::new();
    insert_if(&mut image, "Columns", clone_opt_string(&fields.columns_text));
    insert_if(&mut image, "Modality", clone_opt_string(&fields.modality));
    insert_if(&mut image, "Number of Frames", clone_opt_string(&fields.number_of_frames_text));
    insert_if(
        &mut image,
        "Photometric Interpretation",
        clone_opt_string(&fields.photometric_interpretation),
    );
    insert_if(&mut image, "Pixel Representation", clone_opt_string(&fields.pixel_representation));
    insert_if(&mut image, "Rows", clone_opt_string(&fields.rows_text));

    let mut misc = FieldMap::new();
    insert_if(&mut misc, "SOP Class UID", clone_opt_string(&fields.sop_class_uid));
    insert_if(&mut misc, "SOP Instance UID", clone_opt_string(&fields.sop_instance_uid));
    insert_if(&mut misc, "Transfer Syntax", clone_opt_string(&fields.transfer_syntax));

    DetailedMetadata { patient, study, image, misc }
}

} // verus!
