//! Plain data structures shared with the callers of the library.

use crate::fieldmap::FieldMap;
use vstd::prelude::*;

verus! {

/// Lightweight fields shown in summaries and quick responses.
#[derive(Clone, Debug)]
pub struct BasicMetadata {
    pub patient_name: Option<String>,
    pub patient_id: Option<String>,
    pub study_date: Option<String>,
    pub modality: Option<String>,
    pub sop_class_uid: Option<String>,
    pub has_pixel_data: bool,
    pub transfer_syntax: Option<String>,
    pub rows: Option<u32>,
    pub columns: Option<u32>,
    pub number_of_frames: Option<u32>,
}

/// Expanded, categorized metadata suitable for rendering.
#[derive(Clone, Debug)]
pub struct DetailedMetadata {
    pub patient: FieldMap,
    pub study: FieldMap,
    pub image: FieldMap,
    pub misc: FieldMap,
}

/// High-level validation report for required attributes and pixel
/// presence.
#[derive(Clone, Debug)]
pub struct ValidationSummary {
    pub valid: bool,
    pub missing_tags: Vec<String>,
    pub has_pixel_data: bool,
}

/// One C-FIND response as recorded by the exchange: the DIMSE Status of
/// the response and, when the response carried an identifier data set,
/// the Patient Name and Study Instance UID keys found in it.
#[derive(Clone, Debug, PartialEq, Eq)]
pub struct FindMatch {
    pub status: u16,
    pub patient_name: Option<String>,
    pub study_instance_uid: Option<String>,
}

/// The mathematical value of a recorded C-FIND match.
pub struct FindMatchV {
    pub status: u16,
    pub patient_name: Option<Seq<char>>,
    pub study_instance_uid: Option<Seq<char>>,
}

impl View for FindMatch {
    type V = FindMatchV;

    open spec fn view(&self) -> FindMatchV {
        FindMatchV {
            status: self.status,
            patient_name: match self.patient_name {
                Some(s) => Some(s@),
                None => None,
            },
            study_instance_uid: match self.study_instance_uid {
                Some(s) => Some(s@),
                None => None,
            },
        }
    }
}

} // verus!
