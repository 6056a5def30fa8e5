//! Reading a stored DICOM document, reduced to plain values.
//!
//! A document to store arrives as the raw bytes of a DICOM file. What
//! the exchange layer reads from it — the two identifying UIDs — and
//! what it sends — the data set re-encoded under the negotiated transfer
//! syntax — are produced by the `dicom` crates behind the two trusted
//! wrappers here, both functions of the file bytes alone.

use crate::errors::ExchangeError;
use dicom::encoding::TransferSyntaxIndex;
use dicom::transfer_syntax::TransferSyntaxRegistry;
use dicom_core::Tag;
use vstd::prelude::*;

verus! {

/// The identifying UIDs of a stored document, when present.
#[derive(Clone, Debug)]
pub struct DocumentUids {
    pub sop_class: Option<String>,
    pub sop_instance: Option<String>,
}

/// The mathematical value of a document's identifying UIDs.
pub struct DocumentUidsV {
    pub sop_class: Option<Seq<char>>,
    pub sop_instance: Option<Seq<char>>,
}

impl View for DocumentUids {
    type V = DocumentUidsV;

    open spec fn view(&self) -> DocumentUidsV {
        DocumentUidsV {
            sop_class: match self.sop_class {
                Some(s) => Some(s@),
                None => None,
            },
            sop_instance: match self.sop_instance {
                Some(s) => Some(s@),
                None => None,
            },
        }
    }
}

/// The SOP Class and SOP Instance UIDs that a DICOM file carries, as the
/// `dicom` crates read them: `None` when the bytes are not a readable
/// DICOM file; each UID `None` when its attribute is absent or not
/// textual. A function of the file bytes alone.
pub uninterp spec fn file_uids(bytes: Seq<u8>) -> Option<DocumentUidsV>;

/// The data set of a DICOM file re-encoded under a transfer syntax, as
/// the `dicom` crates write it: `None` when the bytes are not a readable
/// DICOM file or the transfer syntax is not known. A function of the
/// file bytes and the transfer syntax alone.
pub uninterp spec fn reencoded_dataset(bytes: Seq<u8>, ts_uid: Seq<char>) -> Option<Seq<u8>>;

/// Reads the identifying UIDs out of a DICOM file's bytes.
///
/// Relies on `from_reader` of `dicom-object` (which skips an optional
/// preamble and reads the meta group and data set) and on `element` /
/// `to_str` of the same crates: both UIDs are functions of the file
/// bytes alone.
#[verifier::external_body]
fn document_uids_raw(bytes: &Vec<u8>) -> (r: Result<DocumentUids, ExchangeError>)
    ensures
        r matches Ok(u) ==> file_uids(bytes@) == Some(u@),
        r matches Err(e) ==> file_uids(bytes@) is None && e is InvalidDocument,
{
    let obj = dicom::object::from_reader(bytes.as_slice())
        .map_err(|_| ExchangeError::InvalidDocument)?;
    let sop_class = obj.element(Tag(0x0008, 0x0016)).ok()
        .and_then(|e| e.to_str().ok()).map(|s| s.into_owned());
    let sop_instance = obj.element(Tag(0x0008, 0x0018)).ok()
        .and_then(|e| e.to_str().ok()).map(|s| s.into_owned());
    Ok(DocumentUids { sop_class, sop_instance })
}

/// Re-encodes the data set of a DICOM file under the given transfer
/// syntax.
///
/// Relies on `from_reader` and `write_dataset_with_ts` of
/// `dicom-object`: the output is a function of the file bytes and the
/// transfer syntax alone.
#[verifier::external_body]
fn reencode_dataset_raw(bytes: &Vec<u8>, ts_uid: &str) -> (r: Result<Vec<u8>, ExchangeError>)
    ensures
        r matches Ok(b) ==> reencoded_dataset(bytes@, ts_uid@) == Some(b@),
        r matches Err(e) ==> reencoded_dataset(bytes@, ts_uid@) is None && e is EncodeFailed,
{
    let obj = dicom::object::from_reader(bytes.as_slice())
        .map_err(|_| ExchangeError::EncodeFailed)?;
    let ts = TransferSyntaxRegistry.get(ts_uid).ok_or(ExchangeError::EncodeFailed)?;
    let mut out = Vec::new();
    obj.write_dataset_with_ts(&mut out, ts).map_err(|_| ExchangeError::EncodeFailed)?;
    Ok(out)
}

/// Reads the identifying UIDs out of a DICOM file's bytes: succeeds
/// exactly when the bytes are a readable DICOM file.
pub fn document_uids(bytes: &Vec<u8>) -> (r: Result<DocumentUids, ExchangeError>)
    ensures
        r matches Ok(u) ==> file_uids(bytes@) == Some(u@),
        r matches Err(e) ==> file_uids(bytes@) is None && e is InvalidDocument,
{
    document_uids_raw(bytes)
}

/// Re-encodes the data set of a DICOM file under the given transfer
/// syntax: succeeds exactly when the file is readable and the transfer
/// syntax known, and returns that re-encoding.
pub fn reencode_dataset(bytes: &Vec<u8>, ts_uid: &str) -> (r: Result<Vec<u8>, ExchangeError>)
    ensures
        r matches Ok(b) ==> reencoded_dataset(bytes@, ts_uid@) == Some(b@),
        r matches Err(e) ==> reencoded_dataset(bytes@, ts_uid@) is None && e is EncodeFailed,
{
    reencode_dataset_raw(bytes, ts_uid)
}

} // verus!
