//! Reading and re-encoding real DICOM documents, and the store
//! pre-flight checks.

use dicom_core::{DataElement, PrimitiveValue, Tag, VR};
use dicom::object::{FileDicomObject, FileMetaTableBuilder, InMemDicomObject};
use dicom_tools::codec::decode;
use dicom_tools::document::{document_uids, reencode_dataset};
use dicom_tools::dump::dump_to_json;
use dicom_tools::errors::ExchangeError;
use dicom_tools::store::{store_preflight, store_request};
use dicom_tools::presentation::PresentationContext;

const EVRLE: &str = "1.2.840.10008.1.2.1";
const IVRLE: &str = "1.2.840.10008.1.2";

fn sample_file_bytes() -> Vec<u8> {
    let mut obj = InMemDicomObject::new_empty();
    obj.put(DataElement::new(
        Tag(0x0008, 0x0016),
        VR::UI,
        PrimitiveValue::from("1.2.840.10008.5.1.4.1.1.7"),
    ));
    obj.put(DataElement::new(
        Tag(0x0008, 0x0018),
        VR::UI,
        PrimitiveValue::from("1.2.826.0.1.3680043.2.1125.4001"),
    ));
    obj.put(DataElement::new(
        Tag(0x0010, 0x0010),
        VR::PN,
        PrimitiveValue::from("Store^Patient"),
    ));

    let meta = FileMetaTableBuilder::new()
        .transfer_syntax(EVRLE)
        .media_storage_sop_class_uid("1.2.840.10008.5.1.4.1.1.7")
        .media_storage_sop_instance_uid("1.2.826.0.1.3680043.2.1125.4001")
        .build()
        .expect("meta");

    let mut file_obj: FileDicomObject<InMemDicomObject> =
        FileDicomObject::new_empty_with_meta(meta);
    for elem in obj {
        file_obj.put(elem);
    }
    let mut bytes = Vec::new();
    file_obj.write_all(&mut bytes).expect("write");
    bytes
}

fn file_bytes_without(tag: Tag) -> Vec<u8> {
    let full = sample_file_bytes();
    let obj = dicom::object::from_reader(full.as_slice()).expect("read back");
    let mut copy: FileDicomObject<InMemDicomObject> =
        FileDicomObject::new_empty_with_meta(obj.meta().clone());
    for elem in obj.into_inner() {
        if elem.header().tag != tag {
            copy.put(elem);
        }
    }
    let mut bytes = Vec::new();
    copy.write_all(&mut bytes).expect("write");
    bytes
}

#[test]
fn document_uids_reads_both_identifiers() {
    let bytes = sample_file_bytes();
    let uids = document_uids(&bytes).expect("uids");
    assert_eq!(
        uids.sop_class.as_deref(),
        Some("1.2.840.10008.5.1.4.1.1.7")
    );
    assert_eq!(
        uids.sop_instance.as_deref(),
        Some("1.2.826.0.1.3680043.2.1125.4001")
    );
}

#[test]
fn store_preflight_accepts_complete_document() {
    let bytes = sample_file_bytes();
    let (sop_class, sop_instance) = store_preflight(&bytes).expect("preflight");
    assert_eq!(sop_class, "1.2.840.10008.5.1.4.1.1.7");
    assert_eq!(sop_instance, "1.2.826.0.1.3680043.2.1125.4001");
}

#[test]
fn store_preflight_rejects_unreadable_bytes() {
    let bytes = vec![0u8; 16];
    assert_eq!(
        store_preflight(&bytes).err(),
        Some(ExchangeError::InvalidDocument)
    );
}

#[test]
fn store_preflight_reports_missing_sop_class() {
    let bytes = file_bytes_without(Tag(0x0008, 0x0016));
    assert_eq!(
        store_preflight(&bytes).err(),
        Some(ExchangeError::MissingSopClassUid)
    );
}

#[test]
fn store_preflight_reports_missing_sop_instance() {
    let bytes = file_bytes_without(Tag(0x0008, 0x0018));
    assert_eq!(
        store_preflight(&bytes).err(),
        Some(ExchangeError::MissingSopInstanceUid)
    );
}

#[test]
fn reencode_produces_decodable_dataset() {
    let bytes = sample_file_bytes();
    let dataset = reencode_dataset(&bytes, IVRLE).expect("reencode");
    // The re-encoded data set is not the file handed back: no meta
    // group, and the patient name is found where the chosen transfer
    // syntax puts it.
    assert_ne!(dataset, bytes);
    let decoded = decode(&dataset, IVRLE).expect("decode");
    let name = decoded.first_text(0x0010, 0x0010);
    assert_eq!(name.as_deref(), Some("Store^Patient"));
}

#[test]
fn store_request_encodes_command_and_dataset() {
    let bytes = sample_file_bytes();
    let ctxs = vec![PresentationContext {
        id: 7,
        accepted: true,
        transfer_syntax: String::from(EVRLE),
    }];
    let req = store_request(
        &ctxs,
        "1.2.840.10008.5.1.4.1.1.7",
        "1.2.826.0.1.3680043.2.1125.4001",
        &bytes,
    )
    .expect("request");
    assert_eq!(req.pc_id, 7);
    assert_eq!(req.ts_uid, EVRLE);

    let cmd = decode(&req.command.data, IVRLE).expect("decode command");
    assert_eq!(cmd.first_uint(0x0000, 0x0100), Some(0x0001));
    assert_eq!(cmd.first_uint(0x0000, 0x0110), Some(2));
    assert_eq!(cmd.first_uint(0x0000, 0x0800), Some(0x0000));
    assert_eq!(
        cmd.first_text(0x0000, 0x0002).as_deref(),
        Some("1.2.840.10008.5.1.4.1.1.7")
    );
    assert_eq!(
        cmd.first_text(0x0000, 0x1000).as_deref(),
        Some("1.2.826.0.1.3680043.2.1125.4001")
    );

    let dataset = decode(&req.data.data, EVRLE).expect("decode dataset");
    assert_eq!(
        dataset.first_text(0x0010, 0x0010).as_deref(),
        Some("Store^Patient")
    );
}

#[test]
fn dump_to_json_renders_dicom_json() {
    let bytes = sample_file_bytes();
    let json = dump_to_json(&bytes).expect("json");
    // Standard DICOM JSON indexes elements by tag; the rendering is not
    // the input handed back.
    assert!(json.starts_with('{'));
    assert!(json.contains("\"00100010\""));
    assert!(json.contains("Store^Patient"));
}

#[test]
fn dump_to_json_rejects_unreadable_bytes() {
    let bytes = vec![1u8, 2, 3, 4];
    assert!(dump_to_json(&bytes).is_err());
}

#[test]
fn store_request_fails_on_unknown_transfer_syntax() {
    let bytes = sample_file_bytes();
    let ctxs = vec![PresentationContext {
        id: 9,
        accepted: true,
        transfer_syntax: String::from("9.9.9.9"),
    }];
    let r = store_request(
        &ctxs,
        "1.2.840.10008.5.1.4.1.1.7",
        "1.2.826.0.1.3680043.2.1125.4001",
        &bytes,
    );
    assert_eq!(r.err(), Some(ExchangeError::EncodeFailed));
}
