//! The message codec: attribute sets to bytes and back.
//!
//! Encoding and decoding of data sets is the work of the `dicom` crates;
//! the two wrappers here are the trusted boundary around them. What the
//! byte images and the parses are is named, not spelled out: the codec's
//! callers reason in terms of `dataset_bytes` and `parsed_attrs` alone.
//!
//! Command messages are always carried as Implicit VR Little Endian,
//! whatever transfer syntax was negotiated for data sets; `encode_command`
//! and `decode_command` fix that choice.

use crate::command::{
    Attr, AttrSet, AttrV, AttrValue, AttrValueV, spec_implicit_vr_le_uid, implicit_vr_le_uid,
    spec_echo_rq, spec_find_identifier, spec_find_rq, spec_store_rq,
};
use crate::errors::ExchangeError;
use dicom::encoding::TransferSyntaxIndex;
use dicom::object::InMemDicomObject;
use dicom::transfer_syntax::TransferSyntaxRegistry;
use dicom_core::DataElement;
use dicom_core::PrimitiveValue;
use dicom_core::Tag;
use dicom_core::VR;
use vstd::prelude::*;

verus! {

/// The byte image of an attribute set under a transfer syntax, as the
/// `dicom` crates produce it, and `None` exactly when they refuse to
/// encode (an unknown transfer syntax, or a value the encoding cannot
/// carry). The outcome is a function of the attributes and the transfer
/// syntax alone.
pub uninterp spec fn dataset_bytes(attrs: Seq<AttrV>, ts_uid: Seq<char>) -> Option<Seq<u8>>;

/// The parse of a byte buffer under a transfer syntax, as the `dicom`
/// crates produce it: the attribute list in stored order, with
/// unsigned-short values taken numerically and every other value read as
/// trimmed text. `None` when the bytes are not a valid data set under the
/// transfer syntax. The parse is a function of the bytes and the transfer
/// syntax alone.
pub uninterp spec fn parsed_attrs(bytes: Seq<u8>, ts_uid: Seq<char>) -> Option<Seq<AttrV>>;

/// A text value that the encoding keeps exactly: printable ASCII without
/// the value separator `\`, not ending in the pad characters (space, NUL)
/// that the codec strips when reading, and short enough for the 32-bit
/// length field the value is written under.
pub open spec fn clean_text(s: Seq<char>) -> bool {
    &&& forall|i: int|
        0 <= i < s.len() ==> 0x20 <= #[trigger] s[i] as int <= 0x7e && s[i] != '\\'
    &&& s.len() > 0 ==> s.last() != ' '
    &&& s.len() < 0xFFFF_FFFE
}

/// Whether tag `a` sorts strictly before tag `b` (group first).
pub open spec fn tag_lt(a: AttrV, b: AttrV) -> bool {
    a.group < b.group || (a.group == b.group && a.element < b.element)
}

/// An attribute of the DIMSE exchange under one of the tags this protocol
/// uses, with the value kind the data dictionary prescribes for that tag,
/// and with a text value the encoding keeps exactly.
pub open spec fn protocol_attr(a: AttrV) -> bool {
    match a.value {
        AttrValueV::UShort(_) => a.group == 0x0000 && (a.element == 0x0100 || a.element == 0x0110
            || a.element == 0x0120 || a.element == 0x0700 || a.element == 0x0800 || a.element
            == 0x0900),
        AttrValueV::Uid(s) => clean_text(s) && ((a.group == 0x0000 && (a.element == 0x0002
            || a.element == 0x1000)) || (a.group == 0x0020 && a.element == 0x000D)),
        AttrValueV::PersonName(s) => clean_text(s) && a.group == 0x0010 && a.element == 0x0010,
    }
}

/// An attribute set whose byte image decodes back to itself: protocol
/// attributes only, under strictly ascending tags (the in-memory data set
/// is kept sorted by tag, so only a sorted list can come back unchanged).
pub open spec fn round_trip_safe(attrs: Seq<AttrV>) -> bool {
    &&& forall|i: int| 0 <= i < attrs.len() ==> protocol_attr(#[trigger] attrs[i])
    &&& forall|i: int| 0 <= i < attrs.len() - 1 ==> tag_lt(#[trigger] attrs[i], attrs[i + 1])
}

/// Encodes an attribute set under the given transfer syntax.
///
/// Relies on `InMemDicomObject::write_dataset_with_ts` of `dicom-object`:
/// the byte image, and whether one is produced at all, is a function of
/// the elements and the transfer syntax, with unsigned shorts written as
/// US, UIDs as UI and person names as PN. A `round_trip_safe` attribute
/// set always encodes under Implicit VR Little Endian (that syntax is a
/// built-in registry entry, the sink is an in-memory buffer, and the
/// default character set carries printable ASCII), and its image parses
/// back to the identical attribute list (the in-memory data set is kept
/// sorted by tag, values are padded to even length with NUL for UI and
/// space for PN, and reading strips exactly that padding).
#[verifier::external_body]
fn encode_dataset_raw(attrs: &AttrSet, ts_uid: &str) -> (r: Result<Vec<u8>, ExchangeError>)
    ensures
        r is Ok <==> dataset_bytes(attrs@, ts_uid@) is Some,
        r matches Ok(b) ==> dataset_bytes(attrs@, ts_uid@) == Some(b@),
        r matches Ok(b) ==> (round_trip_safe(attrs@) && ts_uid@ == spec_implicit_vr_le_uid()
            ==> parsed_attrs(b@, spec_implicit_vr_le_uid()) == Some(attrs@)),
        round_trip_safe(attrs@) && ts_uid@ == spec_implicit_vr_le_uid() ==> r is Ok,
        r matches Err(e) ==> e is EncodeFailed,
{
    let ts = TransferSyntaxRegistry.get(ts_uid).ok_or(ExchangeError::EncodeFailed)?;
    let mut obj = InMemDicomObject::new_empty();
    for a in attrs.attrs.iter() {
        let (vr, value) = match &a.value {
            AttrValue::UShort(v) => (VR::US, PrimitiveValue::from(*v)),
            AttrValue::Uid(s) => (VR::UI, PrimitiveValue::from(s.as_str())),
            AttrValue::PersonName(s) => (VR::PN, PrimitiveValue::from(s.as_str())),
        };
        obj.put(DataElement::new(Tag(a.group, a.element), vr, value));
    }
    let mut out = Vec::new();
    obj.write_dataset_with_ts(&mut out, ts).map_err(|_| ExchangeError::EncodeFailed)?;
    Ok(out)
}

/// Decodes a byte buffer into an attribute set under the given transfer
/// syntax.
///
/// Relies on `InMemDicomObject::read_dataset_with_ts` of `dicom-object`
/// and on `to_int`/`to_str` of `dicom-core`: the parse is a function of
/// the bytes and the transfer syntax; `to_str` strips trailing space and
/// NUL padding; elements come out in ascending tag order, so the byte
/// image of a `round_trip_safe` attribute set under Implicit VR Little
/// Endian parses back to that very attribute list.
#[verifier::external_body]
fn decode_dataset_raw(bytes: &Vec<u8>, ts_uid: &str) -> (r: Result<AttrSet, ExchangeError>)
    ensures
        r matches Ok(a) ==> parsed_attrs(bytes@, ts_uid@) == Some(a@),
        r matches Err(e) ==> parsed_attrs(bytes@, ts_uid@) is None && e is DecodeFailed,
{
    let fail = ExchangeError::DecodeFailed;
    let ts = TransferSyntaxRegistry.get(ts_uid).ok_or(fail)?;
    let obj = InMemDicomObject::read_dataset_with_ts(bytes.as_slice(), ts).map_err(|_| fail)?;
    let mut attrs = Vec::new();
    for elem in obj.iter() {
        let h = elem.header();
        let value = if h.vr == VR::US {
            AttrValue::UShort(elem.to_int().map_err(|_| fail)?)
        } else {
            let s = elem.to_str().map_err(|_| fail)?.into_owned();
            if h.vr == VR::PN { AttrValue::PersonName(s) } else { AttrValue::Uid(s) }
        };
        attrs.push(Attr { group: h.tag.group(), element: h.tag.element(), value });
    }
    Ok(AttrSet { attrs })
}

/// Encodes an attribute set under the given transfer syntax: the data-set
/// side of the codec, used for C-STORE payloads and C-FIND identifiers.
/// Succeeds exactly when the `dicom` crates encode the set under that
/// syntax, and returns that byte image.
pub fn encode(attrs: &AttrSet, ts_uid: &str) -> (r: Result<Vec<u8>, ExchangeError>)
    ensures
        r is Ok <==> dataset_bytes(attrs@, ts_uid@) is Some,
        r matches Ok(b) ==> dataset_bytes(attrs@, ts_uid@) == Some(b@),
        r matches Ok(b) ==> (round_trip_safe(attrs@) && ts_uid@ == spec_implicit_vr_le_uid()
            ==> parsed_attrs(b@, spec_implicit_vr_le_uid()) == Some(attrs@)),
        round_trip_safe(attrs@) && ts_uid@ == spec_implicit_vr_le_uid() ==> r is Ok,
        r matches Err(e) ==> e is EncodeFailed,
{
    encode_dataset_raw(attrs, ts_uid)
}

/// Decodes a byte buffer under the given transfer syntax: succeeds
/// exactly when the bytes parse as a data set, and returns that parse.
pub fn decode(bytes: &Vec<u8>, ts_uid: &str) -> (r: Result<AttrSet, ExchangeError>)
    ensures
        r matches Ok(a) ==> parsed_attrs(bytes@, ts_uid@) == Some(a@),
        r matches Err(e) ==> parsed_attrs(bytes@, ts_uid@) is None && e is DecodeFailed,
{
    decode_dataset_raw(bytes, ts_uid)
}

/// Encodes a command message. Commands are always encoded with Implicit
/// VR Little Endian, whatever transfer syntax was negotiated.
///
/// A `round_trip_safe` command set always encodes, and the produced
/// bytes parse back to the identical attribute list, so `decode_command`
/// on them must succeed and return it.
pub fn encode_command(cmd: &AttrSet) -> (r: Result<Vec<u8>, ExchangeError>)
    ensures
        r is Ok <==> dataset_bytes(cmd@, spec_implicit_vr_le_uid()) is Some,
        r matches Ok(b) ==> dataset_bytes(cmd@, spec_implicit_vr_le_uid()) == Some(b@),
        r matches Ok(b) ==> (round_trip_safe(cmd@) ==> parsed_attrs(
            b@,
            spec_implicit_vr_le_uid(),
        ) == Some(cmd@)),
        round_trip_safe(cmd@) ==> r is Ok,
        r matches Err(e) ==> e is EncodeFailed,
{
    encode_dataset_raw(cmd, implicit_vr_le_uid())
}

/// Decodes a command message (always Implicit VR Little Endian):
/// succeeds exactly when the bytes parse, and returns that parse.
pub fn decode_command(bytes: &Vec<u8>) -> (r: Result<AttrSet, ExchangeError>)
    ensures
        r matches Ok(a) ==> parsed_attrs(bytes@, spec_implicit_vr_le_uid()) == Some(a@),
        r matches Err(e) ==> parsed_attrs(bytes@, spec_implicit_vr_le_uid()) is None
            && e is DecodeFailed,
{
    decode_dataset_raw(bytes, implicit_vr_le_uid())
}

/// Decodes and classifies a reassembled response command buffer: the
/// Status and the data-set flag of its parse. Fails with `DecodeFailed`
/// when the bytes do not parse, and with `MissingStatus` when the parsed
/// command carries no Status attribute.
pub fn classify_response_bytes(bytes: &Vec<u8>) -> (r: Result<
    crate::command::ResponseSummary,
    ExchangeError,
>)
    ensures
        match parsed_attrs(bytes@, spec_implicit_vr_le_uid()) {
            None => r matches Err(e) && e is DecodeFailed,
            Some(attrs) => match crate::command::spec_classify(attrs) {
                None => r matches Err(e) && e is MissingStatus,
                Some(summary) => r == Ok::<crate::command::ResponseSummary, ExchangeError>(
                    summary,
                ),
            },
        },
{
    let cmd = match decode_command(bytes) {
        Ok(c) => c,
        Err(e) => {
            return Err(e);
        },
    };
    crate::command::classify_response(&cmd)
}

/// The C-ECHO-RQ command set round-trips: protocol attributes under
/// ascending tags, with a UID value the encoding keeps exactly.
pub proof fn lemma_echo_rq_round_trip_safe()
    ensures
        round_trip_safe(spec_echo_rq()),
{
    reveal_strlit("1.2.840.10008.1.1");
    let s = spec_echo_rq();
    assert(clean_text("1.2.840.10008.1.1"@));
    assert forall|i: int| 0 <= i < s.len() implies protocol_attr(#[trigger] s[i]) by {
        assert(protocol_attr(s[0]));
        assert(protocol_attr(s[1]));
        assert(protocol_attr(s[2]));
        assert(protocol_attr(s[3]));
    }
}

/// The C-STORE-RQ command set round-trips whenever the two UIDs are
/// values the encoding keeps exactly.
pub proof fn lemma_store_rq_round_trip_safe(sop_class: Seq<char>, sop_instance: Seq<char>)
    requires
        clean_text(sop_class),
        clean_text(sop_instance),
    ensures
        round_trip_safe(spec_store_rq(sop_class, sop_instance)),
{
    let s = spec_store_rq(sop_class, sop_instance);
    assert forall|i: int| 0 <= i < s.len() implies protocol_attr(#[trigger] s[i]) by {
        assert(protocol_attr(s[0]));
        assert(protocol_attr(s[1]));
        assert(protocol_attr(s[2]));
        assert(protocol_attr(s[3]));
        assert(protocol_attr(s[4]));
    }
}

/// The C-FIND-RQ command set round-trips.
pub proof fn lemma_find_rq_round_trip_safe()
    ensures
        round_trip_safe(spec_find_rq()),
{
    reveal_strlit("1.2.840.10008.5.1.4.1.2.2.1");
    let s = spec_find_rq();
    assert(clean_text("1.2.840.10008.5.1.4.1.2.2.1"@));
    assert forall|i: int| 0 <= i < s.len() implies protocol_attr(#[trigger] s[i]) by {
        assert(protocol_attr(s[0]));
        assert(protocol_attr(s[1]));
        assert(protocol_attr(s[2]));
        assert(protocol_attr(s[3]));
        assert(protocol_attr(s[4]));
    }
}

/// The minimal C-FIND query identifier round-trips: the wildcard
/// patient name and the empty study UID are values the encoding keeps
/// exactly.
pub proof fn lemma_find_identifier_round_trip_safe()
    ensures
        round_trip_safe(spec_find_identifier()),
{
    reveal_strlit("*");
    reveal_strlit("");
    let s = spec_find_identifier();
    assert(clean_text("*"@));
    assert(clean_text(""@));
    assert forall|i: int| 0 <= i < s.len() implies protocol_attr(#[trigger] s[i]) by {
        assert(protocol_attr(s[0]));
        assert(protocol_attr(s[1]));
    }
}

} // verus!
