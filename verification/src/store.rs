//! The Storage service (C-STORE), client side.
//!
//! The document's identifying UIDs are checked before any network
//! activity. The command set is encoded with Implicit VR Little Endian
//! and the document's data set with the transfer syntax of the accepted
//! presentation context; both go out as one terminal PDV each. Exactly
//! one response is received, reassembled, classified, and its decoded
//! Status handed to the caller as data — a non-success Status is not
//! itself a failure of the exchange.

use crate::assembler::Pdv;
use crate::assembler::PdvKind;
use crate::codec::classify_response_bytes;
use crate::codec::clean_text;
use crate::codec::dataset_bytes;
use crate::codec::encode_command;
use crate::codec::lemma_store_rq_round_trip_safe;
use crate::codec::parsed_attrs;
use crate::command::spec_classify;
use crate::command::spec_implicit_vr_le_uid;
use crate::command::spec_store_rq;
use crate::command::store_rq;
use crate::document::DocumentUidsV;
use crate::document::document_uids;
use crate::document::file_uids;
use crate::document::reencode_dataset;
use crate::document::reencoded_dataset;
use crate::errors::ExchangeError;
use crate::presentation::PresentationContext;
use crate::presentation::ctxs_view;
use crate::presentation::first_accepted;
use crate::presentation::spec_first_accepted;
use vstd::prelude::*;

verus! {

/// The outcome of the pre-flight check on a document's bytes.
pub open spec fn spec_preflight(parsed: Option<DocumentUidsV>) -> Result<
    (Seq<char>, Seq<char>),
    ExchangeError,
> {
    match parsed {
        None => Err(ExchangeError::InvalidDocument),
        Some(u) => match u.sop_class {
            None => Err(ExchangeError::MissingSopClassUid),
            Some(c) => match u.sop_instance {
                None => Err(ExchangeError::MissingSopInstanceUid),
                Some(i) => Ok((c, i)),
            },
        },
    }
}

/// Checks, before any network activity, that the document is readable
/// and carries both identifying UIDs, and hands them out: the SOP Class
/// UID (the abstract syntax to associate under) and the SOP Instance
/// UID.
pub fn store_preflight(bytes: &Vec<u8>) -> (r: Result<(String, String), ExchangeError>)
    ensures
        match r {
            Ok(p) => spec_preflight(file_uids(bytes@)) == Ok::<
                (Seq<char>, Seq<char>),
                ExchangeError,
            >((p.0@, p.1@)),
            Err(e) => spec_preflight(file_uids(bytes@)) == Err::<
                (Seq<char>, Seq<char>),
                ExchangeError,
            >(e),
        },
{
    let uids = match document_uids(bytes) {
        Ok(u) => u,
        Err(e) => {
            return Err(e);
        },
    };
    let sop_class = match uids.sop_class {
        Some(c) => c,
        None => {
            return Err(ExchangeError::MissingSopClassUid);
        },
    };
    let sop_instance = match uids.sop_instance {
        Some(i) => i,
        None => {
            return Err(ExchangeError::MissingSopInstanceUid);
        },
    };
    Ok((sop_class, sop_instance))
}

/// A prepared C-STORE request: the context to send on, the negotiated
/// transfer syntax, and the two terminal PDVs carrying the command and
/// the document's data set.
pub struct StoreRequest {
    pub pc_id: u8,
    pub ts_uid: String,
    pub command: Pdv,
    pub data: Pdv,
}

/// Prepares the C-STORE request: picks the first accepted presentation
/// context, encodes the C-STORE-RQ command set for the given UIDs with
/// Implicit VR Little Endian, and re-encodes the document's data set
/// with the negotiated transfer syntax. For well-formed UIDs (printable
/// ASCII that padding and trimming keep) the command set always
/// encodes, so with an accepted context the request succeeds exactly
/// when the document re-encodes under the negotiated transfer syntax.
pub fn store_request(
    ctxs: &Vec<PresentationContext>,
    sop_class: &str,
    sop_instance: &str,
    file_bytes: &Vec<u8>,
) -> (r: Result<StoreRequest, ExchangeError>)
    ensures
        (r matches Err(e) && e is NoAcceptedPresentationContext) <==> spec_first_accepted(
            ctxs_view(*ctxs),
        ) is None,
        r matches Err(e) ==> e is NoAcceptedPresentationContext || e is EncodeFailed,
        spec_first_accepted(ctxs_view(*ctxs)) matches Some(i) ==> (clean_text(sop_class@)
            && clean_text(sop_instance@) ==> (r is Ok <==> reencoded_dataset(
            file_bytes@,
            ctxs_view(*ctxs)[i].transfer_syntax,
        ) is Some)),
        r matches Ok(req) ==> {
            &&& spec_first_accepted(ctxs_view(*ctxs)) matches Some(i) && req.pc_id == ctxs_view(
                *ctxs,
            )[i].id && req.ts_uid@ == ctxs_view(*ctxs)[i].transfer_syntax
            &&& req.command.presentation_context_id == req.pc_id
            &&& req.command.kind is Command
            &&& req.command.is_last
            &&& dataset_bytes(
                spec_store_rq(sop_class@, sop_instance@),
                spec_implicit_vr_le_uid(),
            ) == Some(req.command.data@)
            &&& req.data.presentation_context_id == req.pc_id
            &&& req.data.kind is Data
            &&& req.data.is_last
            &&& reencoded_dataset(file_bytes@, req.ts_uid@) == Some(req.data.data@)
        },
{
    proof {
        if clean_text(sop_class@) && clean_text(sop_instance@) {
            lemma_store_rq_round_trip_safe(sop_class@, sop_instance@);
        }
    }
    let pc = match first_accepted(ctxs) {
        Some(pc) => pc,
        None => {
            return Err(ExchangeError::NoAcceptedPresentationContext);
        },
    };
    let cmd = store_rq(sop_class, sop_instance);
    let cmd_bytes = match encode_command(&cmd) {
        Ok(b) => b,
        Err(_) => {
            return Err(ExchangeError::EncodeFailed);
        },
    };
    let data_bytes = match reencode_dataset(file_bytes, pc.transfer_syntax.as_str()) {
        Ok(b) => b,
        Err(_) => {
            return Err(ExchangeError::EncodeFailed);
        },
    };
    Ok(
        StoreRequest {
            pc_id: pc.id,
            ts_uid: pc.transfer_syntax.clone(),
            command: Pdv {
                presentation_context_id: pc.id,
                kind: PdvKind::Command,
                is_last: true,
                data: cmd_bytes,
            },
            data: Pdv {
                presentation_context_id: pc.id,
                kind: PdvKind::Data,
                is_last: true,
                data: data_bytes,
            },
        },
    )
}

/// Handles the reassembled C-STORE response command: returns the decoded
/// Status for the caller to inspect. If the peer reports Success
/// (0x0000) the returned value is 0x0000; only an undecodable response
/// or one without a Status fails the exchange.
pub fn store_handle_response(bytes: &Vec<u8>) -> (r: Result<u16, ExchangeError>)
    ensures
        match parsed_attrs(bytes@, spec_implicit_vr_le_uid()) {
            None => r matches Err(e) && e is DecodeFailed,
            Some(attrs) => match spec_classify(attrs) {
                None => r matches Err(e) && e is MissingStatus,
                Some(summary) => r == Ok::<u16, ExchangeError>(summary.status),
            },
        },
{
    match classify_response_bytes(bytes) {
        Ok(summary) => Ok(summary.status),
        Err(e) => Err(e),
    }
}

} // verus!
